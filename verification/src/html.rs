//! The one place where the library leans on the HTML parser: querying
//! the page for the table cells that carry tournament information.

use vstd::prelude::*;

use soup::{NodeExt, QueryBuilderExt, Soup};

use crate::text::views_of;

verus! {

/// The serializations of the `td` elements of class `pt` in `html`, in
/// document order. Parsing is a pure function of the markup, so the
/// cells are too; what they hold is only known through `extract_record`
/// on the real page.
pub uninterp spec fn td_pt_cells(html: Seq<char>) -> Seq<Seq<char>>;

/// Relies on soup's query API: `Soup::new` parses the markup,
/// `.tag("td").class("pt").find_all()` yields every matching element in
/// document order, and `NodeExt::display` serializes each one. All of it
/// computes from the markup alone.
#[verifier::external_body]
pub(crate) fn find_tournament_cells(html: &str) -> (cells: Vec<String>)
    ensures
        views_of(cells@) == td_pt_cells(html@),
{
    let parsed = Soup::new(html);
    let mut cells: Vec<String> = Vec::new();
    for node in parsed.tag("td").class("pt").find_all() {
        cells.push(node.display());
    }
    cells
}

} // verus!
