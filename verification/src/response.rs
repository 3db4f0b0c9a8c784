//! Judging a login response: status check, authenticated-session check,
//! and extraction of the latest tournament from the page. This is the
//! whole authentication step except the network call itself, which
//! hands in the status code and the body as plain values.

use vstd::prelude::*;

use crate::extract::{extract_record, extract_record_spec};
use crate::html::{find_tournament_cells, td_pt_cells};
use crate::record::{FetchError, RecordView, TournamentInformation};
use crate::text::{contains_seq, str_contains, views_of};

verus! {

/// An HTTP status that counts as success: the 2xx range.
pub open spec fn success_status(status: u16) -> bool {
    200 <= status < 300
}

/// The marker whose presence shows an authenticated session: the label
/// of the logout link the site only serves after a successful login.
pub open spec fn session_marker() -> Seq<char> {
    "Выйти"@
}

/// What judging a response yields: the status gate, then the session
/// gate, then extraction from the first matching cell of the page.
pub open spec fn evaluate_response_spec(status: u16, body: Seq<char>) -> Result<
    RecordView,
    FetchError,
> {
    if !success_status(status) {
        Err(FetchError::HttpStatus(status))
    } else if !contains_seq(body, session_marker()) {
        Err(FetchError::Authentication)
    } else if td_pt_cells(body).len() == 0 {
        Err(FetchError::Parse)
    } else {
        extract_record_spec(td_pt_cells(body)[0])
    }
}

/// Judge a login response and extract the latest tournament record.
///
/// A non-success status is `HttpStatus`, a body without the session
/// marker is `Authentication`, a page without a matching cell is
/// `Parse`; otherwise the first matching cell decides, through
/// `extract_record`.
pub fn evaluate_response(status: u16, body: &str) -> (outcome: Result<
    TournamentInformation,
    FetchError,
>)
    ensures
        outcome matches Ok(r) ==> evaluate_response_spec(status, body@) == Ok::<
            RecordView,
            FetchError,
        >(r@),
        outcome matches Err(e) ==> evaluate_response_spec(status, body@) == Err::<
            RecordView,
            FetchError,
        >(e),
{
    if status < 200 || status >= 300 {
        return Err(FetchError::HttpStatus(status));
    }
    if !str_contains(body, "Выйти") {
        return Err(FetchError::Authentication);
    }
    let cells = find_tournament_cells(body);
    if cells.len() == 0 {
        proof {
            assert(views_of(cells@).len() == cells@.len());
        }
        return Err(FetchError::Parse);
    }
    proof {
        assert(views_of(cells@)[0] == cells@[0]@);
    }
    extract_record(cells[0].as_str())
}

} // verus!
