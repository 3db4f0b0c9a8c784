//! Positional-offset extraction of a tournament record from one HTML
//! cell. The page's layout embeds the three fields at fixed positions
//! of the `'>'`-delimited serialization, each followed by a three
//! character tail that is cut off. The layout assumptions are checked,
//! never trusted: any violation becomes a `Parse` error instead of a
//! fault.

use vstd::prelude::*;

use crate::record::{FetchError, RecordView, TournamentInformation};
use crate::text::{split_on, split_str, views_of};

verus! {

/// What extraction yields on a given cell: split the cell on `'>'`,
/// read the three fields at their fixed positions, cut the fixed tail
/// off each; a `Parse` error wherever the cell is too short for that.
pub open spec fn extract_record_spec(fragment: Seq<char>) -> Result<RecordView, FetchError> {
    let parts = split_on(fragment, '>');
    if parts.len() <= 14 {
        Err(FetchError::Parse)
    } else if parts[2].len() < 3 || parts[9].len() < 3 || parts[14].len() < 3 {
        Err(FetchError::Parse)
    } else {
        Ok(
            RecordView {
                tournament_name: parts[2].take(parts[2].len() - 3),
                tournament_type: parts[9].take(parts[9].len() - 3),
                tournament_start_time: parts[14].take(parts[14].len() - 3),
            },
        )
    }
}

/// Extraction is a pure function of the fragment: the same cell always
/// yields the same record or the same error.
pub proof fn lemma_extract_record_pure(a: Seq<char>, b: Seq<char>)
    requires
        a == b,
    ensures
        extract_record_spec(a) == extract_record_spec(b),
{
}

/// All but the last `tail` characters of `s`.
fn cut_tail(s: &String, tail: usize) -> (cut: Option<String>)
    ensures
        match cut {
            Some(t) => s@.len() >= tail && t@ == s@.take(s@.len() - tail),
            None => s@.len() < tail,
        },
{
    let s_len = s.as_str().unicode_len();
    if s_len < tail {
        None
    } else {
        Some(String::from_str(s.as_str().substring_char(0, s_len - tail)))
    }
}

/// Extract the tournament record from one serialized cell.
pub fn extract_record(fragment: &str) -> (extracted: Result<TournamentInformation, FetchError>)
    ensures
        extracted matches Ok(r) ==> extract_record_spec(fragment@) == Ok::<
            RecordView,
            FetchError,
        >(r@),
        extracted matches Err(e) ==> extract_record_spec(fragment@) == Err::<
            RecordView,
            FetchError,
        >(e),
{
    let parts = split_str(fragment, '>');
    proof {
        assert(views_of(parts@).len() == parts@.len());
    }
    if parts.len() <= 14 {
        return Err(FetchError::Parse);
    }
    proof {
        assert(views_of(parts@)[2] == parts@[2]@);
        assert(views_of(parts@)[9] == parts@[9]@);
        assert(views_of(parts@)[14] == parts@[14]@);
    }
    let name = match cut_tail(&parts[2], 3) {
        Some(t) => t,
        None => {
            return Err(FetchError::Parse);
        },
    };
    let kind = match cut_tail(&parts[9], 3) {
        Some(t) => t,
        None => {
            return Err(FetchError::Parse);
        },
    };
    let start_time = match cut_tail(&parts[14], 3) {
        Some(t) => t,
        None => {
            return Err(FetchError::Parse);
        },
    };
    Ok(
        TournamentInformation {
            tournament_name: name,
            tournament_type: kind,
            tournament_start_time: start_time,
        },
    )
}

} // verus!
