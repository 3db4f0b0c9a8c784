//! The notification text announcing a new tournament: a fixed template
//! with the record's name, starting time and kind filled in.

use vstd::prelude::*;

use crate::record::{RecordView, TournamentInformation};

verus! {

/// The message announcing `r`: the fixed template with the record's
/// name, starting time and kind, in that order.
pub open spec fn notification_text(r: RecordView) -> Seq<char> {
    "На сайте появился новый турнир!\nНазвание: "@ + r.tournament_name
        + "\nВремя начала: "@ + r.tournament_start_time + "\nТип: "@ + r.tournament_type
}

/// Format the notification message for a newly observed record.
pub fn format_notification(record: &TournamentInformation) -> (text: String)
    ensures
        text@ == notification_text(record@),
{
    let mut text = String::from_str("На сайте появился новый турнир!\nНазвание: ");
    text.append(record.tournament_name.as_str());
    text.append("\nВремя начала: ");
    text.append(record.tournament_start_time.as_str());
    text.append("\nТип: ");
    text.append(record.tournament_type.as_str());
    proof {
        assert(text@ =~= notification_text(record@));
    }
    text
}

} // verus!
