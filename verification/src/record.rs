//! The data carried through the bot: login credentials, the tournament
//! record extracted from the site, and the errors a fetch can end in.

use vstd::prelude::*;

verus! {

/// Login credentials for the tournament site.
#[derive(Debug, Clone)]
pub struct UserCredentials {
    pub username: String,
    pub password: String,
}

/// Abstract value of a credentials pair.
pub struct CredentialsView {
    pub username: Seq<char>,
    pub password: Seq<char>,
}

impl View for UserCredentials {
    type V = CredentialsView;

    open spec fn view(&self) -> CredentialsView {
        CredentialsView { username: self.username@, password: self.password@ }
    }
}

impl UserCredentials {
    /// The form-encoded login payload: a `username` field followed by a
    /// `password` field, each holding the corresponding credential.
    pub fn login_form(&self) -> (payload: Vec<(String, String)>)
        ensures
            payload@.len() == 2,
            payload@[0].0@ == "username"@,
            payload@[0].1@ == self@.username,
            payload@[1].0@ == "password"@,
            payload@[1].1@ == self@.password,
    {
        let mut payload: Vec<(String, String)> = Vec::new();
        payload.push((String::from_str("username"), self.username.clone()));
        payload.push((String::from_str("password"), self.password.clone()));
        payload
    }
}

/// One tournament as posted on the site: its name, its kind and its
/// starting time, all as the page printed them.
#[derive(Debug, Clone, PartialEq)]
pub struct TournamentInformation {
    pub tournament_name: String,
    pub tournament_type: String,
    pub tournament_start_time: String,
}

/// Abstract value of a tournament record: the three fields as character
/// sequences. Two records are the same tournament exactly when all three
/// fields agree.
pub struct RecordView {
    pub tournament_name: Seq<char>,
    pub tournament_type: Seq<char>,
    pub tournament_start_time: Seq<char>,
}

impl View for TournamentInformation {
    type V = RecordView;

    open spec fn view(&self) -> RecordView {
        RecordView {
            tournament_name: self.tournament_name@,
            tournament_type: self.tournament_type@,
            tournament_start_time: self.tournament_start_time@,
        }
    }
}

impl DeepView for TournamentInformation {
    type V = RecordView;

    open spec fn deep_view(&self) -> RecordView {
        self.view()
    }
}

impl TournamentInformation {
    /// A field-for-field copy whose abstract value is the same record.
    pub fn duplicate(&self) -> (copy: Self)
        ensures
            copy@ == self@,
    {
        TournamentInformation {
            tournament_name: self.tournament_name.clone(),
            tournament_type: self.tournament_type.clone(),
            tournament_start_time: self.tournament_start_time.clone(),
        }
    }

    /// Whether `self` and `other` are the same tournament: structural
    /// equality across all three fields, nothing fuzzy.
    pub fn same_record(&self, other: &Self) -> (eq: bool)
        ensures
            eq == (self@ == other@),
    {
        self.tournament_name == other.tournament_name
            && self.tournament_type == other.tournament_type
            && self.tournament_start_time == other.tournament_start_time
    }
}

/// Why a fetch cycle produced no record.
#[derive(Debug, Clone, PartialEq, Eq)]
pub enum FetchError {
    /// The network call itself failed; no response was seen at all.
    Transport,
    /// The response arrived with a non-success HTTP status (not 2xx).
    HttpStatus(u16),
    /// The response body lacks the authenticated-session marker: the
    /// login was rejected.
    Authentication,
    /// The page's structure does not match the expected layout: no
    /// matching cell, too few delimited segments, or a segment too short.
    Parse,
}

} // verus!
