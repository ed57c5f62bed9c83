//! Validation of the actions teams produce: is the message JSON at all, and
//! does it carry every field filled in. The JSON itself is read by the
//! caller; the decisions are made here on what it held.

use vstd::prelude::*;
use crate::messages::Action;

verus! {

/// Result of validating an action.
#[derive(Debug, Clone)]
pub enum SimpleValidationResult {
    /// A valid action of the team.
    Valid { team: String },
    /// The message is not JSON of an action.
    InvalidJson,
    /// A field is missing or empty.
    MissingFields { team: String },
}

/// A field that is present and not empty.
pub open spec fn filled(f: Option<String>) -> bool {
    f matches Some(s) && s@.len() > 0
}

/// Every field of the action is present and not empty.
pub open spec fn complete(a: Action) -> bool {
    &&& filled(a.customer)
    &&& filled(a.action_type)
    &&& filled(a.reason)
    &&& a.team@.len() > 0
}

fn is_filled(f: &Option<String>) -> (r: bool)
    ensures
        r == filled(*f),
{
    match f {
        Some(s) => !s.as_str().is_empty(),
        None => false,
    }
}

/// The validation of what a message held: `None` when it could not be
/// read as an action. A readable action is valid when every field is
/// present and not empty; otherwise fields are missing.
pub open spec fn validation_of(parsed: Option<Action>) -> SimpleValidationResult {
    match parsed {
        None => SimpleValidationResult::InvalidJson,
        Some(a) => if complete(a) {
            SimpleValidationResult::Valid { team: a.team }
        } else {
            SimpleValidationResult::MissingFields { team: a.team }
        },
    }
}

/// The team a message names for error reporting, from what its `team`
/// field held: none when the message could not be read, and when the field
/// is absent or empty.
pub open spec fn team_extracted(parsed_team: Option<Option<String>>) -> Option<String> {
    match parsed_team {
        Some(Some(t)) => if t@.len() > 0 { Some(t) } else { None },
        _ => None,
    }
}

/// Validate an action from what its message held: `None` when the message
/// could not be read as an action. A readable action is valid when every
/// field is present and not empty; otherwise fields are missing.
pub fn validate_action_simple(parsed: Option<Action>) -> (r: SimpleValidationResult)
    ensures
        r == validation_of(parsed),
{
    let action = match parsed {
        Some(a) => a,
        None => return SimpleValidationResult::InvalidJson,
    };
    let has_customer = is_filled(&action.customer);
    let has_type = is_filled(&action.action_type);
    let has_reason = is_filled(&action.reason);
    let has_team = !action.team.as_str().is_empty();
    if !has_customer || !has_type || !has_reason || !has_team {
        return SimpleValidationResult::MissingFields { team: action.team };
    }
    SimpleValidationResult::Valid { team: action.team }
}

/// The team named by a message, for error reporting, from its `team` field:
/// `None` when the message could not be read, and when the field is absent
/// or empty.
pub fn extract_team_from_payload(parsed_team: Option<Option<String>>) -> (r: Option<String>)
    ensures
        r == team_extracted(parsed_team),
{
    match parsed_team {
        Some(Some(t)) => {
            if t.as_str().is_empty() {
                None
            } else {
                Some(t)
            }
        },
        _ => None,
    }
}

/// The team extracted from a message agrees with its validation, when the
/// message's team field was read as the action's team: a valid action's
/// team is the team extracted, and an action with missing fields names the
/// team extracted unless its team field is empty; a team extracted is never
/// empty, and none is extracted from a message without a team field.
pub proof fn lemma_extraction_agrees(parsed: Option<Action>, parsed_team: Option<Option<String>>)
    requires
        parsed matches Some(a) ==> parsed_team == Some(Some(a.team)),
    ensures
        team_extracted(parsed_team) matches Some(t) ==> t@.len() > 0,
        !(parsed_team matches Some(Some(_))) ==> team_extracted(parsed_team) is None,
        validation_of(parsed) matches SimpleValidationResult::Valid { team } ==> team_extracted(parsed_team) == Some(
            team,
        ),
        validation_of(parsed) matches SimpleValidationResult::MissingFields { team } ==> team_extracted(parsed_team)
            == (if team@.len() > 0 { Some(team) } else { None }),
{
}

/// An action is valid exactly when its customer, type and reason are each
/// present and not empty and its team is not empty; any other readable
/// action has missing fields. Either way the result names the action's
/// team, and a message that could not be read is invalid JSON.
pub proof fn lemma_valid_needs_every_field(a: Action)
    ensures
        (validation_of(Some(a)) is Valid) == ((a.customer matches Some(c) && c@.len() > 0) && (
        a.action_type matches Some(t) && t@.len() > 0) && (a.reason matches Some(r) && r@.len() > 0) && a.team@.len()
            > 0),
        (validation_of(Some(a)) is Valid) ==> (validation_of(Some(a)) == (SimpleValidationResult::Valid {
            team: a.team,
        })),
        !(validation_of(Some(a)) is Valid) ==> (validation_of(Some(a)) == (SimpleValidationResult::MissingFields {
            team: a.team,
        })),
        (validation_of(None) is InvalidJson),
{
}

/// Kinds of validation error.
#[derive(Debug, Clone, Copy, PartialEq, Eq, Structural, Hash)]
pub enum ErrorType {
    InvalidJson,
    NonExistentUser,
    DuplicateAction,
    MissingFields,
    InvalidTeamName,
    WrongType,
    WrongReason,
    FalsePositive,
}

/// How an error kind is described.
pub open spec fn error_text(e: ErrorType) -> Seq<char> {
    match e {
        ErrorType::InvalidJson => "Invalid JSON"@,
        ErrorType::NonExistentUser => "Non-existent user"@,
        ErrorType::DuplicateAction => "Duplicate action"@,
        ErrorType::MissingFields => "Missing required fields"@,
        ErrorType::InvalidTeamName => "Invalid team name"@,
        ErrorType::WrongType => "Wrong action type"@,
        ErrorType::WrongReason => "Wrong reason"@,
        ErrorType::FalsePositive => "False positive - user doesn't match filter"@,
    }
}

impl ErrorType {
    /// The description of this error kind.
    pub fn text(&self) -> (r: &'static str)
        ensures
            r@ == error_text(*self),
    {
        match self {
            ErrorType::InvalidJson => "Invalid JSON",
            ErrorType::NonExistentUser => "Non-existent user",
            ErrorType::DuplicateAction => "Duplicate action",
            ErrorType::MissingFields => "Missing required fields",
            ErrorType::InvalidTeamName => "Invalid team name",
            ErrorType::WrongType => "Wrong action type",
            ErrorType::WrongReason => "Wrong reason",
            ErrorType::FalsePositive => "False positive - user doesn't match filter",
        }
    }
}

/// A validation error with its details.
#[derive(Debug, Clone)]
pub struct ValidationError {
    pub error_type: ErrorType,
    pub details: String,
}

impl ValidationError {
    /// An error of the given kind with the given details.
    pub fn new(error_type: ErrorType, details: String) -> (r: Self)
        ensures
            r.error_type == error_type,
            r.details == details,
    {
        ValidationError { error_type, details }
    }

    /// The description: the kind, a colon and a space, then the details.
    pub fn text(&self) -> (r: String)
        ensures
            r@ == error_text(self.error_type) + ": "@ + self.details@,
    {
        let mut s = self.error_type.text().to_owned();
        s.append(": ");
        s.append(self.details.as_str());
        s
    }
}

} // verus!
