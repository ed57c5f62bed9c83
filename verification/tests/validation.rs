use kafka_tutorial::leaderboard::validation::{
    extract_team_from_payload, validate_action_simple, ErrorType, SimpleValidationResult, ValidationError,
};
use kafka_tutorial::messages::Action;
use serde_json::Value;

/// Reads a payload as the action message the topic carries: a JSON object
/// whose `team` is a string and whose other fields are strings or absent.
fn parse_action(payload: &[u8]) -> Option<Action> {
    let value: Value = serde_json::from_slice(payload).ok()?;
    let object = value.as_object()?;
    let text = |key: &str| -> Result<Option<String>, ()> {
        match object.get(key) {
            None | Some(Value::Null) => Ok(None),
            Some(Value::String(s)) => Ok(Some(s.clone())),
            Some(_) => Err(()),
        }
    };
    let team = match object.get("team") {
        Some(Value::String(s)) => s.clone(),
        _ => return None,
    };
    Some(Action {
        customer: text("customer").ok()?,
        action_type: text("type").ok()?,
        reason: text("reason").ok()?,
        team,
    })
}

/// Reads the `team` field of a payload, when the payload is a JSON object.
fn parse_team(payload: &[u8]) -> Option<Option<String>> {
    let value: Value = serde_json::from_slice(payload).ok()?;
    let object = value.as_object()?;
    match object.get("team") {
        None | Some(Value::Null) => Some(None),
        Some(Value::String(s)) => Some(Some(s.clone())),
        Some(_) => None,
    }
}

#[test]
fn test_valid_action() {
    let payload = br#"{"customer":"user1","type":"CONTACT","reason":"VIP","team":"team-1"}"#;
    match validate_action_simple(parse_action(payload)) {
        SimpleValidationResult::Valid { team } => assert_eq!(team, "team-1"),
        _ => panic!("Expected Valid"),
    }
}

#[test]
fn test_invalid_json() {
    let payload = b"not json";
    assert!(matches!(
        validate_action_simple(parse_action(payload)),
        SimpleValidationResult::InvalidJson
    ));
}

#[test]
fn test_missing_fields() {
    let payload = br#"{"team":"team-1"}"#;
    match validate_action_simple(parse_action(payload)) {
        SimpleValidationResult::MissingFields { team } => assert_eq!(team, "team-1"),
        _ => panic!("Expected MissingFields"),
    }
}

#[test]
fn test_empty_fields() {
    let payload = br#"{"customer":"","type":"CONTACT","reason":"VIP","team":"team-1"}"#;
    match validate_action_simple(parse_action(payload)) {
        SimpleValidationResult::MissingFields { team } => assert_eq!(team, "team-1"),
        _ => panic!("Expected MissingFields for empty customer"),
    }
}

#[test]
fn test_extract_team() {
    let payload = br#"{"team":"team-5","other":"data"}"#;
    assert_eq!(extract_team_from_payload(parse_team(payload)), Some("team-5".to_string()));

    let payload = b"invalid";
    assert_eq!(extract_team_from_payload(parse_team(payload)), None);
}

#[test]
fn empty_team_is_no_team() {
    assert_eq!(extract_team_from_payload(Some(Some(String::new()))), None);
    assert_eq!(extract_team_from_payload(Some(None)), None);
    let empty_team = Action::new("user1", "CONTACT", "VIP", "");
    match validate_action_simple(Some(empty_team)) {
        SimpleValidationResult::MissingFields { team } => assert_eq!(team, ""),
        _ => panic!("Expected MissingFields for an empty team"),
    }
}

#[test]
fn error_texts() {
    assert_eq!(ErrorType::MissingFields.text(), "Missing required fields");
    assert_eq!(
        ErrorType::FalsePositive.text(),
        "False positive - user doesn't match filter"
    );
    let error = ValidationError::new(ErrorType::InvalidJson, "line 1".to_string());
    assert_eq!(error.error_type, ErrorType::InvalidJson);
    assert_eq!(error.text(), "Invalid JSON: line 1");
}

#[test]
fn extraction_agrees_with_validation() {
    let payloads: [&[u8]; 4] = [
        br#"{"customer":"user1","type":"CONTACT","reason":"VIP","team":"team-4"}"#,
        br#"{"customer":"user1","team":"team-2"}"#,
        br#"{"customer":"user1","type":"CONTACT","reason":"VIP","team":""}"#,
        b"[1, 2]",
    ];
    let expected = [Some("team-4".to_string()), Some("team-2".to_string()), None, None];
    for (payload, want) in payloads.iter().zip(expected) {
        let extracted = extract_team_from_payload(parse_team(payload));
        assert_eq!(extracted, want);
        match validate_action_simple(parse_action(payload)) {
            SimpleValidationResult::Valid { team } => assert_eq!(Some(team), extracted),
            SimpleValidationResult::MissingFields { team } => {
                assert_eq!(if team.is_empty() { None } else { Some(team) }, extracted)
            }
            SimpleValidationResult::InvalidJson => assert_eq!(extracted, None),
        }
    }
}
