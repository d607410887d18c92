use roadmaps::builder::build_message;
use roadmaps::config::RoadmapConfig;
use roadmaps::message::{system_message_creation, system_message_detection, Role};
use roadmaps::reply::{classify_reply, generate_reply, judgment_from_fields, RoadmapError};

fn strings(entries: &[&str]) -> Vec<String> {
    let mut v: Vec<String> = Vec::new();
    for e in entries {
        v.push(e.to_string());
    }
    v
}

#[test]
fn emit_prompt() {
    let config = RoadmapConfig::default();
    let messages = build_message(
        &config,
        "I'd like a roadmap".to_string(),
        vec![],
        system_message_creation(),
    );
    println!("{:?}", messages);
}

#[test]
fn zero_context_length_keeps_message_unchanged() {
    let config = RoadmapConfig { context_length: 0, message_limit_chars: 2048 };
    let messages = build_message(
        &config,
        "hi".to_string(),
        strings(&["A", "B", "C"]),
        system_message_detection(),
    );
    assert_eq!(messages.len(), 2);
    assert_eq!(messages[1].content, "hi");
}

#[test]
fn short_context_every_entry_considered() {
    let config = RoadmapConfig { context_length: 3, message_limit_chars: 2048 };
    let messages = build_message(
        &config,
        "hi".to_string(),
        strings(&["A", "B"]),
        system_message_detection(),
    );
    assert_eq!(messages[1].content, "BAhi");
}

#[test]
fn oversized_first_entry_leaves_no_context() {
    let config = RoadmapConfig { context_length: 3, message_limit_chars: 10 };
    let messages = build_message(
        &config,
        "hi".to_string(),
        strings(&["AAAAAAAAAAAA", "B", "C"]),
        system_message_detection(),
    );
    assert_eq!(messages[1].content, "hi");
}

#[test]
fn all_entries_fit_in_reverse_iteration_order() {
    let config = RoadmapConfig { context_length: 3, message_limit_chars: 10 };
    let messages = build_message(
        &config,
        "hi".to_string(),
        strings(&["A", "B", "C"]),
        system_message_detection(),
    );
    assert_eq!(messages[1].content, "CBAhi");
}

#[test]
fn walk_stops_at_first_overflowing_entry() {
    let config = RoadmapConfig { context_length: 3, message_limit_chars: 3 };
    let messages = build_message(
        &config,
        "hi".to_string(),
        strings(&["A", "B", "C"]),
        system_message_detection(),
    );
    assert_eq!(messages[1].content, "Ahi");
}

#[test]
fn context_length_caps_consumed_entries() {
    let config = RoadmapConfig { context_length: 2, message_limit_chars: 2048 };
    let messages = build_message(
        &config,
        "hi".to_string(),
        strings(&["A", "B", "C", "D"]),
        system_message_detection(),
    );
    assert_eq!(messages[1].content, "BAhi");
}

#[test]
fn build_message_shapes_the_request() {
    let config = RoadmapConfig::default();
    let system = system_message_detection();
    let system_content = system.content.clone();
    let messages = build_message(&config, "hello".to_string(), vec![], system);
    assert_eq!(messages.len(), 2);
    assert!(matches!(messages[0].role, Role::System));
    assert_eq!(messages[0].content, system_content);
    assert!(matches!(messages[1].role, Role::User));
    assert_eq!(messages[1].content, "hello");
}

#[test]
fn default_config_limits() {
    let config = RoadmapConfig::default();
    assert_eq!(config.context_length, 3);
    assert_eq!(config.message_limit_chars, 2048);
}

#[test]
fn classify_without_content_is_empty_reply() {
    let result = classify_reply(None);
    assert!(matches!(result, Err(RoadmapError::UpstreamEmptyReply)));
}

#[test]
fn classify_non_json_content_is_malformed() {
    let result = classify_reply(Some("not json".to_string()));
    assert!(matches!(result, Err(RoadmapError::MalformedResponse)));
}

#[test]
fn classify_json_without_required_fields_is_malformed() {
    let result = classify_reply(Some("{\"reason\":\"no verdict here\"}".to_string()));
    assert!(matches!(result, Err(RoadmapError::MalformedResponse)));

    let result = classify_reply(Some("{\"reason\":7,\"is_roadmap\":true}".to_string()));
    assert!(matches!(result, Err(RoadmapError::MalformedResponse)));
}

#[test]
fn classify_well_formed_judgment() {
    let result = classify_reply(Some(
        "{\"reason\":\"user asked for a plan\",\"is_roadmap\":true}".to_string(),
    ));
    let judgment = result.unwrap();
    assert_eq!(judgment.reason, "user asked for a plan");
    assert!(judgment.is_roadmap);
}

#[test]
fn classify_negative_judgment() {
    let result = classify_reply(Some(
        "{\"reason\":\"just small talk\",\"is_roadmap\":false}".to_string(),
    ));
    let judgment = result.unwrap();
    assert_eq!(judgment.reason, "just small talk");
    assert!(!judgment.is_roadmap);
}

#[test]
fn judgment_fields_absent_is_malformed() {
    let result = judgment_from_fields(None);
    assert!(matches!(result, Err(RoadmapError::MalformedResponse)));
}

#[test]
fn judgment_fields_present_become_the_judgment() {
    let result = judgment_from_fields(Some(("looks like a plan".to_string(), true)));
    let judgment = result.unwrap();
    assert_eq!(judgment.reason, "looks like a plan");
    assert!(judgment.is_roadmap);
}

#[test]
fn generate_without_content_is_empty_reply() {
    let result = generate_reply(None);
    assert!(matches!(result, Err(RoadmapError::UpstreamEmptyReply)));
}

#[test]
fn generate_takes_content_verbatim() {
    let result = generate_reply(Some("Step 1...".to_string()));
    let artifact = result.unwrap();
    assert_eq!(artifact.roadmap, "Step 1...");
}
