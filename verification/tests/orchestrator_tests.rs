use research_relay::orchestrator::{Orchestrator, OrchestratorError, Phase};
use research_relay::registry::SessionRegistry;

fn finding(text: &str) -> serde_json::Value {
    let mut m = serde_json::Map::new();
    m.insert(
        String::from("summary"),
        serde_json::Value::String(text.to_string()),
    );
    serde_json::Value::Object(m)
}

#[test]
fn single_item_run_replies_with_its_pretty_form() {
    let mut reg = SessionRegistry::new();
    let mut orch = Orchestrator::new(
        String::from("widgets"),
        String::from("describe the API"),
    );
    orch.session_created(&mut reg, String::from("sess-1"));
    assert!(reg.contains(&String::from("sess-1")));

    let item = finding("widgets exposes a small builder API");
    orch.item_delivered(item.clone());

    let reply = orch.prompt_completed(&mut reg);
    assert_eq!(reply, serde_json::to_string_pretty(&item).unwrap());
    assert!(!reg.contains(&String::from("sess-1")));
    assert!(matches!(orch.phase, Phase::Completed));
}

#[test]
fn zero_item_run_replies_with_sentinel() {
    let mut reg = SessionRegistry::new();
    let mut orch = Orchestrator::new(
        String::from("widgets"),
        String::from("describe the API"),
    );
    orch.session_created(&mut reg, String::from("sess-1"));
    let reply = orch.prompt_completed(&mut reg);
    assert_eq!(
        reply,
        "Research completed for crate 'widgets' but no responses were returned."
    );
    assert!(!reg.contains(&String::from("sess-1")));
}

#[test]
fn three_item_run_wraps_in_order() {
    let mut reg = SessionRegistry::new();
    let mut orch = Orchestrator::new(String::from("widgets"), String::from("dig in"));
    orch.session_created(&mut reg, String::from("sess-1"));

    let a = finding("one");
    let b = finding("two");
    let c = finding("three");
    orch.item_delivered(a.clone());
    orch.item_delivered(b.clone());
    orch.item_delivered(c.clone());

    let reply = orch.prompt_completed(&mut reg);

    let mut wrapper = serde_json::Map::new();
    wrapper.insert(
        String::from("responses"),
        serde_json::Value::Array(vec![a, b, c]),
    );
    let expected = serde_json::to_string_pretty(&serde_json::Value::Object(wrapper)).unwrap();
    assert_eq!(reply, expected);
}

#[test]
fn session_creation_failure_touches_nothing_and_sends_no_reply() {
    let reg = SessionRegistry::new();
    let mut orch = Orchestrator::new(
        String::from("widgets"),
        String::from("describe the API"),
    );
    let err = orch.session_creation_failed();
    assert!(matches!(err, OrchestratorError::SessionCreationFailed));
    assert!(matches!(orch.phase, Phase::Failed));
    assert!(orch.handle.is_none());
    assert!(!reg.contains(&String::from("sess-1")));
}

#[test]
fn prompt_failure_still_unregisters_and_sends_no_reply() {
    let mut reg = SessionRegistry::new();
    let mut orch = Orchestrator::new(
        String::from("widgets"),
        String::from("describe the API"),
    );
    orch.session_created(&mut reg, String::from("sess-1"));
    orch.item_delivered(finding("partial result before the failure"));
    assert!(reg.contains(&String::from("sess-1")));

    let err = orch.prompt_failed(&mut reg);
    assert!(matches!(err, OrchestratorError::PromptFailed));
    assert!(matches!(orch.phase, Phase::Failed));
    assert!(!reg.contains(&String::from("sess-1")));
}

#[test]
fn abandon_unregisters_on_any_path_and_is_idempotent() {
    let mut reg = SessionRegistry::new();
    let mut orch = Orchestrator::new(String::from("widgets"), String::from("dig in"));
    orch.session_created(&mut reg, String::from("sess-1"));
    assert!(reg.contains(&String::from("sess-1")));

    orch.abandon(&mut reg);
    assert!(!reg.contains(&String::from("sess-1")));

    orch.abandon(&mut reg);
    assert!(!reg.contains(&String::from("sess-1")));

    let mut fresh = Orchestrator::new(String::from("gadgets"), String::from("dig in"));
    fresh.abandon(&mut reg);
    assert!(!reg.contains(&String::from("gadgets")));
}

#[test]
fn abandoned_reply_channel_is_named_but_not_fatal() {
    let mut reg = SessionRegistry::new();
    let mut orch = Orchestrator::new(String::from("widgets"), String::from("dig in"));
    orch.session_created(&mut reg, String::from("sess-1"));
    let _reply = orch.prompt_completed(&mut reg);

    assert!(orch.reply_outcome(true).is_none());
    let err = orch.reply_outcome(false);
    assert!(matches!(err, Some(OrchestratorError::ReplyChannelClosed)));
    assert!(matches!(orch.phase, Phase::Completed));
}

#[test]
fn concurrent_runs_stay_independent() {
    let mut reg = SessionRegistry::new();
    let mut one = Orchestrator::new(String::from("widgets"), String::from("describe widgets"));
    let mut two = Orchestrator::new(String::from("gadgets"), String::from("describe gadgets"));

    one.session_created(&mut reg, String::from("sess-1"));
    two.session_created(&mut reg, String::from("sess-2"));
    assert!(reg.contains(&String::from("sess-1")));
    assert!(reg.contains(&String::from("sess-2")));

    let item_one = finding("only for widgets");
    let item_two = finding("only for gadgets");
    one.item_delivered(item_one.clone());
    two.item_delivered(item_two.clone());

    let reply_two = two.prompt_completed(&mut reg);
    assert!(reg.contains(&String::from("sess-1")));
    assert!(!reg.contains(&String::from("sess-2")));

    let reply_one = one.prompt_completed(&mut reg);
    assert!(!reg.contains(&String::from("sess-1")));

    assert_eq!(reply_one, serde_json::to_string_pretty(&item_one).unwrap());
    assert_eq!(reply_two, serde_json::to_string_pretty(&item_two).unwrap());
}
