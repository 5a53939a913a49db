use koala_clash::validate::{Coordinator, ValidationOutcome};

#[test]
fn rejected_config_falls_back_with_boot_tag_and_diagnostic() {
    let mut c = Coordinator::new();
    c.on_generated(true);
    c.start_validation();
    c.on_engine_reply(Ok((false, "bad key X".to_string())));
    assert_eq!(
        c.outcome(),
        ValidationOutcome::BootInvalidConfig("bad key X".to_string())
    );
    let (tag, msg) = c.fallback_action().unwrap();
    assert_eq!(tag, "config_validate::boot_error");
    assert_eq!(msg, "bad key X".to_string());
    let (ntag, nmsg) = c.notice();
    assert_eq!(ntag, "config_validate::boot_error");
    assert_eq!(nmsg, "bad key X".to_string());
    c.mark_notified();
}

#[test]
fn generation_failure_reaches_terminal_state_with_empty_message() {
    let mut c = Coordinator::new();
    c.on_generated(false);
    assert_eq!(c.outcome(), ValidationOutcome::GenerationError);
    let (tag, msg) = c.fallback_action().unwrap();
    assert_eq!(tag, "config_validate::error");
    assert_eq!(msg, String::new());
    let (ntag, nmsg) = c.notice();
    assert_eq!(ntag, "config_validate::error");
    assert_eq!(nmsg, String::new());
}

#[test]
fn accepted_config_needs_no_fallback() {
    let mut c = Coordinator::new();
    c.on_generated(true);
    c.start_validation();
    c.on_engine_reply(Ok((true, String::new())));
    assert_eq!(c.outcome(), ValidationOutcome::Success);
    assert!(c.fallback_action().is_none());
    let (tag, msg) = c.notice();
    assert_eq!(tag, "config_validate::success");
    assert_eq!(msg, String::new());
}

#[test]
fn engine_process_failure_falls_back_with_termination_tag() {
    let mut c = Coordinator::new();
    c.on_generated(true);
    c.start_validation();
    c.on_engine_reply(Err("spawn failed".to_string()));
    assert_eq!(c.outcome(), ValidationOutcome::ProcessTerminated);
    let (tag, msg) = c.fallback_action().unwrap();
    assert_eq!(tag, "config_validate::process_terminated");
    assert_eq!(msg, String::new());
}

#[test]
fn engine_replies_classify_into_each_outcome() {
    assert_eq!(
        ValidationOutcome::of_engine_reply(Ok((true, "ignored".to_string()))),
        ValidationOutcome::Success
    );
    assert_eq!(
        ValidationOutcome::of_engine_reply(Ok((false, "oops".to_string()))),
        ValidationOutcome::BootInvalidConfig("oops".to_string())
    );
    assert_eq!(
        ValidationOutcome::of_engine_reply(Err("no engine".to_string())),
        ValidationOutcome::ProcessTerminated
    );
}

#[test]
fn reason_tags_cover_the_vocabulary() {
    assert_eq!(
        ValidationOutcome::Success.reason_tag(),
        "config_validate::success"
    );
    assert_eq!(
        ValidationOutcome::BootInvalidConfig("m".to_string()).reason_tag(),
        "config_validate::boot_error"
    );
    assert_eq!(
        ValidationOutcome::ProcessTerminated.reason_tag(),
        "config_validate::process_terminated"
    );
    assert_eq!(
        ValidationOutcome::GenerationError.reason_tag(),
        "config_validate::error"
    );
    assert!(!ValidationOutcome::Success.needs_fallback());
    assert!(ValidationOutcome::GenerationError.needs_fallback());
}
