use jono::{format_i64, format_u64, parse_i64, parse_u32, JobPlan, JobStatus, JonoError, Keys, StateSet};

#[test]
fn keys_are_bit_exact() {
    let k = Keys::with_topic("t_basic");
    assert_eq!(k.job_metadata_hash("01ABC"), "jono:{t_basic}:job:01ABC");
    assert_eq!(k.postponed_set(), "jono:{t_basic}:postponed");
    assert_eq!(k.queued_set(), "jono:{t_basic}:queued");
    assert_eq!(k.started_set(), "jono:{t_basic}:running");
    assert_eq!(k.aborted_set(), "jono:{t_basic}:aborted");
    assert_eq!(k.harvestable_set(), "jono:{t_basic}:completed");
    assert_eq!(k.set_key(StateSet::Queued), k.queued_set());
}

#[test]
fn status_words() {
    assert_eq!(JobStatus::Running.word(), "running");
    assert_eq!(JobStatus::Failed.word(), "failed");
    assert_eq!(JobStatus::from_word("postponed"), Some(JobStatus::Postponed));
    assert_eq!(JobStatus::from_word("completed"), Some(JobStatus::Completed));
    assert_eq!(JobStatus::from_word("started"), None);
    assert_eq!(JobStatus::Failed.set(), None);
}

#[test]
fn decimal_text() {
    assert_eq!(format_u64(0), "0");
    assert_eq!(format_u64(4294967295), "4294967295");
    assert_eq!(format_i64(-42), "-42");
    assert_eq!(format_i64(i64::MIN), "-9223372036854775808");
    assert_eq!(format_i64(i64::MAX), "9223372036854775807");
    assert_eq!(parse_u32("4294967295"), Some(u32::MAX));
    assert_eq!(parse_u32("4294967296"), None);
    assert_eq!(parse_u32("+7"), Some(7));
    assert_eq!(parse_u32("-0"), None);
    assert_eq!(parse_u32(""), None);
    assert_eq!(parse_u32("+"), None);
    assert_eq!(parse_u32("1a"), None);
    assert_eq!(parse_i64("-9223372036854775808"), Some(i64::MIN));
    assert_eq!(parse_i64("-9223372036854775809"), None);
    assert_eq!(parse_i64("9223372036854775807"), Some(i64::MAX));
    assert_eq!(parse_i64("9223372036854775808"), None);
    assert_eq!(parse_i64("-"), None);
    assert_eq!(parse_i64("+12"), Some(12));
    assert_eq!(parse_i64(" 1"), None);
}

#[test]
fn plan_builder() {
    let p = JobPlan::new();
    assert_eq!(p.get_payload(), None);
    assert_eq!(p.get_max_attempts(), 1);
    assert_eq!(p.get_priority(), 0);
    assert_eq!(p.get_postponed_to(), 0);
    assert_eq!(p.get_origin(), None);
    let p = p.payload("{\"a\":1}".to_string()).max_attempts(2).priority(-3).postponed_to(9).origin("me");
    assert_eq!(p.get_payload(), Some("{\"a\":1}"));
    assert_eq!(p.get_max_attempts(), 2);
    assert_eq!(p.get_priority(), -3);
    assert_eq!(p.get_postponed_to(), 9);
    assert_eq!(p.get_origin(), Some("me"));
}

#[test]
fn error_descriptions() {
    assert_eq!(JonoError::TooManyErrors(3).describe(), "Too many consecutive errors: 3");
    assert_eq!(JonoError::JobNotFound("x".to_string()).describe(), "Job not found: x");
    assert_eq!(JonoError::Redis("down".to_string()).describe(), "Redis error: down");
}
