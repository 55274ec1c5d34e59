//! A distributed priority job queue whose state lives in a Redis-compatible
//! store: one metadata hash per job and five sorted sets per topic, one per
//! lifecycle state.
//!
//! This library holds the queue's logic as plain values: the key layout, the
//! exact backend commands each operation sends, the decisions taken on the
//! backend's replies, and the decoding of job metadata. A backend driver runs
//! the commands and hands the replies back.

mod command;
mod config;
mod consume;
mod decimal;
mod error;
mod fields;
mod harvest;
mod inspect;
mod janitor;
mod keys;
mod laws;
mod metadata;
mod plan;
mod produce;
mod run_loop;
mod status;
mod store;
mod util;

pub use command::{views, Command, CommandView};
pub use config::{
    default_consumer_config, default_harvest_config, duration_from_millis, millis_i64,
    ConsumerConfig, ConsumerConfigView, HarvestConfig, HarvestConfigView,
};
pub use consume::{
    begin, check_commands, check_spec, claim_commands, claim_spec, complete_commands,
    complete_spec, expire_seconds, fails_with, runs, step, ConsumerAction, ConsumerEvent,
    ConsumerState, WorkSummary, Workload, COMPLETED_TTL_MS,
};
pub use decimal::{
    decimal_of, digits_of, format_i64, format_u64, lemma_i64_round_trip, lemma_u32_round_trip,
    parse_i64, parse_i64_spec, parse_u32, parse_u32_spec,
};
pub use error::{describe_spec, JonoError};
pub use fields::{field_name, Field};
pub use harvest::{
    batch_result, clean_expired_commands, clean_expired_spec, collect_harvest, fetched_view,
    harvest_pop_count, kept, ReapSummary, Reapload,
};
pub use inspect::{
    assemble_status_map, by_status_commands, by_status_spec, metadata_commands, metadata_spec,
    picked, ranged_sets, ranged_sets_of, resolve_metadata, resolve_status, resolve_status_spec,
    sets_of_states, status_probe_commands, status_probe_spec, JobFilter, MapStatusToJobId,
    StatusProbe,
};
pub use janitor::{
    due_commands, due_spec, promote_commands, promote_spec, sweep_commands, sweep_spec,
};
pub use keys::{job_suffix, jono_prefix, key_of, Keys};
pub use laws::{
    lemma_abort_keeps_single_membership, lemma_claim_keeps_invariants, lemma_claims_are_disjoint,
    lemma_clean_expired_keeps_window, lemma_clean_removes_job, lemma_complete_stores_outcome,
    lemma_promote_queues_job, lemma_status_follows_membership, lemma_submit_keeps_invariants,
    lemma_submit_then_metadata, lemma_sweep_ends_job, probe_of,
};
pub use metadata::{
    decodable, empty_array_text, field_of, get_field, lookup, null_text, or_default,
    pairs_represent, pairs_view, JobMetadata,
};
pub use plan::{JobPlan, PlanView};
pub use produce::{
    abort_commands, abort_outcome, abort_resolve, abort_spec, clean_commands, clean_spec, hset,
    initial_status, is_postponed, offset, offset_ms, submit_commands, submit_spec,
};
pub use run_loop::{
    after_failures, after_pass, lemma_errors_stop_the_loop, next_count, LoopStep, PassResult,
};
pub use status::{set_of_status, set_word, status_of_set, status_word, JobStatus, StateSet};
pub use store::{above, apply, apply_all, Store};
pub use util::{current_timestamp_ms, generate_job_id, is_id_char, is_json_text};
