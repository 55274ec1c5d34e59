use vstd::prelude::*;

verus! {

/// Whether `s` is one well-formed JSON text, as serde_json reads it.
pub uninterp spec fn is_json_text(s: Seq<char>) -> bool;

/// Whether `c` is a character of the base-32 alphabet of job ids.
pub open spec fn is_id_char(c: char) -> bool {
    ('0' <= c && c <= '9') || ('A' <= c && c <= 'Z' && c != 'I' && c != 'L' && c != 'O' && c != 'U')
}

/// Relies on `serde_json::from_str::<serde_json::Value>`: succeeds exactly on
/// well-formed JSON text, whatever the text holds.
#[verifier::external_body]
pub(crate) fn json_valid(s: &str) -> (r: bool)
    ensures
        r == is_json_text(s@),
{
    serde_json::from_str::<serde_json::Value>(s).is_ok()
}

/// A fresh job id: relies on `ulid::Ulid::new` and `Ulid::to_string`, which
/// encode 128 bits as 26 characters of the Crockford base-32 alphabet. Two
/// calls may give any two ids.
#[verifier::external_body]
pub fn generate_job_id() -> (r: String)
    ensures
        r@.len() == 26,
        forall|i: int| 0 <= i < 26 ==> is_id_char(#[trigger] r@[i]),
{
    ulid::Ulid::new().to_string()
}

/// The current time in milliseconds since the UNIX epoch: relies on
/// `std::time::SystemTime::now`. Nothing is known of the value.
#[verifier::external_body]
pub fn current_timestamp_ms() -> (r: i64) {
    match std::time::SystemTime::now().duration_since(std::time::UNIX_EPOCH) {
        Ok(d) => d.as_millis() as i64,
        Err(_) => 0,
    }
}

} // verus!
