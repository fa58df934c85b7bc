//! Security policy applied when processing responses and assertions, and
//! the failed checks an assertion validation reports.

use vstd::prelude::*;
use crate::text::push_str;

verus! {

/// The checks a relying party enforces on incoming messages.
#[derive(Debug, Clone, Copy, PartialEq, Eq, Structural)]
pub struct SecurityConfig {
    /// Clock skew tolerance in seconds.
    pub clock_skew_seconds: u64,
    /// Whether assertions must carry their own signature.
    pub require_signed_assertions: bool,
    /// Whether responses must be signed.
    pub require_signed_responses: bool,
    /// Whether assertions must arrive encrypted.
    pub require_encrypted_assertions: bool,
    /// The maximum accepted assertion age, in seconds.
    pub max_assertion_age_seconds: u64,
    /// Whether signatures carrying a `ds:Object` are rejected.
    pub reject_signatures_with_ds_object: bool,
    /// Whether persistent identifiers must be unique per issuer.
    pub enforce_persistent_id_uniqueness: bool,
    /// Whether RelayState values are sanitized.
    pub sanitize_relay_state: bool,
    /// Whether CBC-mode encryption must be accompanied by an integrity check.
    pub require_integrity_with_cbc: bool,
    /// Whether the `Destination` attribute is verified.
    pub verify_destination: bool,
    /// Whether the confirmation `Recipient` is verified.
    pub verify_recipient: bool,
    /// Whether the confirmation `Address` is checked against the client.
    pub check_client_address: bool,
}

/// A check of the assertion validation that failed: its name and, when
/// given, why.
#[derive(Debug, Clone)]
pub struct CheckFailure {
    /// The name of the check.
    pub check_name: String,
    /// What went wrong, if stated.
    pub detail: Option<String>,
}

/// `{check}: {detail}`, with `failed` for a missing detail.
pub open spec fn check_failure_text(f: CheckFailure) -> Seq<char> {
    f.check_name@ + ": "@ + match f.detail {
        Some(d) => d@,
        None => "failed"@,
    }
}

/// The failures' texts joined by `; `.
pub open spec fn failures_text(fs: Seq<CheckFailure>) -> Seq<char>
    decreases fs.len(),
{
    if fs.len() == 0 {
        Seq::empty()
    } else if fs.len() == 1 {
        check_failure_text(fs[0])
    } else {
        failures_text(fs.drop_last()) + "; "@ + check_failure_text(fs.last())
    }
}

/// The message describing the failed checks.
pub fn failures_message(fs: &[CheckFailure]) -> (r: String)
    ensures
        r@ == failures_text(fs@),
{
    let mut out = String::new();
    let mut i: usize = 0;
    assert(fs@.take(0) =~= Seq::<CheckFailure>::empty());
    while i < fs.len()
        invariant
            0 <= i <= fs.len(),
            out@ == failures_text(fs@.take(i as int)),
        decreases fs.len() - i,
    {
        assert(fs@.take(i + 1).drop_last() =~= fs@.take(i as int));
        assert(fs@.take(i + 1).last() == fs@[i as int]);
        if i > 0 {
            push_str(&mut out, "; ");
        } else {
            assert(fs@.take(1)[0] == fs@[0]);
        }
        push_str(&mut out, fs[i].check_name.as_str());
        push_str(&mut out, ": ");
        match &fs[i].detail {
            Some(d) => push_str(&mut out, d.as_str()),
            None => push_str(&mut out, "failed"),
        }
        i = i + 1;
    }
    assert(fs@.take(i as int) =~= fs@);
    out
}

} // verus!
