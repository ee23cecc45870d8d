//! The tactic-construction and application protocol: what the binding layer
//! decides when a strategy is named, given a timeout, or applied to a goal.

use vstd::prelude::*;
use crate::Handle;
use crate::handle::RefLedger;
use crate::handle::acquire_spec;

verus! {

/// The diagnostic that stands in for a tactic-application error message whose
/// bytes are not valid text.
pub open spec fn invalid_error_text() -> Seq<char> {
    "Couldn't retrieve error message from z3: got invalid UTF-8"@
}

/// The fixed fallback diagnostic, as a value.
pub fn fallback_error_message() -> (s: String)
    ensures
        s@ == invalid_error_text(),
{
    "Couldn't retrieve error message from z3: got invalid UTF-8".to_owned()
}

/// `apply`: the engine answers a tactic application with the result object,
/// or null for failure. Success takes one claim on the result; failure
/// carries the engine's decoded last-error text, or the fixed fallback when
/// those bytes are not valid text (`error_text` is the decode's outcome,
/// consulted only on failure). No count moves on the failure path.
pub fn apply_outcome(
    ledger: &mut RefLedger,
    ctx: u64,
    result_raw: u64,
    error_text: Option<String>,
) -> (r: Result<Handle, String>)
    requires
        old(ledger).wf(),
        old(ledger)@.contains_key(result_raw) ==> old(ledger)@[result_raw] < u64::MAX,
    ensures
        final(ledger).wf(),
        result_raw != 0 ==> (r matches Ok(h) && h == (Handle { ctx, raw: result_raw })
            && final(ledger)@ == acquire_spec(old(ledger)@, result_raw)),
        result_raw == 0 ==> final(ledger)@ == old(ledger)@ && (r matches Err(m) && m@ == (
        match error_text {
            Some(t) => t@,
            None => invalid_error_text(),
        })),
{
    if result_raw == 0 {
        let msg = match error_text {
            Some(t) => t,
            None => fallback_error_message(),
        };
        Err(msg)
    } else {
        let h = ledger.acquire(ctx, result_raw);
        Ok(h.unwrap())
    }
}

/// Subgoals of an apply-result, and the engine's strategy catalog, are read
/// out by index in native order: every index below the reported count, rising.
pub fn index_sequence(n: u32) -> (r: Vec<u32>)
    ensures
        r@.len() == n,
        forall|i: int| 0 <= i < n ==> r@[i] == i,
{
    let mut out: Vec<u32> = Vec::new();
    let mut i: u32 = 0;
    while i < n
        invariant
            i <= n,
            out@.len() == i,
            forall|j: int| 0 <= j < i ==> out@[j] == j,
        decreases n - i,
    {
        out.push(i);
        i = i + 1;
    }
    out
}

/// Whether a strategy name contains an embedded NUL. The native lookup takes
/// a NUL-terminated string, so such a name is a caller bug (a programming
/// contract violation), checked before any conversion is attempted.
pub fn name_has_nul(name: &[u8]) -> (r: bool)
    ensures
        r == name@.contains(0u8),
{
    let mut i: usize = 0;
    let mut found = false;
    while i < name.len()
        invariant
            i <= name@.len(),
            found <==> exists|j: int| 0 <= j < i && name@[j] == 0u8,
        decreases name@.len() - i,
    {
        if name[i] == 0 {
            found = true;
            proof {
                assert(name@[i as int] == 0u8);
            }
        }
        i = i + 1;
    }
    found
}

/// The widest timeout the engine's interface can carry, in milliseconds.
pub open spec fn max_native_timeout_ms() -> u32 {
    u32::MAX
}

/// A timeout for a strategy, clamped to the widest value the native
/// interface can represent: an over-wide duration is capped, a deliberate
/// boundary behavior rather than a silent wrap.
pub fn clamp_timeout_millis(ms: u128) -> (r: u32)
    ensures
        ms > max_native_timeout_ms() ==> r == max_native_timeout_ms(),
        ms <= max_native_timeout_ms() ==> r == ms,
{
    if ms > u32::MAX as u128 {
        u32::MAX
    } else {
        ms as u32
    }
}

} // verus!
