//! From the three numbers a verification call returns to its outcome.
use vstd::prelude::*;

use crate::types::{verdict_of, Error, Verdict, Verified};

verus! {

/// The outcome of a verification whose call returned `ret` (0 or a UAPKI
/// error code), counted `count` signers and reported the verdict code
/// `verdict`: an error code wins, then no signer at all is invalid, then the
/// verdict decides.
pub open spec fn verify_outcome(ret: i32, count: u32, verdict: i32) -> Result<Verified, Error> {
    if ret != 0 {
        Err(Error::Verify(ret))
    } else if count == 0 {
        Err(Error::Invalid)
    } else {
        match verdict_of(verdict as int) {
            Verdict::Valid => Ok(Verified { signer_count: count }),
            Verdict::Indeterminate => Err(Error::Indeterminate),
            Verdict::Failed => Err(Error::Invalid),
        }
    }
}

/// Reads what a verification call returned: its status `ret`, the signer
/// count and the verdict code it wrote.
pub fn interpret(ret: i32, count: u32, verdict: i32) -> (r: Result<Verified, Error>)
    ensures
        r == verify_outcome(ret, count, verdict),
{
    if ret != 0 {
        return Err(Error::Verify(ret));
    }
    if count == 0 {
        return Err(Error::Invalid);
    }
    match Verdict::from_code(verdict) {
        Verdict::Valid => Ok(Verified { signer_count: count }),
        Verdict::Indeterminate => Err(Error::Indeterminate),
        Verdict::Failed => Err(Error::Invalid),
    }
}

/// A verification succeeds only when the call reported no error, at least one
/// signer and the verdict "valid"; the success then carries that signer count.
pub proof fn lemma_success_is_valid_verdict(ret: i32, count: u32, verdict: i32)
    ensures
        verify_outcome(ret, count, verdict) is Ok <==> (ret == 0 && count > 0 && verdict == 1),
        verify_outcome(ret, count, verdict) matches Ok(v) ==> v.signer_count == count
            && v.signer_count >= 1,
{
}

/// A verdict code the wrapper does not know fails closed: with no call error
/// it is `Invalid`, never a success and never `Indeterminate`.
pub proof fn lemma_unknown_verdict_fails_closed(ret: i32, count: u32, verdict: i32)
    requires
        verdict != 1,
        verdict != 2,
    ensures
        verify_outcome(ret, count, verdict) == (if ret != 0 {
            Err::<Verified, Error>(Error::Verify(ret))
        } else {
            Err::<Verified, Error>(Error::Invalid)
        }),
{
}

/// Once the call itself reported no error, there are exactly three outcomes:
/// verified, `Invalid` or `Indeterminate`; and `Indeterminate` comes exactly
/// from the verdict code 2 with at least one signer.
pub proof fn lemma_three_outcomes(count: u32, verdict: i32)
    ensures
        ({
            let r = verify_outcome(0, count, verdict);
            ||| r is Ok
            ||| r == Err::<Verified, Error>(Error::Invalid)
            ||| r == Err::<Verified, Error>(Error::Indeterminate)
        }),
        verify_outcome(0, count, verdict) == Err::<Verified, Error>(Error::Indeterminate) <==> (
        count > 0 && verdict == 2),
{
}

/// A call error is passed on as it is, whatever the count and verdict.
pub proof fn lemma_call_error_passes_through(ret: i32, count: u32, verdict: i32)
    requires
        ret != 0,
    ensures
        verify_outcome(ret, count, verdict) == Err::<Verified, Error>(Error::Verify(ret)),
{
}

} // verus!
