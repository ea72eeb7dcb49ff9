//! The read-only diagnostic: decide, from whether the destination executable
//! is present and from what invoking it with a version-query argument
//! produced, the reported version line or the exact failure kind. The
//! invocation itself is outside work; every decision about its result is
//! taken here.

use vstd::prelude::*;
use crate::errors::VerifyError;

verus! {

/// The line-feed byte that ends the first output line.
pub const LINE_FEED: u8 = 10;

/// The first line of a byte stream: everything before the first line feed,
/// or the whole stream when it holds none.
pub open spec fn first_line(s: Seq<u8>) -> Seq<u8>
    decreases s.len(),
{
    if s.len() == 0 {
        s
    } else if s[0] == LINE_FEED {
        Seq::<u8>::empty()
    } else {
        seq![s[0]] + first_line(s.drop_first())
    }
}

/// `first_line` is the prefix that ends at the first line feed (or at the
/// end of the stream when there is none).
proof fn lemma_first_line_take(s: Seq<u8>, n: int)
    requires
        0 <= n <= s.len(),
        forall|j: int| 0 <= j < n ==> s[j] != LINE_FEED,
        n == s.len() || s[n] == LINE_FEED,
    ensures
        first_line(s) == s.take(n),
    decreases s.len(),
{
    if n == 0 {
        assert(s.take(0) =~= Seq::<u8>::empty());
        if s.len() != 0 {
            assert(s[0] == LINE_FEED);
        } else {
            assert(s.take(0) =~= s);
        }
    } else {
        lemma_first_line_take(s.drop_first(), n - 1);
        assert(seq![s[0]] + s.drop_first().take(n - 1) =~= s.take(n));
    }
}

/// What the executable's standard output said, as the host hands it back.
#[derive(Debug)]
pub enum InvocationOutcome {
    /// The process could not be started at all.
    NotRun,
    /// The process ran to completion with the given success flag and
    /// captured standard output.
    Completed { success: bool, stdout: Vec<u8> },
}

/// Decide the result of one verification attempt: absent executable and
/// failed or unsuccessful invocations each map to their exact error kind;
/// a successful invocation yields the first line of its standard output.
pub fn version_from_invocation(present: bool, outcome: &InvocationOutcome) -> (r: Result<
    Vec<u8>,
    VerifyError,
>)
    ensures
        !present ==> (r matches Err(e) && e == VerifyError::ExecutableNotPresent),
        present ==> (outcome is NotRun ==> (r matches Err(e) && e
            == VerifyError::ProcessInvocationFailed)),
        present ==> (outcome matches InvocationOutcome::Completed { success: false, .. } ==> (
        r matches Err(e) && e == VerifyError::ProcessInvocationFailed)),
        present ==> (outcome matches InvocationOutcome::Completed { success: true, stdout } ==> (
        r matches Ok(v) && v@ == first_line(stdout@))),
{
    if !present {
        return Err(VerifyError::ExecutableNotPresent);
    }
    match outcome {
        InvocationOutcome::NotRun => Err(VerifyError::ProcessInvocationFailed),
        InvocationOutcome::Completed { success, stdout } => {
            if !*success {
                Err(VerifyError::ProcessInvocationFailed)
            } else {
                Ok(first_line_of(stdout))
            }
        },
    }
}

/// Extract the first line of a captured output buffer.
pub fn first_line_of(out: &Vec<u8>) -> (r: Vec<u8>)
    ensures
        r@ == first_line(out@),
{
    let mut n: usize = 0;
    while n < out.len() && out[n] != LINE_FEED
        invariant
            0 <= n <= out@.len(),
            forall|j: int| 0 <= j < n ==> out@[j] != LINE_FEED,
        decreases out@.len() - n,
    {
        n = n + 1;
    }
    proof {
        lemma_first_line_take(out@, n as int);
    }
    let mut r: Vec<u8> = Vec::new();
    let mut i: usize = 0;
    while i < n
        invariant
            0 <= i <= n <= out@.len(),
            r@ == out@.take(i as int),
        decreases n - i,
    {
        let b = out[i];
        r.push(b);
        proof {
            assert(out@.take(i as int).push(b) =~= out@.take(i as int + 1));
        }
        i = i + 1;
    }
    proof {
        assert(r@ =~= out@.take(n as int));
    }
    r
}

} // verus!
