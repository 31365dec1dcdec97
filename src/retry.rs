use vstd::prelude::*;
use crate::error::{is_retryable, should_retry, Error};

verus! {

/// How many times a unit of work is tried again after its first attempt.
pub const MAX_RETRIES: u32 = 5;

/// The stateful resource that units of work run against. One value of it lives
/// on the worker thread at a time; an implementation supplies the resource's
/// own constructor and reset. `resets` is the model that the retry contracts
/// count by: each implementation's `reset` must advance it by one, which Verus
/// checks only for implementations inside this crate.
pub trait ResourceContext: Sized {
    /// How many times this context has been reset since it was built.
    spec fn resets(&self) -> nat;

    /// Builds a fresh context; called on the worker thread when it starts.
    fn create() -> Self;

    /// Discards and reacquires any cached sub-handles. Safe to call repeatedly.
    fn reset(&mut self)
        ensures
            final(self).resets() == old(self).resets() + 1,
    ;
}

/// A legal sequence of attempt outcomes: every outcome but the last called for
/// a retry, and the last one either did not or used up the retries.
pub open spec fn is_run<T>(s: Seq<Result<T, Error>>) -> bool {
    &&& 1 <= s.len() <= MAX_RETRIES + 1
    &&& forall|i: int| 0 <= i < s.len() - 1 ==> #[trigger] should_retry(s[i])
    &&& (s.len() == MAX_RETRIES + 1 || !should_retry(s.last()))
}

/// A unit of work runs at most `MAX_RETRIES + 1` times; one that only ever
/// fails transiently runs exactly that many times, and its last error is
/// what the caller gets.
pub proof fn lemma_retry_bound<T>(s: Seq<Result<T, Error>>)
    requires
        is_run(s),
    ensures
        s.len() <= MAX_RETRIES + 1,
        (forall|i: int| 0 <= i < s.len() ==> #[trigger] should_retry(s[i])) ==> s.len()
            == MAX_RETRIES + 1,
{
}

/// Outcome `r` is what `f` returned when called on a context that had been
/// reset `n` times.
pub open spec fn ran_after_resets<C: ResourceContext, T, F: Fn(&C) -> Result<T, Error>>(
    f: F,
    n: nat,
    r: Result<T, Error>,
) -> bool {
    exists|c: C| #![trigger f.ensures((&c,), r)] c.resets() == n && f.ensures((&c,), r)
}

/// What running a unit of work with retries produced.
pub struct RetryOutcome<T> {
    /// The outcome of the last attempt, handed back to the caller.
    pub result: Result<T, Error>,
    /// How many times the unit of work ran.
    pub attempts: u32,
    /// How many times the context was reset.
    pub resets: u32,
    /// The outcome of each attempt, in order.
    pub seen: Ghost<Seq<Result<T, Error>>>,
}

/// Runs `f` against `ctx`; while the outcome is a transient error and fewer than
/// `MAX_RETRIES` retries were made, resets the context and runs `f` again.
///
/// Attempt `i` (from 0) runs against the context after exactly `i` of this
/// call's resets, and the call resets the context exactly `attempts - 1` times:
/// one reset between each pair of consecutive attempts, none before the first
/// or after the last.
pub fn run_with_retries<C, T, F>(ctx: &mut C, f: &F) -> (out: RetryOutcome<T>)
    where
        C: ResourceContext,
        F: Fn(&C) -> Result<T, Error>,
    requires
        forall|c: &C| #[trigger] f.requires((c,)),
    ensures
        is_run(out.seen@),
        forall|i: int|
            0 <= i < out.seen@.len() ==> ran_after_resets(
                *f,
                (old(ctx).resets() + i) as nat,
                #[trigger] out.seen@[i],
            ),
        out.result == out.seen@.last(),
        out.attempts == out.seen@.len(),
        out.resets + 1 == out.attempts,
        final(ctx).resets() == old(ctx).resets() + out.resets,
        !should_retry(out.seen@[0]) ==> out.resets == 0 && out.result == out.seen@[0]
            && final(ctx).resets() == old(ctx).resets(),
{
    let ghost base = ctx.resets();
    let mut r = f(&*ctx);
    let ghost mut seen: Seq<Result<T, Error>> = seq![r];
    let mut retries: u32 = 0;
    proof {
        assert(f.ensures((&*ctx,), r));
        assert(ran_after_resets(*f, base, r));
    }
    while retries < MAX_RETRIES && is_retryable(&r)
        invariant
            forall|c: &C| #[trigger] f.requires((c,)),
            retries <= MAX_RETRIES,
            seen.len() == retries + 1,
            seen.last() == r,
            ctx.resets() == base + retries,
            forall|i: int| 0 <= i < seen.len() - 1 ==> #[trigger] should_retry(seen[i]),
            forall|i: int|
                0 <= i < seen.len() ==> ran_after_resets(*f, (base + i) as nat, #[trigger] seen[i]),
        decreases MAX_RETRIES - retries,
    {
        ctx.reset();
        r = f(&*ctx);
        let ghost prev = seen;
        proof {
            assert(f.ensures((&*ctx,), r));
            assert(ran_after_resets(*f, (base + prev.len()) as nat, r));
            seen = seen.push(r);
            assert forall|i: int| 0 <= i < seen.len() - 1 implies #[trigger] should_retry(seen[i]) by {
                if i < prev.len() - 1 {
                    assert(should_retry(prev[i]));
                } else {
                    assert(seen[i] == prev.last());
                }
            }
            assert forall|i: int|
                0 <= i < seen.len() implies ran_after_resets(*f, (base + i) as nat, #[trigger] seen[i]) by {
                if i < prev.len() {
                    assert(seen[i] == prev[i]);
                }
            }
        }
        retries = retries + 1;
    }
    RetryOutcome { result: r, attempts: retries + 1, resets: retries, seen: Ghost(seen) }
}

} // verus!
