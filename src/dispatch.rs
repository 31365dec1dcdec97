use vstd::prelude::*;
use crate::error::{should_retry, Error};
use crate::retry::{is_run, ran_after_resets, run_with_retries, ResourceContext, RetryOutcome};

verus! {

/// A unit of work wrapped for the worker thread: running it applies the
/// retry-with-reset policy to `work`.
pub struct RetryJob<F> {
    pub work: F,
}

impl<F> RetryJob<F> {
    /// Runs the wrapped work against `ctx` with retries: attempt `i` (from 0)
    /// sees the context after exactly `i` resets, and the context is reset
    /// once between each pair of consecutive attempts.
    pub fn run<C, T>(&self, ctx: &mut C) -> (out: RetryOutcome<T>)
        where
            C: ResourceContext,
            F: Fn(&C) -> Result<T, Error>,
        requires
            forall|c: &C| #[trigger] self.work.requires((c,)),
        ensures
            is_run(out.seen@),
            forall|i: int|
                0 <= i < out.seen@.len() ==> ran_after_resets(
                    self.work,
                    (old(ctx).resets() + i) as nat,
                    #[trigger] out.seen@[i],
                ),
            out.result == out.seen@.last(),
            out.attempts == out.seen@.len(),
            out.resets + 1 == out.attempts,
            final(ctx).resets() == old(ctx).resets() + out.resets,
            !should_retry(out.seen@[0]) ==> out.resets == 0 && out.result == out.seen@[0]
                && final(ctx).resets() == old(ctx).resets(),
    {
        run_with_retries(ctx, &self.work)
    }
}

/// The caller's result, from whether the job was enqueued and what came back
/// on its result channel (`None`: the channel closed without a value).
pub open spec fn settled<T>(submitted: Result<(), Error>, received: Option<Result<T, Error>>) -> Result<
    T,
    Error,
> {
    match submitted {
        Err(e) => Err(e),
        Ok(_) => match received {
            Some(r) => r,
            None => Err(Error::ReceiverError),
        },
    }
}

/// Combines the two transport steps of a call: a failed submission is
/// returned as is, a missing result becomes `Error::ReceiverError`, and
/// otherwise the work's own result is returned.
pub fn settle<T>(submitted: Result<(), Error>, received: Option<Result<T, Error>>) -> (r: Result<
    T,
    Error,
>)
    ensures
        r == settled(submitted, received),
{
    match submitted {
        Err(e) => Err(e),
        Ok(_) => match received {
            Some(r) => r,
            None => Err(Error::ReceiverError),
        },
    }
}

/// Runs `f` on the worker that owns the resource context and returns its
/// outcome. `f` is wrapped in a `RetryJob`; `dispatch` submits that job to the
/// worker, waits on its result channel, and reports both steps.
pub fn with_com_objects<C, T, F, D>(f: F, dispatch: D) -> (r: Result<T, Error>)
    where
        C: ResourceContext,
        F: Fn(&C) -> Result<T, Error>,
        D: FnOnce(RetryJob<F>) -> (Result<(), Error>, Option<Result<T, Error>>),
    requires
        dispatch.requires(((RetryJob { work: f }),)),
    ensures
        exists|o: (Result<(), Error>, Option<Result<T, Error>>)|
            #![trigger dispatch.ensures(((RetryJob { work: f }),), o)]
            dispatch.ensures(((RetryJob { work: f }),), o) && r == settled(o.0, o.1),
{
    let (submitted, received) = dispatch(RetryJob { work: f });
    settle(submitted, received)
}

} // verus!
