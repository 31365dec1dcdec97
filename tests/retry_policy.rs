use std::cell::Cell;
use vd_worker::dispatch::{settle, with_com_objects, RetryJob};
use vd_worker::error::{is_retryable, Error};
use vd_worker::retry::{run_with_retries, ResourceContext, MAX_RETRIES};

struct CountingContext {
    resets: u32,
}

impl ResourceContext for CountingContext {
    // The reset count that contracts speak of; a ghost value with no runtime content.
    fn resets(&self) -> vstd::prelude::nat {
        vstd::prelude::nat
    }

    fn create() -> Self {
        CountingContext { resets: 0 }
    }

    fn reset(&mut self) {
        self.resets += 1;
    }
}

fn run_locally<T, F>(ctx: &mut CountingContext, f: F) -> Result<T, Error>
where
    F: Fn(&CountingContext) -> Result<T, Error>,
{
    with_com_objects(f, |job: RetryJob<F>| (Ok(()), Some(job.run(ctx).result)))
}

#[test]
fn success_is_returned_without_reset() {
    let mut ctx = CountingContext::create();
    let calls = Cell::new(0u32);
    let r = run_locally(&mut ctx, |_c: &CountingContext| {
        calls.set(calls.get() + 1);
        Ok::<u32, Error>(42)
    });
    assert_eq!(r, Ok(42));
    assert_eq!(calls.get(), 1);
    assert_eq!(ctx.resets, 0);
}

#[test]
fn terminal_error_is_returned_without_reset() {
    let mut ctx = CountingContext::create();
    let calls = Cell::new(0u32);
    let r = run_locally(&mut ctx, |_c: &CountingContext| {
        calls.set(calls.get() + 1);
        Err::<u32, Error>(Error::AccessDenied)
    });
    assert_eq!(r, Err(Error::AccessDenied));
    assert_eq!(calls.get(), 1);
    assert_eq!(ctx.resets, 0);
}

#[test]
fn three_transient_failures_then_success() {
    let mut ctx = CountingContext::create();
    let calls = Cell::new(0u32);
    let r = run_locally(&mut ctx, |_c: &CountingContext| {
        calls.set(calls.get() + 1);
        if calls.get() <= 3 {
            Err(Error::RpcServerNotAvailable)
        } else {
            Ok(7u32)
        }
    });
    assert_eq!(r, Ok(7));
    assert_eq!(calls.get(), 4);
    assert_eq!(ctx.resets, 3);
}

#[test]
fn always_transient_runs_six_times() {
    let mut ctx = CountingContext::create();
    let calls = Cell::new(0u32);
    let out = run_with_retries(&mut ctx, &|_c: &CountingContext| {
        calls.set(calls.get() + 1);
        Err::<(), Error>(Error::ClassNotRegistered)
    });
    assert_eq!(out.result, Err(Error::ClassNotRegistered));
    assert_eq!(out.attempts, MAX_RETRIES + 1);
    assert_eq!(out.attempts, 6);
    assert_eq!(out.resets, 5);
    assert_eq!(calls.get(), 6);
    assert_eq!(ctx.resets, 5);
}

#[test]
fn every_transient_kind_is_retried() {
    for e in [
        Error::ClassNotRegistered,
        Error::RpcServerNotAvailable,
        Error::ComObjectNotConnected,
        Error::ComAllocatedNullPtr,
    ] {
        let mut ctx = CountingContext::create();
        let calls = Cell::new(0u32);
        let out = run_with_retries(&mut ctx, &|_c: &CountingContext| {
            calls.set(calls.get() + 1);
            if calls.get() == 1 {
                Err(e)
            } else {
                Ok(calls.get())
            }
        });
        assert!(e.is_transient());
        assert_eq!(out.result, Ok(2));
        assert_eq!(out.attempts, 2);
        assert_eq!(ctx.resets, 1);
    }
}

#[test]
fn terminal_kinds_are_not_retried() {
    for e in [
        Error::AccessDenied,
        Error::DesktopNotFound,
        Error::WindowNotFound,
        Error::ComError(-5),
        Error::SenderError,
        Error::ReceiverError,
        Error::JoinError,
    ] {
        let mut ctx = CountingContext::create();
        let out = run_with_retries(&mut ctx, &|_c: &CountingContext| Err::<u8, Error>(e));
        assert!(!e.is_transient());
        assert!(!is_retryable(&out.result));
        assert_eq!(out.result, Err(e));
        assert_eq!(out.attempts, 1);
        assert_eq!(out.resets, 0);
        assert_eq!(ctx.resets, 0);
    }
}

#[test]
fn success_after_last_retry_is_kept() {
    let mut ctx = CountingContext::create();
    let calls = Cell::new(0u32);
    let out = run_with_retries(&mut ctx, &|_c: &CountingContext| {
        calls.set(calls.get() + 1);
        if calls.get() <= 5 {
            Err(Error::ComObjectNotConnected)
        } else {
            Ok("done")
        }
    });
    assert_eq!(out.result, Ok("done"));
    assert_eq!(out.attempts, 6);
    assert_eq!(ctx.resets, 5);
}

#[test]
fn failed_submission_is_returned() {
    assert_eq!(settle::<u8>(Err(Error::SenderError), Some(Ok(1))), Err(Error::SenderError));
}

#[test]
fn missing_result_is_receiver_error() {
    assert_eq!(settle::<u8>(Ok(()), None), Err(Error::ReceiverError));
}

#[test]
fn received_result_is_returned() {
    assert_eq!(settle::<u8>(Ok(()), Some(Ok(3))), Ok(3));
    assert_eq!(settle::<u8>(Ok(()), Some(Err(Error::AccessDenied))), Err(Error::AccessDenied));
}

#[test]
fn dispatch_failure_reaches_the_caller() {
    let r = with_com_objects(
        |_c: &CountingContext| Ok::<u8, Error>(1),
        |_job: RetryJob<_>| (Err(Error::SenderError), None),
    );
    assert_eq!(r, Err(Error::SenderError));
    let r = with_com_objects(
        |_c: &CountingContext| Ok::<u8, Error>(1),
        |_job: RetryJob<_>| (Ok(()), None),
    );
    assert_eq!(r, Err(Error::ReceiverError));
}
