use vstd::prelude::*;
use crate::error::Error;

verus! {

/// The lifecycle state of the single worker thread: its join handle `H` and the
/// sending end `S` of its command queue. Both slots are empty while no worker
/// exists and both are filled while one runs.
///
/// The manager itself spawns nothing: `send` and `stop` decide what must happen
/// and call back into the caller for the spawning, enqueueing and joining.
/// A worker whose thread died keeps its closed queue, so later sends fail with
/// `Error::SenderError` until `stop` clears it; the next send then starts anew.
pub struct WorkerThread<H, S> {
    thread: Option<H>,
    sender: Option<S>,
    epoch: Ghost<nat>,
}

impl<H, S> WorkerThread<H, S> {
    /// The join handle of the running worker, if any.
    pub closed spec fn thread_slot(&self) -> Option<H> {
        self.thread
    }

    /// The sending end of the running worker's queue, if any.
    pub closed spec fn sender_slot(&self) -> Option<S> {
        self.sender
    }

    /// How many workers (and so resource contexts) have been started so far;
    /// the current one, if running, is identified by this number.
    pub closed spec fn epoch(&self) -> nat {
        self.epoch@
    }

    /// A sender never exists without its thread, nor a thread without its sender.
    pub open spec fn wf(&self) -> bool {
        self.thread_slot().is_some() == self.sender_slot().is_some()
    }

    pub open spec fn is_running(&self) -> bool {
        self.sender_slot().is_some()
    }

    /// A manager with no worker.
    pub fn new() -> (w: Self)
        ensures
            w.wf(),
            !w.is_running(),
            w.epoch() == 0,
    {
        WorkerThread { thread: None, sender: None, epoch: Ghost(0) }
    }

    /// Whether a worker is running.
    pub fn running(&self) -> (b: bool)
        ensures
            b == self.is_running(),
    {
        self.sender.is_some()
    }

    /// Hands `work` to a running worker through `deliver`, without changing the
    /// manager; `Err(work)` gives the work back where no worker runs. A refused
    /// delivery is `Ok(Err(Error::SenderError))`.
    pub fn send_if_running<W, Dl>(&self, work: W, deliver: Dl) -> (r: Result<Result<(), Error>, W>)
        where
            Dl: FnOnce(&S, W) -> bool,
        requires
            forall|s: &S| #[trigger] deliver.requires((s, work)),
        ensures
            !self.is_running() ==> r == Err::<Result<(), Error>, W>(work),
            self.is_running() ==> exists|b: bool|
                #![trigger deliver.ensures((&self.sender_slot().unwrap(), work), b)]
                deliver.ensures((&self.sender_slot().unwrap(), work), b) && r == Ok::<
                    Result<(), Error>,
                    W,
                >(if b {
                    Ok::<(), Error>(())
                } else {
                    Err(Error::SenderError)
                }),
    {
        match &self.sender {
            Some(s) => {
                if deliver(s, work) {
                    Ok(Ok(()))
                } else {
                    Ok(Err(Error::SenderError))
                }
            },
            None => Err(work),
        }
    }

    /// Hands `work` to the worker. Where a worker runs, `deliver` enqueues the
    /// work on its sender. Where none does, `spawn` first starts one and returns
    /// its handle and sender, which are kept. A refused delivery (the queue was
    /// closed) is `Error::SenderError`.
    pub fn send<W, Sp, Dl>(&mut self, work: W, spawn: Sp, deliver: Dl) -> (r: Result<(), Error>)
        where
            Sp: FnOnce() -> (H, S),
            Dl: FnOnce(&S, W) -> bool,
        requires
            old(self).wf(),
            spawn.requires(()),
            forall|s: &S| #[trigger] deliver.requires((s, work)),
        ensures
            submit_effect(*old(self), *final(self)),
            !old(self).is_running() ==> spawn.ensures(
                (),
                (final(self).thread_slot().unwrap(), final(self).sender_slot().unwrap()),
            ),
            exists|b: bool|
                #![trigger deliver.ensures((&final(self).sender_slot().unwrap(), work), b)]
                deliver.ensures((&final(self).sender_slot().unwrap(), work), b) && r == (if b {
                    Ok::<(), Error>(())
                } else {
                    Err(Error::SenderError)
                }),
    {
        if self.sender.is_none() {
            let (h, s) = spawn();
            self.thread = Some(h);
            self.sender = Some(s);
            self.epoch = Ghost(self.epoch@ + 1);
        }
        let delivered = match &self.sender {
            Some(s) => deliver(s, work),
            None => false,
        };
        if delivered {
            Ok(())
        } else {
            Err(Error::SenderError)
        }
    }

    /// Closes the queue (the worker ends once it has drained it), then hands the
    /// worker's handle to `join` and returns what `join` returned. With no worker
    /// this does nothing and succeeds.
    pub fn stop<E, J>(&mut self, join: J) -> (r: Result<(), E>)
        where
            J: FnOnce(H) -> Result<(), E>,
        requires
            old(self).wf(),
            forall|h: H| #[trigger] join.requires((h,)),
        ensures
            stop_effect(*old(self), *final(self), r),
            old(self).is_running() ==> join.ensures((old(self).thread_slot().unwrap(),), r),
    {
        // Dropping the sender here, before the join, is what lets the worker end.
        self.sender = None;
        match self.thread.take() {
            Some(h) => join(h),
            None => Ok(()),
        }
    }
}

/// What a `send` does to the manager: afterwards a worker runs; an existing one
/// is kept as it was, and otherwise exactly one new one has been started.
pub open spec fn submit_effect<H, S>(pre: WorkerThread<H, S>, post: WorkerThread<H, S>) -> bool {
    &&& post.wf()
    &&& post.is_running()
    &&& pre.is_running() ==> post == pre
    &&& !pre.is_running() ==> post.epoch() == pre.epoch() + 1
}

/// What a `stop` does to the manager: afterwards no worker runs and none was
/// started; with none running before, nothing changed and the stop succeeded.
pub open spec fn stop_effect<H, S, E>(
    pre: WorkerThread<H, S>,
    post: WorkerThread<H, S>,
    r: Result<(), E>,
) -> bool {
    &&& post.wf()
    &&& !post.is_running()
    &&& post.epoch() == pre.epoch()
    &&& !pre.is_running() ==> post == pre && r is Ok
}

/// Stopping twice in a row: the second stop succeeds and changes nothing, and
/// neither starts a worker.
pub proof fn lemma_stop_idempotent<H, S, E1, E2>(
    w0: WorkerThread<H, S>,
    w1: WorkerThread<H, S>,
    w2: WorkerThread<H, S>,
    r1: Result<(), E1>,
    r2: Result<(), E2>,
)
    requires
        w0.wf(),
        stop_effect(w0, w1, r1),
        stop_effect(w1, w2, r2),
    ensures
        r2 is Ok,
        w2 == w1,
        !w2.is_running(),
        w2.epoch() == w0.epoch(),
{
}

/// After a stop, the next send starts a new worker with a context newer than
/// every context before it.
pub proof fn lemma_restart_is_fresh<H, S, E>(
    w0: WorkerThread<H, S>,
    w1: WorkerThread<H, S>,
    w2: WorkerThread<H, S>,
    r: Result<(), E>,
)
    requires
        w0.wf(),
        stop_effect(w0, w1, r),
        submit_effect(w1, w2),
    ensures
        w2.is_running(),
        w2.epoch() == w0.epoch() + 1,
{
}

/// Once a worker runs, every further send reuses its thread, its queue and its
/// context: there is never a second owner.
pub proof fn lemma_single_worker<H, S>(
    w0: WorkerThread<H, S>,
    w1: WorkerThread<H, S>,
    w2: WorkerThread<H, S>,
)
    requires
        submit_effect(w0, w1),
        submit_effect(w1, w2),
    ensures
        w2 == w1,
        w2.thread_slot() == w1.thread_slot(),
        w2.sender_slot() == w1.sender_slot(),
        w2.epoch() == w1.epoch(),
{
}

/// Stops the worker: closes its queue, then joins it, and returns what the
/// join returned. With no worker this does nothing and succeeds.
pub fn stop_desktop_com_worker<H, S, E, J>(worker: &mut WorkerThread<H, S>, join: J) -> (r: Result<
    (),
    E,
>)
    where
        J: FnOnce(H) -> Result<(), E>,
    requires
        old(worker).wf(),
        forall|h: H| #[trigger] join.requires((h,)),
    ensures
        stop_effect(*old(worker), *final(worker), r),
        old(worker).is_running() ==> join.ensures((old(worker).thread_slot().unwrap(),), r),
{
    worker.stop(join)
}

} // verus!
