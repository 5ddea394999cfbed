//! The background render loop's handle and the rule that decides, from the
//! intent flags, whether the loop runs.
//!
//! A worker is Idle or Running. Starting a running worker or stopping an
//! idle one does nothing. Each start hands out a fresh `keep_alive` flag for
//! the loop to poll; stopping clears it, and the loop ends at its next poll.

use std::sync::atomic::{AtomicBool, Ordering};
use std::sync::Arc;
use vstd::prelude::*;

verus! {

/// Relies on `Arc::clone`: another handle to the same allocation.
#[verifier::external_body]
fn share_flag(flag: &Arc<AtomicBool>) -> (shared: Arc<AtomicBool>)
    ensures
        shared == *flag,
{
    Arc::clone(flag)
}

/// Starting a worker that is `running` or not: it runs afterwards, and a
/// loop is spawned only if it was idle. The pair is (running, spawned).
pub open spec fn started(running: bool) -> (bool, bool) {
    (true, !running)
}

/// The handle of the background loop.
pub struct Worker {
    running: bool,
    keep_alive: Arc<AtomicBool>,
}

impl Worker {
    /// Whether a loop is running.
    pub closed spec fn running(&self) -> bool {
        self.running
    }

    /// The `keep_alive` flag that `stop` clears.
    pub closed spec fn flag(&self) -> Arc<AtomicBool> {
        self.keep_alive
    }

    /// An idle worker.
    pub fn new() -> (w: Worker)
        ensures
            !w.running(),
    {
        Worker { running: false, keep_alive: Arc::new(AtomicBool::new(false)) }
    }

    pub fn is_running(&self) -> (r: bool)
        ensures
            r == self.running(),
    {
        self.running
    }

    /// Moves an idle worker to Running and returns the `keep_alive` flag
    /// that the caller's new loop must poll; a running worker is left as it
    /// is and `None` comes back, so no second loop is spawned.
    pub fn run(&mut self) -> (flag: Option<Arc<AtomicBool>>)
        ensures
            (final(self).running(), flag is Some) == started(old(self).running()),
            flag matches Some(f) ==> f == final(self).flag(),
            old(self).running() ==> *final(self) == *old(self),
    {
        if self.running {
            return None;
        }
        let flag = Arc::new(AtomicBool::new(true));
        self.keep_alive = share_flag(&flag);
        self.running = true;
        Some(flag)
    }

    /// Clears the `keep_alive` flag of a running worker, which its loop
    /// observes at its next poll; an idle worker is left as it is.
    pub fn stop(&mut self)
        ensures
            !final(self).running(),
            final(self).flag() == old(self).flag(),
            !old(self).running() ==> *final(self) == *old(self),
    {
        if self.running {
            self.keep_alive.store(false, Ordering::Relaxed);
            self.running = false;
        }
    }
}

/// Whether the `keep_alive` flag handed to a loop still asks it to go on.
pub fn keep_going(flag: &AtomicBool) -> bool {
    flag.load(Ordering::Relaxed)
}

/// Starting twice in a row spawns exactly one loop and leaves the worker
/// running.
pub proof fn lemma_start_idempotent(running: bool)
    ensures
        started(running).0,
        started(running).1 == !running,
        started(started(running).0) == (true, false),
{
}

/// Which overlays a loop renders.
#[derive(Clone, Copy, Debug, PartialEq, Eq, Structural)]
pub enum ScopeKind {
    /// The vectorscope only.
    VectorScope,
    /// The waveform only.
    Waveform,
    /// Whichever overlays the intent flags request on each tick.
    Combined,
}

/// The independently settable intents that decide what runs.
#[derive(Clone, Copy, Debug, PartialEq, Eq, Structural)]
pub struct IntentFlags {
    pub vector_scope_open: bool,
    pub waveform_open: bool,
    pub manual_mode: bool,
}

/// The overlays to render on one tick.
#[derive(Clone, Copy, Debug, PartialEq, Eq, Structural)]
pub struct Overlays {
    pub vector_scope: bool,
    pub waveform: bool,
}

impl IntentFlags {
    /// All intents off, as at process start.
    pub fn new() -> (f: IntentFlags)
        ensures
            f == (IntentFlags { vector_scope_open: false, waveform_open: false, manual_mode: false }),
    {
        IntentFlags { vector_scope_open: false, waveform_open: false, manual_mode: false }
    }
}

/// The loop should run when a scope window is open and manual refresh is off.
pub open spec fn should_run(f: IntentFlags) -> bool {
    (f.vector_scope_open || f.waveform_open) && !f.manual_mode
}

pub open spec fn overlays_for(kind: ScopeKind, f: IntentFlags) -> Overlays {
    match kind {
        ScopeKind::VectorScope => Overlays { vector_scope: true, waveform: false },
        ScopeKind::Waveform => Overlays { vector_scope: false, waveform: true },
        ScopeKind::Combined => Overlays { vector_scope: f.vector_scope_open, waveform: f.waveform_open },
    }
}

/// The overlays a loop of `kind` renders on a tick with intents `flags`.
pub fn requested_overlays(kind: ScopeKind, flags: &IntentFlags) -> (o: Overlays)
    ensures
        o == overlays_for(kind, *flags),
{
    match kind {
        ScopeKind::VectorScope => Overlays { vector_scope: true, waveform: false },
        ScopeKind::Waveform => Overlays { vector_scope: false, waveform: true },
        ScopeKind::Combined => Overlays { vector_scope: flags.vector_scope_open, waveform: flags.waveform_open },
    }
}

/// The loop that renders whichever overlays are requested.
pub struct ImageProcessThread {
    pub worker_thread: Worker,
}

pub fn create_image_process_thread() -> (t: ImageProcessThread)
    ensures
        !t.worker_thread.running(),
{
    ImageProcessThread::new()
}

impl ImageProcessThread {
    pub fn new() -> (t: ImageProcessThread)
        ensures
            !t.worker_thread.running(),
    {
        ImageProcessThread { worker_thread: Worker::new() }
    }

    pub fn kind(&self) -> (k: ScopeKind)
        ensures
            k == ScopeKind::Combined,
    {
        ScopeKind::Combined
    }

    /// Starts the loop unless it runs; see `Worker::run`.
    pub fn run(&mut self) -> (flag: Option<Arc<AtomicBool>>)
        ensures
            (final(self).worker_thread.running(), flag is Some) == started(old(self).worker_thread.running()),
            flag matches Some(f) ==> f == final(self).worker_thread.flag(),
            old(self).worker_thread.running() ==> *final(self) == *old(self),
    {
        self.worker_thread.run()
    }

    /// Stops the loop if it runs; see `Worker::stop`.
    pub fn stop(&mut self)
        ensures
            !final(self).worker_thread.running(),
            final(self).worker_thread.flag() == old(self).worker_thread.flag(),
            !old(self).worker_thread.running() ==> *final(self) == *old(self),
    {
        self.worker_thread.stop()
    }
}

/// The loop that renders the vectorscope alone.
pub struct VectorScopeWorker {
    pub worker_thread: Worker,
}

pub fn create_vector_scope_thread() -> (t: VectorScopeWorker)
    ensures
        !t.worker_thread.running(),
{
    VectorScopeWorker::new()
}

impl VectorScopeWorker {
    pub fn new() -> (t: VectorScopeWorker)
        ensures
            !t.worker_thread.running(),
    {
        VectorScopeWorker { worker_thread: Worker::new() }
    }

    pub fn kind(&self) -> (k: ScopeKind)
        ensures
            k == ScopeKind::VectorScope,
    {
        ScopeKind::VectorScope
    }

    /// Starts the loop unless it runs; see `Worker::run`.
    pub fn run(&mut self) -> (flag: Option<Arc<AtomicBool>>)
        ensures
            (final(self).worker_thread.running(), flag is Some) == started(old(self).worker_thread.running()),
            flag matches Some(f) ==> f == final(self).worker_thread.flag(),
            old(self).worker_thread.running() ==> *final(self) == *old(self),
    {
        self.worker_thread.run()
    }

    /// Stops the loop if it runs; see `Worker::stop`.
    pub fn stop(&mut self)
        ensures
            !final(self).worker_thread.running(),
            final(self).worker_thread.flag() == old(self).worker_thread.flag(),
            !old(self).worker_thread.running() ==> *final(self) == *old(self),
    {
        self.worker_thread.stop()
    }
}

/// Whether the loop runs after the intents change from `before` to `after`
/// while it was `running`: an unchanged value triggers nothing, any change
/// brings the loop to `should_run(after)`.
pub open spec fn after_change(before: IntentFlags, after: IntentFlags, running: bool) -> bool {
    if before == after {
        running
    } else {
        should_run(after)
    }
}

/// Brings the worker to the state the intents ask for. Returns the
/// `keep_alive` flag of a loop to spawn when the worker had to start.
pub fn check_thread_need_to_be_keep_alive(flags: &IntentFlags, worker: &mut Worker) -> (spawn: Option<
    Arc<AtomicBool>,
>)
    ensures
        final(worker).running() == should_run(*flags),
        spawn is Some <==> (should_run(*flags) && !old(worker).running()),
        spawn matches Some(f) ==> f == final(worker).flag(),
        should_run(*flags) == old(worker).running() ==> *final(worker) == *old(worker),
{
    let run = (flags.vector_scope_open || flags.waveform_open) && !flags.manual_mode;
    if run {
        worker.run()
    } else {
        worker.stop();
        None
    }
}

/// The intent flags together with the loop they govern.
pub struct MainViewModel {
    pub flags: IntentFlags,
    pub image_process: ImageProcessThread,
}

impl MainViewModel {
    /// Whether the loop runs.
    pub open spec fn running(&self) -> bool {
        self.image_process.worker_thread.running()
    }

    /// All intents off and the loop idle.
    pub fn new() -> (m: MainViewModel)
        ensures
            m.flags == (IntentFlags { vector_scope_open: false, waveform_open: false, manual_mode: false }),
            !m.running(),
    {
        MainViewModel { flags: IntentFlags::new(), image_process: ImageProcessThread::new() }
    }

    fn apply(&mut self, flags: IntentFlags) -> (spawn: Option<Arc<AtomicBool>>)
        ensures
            final(self).flags == flags,
            final(self).running() == after_change(old(self).flags, flags, old(self).running()),
            spawn is Some <==> (!old(self).running() && final(self).running()),
            spawn matches Some(f) ==> f == final(self).image_process.worker_thread.flag(),
            flags == old(self).flags ==> *final(self) == *old(self),
    {
        if flags == self.flags {
            return None;
        }
        self.flags = flags;
        check_thread_need_to_be_keep_alive(&self.flags, &mut self.image_process.worker_thread)
    }

    /// Records whether the vectorscope window is open and reconciles the
    /// loop. Returns the `keep_alive` flag of a loop to spawn, if one must be.
    pub fn set_is_vector_scope_window_open(&mut self, state: bool) -> (spawn: Option<Arc<AtomicBool>>)
        ensures
            final(self).flags == (IntentFlags { vector_scope_open: state, ..old(self).flags }),
            final(self).running() == after_change(old(self).flags, final(self).flags, old(self).running()),
            spawn is Some <==> (!old(self).running() && final(self).running()),
            spawn matches Some(f) ==> f == final(self).image_process.worker_thread.flag(),
            old(self).flags.vector_scope_open == state ==> *final(self) == *old(self),
    {
        let flags = IntentFlags { vector_scope_open: state, ..self.flags };
        self.apply(flags)
    }

    /// Records whether the waveform window is open and reconciles the loop.
    pub fn set_is_waveform_window_open(&mut self, state: bool) -> (spawn: Option<Arc<AtomicBool>>)
        ensures
            final(self).flags == (IntentFlags { waveform_open: state, ..old(self).flags }),
            final(self).running() == after_change(old(self).flags, final(self).flags, old(self).running()),
            spawn is Some <==> (!old(self).running() && final(self).running()),
            spawn matches Some(f) ==> f == final(self).image_process.worker_thread.flag(),
            old(self).flags.waveform_open == state ==> *final(self) == *old(self),
    {
        let flags = IntentFlags { waveform_open: state, ..self.flags };
        self.apply(flags)
    }

    /// Records whether manual refresh is on and reconciles the loop.
    pub fn set_manual_mode(&mut self, state: bool) -> (spawn: Option<Arc<AtomicBool>>)
        ensures
            final(self).flags == (IntentFlags { manual_mode: state, ..old(self).flags }),
            final(self).running() == after_change(old(self).flags, final(self).flags, old(self).running()),
            spawn is Some <==> (!old(self).running() && final(self).running()),
            spawn matches Some(f) ==> f == final(self).image_process.worker_thread.flag(),
            old(self).flags.manual_mode == state ==> *final(self) == *old(self),
    {
        let flags = IntentFlags { manual_mode: state, ..self.flags };
        self.apply(flags)
    }
}

/// Opening the vectorscope while nothing else is open and manual refresh is
/// off starts an idle loop; closing both windows stops it; turning manual
/// refresh on stops it even though a window stays open.
pub proof fn lemma_reconciliation(flags: IntentFlags, running: bool)
    ensures
        !flags.vector_scope_open && !flags.waveform_open && !flags.manual_mode ==> after_change(
            flags,
            IntentFlags { vector_scope_open: true, ..flags },
            running,
        ),
        (flags.vector_scope_open || flags.waveform_open) ==> !after_change(
            flags,
            IntentFlags { vector_scope_open: false, waveform_open: false, ..flags },
            running,
        ),
        (flags.vector_scope_open || flags.waveform_open) && !flags.manual_mode ==> !after_change(
            flags,
            IntentFlags { manual_mode: true, ..flags },
            running,
        ),
{
}

} // verus!
