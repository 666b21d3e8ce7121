//! The process supervisor's shared state: one optional child-process handle,
//! consumed at most once by the shutdown path.

use vstd::prelude::*;

verus! {

/// What the host must do after one shutdown request was handled.
#[derive(Debug, PartialEq, Eq)]
pub enum ShutdownAction<T> {
    /// A live child handle was recorded: terminate that process and block
    /// until the operating system reports that it has exited.
    Kill(T),
    /// No handle was recorded (the child was never spawned, or an earlier
    /// request already consumed it): do nothing.
    NoOp,
}

/// Whether one shutdown request, taking the slot from state `pre` to state
/// `post`, may answer with the action `act`: the slot is empty afterwards,
/// and a kill is asked for exactly the handle that was present, if any.
pub open spec fn shutdown_rel<T>(pre: Option<T>, post: Option<T>, act: ShutdownAction<T>) -> bool {
    &&& post is None
    &&& match pre {
        Some(h) => act == ShutdownAction::Kill(h),
        None => act == ShutdownAction::<T>::NoOp,
    }
}

/// The shared, lock-protected optional handle to the one supervised child
/// process. At most one live handle is ever stored, and it is only moved out,
/// never cloned: whichever shutdown request runs first consumes it.
pub struct HandleSlot<T> {
    handle: Option<T>,
}

impl<T> View for HandleSlot<T> {
    type V = Option<T>;

    closed spec fn view(&self) -> Option<T> {
        self.handle
    }
}

impl<T> HandleSlot<T> {
    /// A slot in which no child process has been recorded yet.
    pub fn empty() -> (s: Self)
        ensures
            s@ is None,
    {
        HandleSlot { handle: None }
    }

    /// Record the handle of the freshly spawned child process.
    pub fn record(&mut self, h: T)
        ensures
            final(self)@ == Some(h),
    {
        self.handle = Some(h);
    }

    /// Whether a handle is currently recorded.
    pub fn is_recorded(&self) -> (b: bool)
        ensures
            b == (self@ is Some),
    {
        self.handle.is_some()
    }

    /// Handle one shutdown request: consume the recorded handle, if any.
    ///
    /// The slot is empty afterwards, so of two successive requests only the
    /// first can ever answer with a kill.
    pub fn shutdown(&mut self) -> (act: ShutdownAction<T>)
        ensures
            shutdown_rel(old(self)@, final(self)@, act),
            final(self)@ is None,
    {
        let mut taken: Option<T> = None;
        core::mem::swap(&mut self.handle, &mut taken);
        match taken {
            Some(h) => ShutdownAction::Kill(h),
            None => ShutdownAction::NoOp,
        }
    }
}

/// Shutdown is idempotent: a second shutdown request, starting from the state
/// the first one left behind, asks for no kill and leaves the slot empty.
pub proof fn lemma_shutdown_idempotent<T>(
    s0: Option<T>,
    s1: Option<T>,
    a1: ShutdownAction<T>,
    s2: Option<T>,
    a2: ShutdownAction<T>,
)
    requires
        shutdown_rel(s0, s1, a1),
        shutdown_rel(s1, s2, a2),
    ensures
        a2 == ShutdownAction::<T>::NoOp,
        s2 is None,
{
}

} // verus!
