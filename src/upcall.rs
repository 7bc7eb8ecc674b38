use vstd::prelude::*;

verus! {

/// A registered notification target of a process: the process it belongs to
/// and an opaque token naming the user-space function to run.
#[derive(Clone, Copy, Debug, PartialEq, Eq, Structural)]
pub struct Callback {
    pub app_id: usize,
    pub token: usize,
}

impl Callback {
    /// The process this target belongs to.
    pub fn app_id(&self) -> (r: usize)
        ensures
            r == self.app_id,
    {
        self.app_id
    }
}

/// A deferred notification: the target to run later, with three words.
#[derive(Clone, Copy, Debug, PartialEq, Eq, Structural)]
pub struct Upcall {
    pub callback: Callback,
    pub r0: usize,
    pub r1: usize,
    pub r2: usize,
}

/// The notification scheduled on an optional target: none without one.
pub open spec fn schedule_spec(cb: Option<Callback>, r0: usize, r1: usize, r2: usize) -> Option<
    Upcall,
> {
    match cb {
        Some(c) => Some(Upcall { callback: c, r0, r1, r2 }),
        None => None,
    }
}

/// Schedules a notification with three words on an optional target.
pub fn schedule(cb: Option<Callback>, r0: usize, r1: usize, r2: usize) -> (r: Option<Upcall>)
    ensures
        r == schedule_spec(cb, r0, r1, r2),
{
    match cb {
        Some(c) => Some(Upcall { callback: c, r0, r1, r2 }),
        None => None,
    }
}

} // verus!
