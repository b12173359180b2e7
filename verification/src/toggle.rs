//! The shared on/off flag: one boolean behind a lock, shared by the hotkey
//! monitor (which flips it) and the click emitter (which polls it).
//!
//! The lock is vstd's verified reader–writer lock, so mutual exclusion is
//! proved rather than assumed, and neither `read` nor `toggle` can panic —
//! there is no poisoning to crash on. Because the flag is shared between
//! threads, no contract can relate one call's result to an earlier call's:
//! the other thread may flip the value in between. What a flip does to the
//! value, and what the monitor and emitter do with it, is stated and proved
//! on the pure functions in the `monitor` and `emitter` modules; this type
//! only carries the value across threads.

use vstd::prelude::*;
use vstd::rwlock::RwLock;

verus! {

/// The "clicking active" flag, created off at startup.
pub struct ToggleFlag {
    lock: RwLock<bool, spec_fn(bool) -> bool>,
}

impl ToggleFlag {
    #[verifier::type_invariant]
    spec fn wf(&self) -> bool {
        forall|v: bool| self.lock.inv(v)
    }

    /// A fresh flag, off: the clicker starts inactive.
    pub fn new() -> ToggleFlag {
        let flag = ToggleFlag { lock: RwLock::new(false, Ghost(|v: bool| true)) };
        flag
    }

    /// The current value: acquires the lock for reading, copies the value,
    /// releases the lock. Never blocks longer than the one holder.
    pub fn read(&self) -> bool {
        proof {
            use_type_invariant(self);
        }
        let handle = self.lock.acquire_read();
        let v: bool = *handle.borrow();
        handle.release_read();
        v
    }

    /// Inverts the value under the write lock and returns the new value,
    /// for the caller's log line.
    pub fn toggle(&self) -> bool {
        proof {
            use_type_invariant(self);
        }
        let (v, handle) = self.lock.acquire_write();
        let nv: bool = !v;
        handle.release_write(nv);
        nv
    }
}

} // verus!
