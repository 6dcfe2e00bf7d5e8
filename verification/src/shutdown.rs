//! The cooperative shutdown signal: written once by the coordinator, polled
//! by every worker after each completed request. Once raised it stays raised,
//! and raising it again changes nothing a reader can observe.

use vstd::prelude::*;

verus! {

/// The shutdown signal, counted like the interrupt notifications that raise
/// it. Readers only ever ask whether it has been raised at all.
pub struct ShutdownFlag {
    pub signals: u64,
}

/// The flag's state after one more shutdown request.
pub open spec fn raised(f: ShutdownFlag) -> ShutdownFlag {
    ShutdownFlag {
        signals: if f.signals < u64::MAX {
            (f.signals + 1) as u64
        } else {
            u64::MAX
        },
    }
}

impl ShutdownFlag {
    /// All a reader observes of the flag: has shutdown been requested?
    pub open spec fn spec_is_set(self) -> bool {
        self.signals > 0
    }

    /// The flag starts unset and is raised at most once per interrupt.
    pub fn new() -> (f: ShutdownFlag)
        ensures
            f.signals == 0,
            !f.spec_is_set(),
    {
        ShutdownFlag { signals: 0 }
    }

    /// Request shutdown. The transition is 0 to 1 exactly once: afterwards
    /// the flag is set and stays set.
    pub fn set(&mut self)
        ensures
            *final(self) == raised(*old(self)),
            final(self).spec_is_set(),
    {
        self.signals = if self.signals < u64::MAX {
            self.signals + 1
        } else {
            u64::MAX
        };
    }

    /// Poll the flag, as each worker does after recording an outcome.
    pub fn is_set(&self) -> (set: bool)
        ensures
            set == self.spec_is_set(),
    {
        self.signals > 0
    }
}

/// Shutdown is idempotent: raising the flag a second time has no observable
/// effect — readers see it set after one request, and still just set after
/// two — and raising it never unsets it.
pub proof fn lemma_shutdown_idempotent(f: ShutdownFlag)
    ensures
        raised(f).spec_is_set(),
        raised(raised(f)).spec_is_set() == raised(f).spec_is_set(),
        f.spec_is_set() ==> raised(f).spec_is_set(),
{
}

} // verus!
