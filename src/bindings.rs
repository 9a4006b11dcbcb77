use vstd::prelude::*;

verus! {

/// What a storage primitive of the host is currently bound to.
#[derive(PartialEq, Eq, Structural, Clone, Copy, Debug)]
pub enum Binding {
    /// The host's own implementation.
    Host,
    /// The witness-backed implementation of the storage adapter.
    Witness,
    /// Marked unimplemented: calling it is a contract violation.
    Unimplemented,
}

/// The host's storage primitives: the three that replay intercepts, and all
/// the others, which replay must never reach.
#[derive(PartialEq, Eq, Structural, Clone, Copy, Debug)]
pub struct HostBindings {
    pub read_allocated: Binding,
    pub read_into: Binding,
    pub write: Binding,
    pub others: Binding,
}

impl HostBindings {
    /// Every primitive bound to the host's own implementation.
    pub open spec fn host_bindings() -> HostBindings {
        HostBindings {
            read_allocated: Binding::Host,
            read_into: Binding::Host,
            write: Binding::Host,
            others: Binding::Host,
        }
    }

    pub fn host() -> (b: HostBindings)
        ensures
            b == HostBindings::host_bindings(),
    {
        HostBindings {
            read_allocated: Binding::Host,
            read_into: Binding::Host,
            write: Binding::Host,
            others: Binding::Host,
        }
    }

    /// The bindings while a witness is installed: the three intercepted
    /// primitives go to the adapter, every other one is unimplemented.
    pub open spec fn replay() -> HostBindings {
        HostBindings {
            read_allocated: Binding::Witness,
            read_into: Binding::Witness,
            write: Binding::Witness,
            others: Binding::Unimplemented,
        }
    }
}

/// Holds the bindings that were active when it was acquired, and gives them
/// back when released. It cannot be copied, so it is released at most once.
pub struct BindingGuard {
    snapshot: HostBindings,
}

impl BindingGuard {
    /// The bindings that the guard restores.
    pub closed spec fn snapshot(&self) -> HostBindings {
        self.snapshot
    }

    /// Records the active bindings and switches to the replay bindings.
    pub fn install(bindings: &mut HostBindings) -> (g: BindingGuard)
        ensures
            g.snapshot() == *old(bindings),
            *final(bindings) == HostBindings::replay(),
    {
        let g = BindingGuard { snapshot: *bindings };
        *bindings = HostBindings {
            read_allocated: Binding::Witness,
            read_into: Binding::Witness,
            write: Binding::Witness,
            others: Binding::Unimplemented,
        };
        g
    }

    /// Restores exactly the bindings recorded at installation.
    pub fn release(self, bindings: &mut HostBindings)
        ensures
            *final(bindings) == self.snapshot(),
    {
        *bindings = self.snapshot;
    }
}

} // verus!
