//! Role resolution: each side of a call publishes under its own label
//! and subscribes to the other side's label, so an independent pair of
//! processes always rendezvous without colliding.

use vstd::prelude::*;

verus! {

/// Which of the two fixed identities a process assumes for path
/// resolution: the listener waits for a caller; the caller dials in.
#[derive(Debug, Clone, Copy, PartialEq, Eq, Structural)]
pub enum Role {
    Listener,
    Caller,
}

/// The label a role publishes its own broadcast under.
pub open spec fn spec_publish_path(role: Role) -> Seq<char> {
    match role {
        Role::Listener => "listener"@,
        Role::Caller => "caller"@,
    }
}

/// The label a role subscribes to: always the other role's label.
pub open spec fn spec_subscribe_path(role: Role) -> Seq<char> {
    spec_publish_path(role.spec_other())
}

impl Role {
    /// The opposite identity.
    pub open spec fn spec_other(self) -> Role {
        match self {
            Role::Listener => Role::Caller,
            Role::Caller => Role::Listener,
        }
    }

    /// The path this side publishes its broadcast under.
    pub fn publish_path(self) -> (r: &'static str)
        ensures
            r@ == spec_publish_path(self),
    {
        match self {
            Role::Listener => "listener",
            Role::Caller => "caller",
        }
    }

    /// The path this side subscribes to: the remote side's publish path.
    pub fn subscribe_path(self) -> (r: &'static str)
        ensures
            r@ == spec_subscribe_path(self),
    {
        match self {
            Role::Listener => "caller",
            Role::Caller => "listener",
        }
    }

    /// The label naming the remote side, for diagnostics.
    pub fn remote_label(self) -> (r: &'static str)
        ensures
            r@ == spec_publish_path(self.spec_other()),
    {
        match self {
            Role::Listener => "caller",
            Role::Caller => "listener",
        }
    }

    /// The label naming this side, for diagnostics.
    pub fn local_label(self) -> (r: &'static str)
        ensures
            r@ == spec_publish_path(self),
    {
        match self {
            Role::Listener => "listener",
            Role::Caller => "caller",
        }
    }
}

/// The two labels are distinct, so a pair of processes never collide
/// on one path: each role's publish path equals the other role's
/// subscribe path, and no role subscribes to its own publish path.
pub proof fn lemma_role_paths_complement(role: Role)
    ensures
        spec_publish_path(role) == spec_subscribe_path(role.spec_other()),
        spec_publish_path(role) != spec_subscribe_path(role),
{
    reveal_strlit("listener");
    reveal_strlit("caller");
    assert(("listener"@).len() == 8);
    assert(("caller"@).len() == 6);
}

} // verus!
