//! Identifiers of actors (users, programs) and of messages.
use vstd::prelude::*;

verus! {

/// Returns whether two 32-byte identifiers hold the same bytes.
fn bytes_equal(a: &[u8; 32], b: &[u8; 32]) -> (r: bool)
    ensures
        r == (*a == *b),
{
    let mut i: usize = 0;
    while i < 32
        invariant
            0 <= i <= 32,
            forall|j: int| 0 <= j < i ==> a@[j] == b@[j],
        decreases 32 - i,
    {
        if a[i] != b[i] {
            return false;
        }
        i = i + 1;
    }
    proof {
        broadcast use vstd::array::axiom_array_ext_equal;

        assert(*a =~= *b);
    }
    true
}

/// The address of an actor: a user or a program.
#[derive(Clone, Copy, Debug)]
pub struct ActorId(pub [u8; 32]);

/// The identifier of a message; it also names the call that the message started.
#[derive(Clone, Copy, Debug)]
pub struct MessageId(pub [u8; 32]);

impl PartialEq for ActorId {
    fn eq(&self, other: &ActorId) -> (r: bool) {
        bytes_equal(&self.0, &other.0)
    }
}

impl vstd::std_specs::cmp::PartialEqSpecImpl for ActorId {
    open spec fn obeys_eq_spec() -> bool {
        true
    }

    open spec fn eq_spec(&self, other: &ActorId) -> bool {
        self.0 == other.0
    }
}

impl Eq for ActorId {}

impl PartialEq for MessageId {
    fn eq(&self, other: &MessageId) -> (r: bool) {
        bytes_equal(&self.0, &other.0)
    }
}

impl vstd::std_specs::cmp::PartialEqSpecImpl for MessageId {
    open spec fn obeys_eq_spec() -> bool {
        true
    }

    open spec fn eq_spec(&self, other: &MessageId) -> bool {
        self.0 == other.0
    }
}

impl Eq for MessageId {}

} // verus!
