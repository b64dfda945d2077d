//! What both providers share as services: the errors that a call is refused
//! with, and the register of operations that are under way.
use vstd::prelude::*;

use crate::text::same_bytes;

verus! {

/// The kind of refusal of a service call.
#[derive(Clone, Copy, Debug, PartialEq, Eq, Structural)]
pub enum ServiceErrorCode {
    InvalidArgument,
    FailedPrecondition,
    AlreadyExists,
    NotFound,
    Unavailable,
    Internal,
}

/// A refused service call: its kind and a message for people.
#[derive(Clone, Debug, PartialEq, Eq)]
pub struct ServiceError {
    pub code: ServiceErrorCode,
    pub message: String,
}

impl ServiceError {
    /// A refusal of this kind with this message.
    pub fn new(code: ServiceErrorCode, message: &str) -> (r: ServiceError)
        ensures
            r.code == code,
            r.message@ == message@,
    {
        ServiceError { code, message: message.to_owned() }
    }
}

/// The identifiers of the operations under way; each one at most once.
#[derive(Clone, Debug)]
pub struct OperationRegistry {
    operations: Vec<Vec<u8>>,
}

impl View for OperationRegistry {
    type V = Seq<Seq<u8>>;

    closed spec fn view(&self) -> Seq<Seq<u8>> {
        Seq::new(self.operations@.len(), |i: int| self.operations@[i]@)
    }
}

impl OperationRegistry {
    /// Each operation identifier is registered once.
    pub open spec fn wf(&self) -> bool {
        self@.no_duplicates()
    }

    /// Whether the operation is under way.
    pub open spec fn holds(&self, operation_id: Seq<u8>) -> bool {
        self@.contains(operation_id)
    }

    /// A register with no operation.
    pub fn new() -> (r: OperationRegistry)
        ensures
            r.wf(),
            r@ == Seq::<Seq<u8>>::empty(),
    {
        let r = OperationRegistry { operations: Vec::new() };
        assert(r@ =~= Seq::<Seq<u8>>::empty());
        r
    }

    fn position(&self, operation_id: &Vec<u8>) -> (r: Option<usize>)
        ensures
            r matches Some(i) ==> i < self@.len() && self@[i as int] == operation_id@,
            r is None ==> !self@.contains(operation_id@),
    {
        let mut i: usize = 0;
        while i < self.operations.len()
            invariant
                i <= self.operations.len(),
                forall|j: int| 0 <= j < i ==> self@[j] != operation_id@,
            decreases self.operations.len() - i,
        {
            if same_bytes(&self.operations[i], operation_id) {
                return Some(i);
            }
            i = i + 1;
        }
        None
    }

    /// Whether the operation is under way.
    pub fn contains(&self, operation_id: &Vec<u8>) -> (r: bool)
        ensures
            r == self.holds(operation_id@),
    {
        self.position(operation_id).is_some()
    }

    /// Registers an operation; refused when it is already under way.
    pub fn register(&mut self, operation_id: &Vec<u8>) -> (r: Result<(), ServiceError>)
        requires
            old(self).wf(),
        ensures
            final(self).wf(),
            old(self).holds(operation_id@) ==> r is Err && final(self)@ == old(self)@,
            !old(self).holds(operation_id@) ==> r is Ok && final(self)@ == old(self)@.push(
                operation_id@,
            ),
            r matches Err(e) ==> e.code == ServiceErrorCode::AlreadyExists,
    {
        if self.contains(operation_id) {
            return Err(ServiceError::new(ServiceErrorCode::AlreadyExists, "operation ID is already active"));
        }
        let ghost before = self@;
        self.operations.push(crate::sdk::copy_bytes(operation_id));
        assert(self@ =~= before.push(operation_id@));
        Ok(())
    }

    /// Ends an operation; nothing changes when it is not under way.
    pub fn remove(&mut self, operation_id: &Vec<u8>)
        requires
            old(self).wf(),
        ensures
            final(self).wf(),
            !final(self).holds(operation_id@),
            forall|other: Seq<u8>| other != operation_id@ ==> (final(self).holds(other) <==> old(self).holds(other)),
    {
        match self.position(operation_id) {
            Some(i) => {
                let ghost before = self@;
                self.operations.remove(i);
                assert(self@ =~= before.remove(i as int));
                assert forall|other: Seq<u8>| other != operation_id@ implies (self.holds(other) <==> before.contains(other)) by {
                    if before.contains(other) {
                        let k = choose|k: int| 0 <= k < before.len() && before[k] == other;
                        if k < i {
                            assert(self@[k] == other);
                        } else {
                            assert(k != i);
                            assert(self@[k - 1] == other);
                        }
                    }
                    if self@.contains(other) {
                        let k = choose|k: int| 0 <= k < self@.len() && self@[k] == other;
                        if k < i {
                            assert(before[k] == other);
                        } else {
                            assert(before[k + 1] == other);
                        }
                    }
                }
                assert(!self@.contains(operation_id@)) by {
                    if self@.contains(operation_id@) {
                        let k = choose|k: int| 0 <= k < self@.len() && self@[k] == operation_id@;
                        if k < i {
                            assert(before[k] == before[i as int]);
                        } else {
                            assert(before[k + 1] == before[i as int]);
                        }
                    }
                }
            },
            None => {},
        }
    }

    /// The identifiers of the operations under way.
    pub fn operation_ids(&self) -> (r: Vec<Vec<u8>>)
        ensures
            r@.len() == self@.len(),
            forall|i: int| 0 <= i < r@.len() ==> #[trigger] r@[i]@ == self@[i],
    {
        let mut r: Vec<Vec<u8>> = Vec::new();
        let mut i: usize = 0;
        while i < self.operations.len()
            invariant
                i <= self.operations.len(),
                r@.len() == i,
                forall|j: int| 0 <= j < i ==> #[trigger] r@[j]@ == self@[j],
            decreases self.operations.len() - i,
        {
            r.push(crate::sdk::copy_bytes(&self.operations[i]));
            i = i + 1;
        }
        r
    }
}

/// Law: an operation registered in a register that does not hold it is then
/// under way, a second registration of it is refused, and once removed it
/// may be registered again.
pub proof fn lemma_registry_register_remove(registry: Seq<Seq<u8>>, operation_id: Seq<u8>)
    requires
        registry.no_duplicates(),
        !registry.contains(operation_id),
    ensures
        registry.push(operation_id).contains(operation_id),
        registry.push(operation_id).no_duplicates(),
{
    assert(registry.push(operation_id)[registry.len() as int] == operation_id);
    assert forall|i: int, j: int| 0 <= i < j < registry.push(operation_id).len() implies registry.push(operation_id)[i] != registry.push(operation_id)[j] by {
        if j == registry.len() {
            assert(registry[i] == registry.push(operation_id)[i]);
        }
    }
}

} // verus!
