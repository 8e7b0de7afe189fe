//! The syscall table: which host call is bound to which slot.
//!
//! A slot is a module name and a function name. The five host calls of the
//! kernel extension share one module name and have five function names;
//! `link_syscalls` binds each of them to its slot. A slot holds at most one
//! binding: binding it twice is an error of configuration, and so is
//! calling a slot that was never bound.

use crate::error::LinkError;
use vstd::prelude::*;
use vstd::string::StringSliceAdditionalSpecFns;
use vstd::utf8::encode_utf8_decode_utf8;

verus! {

/// The module name that the five host calls share.
pub const SYSCALL_MODULE: &'static str = "my_custom_kernel";

/// The host calls that the kernel extension adds.
#[derive(Debug, Clone, Copy, PartialEq, Eq, Structural)]
pub enum Capability {
    Blake2Hash,
    CrcHash,
    Pbkdf2Hash,
    Argon2Hash,
    RandomNum,
}

impl Capability {
    /// The function name of the host call.
    pub open spec fn name_of(self) -> Seq<char> {
        match self {
            Capability::Blake2Hash => "blake_2_hash"@,
            Capability::CrcHash => "crc_hash"@,
            Capability::Pbkdf2Hash => "pbkdf2_hash"@,
            Capability::Argon2Hash => "argon2_hash"@,
            Capability::RandomNum => "random_num"@,
        }
    }

    /// The number of integers that the host call takes.
    pub open spec fn arity_of(self) -> nat {
        match self {
            Capability::Blake2Hash => 1,
            Capability::CrcHash => 1,
            Capability::Pbkdf2Hash => 2,
            Capability::Argon2Hash => 2,
            Capability::RandomNum => 0,
        }
    }

    /// The function name of the host call.
    pub fn function_name(&self) -> (name: &'static str)
        ensures
            name@ == self.name_of(),
    {
        match self {
            Capability::Blake2Hash => "blake_2_hash",
            Capability::CrcHash => "crc_hash",
            Capability::Pbkdf2Hash => "pbkdf2_hash",
            Capability::Argon2Hash => "argon2_hash",
            Capability::RandomNum => "random_num",
        }
    }

    /// The number of integers that the host call takes; each host call
    /// returns one.
    pub fn arity(&self) -> (arity: usize)
        ensures
            arity == self.arity_of(),
    {
        match self {
            Capability::Blake2Hash => 1,
            Capability::CrcHash => 1,
            Capability::Pbkdf2Hash => 2,
            Capability::Argon2Hash => 2,
            Capability::RandomNum => 0,
        }
    }
}

/// The five host calls have five function names.
pub proof fn lemma_function_names_distinct(a: Capability, b: Capability)
    ensures
        a.name_of() == b.name_of() ==> a == b,
{
    reveal_strlit("blake_2_hash");
    reveal_strlit("crc_hash");
    reveal_strlit("pbkdf2_hash");
    reveal_strlit("argon2_hash");
    reveal_strlit("random_num");
    if a.name_of() == b.name_of() {
        assert(a.name_of().len() == b.name_of().len());
        assert(a.name_of()[0] == b.name_of()[0]);
    }
}

/// A host call bound to its slot.
#[derive(Debug, Clone, Copy)]
struct Binding {
    module: &'static str,
    name: &'static str,
    capability: Capability,
}

/// What a binding says: the texts of its module and function name, and the
/// host call.
pub struct BoundSlot {
    pub module: Seq<char>,
    pub name: Seq<char>,
    pub capability: Capability,
}

impl BoundSlot {
    /// Whether the binding sits in the slot `(module, name)`.
    pub open spec fn in_slot(self, module: Seq<char>, name: Seq<char>) -> bool {
        self.module == module && self.name == name
    }
}

impl View for Binding {
    type V = BoundSlot;

    closed spec fn view(&self) -> BoundSlot {
        BoundSlot { module: self.module@, name: self.name@, capability: self.capability }
    }
}

/// The binding that `link_syscalls` makes for `capability`: under the shared
/// module name and the function name of the host call.
pub open spec fn custom_slot(capability: Capability) -> BoundSlot {
    BoundSlot { module: SYSCALL_MODULE@, name: capability.name_of(), capability }
}

/// The five host calls in the order in which `link_syscalls` binds them.
pub open spec fn registration_order() -> Seq<Capability> {
    seq![
        Capability::Blake2Hash,
        Capability::CrcHash,
        Capability::Pbkdf2Hash,
        Capability::Argon2Hash,
        Capability::RandomNum,
    ]
}

/// The five bindings that `link_syscalls` makes, in their order.
pub open spec fn custom_slots() -> Seq<BoundSlot> {
    registration_order().map_values(|c: Capability| custom_slot(c))
}

/// The five host calls in the order in which `link_syscalls` binds them.
pub fn custom_syscalls() -> (order: Vec<Capability>)
    ensures
        order@ == registration_order(),
{
    let mut order: Vec<Capability> = Vec::new();
    order.push(Capability::Blake2Hash);
    order.push(Capability::CrcHash);
    order.push(Capability::Pbkdf2Hash);
    order.push(Capability::Argon2Hash);
    order.push(Capability::RandomNum);
    assert(order@ =~= registration_order());
    order
}

/// Whether two texts are the same.
pub fn same_text(a: &str, b: &str) -> (same: bool)
    ensures
        same == (a@ == b@),
{
    let x = a.as_bytes();
    let y = b.as_bytes();
    if x.len() != y.len() {
        return false;
    }
    let mut i: usize = 0;
    while i < x.len()
        invariant
            i <= x.len(),
            x.len() == y.len(),
            x@ == a.spec_bytes(),
            y@ == b.spec_bytes(),
            forall|j: int| 0 <= j < i ==> x@[j] == y@[j],
        decreases x.len() - i,
    {
        if x[i] != y[i] {
            return false;
        }
        i = i + 1;
    }
    proof {
        assert(x@ =~= y@);
        encode_utf8_decode_utf8(a@);
        encode_utf8_decode_utf8(b@);
    }
    true
}

/// The bindings of the host calls, in the order in which they were made.
pub struct SyscallTable {
    bindings: Vec<Binding>,
}

impl View for SyscallTable {
    type V = Seq<BoundSlot>;

    closed spec fn view(&self) -> Seq<BoundSlot> {
        self.bindings@.map_values(|b: Binding| b@)
    }
}

/// No slot holds two bindings.
pub open spec fn slots_distinct(slots: Seq<BoundSlot>) -> bool {
    forall|i: int, j: int|
        0 <= i < j < slots.len() ==> !(#[trigger] slots[i]).in_slot(
            (#[trigger] slots[j]).module,
            slots[j].name,
        )
}

/// Whether some binding of `slots` sits in the slot `(module, name)`.
pub open spec fn slot_bound(slots: Seq<BoundSlot>, module: Seq<char>, name: Seq<char>) -> bool {
    exists|i: int| 0 <= i < slots.len() && (#[trigger] slots[i]).in_slot(module, name)
}

/// In two joined runs of bindings, the slots that are bound are those of
/// the one run and those of the other.
pub proof fn lemma_slot_bound_concat(
    left: Seq<BoundSlot>,
    right: Seq<BoundSlot>,
    module: Seq<char>,
    name: Seq<char>,
)
    ensures
        slot_bound(left + right, module, name) <==> slot_bound(left, module, name) || slot_bound(
            right,
            module,
            name,
        ),
{
    let both = left + right;
    if slot_bound(both, module, name) {
        let i = choose|i: int| 0 <= i < both.len() && (#[trigger] both[i]).in_slot(module, name);
        if i < left.len() {
            assert(left[i].in_slot(module, name));
        } else {
            assert(right[i - left.len()].in_slot(module, name));
        }
    }
    if slot_bound(left, module, name) {
        let i = choose|i: int| 0 <= i < left.len() && (#[trigger] left[i]).in_slot(module, name);
        assert(both[i].in_slot(module, name));
    }
    if slot_bound(right, module, name) {
        let i = choose|i: int| 0 <= i < right.len() && (#[trigger] right[i]).in_slot(module, name);
        assert(both[left.len() + i].in_slot(module, name));
    }
}

/// The number of host calls, from the one of index `from` on in the order
/// of registration, that come before the first whose slot is bound in
/// `slots`.
pub open spec fn free_run(slots: Seq<BoundSlot>, from: int) -> int
    decreases 5 - from,
{
    if from < 0 || from >= 5 || slot_bound(
        slots,
        SYSCALL_MODULE@,
        registration_order()[from].name_of(),
    ) {
        0
    } else {
        1 + free_run(slots, from + 1)
    }
}

/// The run of free slots ends within the five host calls.
pub proof fn lemma_free_run_bounds(slots: Seq<BoundSlot>, from: int)
    requires
        0 <= from <= 5,
    ensures
        0 <= free_run(slots, from) <= 5 - from,
    decreases 5 - from,
{
    if from < 5 {
        lemma_free_run_bounds(slots, from + 1);
    }
}

/// Among the five bindings of `link_syscalls`, only that of a host call
/// sits in the slot of that host call.
pub proof fn lemma_custom_slots_distinct(i: int, j: int)
    requires
        0 <= i < 5,
        0 <= j < 5,
    ensures
        custom_slots().len() == 5,
        custom_slots()[i] == custom_slot(registration_order()[i]),
        custom_slots()[i].in_slot(SYSCALL_MODULE@, registration_order()[j].name_of()) <==> i == j,
{
    lemma_function_names_distinct(registration_order()[i], registration_order()[j]);
}

/// The place of a host call in the order of registration.
pub open spec fn registration_index(capability: Capability) -> int {
    match capability {
        Capability::Blake2Hash => 0,
        Capability::CrcHash => 1,
        Capability::Pbkdf2Hash => 2,
        Capability::Argon2Hash => 3,
        Capability::RandomNum => 4,
    }
}

/// In a table to which the five bindings were added, the slot of each host
/// call is bound, and it is bound to that host call.
pub proof fn lemma_custom_slots_resolve(before: Seq<BoundSlot>, capability: Capability)
    requires
        slots_distinct(before + custom_slots()),
    ensures
        slot_bound(before + custom_slots(), SYSCALL_MODULE@, capability.name_of()),
        forall|i: int|
            0 <= i < (before + custom_slots()).len() && (#[trigger] (before + custom_slots())[i]).in_slot(
                SYSCALL_MODULE@,
                capability.name_of(),
            ) ==> (before + custom_slots())[i].capability == capability,
{
    let all = before + custom_slots();
    let k = registration_index(capability);
    lemma_custom_slots_distinct(k, k);
    let at = before.len() + k;
    assert(all[at] == custom_slot(capability));
    assert(all[at].in_slot(SYSCALL_MODULE@, capability.name_of()));
    assert forall|i: int|
        0 <= i < all.len() && (#[trigger] all[i]).in_slot(
            SYSCALL_MODULE@,
            capability.name_of(),
        ) implies all[i].capability == capability by {
        if i < at {
            assert(!all[i].in_slot(all[at].module, all[at].name));
        } else if i > at {
            assert(!all[at].in_slot(all[i].module, all[i].name));
        }
    }
}

impl SyscallTable {
    /// The invariant of a table: no slot holds two bindings.
    pub open spec fn wf(&self) -> bool {
        slots_distinct(self@)
    }

    /// A table without bindings.
    pub fn new() -> (table: Self)
        ensures
            table@ == Seq::<BoundSlot>::empty(),
            table.wf(),
    {
        let table = SyscallTable { bindings: Vec::new() };
        assert(table@ =~= Seq::<BoundSlot>::empty());
        table
    }

    fn position(&self, module: &str, name: &str) -> (found: Option<usize>)
        ensures
            match found {
                Some(i) => i < self@.len() && i < self.bindings@.len() && self@[i as int].in_slot(
                    module@,
                    name@,
                ),
                None => !slot_bound(self@, module@, name@),
            },
    {
        let mut i: usize = 0;
        while i < self.bindings.len()
            invariant
                i <= self.bindings.len(),
                self@.len() == self.bindings@.len(),
                forall|j: int| 0 <= j < i ==> !(#[trigger] self@[j]).in_slot(module@, name@),
            decreases self.bindings.len() - i,
        {
            if same_text(self.bindings[i].module, module) && same_text(self.bindings[i].name, name) {
                return Some(i);
            }
            i = i + 1;
        }
        None
    }

    /// Binds `capability` to the slot `(module, name)`. A slot that is
    /// bound already keeps its binding, and the call fails with
    /// `DuplicateBinding`.
    pub fn link_syscall(
        &mut self,
        module: &'static str,
        name: &'static str,
        capability: Capability,
    ) -> (linked: Result<(), LinkError>)
        requires
            old(self).wf(),
        ensures
            final(self).wf(),
            slot_bound(old(self)@, module@, name@) ==> linked == Err::<(), LinkError>(
                LinkError::DuplicateBinding,
            ) && final(self)@ == old(self)@,
            !slot_bound(old(self)@, module@, name@) ==> linked is Ok && final(self)@ == old(
                self,
            )@.push(BoundSlot { module: module@, name: name@, capability }),
    {
        match self.position(module, name) {
            Some(_) => Err(LinkError::DuplicateBinding),
            None => {
                self.bindings.push(Binding { module, name, capability });
                assert(self@ =~= old(self)@.push(BoundSlot { module: module@, name: name@, capability }));
                Ok(())
            },
        }
    }

    /// The host call bound to the slot `(module, name)`; `MissingBinding`
    /// where the slot holds none.
    pub fn resolve(&self, module: &str, name: &str) -> (bound: Result<Capability, LinkError>)
        ensures
            match bound {
                Ok(capability) => exists|i: int|
                    0 <= i < self@.len() && (#[trigger] self@[i]).in_slot(module@, name@)
                        && self@[i].capability == capability,
                Err(e) => e == LinkError::MissingBinding && !slot_bound(self@, module@, name@),
            },
    {
        match self.position(module, name) {
            Some(i) => Ok(self.bindings[i].capability),
            None => Err(LinkError::MissingBinding),
        }
    }

    /// The number of bindings.
    pub fn len(&self) -> (len: usize)
        ensures
            len == self@.len(),
    {
        self.bindings.len()
    }
}

} // verus!
