//! The value-graph model: an arena of value records addressed by non-null
//! references.
//!
//! A reference is a plain `usize`; `0` plays the role of the null reference,
//! and a reference `r` is valid in a module when `1 <= r <= values.len()`.
//! Equality of references is identity: two handles to the same record carry
//! the same reference.

use vstd::prelude::*;

verus! {

/// What kind of value a record denotes. The discriminations the handle API
/// offers (null-constant check, undefined check, instruction check, block
/// check) each read this tag.
#[derive(Clone, Copy, Debug, PartialEq, Eq, Structural)]
pub enum ValueKind {
    /// The well-known "null aggregate" constant.
    NullAggregate,
    /// The "undefined value" sentinel.
    Undef,
    /// A value produced by an instruction.
    Instruction,
    /// A control-flow block (may appear as an operand of an instruction).
    Block,
    /// An ordinary constant (possibly without a user-assigned name).
    Constant,
    /// A function argument or any other ordinary value.
    Argument,
}

/// One record of the arena: everything the handle accessors can observe of
/// a value.
pub struct ValueRecord {
    /// The user-assigned name; empty for unnamed values such as constants.
    pub name: Vec<u8>,
    /// The kind tag used by the discriminating queries.
    pub kind: ValueKind,
    /// Reference to the value's static type descriptor; never null.
    pub type_id: usize,
    /// Operand references, in operation order; a slot may be null (`0`).
    pub operands: Vec<usize>,
}

/// The arena owning the value records. Record `r` (for `1 <= r <= len`)
/// lives at index `r - 1`.
pub struct IrModule {
    pub values: Vec<ValueRecord>,
}

impl ValueRecord {
    /// A record is well formed when its type reference is non-null, its name
    /// holds no NUL byte (it is a C-string payload), and every operand slot
    /// is null or points inside an arena of `bound` records.
    pub open spec fn wf(&self, bound: int) -> bool {
        &&& self.type_id != 0
        &&& forall|k: int| 0 <= k < self.name@.len() ==> self.name@[k] != 0
        &&& forall|j: int| 0 <= j < self.operands@.len() ==> self.operands@[j] == 0
            || self.operands@[j] <= bound
    }
}

impl IrModule {
    /// `r` names a record of this module (in particular `r` is non-null).
    pub open spec fn valid_ref(&self, r: usize) -> bool {
        1 <= r <= self.values@.len()
    }

    /// The record a valid reference names.
    pub open spec fn record(&self, r: usize) -> ValueRecord
        recommends
            self.valid_ref(r),
    {
        self.values@[r - 1]
    }

    /// Every record of the module is well formed.
    pub open spec fn wf(&self) -> bool {
        forall|i: int| 0 <= i < self.values@.len() ==> (#[trigger] self.values@[i]).wf(
            self.values@.len() as int,
        )
    }

    /// An empty module.
    pub fn new() -> (m: IrModule)
        ensures
            m.values@.len() == 0,
            m.wf(),
    {
        IrModule { values: Vec::new() }
    }

    /// Appends a record and returns its (non-null) reference.
    ///
    /// An operand slot may be null, name an existing record, or name the new
    /// record itself; the name may not contain a NUL byte and the type
    /// reference may not be null, so the module stays well formed.
    pub fn add_value(
        &mut self,
        name: Vec<u8>,
        kind: ValueKind,
        type_id: usize,
        operands: Vec<usize>,
    ) -> (r: usize)
        requires
            old(self).wf(),
            old(self).values@.len() < usize::MAX,
            type_id != 0,
            forall|k: int| 0 <= k < name@.len() ==> name@[k] != 0,
            forall|j: int| 0 <= j < operands@.len() ==> operands@[j] == 0 || operands@[j]
                <= old(self).values@.len() + 1,
        ensures
            final(self).wf(),
            r == old(self).values@.len() + 1,
            final(self).valid_ref(r),
            final(self).values@.len() == old(self).values@.len() + 1,
            final(self).record(r).name@ == name@,
            final(self).record(r).kind == kind,
            final(self).record(r).type_id == type_id,
            final(self).record(r).operands@ == operands@,
            forall|v: usize| old(self).valid_ref(v) ==> final(self).valid_ref(v)
                && final(self).record(v) == old(self).record(v),
    {
        let ghost old_len = self.values@.len() as int;
        self.values.push(ValueRecord { name, kind, type_id, operands });
        proof {
            assert forall|i: int| 0 <= i < self.values@.len() implies (
            #[trigger] self.values@[i]).wf(self.values@.len() as int) by {
                if i < old_len {
                    assert(self.values@[i] == old(self).values@[i]);
                    assert(old(self).values@[i].wf(old_len));
                }
            }
        }
        self.values.len()
    }
}

/// `post` is `pre` with every operand slot equal to `from` rewritten to `to`
/// and everything else (name, kind, type) untouched.
pub open spec fn slots_rewritten(pre: ValueRecord, post: ValueRecord, from: usize, to: usize) -> bool {
    &&& post.name@ == pre.name@
    &&& post.kind == pre.kind
    &&& post.type_id == pre.type_id
    &&& post.operands@.len() == pre.operands@.len()
    &&& forall|j: int| 0 <= j < pre.operands@.len() ==> post.operands@[j] == (if pre.operands@[j]
        == from {
        to
    } else {
        pre.operands@[j]
    })
}

/// `post` is `pre` after a global use rewrite: every use-site of `from`, in
/// every record of the module, now refers to `to`; no record was added,
/// dropped, or otherwise changed.
pub open spec fn all_uses_replaced(pre: IrModule, post: IrModule, from: usize, to: usize) -> bool {
    &&& post.values@.len() == pre.values@.len()
    &&& forall|i: int| 0 <= i < pre.values@.len() ==> slots_rewritten(
        #[trigger] pre.values@[i],
        post.values@[i],
        from,
        to,
    )
}

/// After a global use rewrite, every prior use-site of `from` — each record
/// `v` and slot `j` whose operand was `from` — now refers to `to`. This is
/// the rewrite's effect read back through the module's own use enumeration.
pub proof fn lemma_prior_use_sites_rewritten(
    pre: IrModule,
    post: IrModule,
    from: usize,
    to: usize,
    v: usize,
    j: int,
)
    requires
        all_uses_replaced(pre, post, from, to),
        pre.valid_ref(v),
        0 <= j < pre.record(v).operands@.len(),
        pre.record(v).operands@[j] == from,
    ensures
        post.valid_ref(v),
        post.record(v).operands@[j] == to,
{
    assert(slots_rewritten(pre.values@[v - 1], post.values@[v - 1], from, to));
}

} // verus!
