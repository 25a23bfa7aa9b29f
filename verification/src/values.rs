//! Handles over the value graph.
//!
//! A handle is a lightweight, copyable wrapper around one non-null reference.
//! It never owns the record it names: dropping or copying a handle leaves the
//! module untouched, and two handles are equal exactly when their references
//! are identical.

use vstd::prelude::*;

use crate::ir::all_uses_replaced;
use crate::ir::IrModule;
use crate::ir::ValueKind;

verus! {

/// A handle to a value produced by an instruction.
#[derive(Clone, Copy, Debug, PartialEq, Eq, Hash, Structural)]
pub struct InstructionValue {
    raw: usize,
}

impl InstructionValue {
    /// The wrapped reference.
    pub closed spec fn raw_ref(&self) -> usize {
        self.raw
    }

    /// Wraps an existing non-null reference verbatim.
    pub fn new(raw: usize) -> (h: InstructionValue)
        requires
            raw != 0,
        ensures
            h.raw_ref() == raw,
    {
        InstructionValue { raw }
    }

    /// The wrapped reference.
    pub fn as_value_ref(&self) -> (r: usize)
        ensures
            r == self.raw_ref(),
    {
        self.raw
    }
}

/// A handle to a control-flow block.
#[derive(Clone, Copy, Debug, PartialEq, Eq, Hash, Structural)]
pub struct BasicBlock {
    raw: usize,
}

impl BasicBlock {
    /// The wrapped reference.
    pub closed spec fn raw_ref(&self) -> usize {
        self.raw
    }

    /// Wraps an existing non-null reference verbatim.
    pub fn new(raw: usize) -> (h: BasicBlock)
        requires
            raw != 0,
        ensures
            h.raw_ref() == raw,
    {
        BasicBlock { raw }
    }

    /// The wrapped reference.
    pub fn as_value_ref(&self) -> (r: usize)
        ensures
            r == self.raw_ref(),
    {
        self.raw
    }
}

/// A handle to any value that is not a control-flow block: a constant, an
/// instruction result, a function argument, and so on.
#[derive(Clone, Copy, Debug, PartialEq, Eq, Hash, Structural)]
pub struct AnyValue {
    raw: usize,
}

impl AnyValue {
    /// The wrapped reference.
    pub closed spec fn raw_ref(&self) -> usize {
        self.raw
    }

    /// Wraps an existing non-null reference verbatim.
    pub fn new(raw: usize) -> (h: AnyValue)
        requires
            raw != 0,
        ensures
            h.raw_ref() == raw,
    {
        AnyValue { raw }
    }

    /// The wrapped reference.
    pub fn as_value_ref(&self) -> (r: usize)
        ensures
            r == self.raw_ref(),
    {
        self.raw
    }
}

/// A handle to a type descriptor of an aggregate value.
#[derive(Clone, Copy, Debug, PartialEq, Eq, Hash, Structural)]
pub struct StructType {
    raw: usize,
}

impl StructType {
    /// The wrapped reference.
    pub closed spec fn raw_ref(&self) -> usize {
        self.raw
    }

    /// Wraps an existing non-null reference verbatim.
    pub fn new(raw: usize) -> (h: StructType)
        requires
            raw != 0,
        ensures
            h.raw_ref() == raw,
    {
        StructType { raw }
    }

    /// The wrapped reference.
    pub fn as_type_ref(&self) -> (r: usize)
        ensures
            r == self.raw_ref(),
    {
        self.raw
    }
}

/// An operand, discriminated before wrapping: a control-flow block is wrapped
/// as a block handle, everything else as a generic value handle. No unchecked
/// cast decides the variant; the record's own tag does.
#[derive(Clone, Copy, Debug, PartialEq, Eq, Hash, Structural)]
pub enum Operand {
    /// An operand that is an ordinary value.
    Value(AnyValue),
    /// An operand that is a control-flow block.
    Block(BasicBlock),
}

/// A handle to an aggregate (struct-typed) value.
///
/// The wrapped reference is never null for a constructed handle: the only
/// constructor requires a non-null reference, so no usable handle over the
/// null reference exists.
#[derive(Clone, Copy, Debug, PartialEq, Eq, Hash, Structural)]
pub struct StructValue {
    raw: usize,
}

impl StructValue {
    /// The wrapped reference.
    pub closed spec fn raw_ref(&self) -> usize {
        self.raw
    }

    /// Wraps an existing non-null reference verbatim.
    ///
    /// A null reference here is a programming error of the caller, not a
    /// recoverable condition, so it is excluded outright rather than mapped
    /// to an error value.
    pub fn new(raw: usize) -> (h: StructValue)
        requires
            raw != 0,
        ensures
            h.raw_ref() == raw,
    {
        StructValue { raw }
    }

    /// The wrapped reference, verbatim as it was passed to `new`.
    pub fn as_value_ref(&self) -> (r: usize)
        ensures
            r == self.raw_ref(),
    {
        self.raw
    }

    /// Two handles are equal exactly when their underlying references are
    /// identical; structural likeness of the records they name plays no part.
    pub proof fn lemma_handle_identity(a: StructValue, b: StructValue)
        ensures
            (a == b) <==> (a.raw_ref() == b.raw_ref()),
    {
    }

    /// The value's name, re-read from the module on every call. Unnamed
    /// values (notably constants) have the empty name: the query is total and
    /// never reports absence.
    pub fn get_name<'a>(&self, m: &'a IrModule) -> (r: &'a Vec<u8>)
        requires
            m.valid_ref(self.raw_ref()),
        ensures
            r@ == m.record(self.raw_ref()).name@,
    {
        &m.values[self.raw - 1].name
    }

    /// The value's static type descriptor, re-queried on every call (a
    /// value's type never changes, so repeated calls agree).
    pub fn get_type(&self, m: &IrModule) -> (r: StructType)
        requires
            m.wf(),
            m.valid_ref(self.raw_ref()),
        ensures
            r.raw_ref() == m.record(self.raw_ref()).type_id,
    {
        StructType::new(m.values[self.raw - 1].type_id)
    }

    /// Whether the value is the well-known "null aggregate" constant.
    pub fn is_null(&self, m: &IrModule) -> (r: bool)
        requires
            m.valid_ref(self.raw_ref()),
        ensures
            r == value_is_null(m, self.raw_ref()),
    {
        m.values[self.raw - 1].kind == ValueKind::NullAggregate
    }

    /// Whether the value is the "undefined value" sentinel.
    pub fn is_undef(&self, m: &IrModule) -> (r: bool)
        requires
            m.valid_ref(self.raw_ref()),
        ensures
            r == value_is_undef(m, self.raw_ref()),
    {
        m.values[self.raw - 1].kind == ValueKind::Undef
    }

    /// A handle to the same value as an instruction result, or absent when
    /// the value is not produced by an instruction (a constant, say).
    pub fn as_instruction(&self, m: &IrModule) -> (r: Option<InstructionValue>)
        requires
            m.valid_ref(self.raw_ref()),
        ensures
            match r {
                Some(iv) => m.record(self.raw_ref()).kind == ValueKind::Instruction
                    && iv.raw_ref() == self.raw_ref(),
                None => m.record(self.raw_ref()).kind != ValueKind::Instruction,
            },
    {
        if m.values[self.raw - 1].kind == ValueKind::Instruction {
            Some(InstructionValue::new(self.raw))
        } else {
            None
        }
    }

    /// How many operand slots the value's defining operation has, re-read on
    /// every call.
    pub fn get_num_operands(&self, m: &IrModule) -> (r: usize)
        requires
            m.valid_ref(self.raw_ref()),
        ensures
            r == m.record(self.raw_ref()).operands@.len(),
    {
        m.values[self.raw - 1].operands.len()
    }

    /// The operand at `index`, bounds-checked against the current operand
    /// count and discriminated before wrapping.
    ///
    /// Absent exactly when `index` is out of range or the slot holds the null
    /// reference — both are ordinary outcomes of querying a heterogeneous
    /// graph, not errors. A present operand is wrapped as a block handle when
    /// its record is a control-flow block, as a generic value handle
    /// otherwise.
    pub fn get_operand(&self, m: &IrModule, index: usize) -> (r: Option<Operand>)
        requires
            m.wf(),
            m.valid_ref(self.raw_ref()),
        ensures
            ({
                let ops = m.record(self.raw_ref()).operands@;
                &&& index >= ops.len() ==> r is None
                &&& index < ops.len() && ops[index as int] == 0 ==> r is None
                &&& index < ops.len() && ops[index as int] != 0 ==> {
                    let slot = ops[index as int];
                    match r {
                        Some(Operand::Block(b)) => m.record(slot).kind == ValueKind::Block
                            && b.raw_ref() == slot,
                        Some(Operand::Value(v)) => m.record(slot).kind != ValueKind::Block
                            && v.raw_ref() == slot,
                        None => false,
                    }
                }
            }),
    {
        let idx = self.raw - 1;
        let num_operands = m.values[idx].operands.len();
        if index >= num_operands {
            return None;
        }
        let operand = m.values[idx].operands[index];
        if operand == 0 {
            return None;
        }
        assert(m.values@[idx as int].wf(m.values@.len() as int));
        if m.values[operand - 1].kind == ValueKind::Block {
            Some(Operand::Block(BasicBlock::new(operand)))
        } else {
            Some(Operand::Value(AnyValue::new(operand)))
        }
    }

    /// The human-readable diagnostic form of the value: its kind's label, a
    /// space, then its name.
    pub fn diagnostic_bytes(&self, m: &IrModule) -> (r: Vec<u8>)
        requires
            m.valid_ref(self.raw_ref()),
        ensures
            r@ == diagnostic_text(m, self.raw_ref()),
    {
        let idx = self.raw - 1;
        let mut out = kind_label_bytes(m.values[idx].kind);
        out.push(32);
        let name = &m.values[idx].name;
        let len = name.len();
        let mut j: usize = 0;
        while j < len
            invariant
                len == name@.len(),
                j <= len,
                name@ == m.record(self.raw_ref()).name@,
                out@ == kind_label(m.record(self.raw_ref()).kind) + seq![32u8] + name@.subrange(
                    0,
                    j as int,
                ),
            decreases len - j,
        {
            out.push(name[j]);
            proof {
                assert(name@.subrange(0, j as int).push(name@[j as int]) =~= name@.subrange(
                    0,
                    j as int + 1,
                ));
                assert(out@ =~= kind_label(m.record(self.raw_ref()).kind) + seq![32u8]
                    + name@.subrange(0, j as int + 1));
            }
            j += 1;
        }
        proof {
            assert(name@.subrange(0, len as int) =~= name@);
        }
        out
    }

    /// Writes the value's human-readable diagnostic form to the process's
    /// standard error stream; purely diagnostic, no return value.
    pub fn print_to_stderr(&self, m: &IrModule)
        requires
            m.valid_ref(self.raw_ref()),
    {
        let text = self.diagnostic_bytes(m);
        write_stderr_bytes(&text);
    }

    /// Rewrites, in place, every use-site of this value in the module to
    /// refer to `other` instead. No type check is made here: the caller must
    /// ensure `other` is of a compatible type.
    pub fn replace_all_uses_with(&self, other: StructValue, m: &mut IrModule)
        requires
            old(m).wf(),
            old(m).valid_ref(self.raw_ref()),
            old(m).valid_ref(other.raw_ref()),
        ensures
            final(m).wf(),
            all_uses_replaced(*old(m), *final(m), self.raw_ref(), other.raw_ref()),
    {
        let from = self.raw;
        let to = other.raw;
        let n = m.values.len();
        let mut i: usize = 0;
        while i < n
            invariant
                n == old(m).values@.len(),
                m.values@.len() == n,
                i <= n,
                from == self.raw_ref(),
                to == other.raw_ref(),
                forall|p: int| 0 <= p < i ==> crate::ir::slots_rewritten(
                    #[trigger] old(m).values@[p],
                    m.values@[p],
                    from,
                    to,
                ),
                forall|p: int| i <= p < n ==> m.values@[p] == old(m).values@[p],
            decreases n - i,
        {
            let rec = &mut m.values[i];
            rewrite_slots(&mut rec.operands, from, to);
            i += 1;
        }
        proof {
            assert forall|q: int| 0 <= q < m.values@.len() implies (#[trigger] m.values@[q]).wf(
                m.values@.len() as int,
            ) by {
                assert(old(m).values@[q].wf(n as int));
                assert(crate::ir::slots_rewritten(old(m).values@[q], m.values@[q], from, to));
            }
        }
    }
}

/// Rewrites every slot equal to `from` to `to`, leaving the others as they
/// were.
fn rewrite_slots(ops: &mut Vec<usize>, from: usize, to: usize)
    ensures
        final(ops)@.len() == old(ops)@.len(),
        forall|j: int| 0 <= j < old(ops)@.len() ==> final(ops)@[j] == (if old(ops)@[j] == from {
            to
        } else {
            old(ops)@[j]
        }),
{
    let k = ops.len();
    let mut j: usize = 0;
    while j < k
        invariant
            k == old(ops)@.len(),
            ops@.len() == k,
            j <= k,
            forall|p: int| 0 <= p < j ==> ops@[p] == (if old(ops)@[p] == from {
                to
            } else {
                old(ops)@[p]
            }),
            forall|p: int| j <= p < k ==> ops@[p] == old(ops)@[p],
        decreases k - j,
    {
        if ops[j] == from {
            ops[j] = to;
        }
        j += 1;
    }
}

/// The label naming a value kind in diagnostic output.
pub open spec fn kind_label(k: ValueKind) -> Seq<u8> {
    match k {
        ValueKind::NullAggregate => seq![110u8, 117u8, 108u8, 108u8],
        ValueKind::Undef => seq![117u8, 110u8, 100u8, 101u8, 102u8],
        ValueKind::Instruction => seq![
            105u8,
            110u8,
            115u8,
            116u8,
            114u8,
            117u8,
            99u8,
            116u8,
            105u8,
            111u8,
            110u8,
        ],
        ValueKind::Block => seq![98u8, 108u8, 111u8, 99u8, 107u8],
        ValueKind::Constant => seq![99u8, 111u8, 110u8, 115u8, 116u8, 97u8, 110u8, 116u8],
        ValueKind::Argument => seq![97u8, 114u8, 103u8, 117u8, 109u8, 101u8, 110u8, 116u8],
    }
}

/// The diagnostic line for the value `r` names in `m`: its kind's label, a
/// space, then its name.
pub open spec fn diagnostic_text(m: &IrModule, r: usize) -> Seq<u8>
    recommends
        m.valid_ref(r),
{
    kind_label(m.record(r).kind) + seq![32u8] + m.record(r).name@
}

/// The label of `k`, as bytes.
fn kind_label_bytes(k: ValueKind) -> (r: Vec<u8>)
    ensures
        r@ == kind_label(k),
{
    let mut v: Vec<u8> = Vec::new();
    match k {
        ValueKind::NullAggregate => {
            v.push(110);
            v.push(117);
            v.push(108);
            v.push(108);
        },
        ValueKind::Undef => {
            v.push(117);
            v.push(110);
            v.push(100);
            v.push(101);
            v.push(102);
        },
        ValueKind::Instruction => {
            v.push(105);
            v.push(110);
            v.push(115);
            v.push(116);
            v.push(114);
            v.push(117);
            v.push(99);
            v.push(116);
            v.push(105);
            v.push(111);
            v.push(110);
        },
        ValueKind::Block => {
            v.push(98);
            v.push(108);
            v.push(111);
            v.push(99);
            v.push(107);
        },
        ValueKind::Constant => {
            v.push(99);
            v.push(111);
            v.push(110);
            v.push(115);
            v.push(116);
            v.push(97);
            v.push(110);
            v.push(116);
        },
        ValueKind::Argument => {
            v.push(97);
            v.push(114);
            v.push(103);
            v.push(117);
            v.push(109);
            v.push(101);
            v.push(110);
            v.push(116);
        },
    }
    proof {
        assert(v@ =~= kind_label(k));
    }
    v
}

/// Relies on `std::io::Write::write_all` on the standard error stream: the
/// given bytes are written to standard error, and nothing is returned. A
/// failure of the stream is ignored, as a diagnostic write has no caller to
/// report to.
#[verifier::external_body]
fn write_stderr_bytes(text: &Vec<u8>) {
    let _ = std::io::Write::write_all(&mut std::io::stderr(), text.as_slice());
}

/// The value `r` names in `m` is the "null aggregate" constant.
pub open spec fn value_is_null(m: &IrModule, r: usize) -> bool {
    m.record(r).kind == ValueKind::NullAggregate
}

/// The value `r` names in `m` is the "undefined value" sentinel.
pub open spec fn value_is_undef(m: &IrModule, r: usize) -> bool {
    m.record(r).kind == ValueKind::Undef
}

/// The null-constant and undefined discriminations never both hold of one
/// concrete value, and an ordinary (non-sentinel) value satisfies neither.
pub proof fn lemma_sentinels_exclusive(m: &IrModule, r: usize)
    requires
        m.valid_ref(r),
    ensures
        !(value_is_null(m, r) && value_is_undef(m, r)),
        m.record(r).kind != ValueKind::NullAggregate && m.record(r).kind != ValueKind::Undef
            ==> !value_is_null(m, r) && !value_is_undef(m, r),
{
}

} // verus!
