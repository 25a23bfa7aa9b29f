use struct_value::ir::IrModule;
use struct_value::ir::ValueKind;
use struct_value::values::Operand;
use struct_value::values::StructValue;

/// A small module: a null-aggregate constant, an undef, an unnamed constant,
/// a named constant, a block, and an instruction whose operands are the two
/// constants, the block, and a null slot.
///
/// Returns the module and the references
/// `(null_c, undef_c, unnamed_c, named_c, block, instr)`.
fn sample_module() -> (IrModule, usize, usize, usize, usize, usize, usize) {
    let mut m = IrModule::new();
    let null_c = m.add_value(Vec::new(), ValueKind::NullAggregate, 10, Vec::new());
    let undef_c = m.add_value(Vec::new(), ValueKind::Undef, 10, Vec::new());
    let unnamed_c = m.add_value(Vec::new(), ValueKind::Constant, 11, Vec::new());
    let named_c = m.add_value(b"acc".to_vec(), ValueKind::Constant, 11, Vec::new());
    let block = m.add_value(b"entry".to_vec(), ValueKind::Block, 12, Vec::new());
    let instr = m.add_value(
        b"tmp".to_vec(),
        ValueKind::Instruction,
        11,
        vec![unnamed_c, named_c, block, 0],
    );
    (m, null_c, undef_c, unnamed_c, named_c, block, instr)
}

#[test]
fn construct_wraps_reference_verbatim() {
    let h = StructValue::new(41);
    assert_eq!(h.as_value_ref(), 41);
    let (_m, _, _, c, _, _, _) = sample_module();
    let h2 = StructValue::new(c);
    assert_eq!(h2.as_value_ref(), c);
}

#[test]
fn handles_compare_by_identity() {
    let a = StructValue::new(7);
    let b = StructValue::new(7);
    let c = StructValue::new(8);
    assert_eq!(a, b);
    assert_ne!(a, c);
    // Two structurally identical records still give unequal handles.
    let (_m, _, _, unnamed_c, _, _, _) = sample_module();
    let mut m2 = IrModule::new();
    let twin_a = m2.add_value(Vec::new(), ValueKind::Constant, 11, Vec::new());
    let twin_b = m2.add_value(Vec::new(), ValueKind::Constant, 11, Vec::new());
    assert_ne!(StructValue::new(twin_a), StructValue::new(twin_b));
    // Identity is the reference itself, not the module it is read against.
    assert_eq!(StructValue::new(unnamed_c), StructValue::new(3));
    let _ = twin_b;
}

#[test]
fn unnamed_constant_has_empty_name() {
    let (m, _, _, unnamed_c, named_c, _, _) = sample_module();
    let h = StructValue::new(unnamed_c);
    assert_eq!(h.get_name(&m).len(), 0);
    let h2 = StructValue::new(named_c);
    assert_eq!(h2.get_name(&m).as_slice(), b"acc");
}

#[test]
fn get_type_returns_the_type_descriptor() {
    let (m, null_c, _, unnamed_c, _, _, _) = sample_module();
    assert_eq!(StructValue::new(unnamed_c).get_type(&m).as_type_ref(), 11);
    assert_eq!(StructValue::new(null_c).get_type(&m).as_type_ref(), 10);
    // Re-querying gives the same descriptor.
    let h = StructValue::new(unnamed_c);
    assert_eq!(h.get_type(&m), h.get_type(&m));
}

#[test]
fn sentinel_checks_are_exclusive() {
    let (m, null_c, undef_c, unnamed_c, _, _, instr) = sample_module();
    let hn = StructValue::new(null_c);
    assert!(hn.is_null(&m));
    assert!(!hn.is_undef(&m));
    let hu = StructValue::new(undef_c);
    assert!(!hu.is_null(&m));
    assert!(hu.is_undef(&m));
    for r in [unnamed_c, instr] {
        let h = StructValue::new(r);
        assert!(!h.is_null(&m));
        assert!(!h.is_undef(&m));
    }
}

#[test]
fn as_instruction_discriminates() {
    let (m, _, _, unnamed_c, _, _, instr) = sample_module();
    let hi = StructValue::new(instr);
    let iv = hi.as_instruction(&m).expect("an instruction value");
    assert_eq!(iv.as_value_ref(), instr);
    assert!(StructValue::new(unnamed_c).as_instruction(&m).is_none());
}

#[test]
fn operand_count_is_reread() {
    let (m, null_c, _, _, _, _, instr) = sample_module();
    assert_eq!(StructValue::new(instr).get_num_operands(&m), 4);
    assert_eq!(StructValue::new(null_c).get_num_operands(&m), 0);
}

#[test]
fn operand_one_past_the_end_is_absent() {
    let (m, null_c, _, _, _, _, instr) = sample_module();
    let hi = StructValue::new(instr);
    let count = hi.get_num_operands(&m);
    assert!(hi.get_operand(&m, count).is_none());
    assert!(hi.get_operand(&m, count + 17).is_none());
    let hc = StructValue::new(null_c);
    assert!(hc.get_operand(&m, 0).is_none());
}

#[test]
fn operand_in_range_and_non_null_is_present() {
    let (m, _, _, unnamed_c, named_c, _, instr) = sample_module();
    let hi = StructValue::new(instr);
    match hi.get_operand(&m, 0) {
        Some(Operand::Value(v)) => assert_eq!(v.as_value_ref(), unnamed_c),
        other => panic!("expected a value operand, got {:?}", other),
    }
    match hi.get_operand(&m, 1) {
        Some(Operand::Value(v)) => assert_eq!(v.as_value_ref(), named_c),
        other => panic!("expected a value operand, got {:?}", other),
    }
}

#[test]
fn operand_block_is_discriminated() {
    let (m, _, _, _, _, block, instr) = sample_module();
    let hi = StructValue::new(instr);
    match hi.get_operand(&m, 2) {
        Some(Operand::Block(b)) => assert_eq!(b.as_value_ref(), block),
        other => panic!("expected a block operand, got {:?}", other),
    }
}

#[test]
fn operand_null_slot_is_absent() {
    let (m, _, _, _, _, _, instr) = sample_module();
    let hi = StructValue::new(instr);
    assert!(hi.get_operand(&m, 3).is_none());
}

#[test]
fn replace_all_uses_rewrites_every_use_site() {
    let (mut m, _, _, unnamed_c, named_c, block, instr) = sample_module();
    // A second user of the unnamed constant.
    let instr2 = m.add_value(
        Vec::new(),
        ValueKind::Instruction,
        11,
        vec![unnamed_c, unnamed_c],
    );
    let h = StructValue::new(unnamed_c);
    let other = StructValue::new(named_c);
    h.replace_all_uses_with(other, &mut m);
    // Every prior use-site of `unnamed_c` now refers to `named_c`...
    let hi = StructValue::new(instr);
    match hi.get_operand(&m, 0) {
        Some(Operand::Value(v)) => assert_eq!(v.as_value_ref(), named_c),
        other => panic!("expected a value operand, got {:?}", other),
    }
    let hi2 = StructValue::new(instr2);
    for j in 0..2 {
        match hi2.get_operand(&m, j) {
            Some(Operand::Value(v)) => assert_eq!(v.as_value_ref(), named_c),
            other => panic!("expected a value operand, got {:?}", other),
        }
    }
    // ...while unrelated slots and records are untouched.
    match hi.get_operand(&m, 2) {
        Some(Operand::Block(b)) => assert_eq!(b.as_value_ref(), block),
        other => panic!("expected a block operand, got {:?}", other),
    }
    assert!(hi.get_operand(&m, 3).is_none());
    assert_eq!(hi.get_name(&m).as_slice(), b"tmp");
    assert_eq!(hi.get_num_operands(&m), 4);
}

#[test]
fn diagnostic_text_names_kind_and_value() {
    let (m, null_c, undef_c, _, named_c, _, _) = sample_module();
    let h = StructValue::new(named_c);
    assert_eq!(h.diagnostic_bytes(&m).as_slice(), b"constant acc");
    assert_eq!(
        StructValue::new(null_c).diagnostic_bytes(&m).as_slice(),
        b"null "
    );
    assert_eq!(
        StructValue::new(undef_c).diagnostic_bytes(&m).as_slice(),
        b"undef "
    );
    // The print itself only writes that text to standard error.
    h.print_to_stderr(&m);
}

#[test]
fn builder_leaves_existing_records_alone() {
    let (mut m, null_c, _, unnamed_c, _, _, _) = sample_module();
    let before = StructValue::new(unnamed_c).get_num_operands(&m);
    let extra = m.add_value(b"x".to_vec(), ValueKind::Argument, 13, vec![null_c]);
    assert_eq!(extra, 7);
    assert_eq!(StructValue::new(unnamed_c).get_num_operands(&m), before);
    assert!(StructValue::new(null_c).is_null(&m));
    let he = StructValue::new(extra);
    assert_eq!(he.get_name(&m).as_slice(), b"x");
    assert!(!he.is_null(&m));
    assert!(!he.is_undef(&m));
}
