use vecasm::instruction::{
    InstructionKind, Instruction, MemoryOperand, OpSize, RegSelector, SetRegSelector, SetSelector,
    ShiftAmount, SwizzleRegSelector, SwizzleSelector,
};
use vecasm::span::Span;

fn span() -> Span {
    Span::new(0, 0)
}

#[test]
fn const_register_index_space() {
    for i in 0..=7u8 {
        let reg = RegSelector::new_const(i, span());
        assert_eq!(reg.idx(), i);
        assert!(reg.is_const());
        assert!(!reg.is_gpr());
    }
}

#[test]
fn gpr_register_index_space() {
    for i in 0..=7u8 {
        let reg = RegSelector::new_gpr(i, span());
        assert_eq!(reg.idx(), i + 8);
        assert!(reg.is_gpr());
        assert!(!reg.is_const());
    }
}

#[test]
fn register_names_decode() {
    assert_eq!(RegSelector::new_const(0, span()).name(), "c0");
    assert_eq!(RegSelector::new_const(7, span()).name(), "c7");
    assert_eq!(RegSelector::new_gpr(0, span()).name(), "r0");
    assert_eq!(RegSelector::new_gpr(6, span()).name(), "r6");
    assert_eq!(RegSelector::new_gpr(7, span()).name(), "ri");
}

#[test]
fn register_eq_ignores_span() {
    let a = RegSelector::new_const(1, Span::new(0, 2));
    let b = RegSelector::new_const(1, Span::new(5, 7));
    assert_eq!(a, b);
    assert!(RegSelector::new_const(1, span()) != RegSelector::new_gpr(1, span()));
}

#[test]
fn register_span_is_kept() {
    let reg = RegSelector::new_gpr(3, Span::new(4, 6));
    assert_eq!(reg.span(), Span::new(4, 6));
}

#[test]
fn set_selector_round_trip() {
    for m in 0..=0b1111u8 {
        let sel = SetSelector::from_bits(m, span());
        assert_eq!(sel.bits(), m);
        assert_eq!(sel.x(), m & 0b0001 != 0);
        assert_eq!(sel.y(), m & 0b0010 != 0);
        assert_eq!(sel.z(), m & 0b0100 != 0);
        assert_eq!(sel.w(), m & 0b1000 != 0);
    }
}

#[test]
fn set_selector_duplicate_detection() {
    let mut sel = SetSelector::empty(span());
    assert!(!sel.set(2));
    assert!(sel.set(2));
    assert_eq!(sel.bits(), 0b0100);
}

#[test]
fn set_selector_fills_up() {
    let mut sel = SetSelector::empty(span());
    for i in 0..4u8 {
        assert!(!sel.set(i));
    }
    assert_eq!(sel.bits(), 0b1111);
    assert_eq!(sel.letters(), "xyzw");
}

#[test]
fn set_selector_get_reads_bits() {
    let mut sel = SetSelector::from_bits(0b1010, span());
    assert!(sel.get(1));
    assert!(!sel.get(0));
    assert!(sel.get(3));
    assert!(!sel.get(2));
}

#[test]
fn set_selector_letters_subset() {
    assert_eq!(SetSelector::from_bits(0b0101, span()).letters(), "xz");
    assert_eq!(SetSelector::from_bits(0b1000, span()).letters(), "w");
    assert_eq!(SetSelector::empty(span()).letters(), "");
}

fn letter(v: u8) -> char {
    match v & 0b11 {
        0 => 'x',
        1 => 'y',
        2 => 'z',
        _ => 'w',
    }
}

#[test]
fn swizzle_round_trip_all_patterns() {
    for a in 0..4u8 {
        for b in 0..4u8 {
            for c in 0..4u8 {
                for d in 0..4u8 {
                    let mut sel = SwizzleSelector::empty(span());
                    sel.set(0, a);
                    sel.set(1, b);
                    sel.set(2, c);
                    sel.set(3, d);
                    let expected: String =
                        [letter(a), letter(b), letter(c), letter(d)].iter().collect();
                    assert_eq!(sel.letters(), expected);
                }
            }
        }
    }
}

#[test]
fn swizzle_offset_wraps_modulo_four() {
    let mut sel = SwizzleSelector::empty(span());
    sel.set(1, 3);
    // offset 5 aliases slot 1 and silently overwrites it
    sel.set(5, 2);
    assert_eq!(sel.letters(), "xzxx");
    // offset 4 aliases slot 0
    sel.set(4, 1);
    assert_eq!(sel.letters(), "yzxx");
}

#[test]
fn swizzle_selected_value_truncates() {
    let mut sel = SwizzleSelector::empty(span());
    sel.set(0, 7);
    assert_eq!(sel.letters(), "wxxx");
}

#[test]
fn swizzle_bits_packing() {
    let mut sel = SwizzleSelector::empty(span());
    sel.set(0, 1);
    sel.set(1, 2);
    sel.set(2, 3);
    sel.set(3, 0);
    assert_eq!(sel.bits(), 0b00111001);
}

#[test]
fn swizzle_overwrite_clears_old_bits() {
    let mut sel = SwizzleSelector::empty(span());
    sel.set(0, 3);
    sel.set(0, 1);
    assert_eq!(sel.bits(), 0b01);
    assert_eq!(sel.letters(), "yxxx");
}

#[test]
fn swizzle_eq_ignores_span() {
    let mut a = SwizzleSelector::empty(Span::new(0, 1));
    let mut b = SwizzleSelector::empty(Span::new(2, 3));
    a.set(2, 1);
    b.set(2, 1);
    assert_eq!(a, b);
}

#[test]
fn memory_operand_fields() {
    let reg = RegSelector::new_gpr(2, span());
    let mem = MemoryOperand::new(reg, true, false, Span::new(1, 9));
    assert_eq!(mem.reg(), reg);
    assert!(mem.scatter());
    assert!(!mem.increment());
    assert_eq!(mem.span(), Span::new(1, 9));
}

#[test]
fn set_reg_selector_fields() {
    let reg = RegSelector::new_gpr(0, span());
    let sel = SetSelector::from_bits(0b0011, span());
    let operand = SetRegSelector::new(reg, sel, Span::new(2, 7));
    assert_eq!(operand.reg(), reg);
    assert_eq!(operand.selector(), sel);
    assert_eq!(operand.span(), Span::new(2, 7));
}

#[test]
fn swizzle_reg_selector_fields() {
    let reg = RegSelector::new_gpr(1, span());
    let mut sel = SwizzleSelector::empty(span());
    sel.set(0, 2);
    let operand = SwizzleRegSelector::new(reg, sel, Span::new(3, 8));
    assert_eq!(operand.reg(), reg);
    assert_eq!(operand.selector(), sel);
    assert_eq!(operand.span(), Span::new(3, 8));
}

#[test]
fn shift_amount_span() {
    let reg = RegSelector::new_gpr(4, Span::new(10, 12));
    assert_eq!(ShiftAmount::Register(reg).span(), Span::new(10, 12));
    assert_eq!(ShiftAmount::Const(15, Span::new(3, 4)).span(), Span::new(3, 4));
}

#[test]
fn op_size_distinguishes_widths() {
    assert_eq!(OpSize::Byte, OpSize::Byte);
    assert_ne!(OpSize::Byte, OpSize::Word);
}

#[test]
fn instruction_keeps_kind_and_span() {
    let src = SetRegSelector::new(
        RegSelector::new_gpr(1, span()),
        SetSelector::from_bits(0b0011, span()),
        span(),
    );
    let dst = SetRegSelector::new(
        RegSelector::new_gpr(0, span()),
        SetSelector::from_bits(0b0011, span()),
        span(),
    );
    let instruction = Instruction::new(InstructionKind::Move { src, dst }, Span::new(0, 16));
    assert_eq!(instruction.span(), Span::new(0, 16));
    match instruction.kind() {
        InstructionKind::Move { src: s, dst: d } => {
            assert_eq!(s.reg(), src.reg());
            assert_eq!(s.selector(), src.selector());
            assert_eq!(d.reg(), dst.reg());
            assert_eq!(d.selector(), dst.selector());
        }
        _ => panic!("wrong instruction kind"),
    }
}

#[test]
fn instruction_shift_with_immediate() {
    let dst = RegSelector::new_gpr(5, span());
    let instruction = Instruction::new(
        InstructionKind::ShiftLeft {
            size: OpSize::Word,
            dst,
            amount: ShiftAmount::Const(15, Span::new(8, 10)),
        },
        Span::new(0, 10),
    );
    match instruction.kind() {
        InstructionKind::ShiftLeft { size, dst: d, amount } => {
            assert_eq!(*size, OpSize::Word);
            assert_eq!(*d, dst);
            match amount {
                ShiftAmount::Const(value, sp) => {
                    assert_eq!(*value, 15);
                    assert_eq!(*sp, Span::new(8, 10));
                }
                _ => panic!("wrong shift amount variant"),
            }
        }
        _ => panic!("wrong instruction kind"),
    }
}

#[test]
fn instruction_arithmetic_fields() {
    let src = RegSelector::new_const(2, span());
    let dst = RegSelector::new_gpr(3, span());
    let instruction = Instruction::new(
        InstructionKind::AddSaturate { size: OpSize::Byte, src, dst },
        span(),
    );
    match instruction.kind() {
        InstructionKind::AddSaturate { size, src: s, dst: d } => {
            assert_eq!(*size, OpSize::Byte);
            assert_eq!(*s, src);
            assert_eq!(*d, dst);
        }
        _ => panic!("wrong instruction kind"),
    }
}
