use vstd::prelude::*;
use vstd::string::StringExecFns;

use crate::span::Span;

verus! {

/// One machine instruction: what it does and where in the source it was
/// written. Immutable once built; the parser builds one per statement and
/// the encoder reads it back unchanged.
#[derive(Debug, Clone, Copy)]
pub struct Instruction {
    kind: InstructionKind,
    span: Span,
}

impl Instruction {
    pub closed spec fn spec_kind(&self) -> InstructionKind {
        self.kind
    }

    pub closed spec fn spec_span(&self) -> Span {
        self.span
    }

    pub fn new(kind: InstructionKind, span: Span) -> (r: Self)
        ensures
            r.spec_kind() == kind,
            r.spec_span() == span,
    {
        Self { kind, span }
    }

    pub fn kind(&self) -> (r: &InstructionKind)
        ensures
            *r == self.spec_kind(),
    {
        &self.kind
    }

    pub fn span(&self) -> (r: Span)
        ensures
            r == self.spec_span(),
    {
        self.span
    }
}

/// The closed set of operand shapes, one variant per opcode. It carries no
/// behavior of its own: the arithmetic and the bit-level encoding live in
/// the encoder, which matches on this exhaustively.
#[derive(Debug, Clone, Copy)]
pub enum InstructionKind {
    Move { src: SetRegSelector, dst: SetRegSelector },
    Swizzle { reg: SwizzleRegSelector },
    Load { mem: MemoryOperand, dst: SetRegSelector },
    Store { src: SetRegSelector, mem: MemoryOperand },
    /// dst = src + dst
    Add { size: OpSize, src: RegSelector, dst: RegSelector },
    /// dst = src - dst
    Sub { size: OpSize, src: RegSelector, dst: RegSelector },
    /// dst = dst - src
    SubRev { size: OpSize, src: RegSelector, dst: RegSelector },
    /// dst = src == dst
    CmpEq { size: OpSize, src: RegSelector, dst: RegSelector },
    /// dst = src != dst
    CmpNeq { size: OpSize, src: RegSelector, dst: RegSelector },
    /// dst = src + dst, clamping to the range of `size` instead of wrapping
    AddSaturate { size: OpSize, src: RegSelector, dst: RegSelector },
    /// dst = src - dst, clamping to the range of `size` instead of wrapping
    SubSaturate { size: OpSize, src: RegSelector, dst: RegSelector },
    /// dst = dst - src, clamping to the range of `size` instead of wrapping
    SubRevSaturate { size: OpSize, src: RegSelector, dst: RegSelector },
    ShiftLeft { size: OpSize, dst: RegSelector, amount: ShiftAmount },
    ShiftRightLogical { size: OpSize, dst: RegSelector, amount: ShiftAmount },
    ShiftRightArithmetic { size: OpSize, dst: RegSelector, amount: ShiftAmount },
    RotateLeft { size: OpSize, dst: RegSelector, amount: ShiftAmount },
    RotateRight { size: OpSize, dst: RegSelector, amount: ShiftAmount },
    BitAnd { src: RegSelector, dst: RegSelector },
    BitOr { src: RegSelector, dst: RegSelector },
    BitXor { src: RegSelector, dst: RegSelector },
    BitNand { src: RegSelector, dst: RegSelector },
    BitNor { src: RegSelector, dst: RegSelector },
    BitXnor { src: RegSelector, dst: RegSelector },
    UnaryBitNot { dst: RegSelector },
}

/// Operand width for the arithmetic and shift instructions. The bitwise
/// logic instructions carry no size: they work on the whole register.
#[derive(Debug, Clone, Copy, PartialEq, Eq, Structural)]
pub enum OpSize {
    Byte,
    Word,
}

/// Where a shift instruction takes its amount from: a register, read when
/// the instruction runs, or a 4-bit immediate fixed in the source text.
#[derive(Debug, Clone, Copy)]
pub enum ShiftAmount {
    Register(RegSelector),
    Const(u8, Span),
}

impl ShiftAmount {
    /// An immediate shift amount must fit in 4 bits. The parser is expected
    /// to establish this before it builds the value.
    pub open spec fn wf(&self) -> bool {
        match *self {
            ShiftAmount::Register(_) => true,
            ShiftAmount::Const(value, _) => value <= 15,
        }
    }

    pub open spec fn spec_span(&self) -> Span {
        match *self {
            ShiftAmount::Register(reg_selector) => reg_selector.spec_span(),
            ShiftAmount::Const(_, span) => span,
        }
    }

    pub fn span(&self) -> (r: Span)
        ensures
            r == self.spec_span(),
    {
        match self {
            ShiftAmount::Register(reg_selector) => reg_selector.span(),
            ShiftAmount::Const(_, span) => *span,
        }
    }
}

/// the maximum index per type of register
pub const MAX_REG_IDX: u8 = 7;

const DATA_IDX_OFFSET: u8 = 8;

/// Identifies one physical register by a unified index in `0..=15`:
/// `0..=7` are the const registers `c0`..`c7`, `8..=14` the general purpose
/// registers `r0`..`r6`, and `15` is `ri`, the last writable slot.
#[derive(Copy, Clone, Debug)]
pub struct RegSelector {
    idx: u8,
    span: Span,
}

impl RegSelector {
    /// The unified register index; always at most 15.
    pub closed spec fn spec_idx(&self) -> u8 {
        self.idx
    }

    pub closed spec fn spec_span(&self) -> Span {
        self.span
    }

    pub fn new_const(idx: u8, span: Span) -> (r: Self)
        requires
            idx <= MAX_REG_IDX,
        ensures
            r.spec_idx() == idx,
            r.spec_span() == span,
    {
        Self { idx, span }
    }

    pub fn new_gpr(idx: u8, span: Span) -> (r: Self)
        requires
            idx <= MAX_REG_IDX,
        ensures
            r.spec_idx() == idx + 8,
            r.spec_span() == span,
    {
        Self { idx: idx + DATA_IDX_OFFSET, span }
    }

    /// gets the index of the register for codegen
    pub fn idx(&self) -> (r: u8)
        ensures
            r == self.spec_idx(),
    {
        self.idx
    }

    pub fn span(&self) -> (r: Span)
        ensures
            r == self.spec_span(),
    {
        self.span
    }

    /// returns `true` if the register is a const register, otherwise `false`.
    pub fn is_const(&self) -> (r: bool)
        ensures
            r == (self.spec_idx() <= MAX_REG_IDX),
    {
        self.idx <= MAX_REG_IDX
    }

    /// returns `true` if the register is a general purpose register, otherwise `false`.
    /// this method considers `ri` (`r15`) to be a general purpose register
    /// because it is writable.
    pub fn is_gpr(&self) -> (r: bool)
        ensures
            r == (MAX_REG_IDX < self.spec_idx() && self.spec_idx() <= 15),
    {
        MAX_REG_IDX < self.idx && self.idx <= DATA_IDX_OFFSET + MAX_REG_IDX
    }
}

impl PartialEq for RegSelector {
    fn eq(&self, other: &Self) -> bool {
        self.idx == other.idx
    }
}

impl Eq for RegSelector {}

impl vstd::std_specs::cmp::PartialEqSpecImpl for RegSelector {
    open spec fn obeys_eq_spec() -> bool {
        true
    }

    open spec fn eq_spec(&self, other: &Self) -> bool {
        self.spec_idx() == other.spec_idx()
    }
}

/// The symbolic name a unified register index decodes to: `c0`..`c7` for
/// the const registers, `r0`..`r6` for the general purpose ones, `ri` for
/// the last writable slot.
pub open spec fn spec_reg_name(idx: u8) -> Seq<char> {
    if idx == 0 {
        seq!['c', '0']
    } else if idx == 1 {
        seq!['c', '1']
    } else if idx == 2 {
        seq!['c', '2']
    } else if idx == 3 {
        seq!['c', '3']
    } else if idx == 4 {
        seq!['c', '4']
    } else if idx == 5 {
        seq!['c', '5']
    } else if idx == 6 {
        seq!['c', '6']
    } else if idx == 7 {
        seq!['c', '7']
    } else if idx == 8 {
        seq!['r', '0']
    } else if idx == 9 {
        seq!['r', '1']
    } else if idx == 10 {
        seq!['r', '2']
    } else if idx == 11 {
        seq!['r', '3']
    } else if idx == 12 {
        seq!['r', '4']
    } else if idx == 13 {
        seq!['r', '5']
    } else if idx == 14 {
        seq!['r', '6']
    } else {
        seq!['r', 'i']
    }
}

impl RegSelector {
    /// Decodes the register back to the symbolic name it was written as:
    /// the exact inverse of constructing it from a class and logical index.
    pub fn name(&self) -> (r: String)
        ensures
            r@ == spec_reg_name(self.spec_idx()),
    {
        proof {
            reveal_strlit("c0");
            reveal_strlit("c1");
            reveal_strlit("c2");
            reveal_strlit("c3");
            reveal_strlit("c4");
            reveal_strlit("c5");
            reveal_strlit("c6");
            reveal_strlit("c7");
            reveal_strlit("r0");
            reveal_strlit("r1");
            reveal_strlit("r2");
            reveal_strlit("r3");
            reveal_strlit("r4");
            reveal_strlit("r5");
            reveal_strlit("r6");
            reveal_strlit("ri");
        }
        let n: &str = match self.idx {
            0 => "c0",
            1 => "c1",
            2 => "c2",
            3 => "c3",
            4 => "c4",
            5 => "c5",
            6 => "c6",
            7 => "c7",
            8 => "r0",
            9 => "r1",
            10 => "r2",
            11 => "r3",
            12 => "r4",
            13 => "r5",
            14 => "r6",
            _ => "ri",
        };
        proof {
            assert(n@ =~= spec_reg_name(self.spec_idx()));
        }
        String::from_str(n)
    }
}

/// Every unified register index names exactly one register class: the const
/// range `0..=7` and the general purpose range `8..=15` partition the space.
pub proof fn lemma_register_classes(idx: u8)
    requires
        idx <= 15,
    ensures
        (idx <= MAX_REG_IDX) <==> !(MAX_REG_IDX < idx && idx <= 15),
{
}

/// bitflags for which elements of a vector are being selected: bit 0 is `x`,
/// bit 1 is `y`, bit 2 is `z`, bit 3 is `w`. The value never exceeds `0b1111`.
#[derive(Copy, Clone, Debug)]
pub struct SetSelector {
    bits: u8,
    span: Span,
}

impl SetSelector {
    /// The 4-bit component mask.
    pub closed spec fn spec_bits(&self) -> u8 {
        self.bits
    }

    pub closed spec fn spec_span(&self) -> Span {
        self.span
    }

    pub fn empty(span: Span) -> (r: Self)
        ensures
            r.spec_bits() == 0,
            r.spec_span() == span,
    {
        Self { bits: 0, span }
    }

    pub fn from_bits(bits: u8, span: Span) -> (r: Self)
        requires
            bits <= 0b1111,
        ensures
            r.spec_bits() == bits,
            r.spec_span() == span,
    {
        Self { bits, span }
    }

    /// sets the specified element in the selector, returning whether
    /// that element was already set
    pub fn set(&mut self, idx: u8) -> (was: bool)
        requires
            idx < 4,
        ensures
            was == (old(self).spec_bits() & (1u8 << idx) != 0),
            final(self).spec_bits() == old(self).spec_bits() | (1u8 << idx),
            final(self).spec_span() == old(self).spec_span(),
            old(self).spec_bits() <= 0b1111 ==> final(self).spec_bits() <= 0b1111,
    {
        proof {
            let b: u8 = self.bits;
            assert(b <= 0b1111 && idx < 4 ==> (b | (1u8 << idx)) <= 0b1111) by (bit_vector);
        }
        let was = self.bits & (1u8 << idx) != 0;
        self.bits = self.bits | (1u8 << idx);
        was
    }

    pub fn get(&mut self, idx: u8) -> (r: bool)
        requires
            idx < 4,
        ensures
            r == (old(self).spec_bits() & (1u8 << idx) != 0),
            *final(self) == *old(self),
    {
        self.bits & (1u8 << idx) != 0
    }

    /// gets the bits set in the selector
    pub fn bits(&self) -> (r: u8)
        ensures
            r == self.spec_bits(),
    {
        self.bits
    }

    pub fn span(&self) -> (r: Span)
        ensures
            r == self.spec_span(),
    {
        self.span
    }

    pub fn x(&self) -> (r: bool)
        ensures
            r == (self.spec_bits() & 0b0001 != 0),
    {
        self.bits & 0b0001 != 0
    }

    pub fn y(&self) -> (r: bool)
        ensures
            r == (self.spec_bits() & 0b0010 != 0),
    {
        self.bits & 0b0010 != 0
    }

    pub fn z(&self) -> (r: bool)
        ensures
            r == (self.spec_bits() & 0b0100 != 0),
    {
        self.bits & 0b0100 != 0
    }

    pub fn w(&self) -> (r: bool)
        ensures
            r == (self.spec_bits() & 0b1000 != 0),
    {
        self.bits & 0b1000 != 0
    }

    /// Decodes the mask back to the subset of component letters present, in
    /// the canonical `x`, `y`, `z`, `w` order: the exact inverse of setting
    /// those components one by one.
    pub fn letters(&self) -> (r: String)
        ensures
            r@ == spec_set_letters(self.spec_bits()),
    {
        proof {
            reveal_strlit("x");
            reveal_strlit("y");
            reveal_strlit("z");
            reveal_strlit("w");
        }
        let mut out = String::new();
        if self.bits & 0b0001 != 0 {
            out.append("x");
        }
        if self.bits & 0b0010 != 0 {
            out.append("y");
        }
        if self.bits & 0b0100 != 0 {
            out.append("z");
        }
        if self.bits & 0b1000 != 0 {
            out.append("w");
        }
        proof {
            assert(out@ =~= spec_set_letters(self.spec_bits()));
        }
        out
    }
}

/// The subset of component letters a mask decodes to, in the canonical
/// `x`, `y`, `z`, `w` order.
pub open spec fn spec_set_letters(bits: u8) -> Seq<char> {
    (if bits & 0b0001 != 0 {
        seq!['x']
    } else {
        Seq::<char>::empty()
    }) + (if bits & 0b0010 != 0 {
        seq!['y']
    } else {
        Seq::<char>::empty()
    }) + (if bits & 0b0100 != 0 {
        seq!['z']
    } else {
        Seq::<char>::empty()
    }) + (if bits & 0b1000 != 0 {
        seq!['w']
    } else {
        Seq::<char>::empty()
    })
}

impl PartialEq for SetSelector {
    fn eq(&self, other: &Self) -> bool {
        self.bits == other.bits
    }
}

impl Eq for SetSelector {}

impl vstd::std_specs::cmp::PartialEqSpecImpl for SetSelector {
    open spec fn obeys_eq_spec() -> bool {
        true
    }

    open spec fn eq_spec(&self, other: &Self) -> bool {
        self.spec_bits() == other.spec_bits()
    }
}

/// A 4-bit component mask is exactly its four member bits: two masks agree
/// if and only if they answer alike for `x`, `y`, `z` and `w`.
pub proof fn lemma_mask_determined_by_components(m1: u8, m2: u8)
    requires
        m1 <= 0b1111,
        m2 <= 0b1111,
    ensures
        (m1 == m2) <==> ((m1 & 0b0001 != 0) == (m2 & 0b0001 != 0) && (m1 & 0b0010 != 0) == (m2
            & 0b0010 != 0) && (m1 & 0b0100 != 0) == (m2 & 0b0100 != 0) && (m1 & 0b1000 != 0) == (m2
            & 0b1000 != 0)),
{
    assert((m1 == m2) <==> ((m1 & 0b0001 != 0) == (m2 & 0b0001 != 0) && (m1 & 0b0010 != 0) == (m2
        & 0b0010 != 0) && (m1 & 0b0100 != 0) == (m2 & 0b0100 != 0) && (m1 & 0b1000 != 0) == (m2
        & 0b1000 != 0))) by (bit_vector)
        requires
            m1 <= 0b1111,
            m2 <= 0b1111,
    ;
}

/// Marking a component marks it for good: a second `set` of the same index
/// always reports it as already present.
pub proof fn lemma_set_duplicate_detected(bits: u8, idx: u8)
    requires
        idx < 4,
    ensures
        (bits | (1u8 << idx)) & (1u8 << idx) != 0,
{
    assert(idx < 4 ==> (bits | (1u8 << idx)) & (1u8 << idx) != 0) by (bit_vector);
}

/// The component read for output slot `slot` of a swizzle pattern: the two
/// bits of `bits` at position `(slot % 4) * 2`, slot 0 in the low bits.
pub open spec fn spec_slot(bits: u8, slot: u8) -> u8 {
    if slot % 4 == 0 {
        bits & 0b11
    } else if slot % 4 == 1 {
        (bits >> 2) & 0b11
    } else if slot % 4 == 2 {
        (bits >> 4) & 0b11
    } else {
        (bits >> 6) & 0b11
    }
}

/// an ordered selector of elements from a vector
/// the low 2 bits correspond to the first selected element index and so on
#[derive(Copy, Clone, Debug)]
pub struct SwizzleSelector {
    bits: u8,
    span: Span,
}

impl SwizzleSelector {
    /// The packed pattern, 2 bits per output slot.
    pub closed spec fn spec_bits(&self) -> u8 {
        self.bits
    }

    pub closed spec fn spec_span(&self) -> Span {
        self.span
    }

    pub fn empty(span: Span) -> (r: Self)
        ensures
            r.spec_bits() == 0,
            r.spec_span() == span,
    {
        Self { bits: 0, span }
    }

    /// Writes `selected` (taken modulo 4) into output slot `offset` (also
    /// taken modulo 4, so writes past slot 3 alias one of the four slots),
    /// clearing the slot's two bits first and leaving every other slot alone.
    pub fn set(&mut self, offset: u8, selected: u8)
        ensures
            forall|i: u8|
                i < 4 ==> #[trigger] spec_slot(final(self).spec_bits(), i) == (if i == offset % 4 {
                    selected % 4
                } else {
                    spec_slot(old(self).spec_bits(), i)
                }),
            final(self).spec_span() == old(self).spec_span(),
    {
        proof {
            assert(offset & 0b11 <= 3) by (bit_vector);
        }
        let shift: u8 = (offset & 0b11) * 2;
        // set the bits at the position to 0, then set them to the correct value
        self.bits = (self.bits & !(0b11u8 << shift)) | ((selected & 0b11) << shift);
        proof {
            let ob: u8 = old(self).bits;
            let nb: u8 = self.bits;
            assert(forall|i: u8|
                i < 4 ==> #[trigger] spec_slot(nb, i) == (if i == offset % 4 {
                    selected % 4
                } else {
                    spec_slot(ob, i)
                })) by (bit_vector)
                requires
                    nb == (ob & !(0b11u8 << ((offset & 0b11) * 2))) | ((selected & 0b11) << ((offset
                        & 0b11) * 2)),
            ;
        }
    }

    pub fn bits(&self) -> (r: u8)
        ensures
            r == self.spec_bits(),
    {
        self.bits
    }

    pub fn span(&self) -> (r: Span)
        ensures
            r == self.spec_span(),
    {
        self.span
    }

    /// Decodes the pattern to a 4-letter string: the letter at position `i`
    /// names the component read for output slot `i`, the exact inverse of
    /// the packing that `set` performs.
    pub fn letters(&self) -> (r: String)
        ensures
            r@.len() == 4,
            forall|i: int|
                0 <= i < 4 ==> r@[i] == spec_component_letter(spec_slot(self.spec_bits(), i as u8)),
    {
        let mut out = String::new();
        out.append(component_letter_str(self.bits & 0b11));
        out.append(component_letter_str((self.bits >> 2) & 0b11));
        out.append(component_letter_str((self.bits >> 4) & 0b11));
        out.append(component_letter_str((self.bits >> 6) & 0b11));
        proof {
            assert(out@ =~= seq![
                spec_component_letter(spec_slot(self.spec_bits(), 0)),
                spec_component_letter(spec_slot(self.spec_bits(), 1)),
                spec_component_letter(spec_slot(self.spec_bits(), 2)),
                spec_component_letter(spec_slot(self.spec_bits(), 3)),
            ]);
        }
        out
    }
}

/// The letter that names a selected component: `x`, `y`, `z` or `w` for
/// 0, 1, 2 or 3, reading only the low two bits.
pub open spec fn spec_component_letter(v: u8) -> char {
    if v & 0b11 == 0 {
        'x'
    } else if v & 0b11 == 1 {
        'y'
    } else if v & 0b11 == 2 {
        'z'
    } else {
        'w'
    }
}

fn component_letter_str(v: u8) -> (r: &'static str)
    ensures
        r@ == seq![spec_component_letter(v)],
{
    proof {
        reveal_strlit("x");
        reveal_strlit("y");
        reveal_strlit("z");
        reveal_strlit("w");
    }
    let low: u8 = v & 0b11;
    let r: &'static str = if low == 0 {
        "x"
    } else if low == 1 {
        "y"
    } else if low == 2 {
        "z"
    } else {
        "w"
    };
    proof {
        assert(v & 0b11 <= 3) by (bit_vector);
        assert(r@ =~= seq![spec_component_letter(v)]);
    }
    r
}

impl PartialEq for SwizzleSelector {
    fn eq(&self, other: &Self) -> bool {
        self.bits == other.bits
    }
}

impl Eq for SwizzleSelector {}

impl vstd::std_specs::cmp::PartialEqSpecImpl for SwizzleSelector {
    open spec fn obeys_eq_spec() -> bool {
        true
    }

    open spec fn eq_spec(&self, other: &Self) -> bool {
        self.spec_bits() == other.spec_bits()
    }
}

/// A swizzle pattern is exactly its four slots: two packed patterns agree if
/// and only if every output slot reads the same component.
pub proof fn lemma_swizzle_determined_by_slots(b1: u8, b2: u8)
    ensures
        (b1 == b2) <==> (spec_slot(b1, 0) == spec_slot(b2, 0) && spec_slot(b1, 1) == spec_slot(
            b2,
            1,
        ) && spec_slot(b1, 2) == spec_slot(b2, 2) && spec_slot(b1, 3) == spec_slot(b2, 3)),
{
    assert((b1 == b2) <==> (spec_slot(b1, 0) == spec_slot(b2, 0) && spec_slot(b1, 1) == spec_slot(
        b2,
        1,
    ) && spec_slot(b1, 2) == spec_slot(b2, 2) && spec_slot(b1, 3) == spec_slot(b2, 3)))
        by (bit_vector);
}

/// A memory reference for `Load` and `Store`: a register holding the
/// address, whether each lane supplies its own address, and whether the
/// address register is bumped after the access.
#[derive(Clone, Copy, Debug)]
pub struct MemoryOperand {
    reg: RegSelector,
    /// true to use each word in the register as an operand, false to use only the first
    scatter: bool,
    increment: bool,
    span: Span,
}

impl MemoryOperand {
    pub closed spec fn spec_reg(&self) -> RegSelector {
        self.reg
    }

    pub closed spec fn spec_scatter(&self) -> bool {
        self.scatter
    }

    pub closed spec fn spec_increment(&self) -> bool {
        self.increment
    }

    pub closed spec fn spec_span(&self) -> Span {
        self.span
    }

    pub fn new(reg: RegSelector, scatter: bool, increment: bool, span: Span) -> (r: Self)
        ensures
            r.spec_reg() == reg,
            r.spec_scatter() == scatter,
            r.spec_increment() == increment,
            r.spec_span() == span,
    {
        Self { reg, scatter, increment, span }
    }

    pub fn reg(&self) -> (r: RegSelector)
        ensures
            r == self.spec_reg(),
    {
        self.reg
    }

    pub fn scatter(&self) -> (r: bool)
        ensures
            r == self.spec_scatter(),
    {
        self.scatter
    }

    pub fn increment(&self) -> (r: bool)
        ensures
            r == self.spec_increment(),
    {
        self.increment
    }

    pub fn span(&self) -> (r: Span)
        ensures
            r == self.spec_span(),
    {
        self.span
    }
}

/// A register together with a component mask: the operand of the masked
/// moves, loads and stores.
#[derive(Copy, Clone, Debug)]
pub struct SetRegSelector {
    reg: RegSelector,
    selector: SetSelector,
    span: Span,
}

impl SetRegSelector {
    pub closed spec fn spec_reg(&self) -> RegSelector {
        self.reg
    }

    pub closed spec fn spec_selector(&self) -> SetSelector {
        self.selector
    }

    pub closed spec fn spec_span(&self) -> Span {
        self.span
    }

    pub fn new(reg: RegSelector, selector: SetSelector, span: Span) -> (r: Self)
        ensures
            r.spec_reg() == reg,
            r.spec_selector() == selector,
            r.spec_span() == span,
    {
        Self { reg, selector, span }
    }

    pub fn reg(&self) -> (r: RegSelector)
        ensures
            r == self.spec_reg(),
    {
        self.reg
    }

    pub fn selector(&self) -> (r: SetSelector)
        ensures
            r == self.spec_selector(),
    {
        self.selector
    }

    pub fn span(&self) -> (r: Span)
        ensures
            r == self.spec_span(),
    {
        self.span
    }
}

/// A register together with an ordered reordering pattern: the operand of
/// `Swizzle`.
#[derive(Copy, Clone, Debug)]
pub struct SwizzleRegSelector {
    reg: RegSelector,
    selector: SwizzleSelector,
    span: Span,
}

impl SwizzleRegSelector {
    pub closed spec fn spec_reg(&self) -> RegSelector {
        self.reg
    }

    pub closed spec fn spec_selector(&self) -> SwizzleSelector {
        self.selector
    }

    pub closed spec fn spec_span(&self) -> Span {
        self.span
    }

    pub fn new(reg: RegSelector, selector: SwizzleSelector, span: Span) -> (r: Self)
        ensures
            r.spec_reg() == reg,
            r.spec_selector() == selector,
            r.spec_span() == span,
    {
        Self { reg, selector, span }
    }

    pub fn reg(&self) -> (r: RegSelector)
        ensures
            r == self.spec_reg(),
    {
        self.reg
    }

    pub fn selector(&self) -> (r: SwizzleSelector)
        ensures
            r == self.spec_selector(),
    {
        self.selector
    }

    pub fn span(&self) -> (r: Span)
        ensures
            r == self.spec_span(),
    {
        self.span
    }
}

} // verus!
