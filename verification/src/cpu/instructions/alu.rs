//! ALU (A-type) instruction implementations
//!
//! This module implements the integer ALU instructions for the IA-64 architecture.
//!
//! Integer arithmetic wraps at 64 bits. A shift or rotate amount counts
//! modulo 64: only its low six bits are used.

use vstd::prelude::*;
use vstd::string::*;
use super::{
    binary_to_gr,
    binary_to_pr,
    fails,
    execution_fault,
    immediate_bits,
    read_operand,
    read_operands,
    signed,
    signed_less,
    spec_operands,
    unary_to_gr,
    unsigned,
    write_gr,
    write_pr,
    Instruction,
    InstructionFields,
};
use crate::cpu::Cpu;
use crate::memory::Memory;
use crate::EmulatorError;

verus! {

/// Add instruction
#[derive(Debug)]
pub struct Add {
    /// The decoded fields
    pub fields: InstructionFields,
}

impl Add {
    /// Create new ADD instruction
    pub fn new(fields: InstructionFields) -> (i: Self)
        ensures
            i.fields == fields,
    {
        Self { fields }
    }
}

impl Instruction for Add {
    open spec fn qualifying_predicate(&self) -> u8 {
        self.fields.qp
    }

    /// The destination takes the sum of the two sources, wrapping.
    fn execute(&self, cpu: &mut Cpu, _memory: &mut Memory) -> (r: Result<(), EmulatorError>)
        ensures
            *final(_memory) == *old(_memory),
            binary_to_gr(*old(cpu), *final(cpu), self.fields, r, |a: u64, b: u64| a.wrapping_add(b)),
    {
        let (src1, src2) = match read_operands(cpu, &self.fields) {
            Ok(Some(v)) => v,
            Ok(None) => {
                return Ok(());
            },
            Err(e) => {
                return Err(e);
            },
        };
        let result = src1.wrapping_add(src2);
        write_gr(cpu, &self.fields, result)
    }
}

/// Sub instruction
#[derive(Debug)]
pub struct Sub {
    /// The decoded fields
    pub fields: InstructionFields,
}

impl Sub {
    /// Create new SUB instruction
    pub fn new(fields: InstructionFields) -> (i: Self)
        ensures
            i.fields == fields,
    {
        Self { fields }
    }
}

impl Instruction for Sub {
    open spec fn qualifying_predicate(&self) -> u8 {
        self.fields.qp
    }

    /// The destination takes the first source less the second, wrapping.
    fn execute(&self, cpu: &mut Cpu, _memory: &mut Memory) -> (r: Result<(), EmulatorError>)
        ensures
            *final(_memory) == *old(_memory),
            binary_to_gr(*old(cpu), *final(cpu), self.fields, r, |a: u64, b: u64| a.wrapping_sub(b)),
    {
        let (src1, src2) = match read_operands(cpu, &self.fields) {
            Ok(Some(v)) => v,
            Ok(None) => {
                return Ok(());
            },
            Err(e) => {
                return Err(e);
            },
        };
        let result = src1.wrapping_sub(src2);
        write_gr(cpu, &self.fields, result)
    }
}

/// And instruction
#[derive(Debug)]
pub struct And {
    /// The decoded fields
    pub fields: InstructionFields,
}

impl And {
    /// Create new AND instruction
    pub fn new(fields: InstructionFields) -> (i: Self)
        ensures
            i.fields == fields,
    {
        Self { fields }
    }
}

impl Instruction for And {
    open spec fn qualifying_predicate(&self) -> u8 {
        self.fields.qp
    }

    /// The destination takes the bitwise and of the two sources.
    fn execute(&self, cpu: &mut Cpu, _memory: &mut Memory) -> (r: Result<(), EmulatorError>)
        ensures
            *final(_memory) == *old(_memory),
            binary_to_gr(*old(cpu), *final(cpu), self.fields, r, |a: u64, b: u64| a & b),
    {
        let (src1, src2) = match read_operands(cpu, &self.fields) {
            Ok(Some(v)) => v,
            Ok(None) => {
                return Ok(());
            },
            Err(e) => {
                return Err(e);
            },
        };
        let result = src1 & src2;
        write_gr(cpu, &self.fields, result)
    }
}

/// Or instruction
#[derive(Debug)]
pub struct Or {
    /// The decoded fields
    pub fields: InstructionFields,
}

impl Or {
    /// Create new OR instruction
    pub fn new(fields: InstructionFields) -> (i: Self)
        ensures
            i.fields == fields,
    {
        Self { fields }
    }
}

impl Instruction for Or {
    open spec fn qualifying_predicate(&self) -> u8 {
        self.fields.qp
    }

    /// The destination takes the bitwise or of the two sources.
    fn execute(&self, cpu: &mut Cpu, _memory: &mut Memory) -> (r: Result<(), EmulatorError>)
        ensures
            *final(_memory) == *old(_memory),
            binary_to_gr(*old(cpu), *final(cpu), self.fields, r, |a: u64, b: u64| a | b),
    {
        let (src1, src2) = match read_operands(cpu, &self.fields) {
            Ok(Some(v)) => v,
            Ok(None) => {
                return Ok(());
            },
            Err(e) => {
                return Err(e);
            },
        };
        let result = src1 | src2;
        write_gr(cpu, &self.fields, result)
    }
}

/// Xor instruction
#[derive(Debug)]
pub struct Xor {
    /// The decoded fields
    pub fields: InstructionFields,
}

impl Xor {
    /// Create new XOR instruction
    pub fn new(fields: InstructionFields) -> (i: Self)
        ensures
            i.fields == fields,
    {
        Self { fields }
    }
}

impl Instruction for Xor {
    open spec fn qualifying_predicate(&self) -> u8 {
        self.fields.qp
    }

    /// The destination takes the bitwise exclusive or of the two sources.
    fn execute(&self, cpu: &mut Cpu, _memory: &mut Memory) -> (r: Result<(), EmulatorError>)
        ensures
            *final(_memory) == *old(_memory),
            binary_to_gr(*old(cpu), *final(cpu), self.fields, r, |a: u64, b: u64| a ^ b),
    {
        let (src1, src2) = match read_operands(cpu, &self.fields) {
            Ok(Some(v)) => v,
            Ok(None) => {
                return Ok(());
            },
            Err(e) => {
                return Err(e);
            },
        };
        let result = src1 ^ src2;
        write_gr(cpu, &self.fields, result)
    }
}

/// Compare types
#[derive(Debug, Clone, Copy, PartialEq, Eq, Structural)]
pub enum CompareType {
    /// Equal
    Equal,
    /// Not equal
    NotEqual,
    /// Less than (signed)
    LessThan,
    /// Less than or equal (signed)
    LessEqual,
    /// Greater than (signed)
    GreaterThan,
    /// Greater than or equal (signed)
    GreaterEqual,
    /// Less than (unsigned)
    LessThanU,
    /// Less than or equal (unsigned)
    LessEqualU,
    /// Greater than (unsigned)
    GreaterThanU,
    /// Greater than or equal (unsigned)
    GreaterEqualU,
}

impl CompareType {
    /// Whether the comparison holds of `a` and `b`.
    pub open spec fn holds(self, a: u64, b: u64) -> bool {
        match self {
            CompareType::Equal => a == b,
            CompareType::NotEqual => a != b,
            CompareType::LessThan => signed(a) < signed(b),
            CompareType::LessEqual => signed(a) <= signed(b),
            CompareType::GreaterThan => signed(a) > signed(b),
            CompareType::GreaterEqual => signed(a) >= signed(b),
            CompareType::LessThanU => a < b,
            CompareType::LessEqualU => a <= b,
            CompareType::GreaterThanU => a > b,
            CompareType::GreaterEqualU => a >= b,
        }
    }

    /// Evaluate the comparison.
    #[verifier::when_used_as_spec(holds)]
    pub fn evaluate(self, a: u64, b: u64) -> (r: bool)
        ensures
            r == self.holds(a, b),
    {
        match self {
            CompareType::Equal => a == b,
            CompareType::NotEqual => a != b,
            CompareType::LessThan => signed_less(a, b),
            CompareType::LessEqual => !signed_less(b, a),
            CompareType::GreaterThan => signed_less(b, a),
            CompareType::GreaterEqual => !signed_less(a, b),
            CompareType::LessThanU => a < b,
            CompareType::LessEqualU => a <= b,
            CompareType::GreaterThanU => a > b,
            CompareType::GreaterEqualU => a >= b,
        }
    }
}

/// Compare instruction
#[derive(Debug)]
pub struct Compare {
    /// The decoded fields
    pub fields: InstructionFields,
    /// The comparison
    pub ctype: CompareType,
}

impl Compare {
    /// Create new compare instruction
    pub fn new(fields: InstructionFields, ctype: CompareType) -> (i: Self)
        ensures
            i.fields == fields,
            i.ctype == ctype,
    {
        Self { fields, ctype }
    }
}

impl Instruction for Compare {
    open spec fn qualifying_predicate(&self) -> u8 {
        self.fields.qp
    }

    /// The destination predicate takes the outcome of the comparison.
    fn execute(&self, cpu: &mut Cpu, _memory: &mut Memory) -> (r: Result<(), EmulatorError>)
        ensures
            *final(_memory) == *old(_memory),
            binary_to_pr(*old(cpu), *final(cpu), self.fields, r, |a: u64, b: u64| self.ctype.holds(a, b)),
    {
        let (src1, src2) = match read_operands(cpu, &self.fields) {
            Ok(Some(v)) => v,
            Ok(None) => {
                return Ok(());
            },
            Err(e) => {
                return Err(e);
            },
        };
        let result = self.ctype.evaluate(src1, src2);
        write_pr(cpu, &self.fields, result)
    }
}

/// Whether bit `pos` of `value` is set; a position past the 63rd names no
/// bit.
pub open spec fn bit_is_set(value: u64, pos: u64) -> bool {
    pos < 64 && (value & (1u64 << pos)) != 0
}

/// Test bit instruction
#[derive(Debug)]
pub struct TestBit {
    /// The decoded fields
    pub fields: InstructionFields,
}

impl TestBit {
    /// Create new test bit instruction
    pub fn new(fields: InstructionFields) -> (i: Self)
        ensures
            i.fields == fields,
    {
        Self { fields }
    }
}

impl Instruction for TestBit {
    open spec fn qualifying_predicate(&self) -> u8 {
        self.fields.qp
    }

    /// The destination predicate tells whether the bit of the first
    /// source that the second source names is set.
    fn execute(&self, cpu: &mut Cpu, _memory: &mut Memory) -> (r: Result<(), EmulatorError>)
        ensures
            *final(_memory) == *old(_memory),
            binary_to_pr(*old(cpu), *final(cpu), self.fields, r, |a: u64, b: u64| bit_is_set(a, b)),
    {
        let (value, pos) = match read_operands(cpu, &self.fields) {
            Ok(Some(v)) => v,
            Ok(None) => {
                return Ok(());
            },
            Err(e) => {
                return Err(e);
            },
        };
        let result = if pos < 64 {
            (value & (1u64 << pos)) != 0
        } else {
            false
        };
        write_pr(cpu, &self.fields, result)
    }
}

/// Shift types
#[derive(Debug, Clone, Copy, PartialEq, Eq, Structural)]
pub enum ShiftType {
    /// Shift left
    Left,
    /// Shift right arithmetic (sign extended)
    RightArithmetic,
    /// Shift right logical (zero extended)
    RightLogical,
}

/// The six low bits of a shift amount.
pub open spec fn shift_count(amount: u64) -> u64 {
    amount & 0x3F
}

/// `value` shifted right by `count` with copies of its sign bit moving in.
pub open spec fn arithmetic_shift_right(value: u64, count: u64) -> u64 {
    if value >= 0x8000_0000_0000_0000 {
        !((!value) >> count)
    } else {
        value >> count
    }
}

/// The result of a shift of `value` by `amount`.
pub open spec fn shifted(shift_type: ShiftType, value: u64, amount: u64) -> u64 {
    match shift_type {
        ShiftType::Left => value << shift_count(amount),
        ShiftType::RightArithmetic => arithmetic_shift_right(value, shift_count(amount)),
        ShiftType::RightLogical => value >> shift_count(amount),
    }
}

/// Facts about counts and masks of six and eight bits, and about the
/// arithmetic shift: it keeps the sign and agrees with the logical shift on
/// a value without one.
pub proof fn lemma_shift_facts(value: u64, amount: u64)
    ensures
        amount & 0x3F < 64,
        amount & 0xFF < 256,
        (amount >> 8) & 0xFF < 256,
        amount & 0x3F == amount % 64,
        arithmetic_shift_right(value, 0) == value,
        value >= 0x8000_0000_0000_0000 ==> arithmetic_shift_right(value, amount & 0x3F)
            >= 0x8000_0000_0000_0000,
        (1u64 << (amount & 0x3F)) >= 1,
{
    let c = amount & 0x3F;
    assert(amount & 0x3F < 64 && amount & 0xFF < 256 && (amount >> 8) & 0xFF < 256 && amount & 0x3F
        == amount % 64 && (1u64 << (amount & 0x3F)) >= 1) by (bit_vector);
    assert(!((!value) >> 0) == value && value >> 0 == value && (value >= 0x8000_0000_0000_0000
        ==> !((!value) >> c) >= 0x8000_0000_0000_0000)) by (bit_vector)
        requires
            c < 64,
    ;
}

/// A shift by 64 or more is the shift by the amount modulo 64, and a bit
/// position of 64 or more names no bit.
pub proof fn lemma_shift_amounts(shift_type: ShiftType, value: u64, amount: u64)
    ensures
        shifted(shift_type, value, amount) == shifted(shift_type, value, (amount % 64) as u64),
        shift_count(amount) == amount % 64,
        amount >= 64 ==> !bit_is_set(value, amount),
{
    lemma_shift_facts(value, amount);
    lemma_shift_facts(value, (amount % 64) as u64);
}

/// Shift instruction
#[derive(Debug)]
pub struct Shift {
    /// The decoded fields
    pub fields: InstructionFields,
    /// The direction and kind of the shift
    pub shift_type: ShiftType,
}

impl Shift {
    /// Create new shift instruction
    pub fn new(fields: InstructionFields, shift_type: ShiftType) -> (i: Self)
        ensures
            i.fields == fields,
            i.shift_type == shift_type,
    {
        Self { fields, shift_type }
    }
}

impl Instruction for Shift {
    open spec fn qualifying_predicate(&self) -> u8 {
        self.fields.qp
    }

    /// The destination takes the first source shifted by the low six bits
    /// of the second.
    fn execute(&self, cpu: &mut Cpu, _memory: &mut Memory) -> (r: Result<(), EmulatorError>)
        ensures
            *final(_memory) == *old(_memory),
            binary_to_gr(*old(cpu), *final(cpu), self.fields, r, |a: u64, b: u64| shifted(self.shift_type, a, b)),
    {
        let (value, shift) = match read_operands(cpu, &self.fields) {
            Ok(Some(v)) => v,
            Ok(None) => {
                return Ok(());
            },
            Err(e) => {
                return Err(e);
            },
        };
        proof {
            lemma_shift_facts(value, shift);
        }
        let count = shift & 0x3F;
        let result = match self.shift_type {
            ShiftType::Left => value << count,
            ShiftType::RightArithmetic => if value >= 0x8000_0000_0000_0000 {
                !((!value) >> count)
            } else {
                value >> count
            },
            ShiftType::RightLogical => value >> count,
        };
        write_gr(cpu, &self.fields, result)
    }
}

/// The bit position that a deposit or extract immediate names: its bits
/// 0..8.
pub open spec fn field_position(immediate: Option<i64>) -> u64 {
    match immediate {
        Some(imm) => unsigned(imm as int) & 0xFF,
        None => 0,
    }
}

/// The field length that a deposit or extract immediate names: its bits
/// 8..16.
pub open spec fn field_length(immediate: Option<i64>) -> u64 {
    match immediate {
        Some(imm) => (unsigned(imm as int) >> 8) & 0xFF,
        None => 0,
    }
}

/// The mask of a field of `len` bits at bit 0. The length counts modulo 64.
pub open spec fn low_mask(len: u64) -> u64 {
    ((1u64 << shift_count(len)) - 1) as u64
}

/// `target` with the `len` low bits of `source` put in at bit `pos`. Both
/// the position and the length count modulo 64.
pub open spec fn deposited(target: u64, source: u64, pos: u64, len: u64) -> u64 {
    (target & !(low_mask(len) << shift_count(pos))) | ((source & low_mask(len)) << shift_count(pos))
}

/// The `len` bits of `source` from bit `pos` on. Both the position and the
/// length count modulo 64.
pub open spec fn extracted(source: u64, pos: u64, len: u64) -> u64 {
    (source >> shift_count(pos)) & low_mask(len)
}

/// The position and the length that an immediate names.
pub fn field_of(immediate: Option<i64>) -> (r: (u64, u64))
    ensures
        r.0 == field_position(immediate),
        r.1 == field_length(immediate),
{
    match immediate {
        Some(imm) => {
            let bits = immediate_bits(imm);
            (bits & 0xFF, (bits >> 8) & 0xFF)
        },
        None => (0, 0),
    }
}

/// The mask of a field of `len` bits at bit 0.
pub fn make_low_mask(len: u64) -> (m: u64)
    ensures
        m == low_mask(len),
{
    proof {
        lemma_shift_facts(0, len);
    }
    (1u64 << (len & 0x3F)) - 1
}

/// Deposit instruction
#[derive(Debug)]
pub struct Deposit {
    /// The decoded fields
    pub fields: InstructionFields,
}

impl Deposit {
    /// Create new deposit instruction
    pub fn new(fields: InstructionFields) -> (i: Self)
        ensures
            i.fields == fields,
    {
        Self { fields }
    }
}

impl Instruction for Deposit {
    open spec fn qualifying_predicate(&self) -> u8 {
        self.fields.qp
    }

    /// The destination takes the first source with the field that the
    /// immediate names replaced by the low bits of the second source.
    fn execute(&self, cpu: &mut Cpu, _memory: &mut Memory) -> (r: Result<(), EmulatorError>)
        ensures
            *final(_memory) == *old(_memory),
            binary_to_gr(
                *old(cpu),
                *final(cpu),
                self.fields,
                r,
                |a: u64, b: u64|
                    deposited(
                        a,
                        b,
                        field_position(self.fields.immediate),
                        field_length(self.fields.immediate),
                    ),
            ),
    {
        let (target, source) = match read_operands(cpu, &self.fields) {
            Ok(Some(v)) => v,
            Ok(None) => {
                return Ok(());
            },
            Err(e) => {
                return Err(e);
            },
        };
        // Get position and length from immediate field
        let (pos, len) = field_of(self.fields.immediate);
        proof {
            lemma_shift_facts(0, pos);
        }
        // Create mask for the field
        let mask = make_low_mask(len);
        let field_mask = mask << (pos & 0x3F);
        // Clear the target bits and insert the source bits
        let result = (target & !field_mask) | ((source & mask) << (pos & 0x3F));
        write_gr(cpu, &self.fields, result)
    }
}

/// Extract instruction
#[derive(Debug)]
pub struct Extract {
    /// The decoded fields
    pub fields: InstructionFields,
}

impl Extract {
    /// Create new extract instruction
    pub fn new(fields: InstructionFields) -> (i: Self)
        ensures
            i.fields == fields,
    {
        Self { fields }
    }
}

impl Instruction for Extract {
    open spec fn qualifying_predicate(&self) -> u8 {
        self.fields.qp
    }

    /// The destination takes the field of the source that the immediate
    /// names, moved down to bit 0.
    fn execute(&self, cpu: &mut Cpu, _memory: &mut Memory) -> (r: Result<(), EmulatorError>)
        ensures
            *final(_memory) == *old(_memory),
            unary_to_gr(
                *old(cpu),
                *final(cpu),
                self.fields,
                r,
                |a: u64|
                    extracted(a, field_position(self.fields.immediate), field_length(self.fields.immediate)),
            ),
    {
        let source = match read_operand(cpu, &self.fields) {
            Ok(Some(v)) => v,
            Ok(None) => {
                return Ok(());
            },
            Err(e) => {
                return Err(e);
            },
        };
        // Get position and length from immediate field
        let (pos, len) = field_of(self.fields.immediate);
        proof {
            lemma_shift_facts(0, pos);
        }
        // Extract the field by first shifting right to position 0, then masking
        let result = (source >> (pos & 0x3F)) & make_low_mask(len);
        write_gr(cpu, &self.fields, result)
    }
}

/// The number of set bits among the `n` low bits of `x`.
pub open spec fn ones_below(x: u64, n: nat) -> nat
    decreases n,
{
    if n == 0 {
        0
    } else {
        ones_below(x, (n - 1) as nat) + ((x >> ((n - 1) as u64)) & 1) as nat
    }
}

/// The number of set bits of `x`.
pub open spec fn count_ones(x: u64) -> nat {
    ones_below(x, 64)
}

/// The number of set bits among the `n` low bits is at most `n`.
pub proof fn lemma_ones_bound(x: u64, n: nat)
    requires
        n <= 64,
    ensures
        ones_below(x, n) <= n,
    decreases n,
{
    if n > 0 {
        lemma_ones_bound(x, (n - 1) as nat);
        let k = (n - 1) as u64;
        assert((x >> k) & 1 <= 1) by (bit_vector);
    }
}

/// Count the set bits of `x`.
pub fn population_count(x: u64) -> (n: u64)
    ensures
        n == count_ones(x),
        n <= 64,
{
    let mut n: u64 = 0;
    let mut i: u64 = 0;
    while i < 64
        invariant
            i <= 64,
            n == ones_below(x, i as nat),
            n <= i,
        decreases 64 - i,
    {
        proof {
            lemma_ones_bound(x, (i + 1) as nat);
        }
        n = n + ((x >> i) & 1);
        i = i + 1;
    }
    n
}

/// Population count instruction
#[derive(Debug)]
pub struct PopCount {
    /// The decoded fields
    pub fields: InstructionFields,
}

impl PopCount {
    /// Create new population count instruction
    pub fn new(fields: InstructionFields) -> (i: Self)
        ensures
            i.fields == fields,
    {
        Self { fields }
    }
}

impl Instruction for PopCount {
    open spec fn qualifying_predicate(&self) -> u8 {
        self.fields.qp
    }

    /// The destination takes the number of set bits of the source.
    fn execute(&self, cpu: &mut Cpu, _memory: &mut Memory) -> (r: Result<(), EmulatorError>)
        ensures
            *final(_memory) == *old(_memory),
            unary_to_gr(*old(cpu), *final(cpu), self.fields, r, |a: u64| count_ones(a) as u64),
    {
        let source = match read_operand(cpu, &self.fields) {
            Ok(Some(v)) => v,
            Ok(None) => {
                return Ok(());
            },
            Err(e) => {
                return Err(e);
            },
        };
        // Count number of 1 bits
        let result = population_count(source);
        write_gr(cpu, &self.fields, result)
    }
}

/// Parallel operation sizes
#[derive(Debug, Clone, Copy, PartialEq, Eq, Structural)]
pub enum ParallelSize {
    /// 8-bit elements
    Byte,
    /// 16-bit elements
    Half,
    /// 32-bit elements
    Word,
}

impl ParallelSize {
    /// The width of an element in bits.
    pub open spec fn width(self) -> u64 {
        match self {
            ParallelSize::Byte => 8,
            ParallelSize::Half => 16,
            ParallelSize::Word => 32,
        }
    }

    /// The mask of one element.
    pub open spec fn element_mask(self) -> u64 {
        match self {
            ParallelSize::Byte => 0xFF,
            ParallelSize::Half => 0xFFFF,
            ParallelSize::Word => 0xFFFF_FFFF,
        }
    }

    /// The number of elements in a word.
    pub open spec fn lanes(self) -> nat {
        match self {
            ParallelSize::Byte => 8,
            ParallelSize::Half => 4,
            ParallelSize::Word => 2,
        }
    }
}

/// Element `lane` of a word that holds elements of the given size.
pub open spec fn element(size: ParallelSize, x: u64, lane: nat) -> u64 {
    (x >> ((lane * size.width()) as u64)) & size.element_mask()
}

/// The word whose `n` low elements are the sums of the elements of `a` and
/// `b`, each sum wrapping within its element, and whose other elements are
/// zero.
pub open spec fn parallel_sum(size: ParallelSize, a: u64, b: u64, n: nat) -> u64
    decreases n,
{
    if n == 0 {
        0
    } else {
        let lane = (n - 1) as nat;
        parallel_sum(size, a, b, lane) | ((element(size, a, lane).wrapping_add(element(size, b, lane))
            & size.element_mask()) << ((lane * size.width()) as u64))
    }
}

/// Add the elements of two words pairwise.
pub fn parallel_add(size: ParallelSize, a: u64, b: u64) -> (r: u64)
    ensures
        r == parallel_sum(size, a, b, size.lanes()),
{
    let (width, mask, lanes): (u64, u64, u64) = match size {
        ParallelSize::Byte => (8, 0xFF, 8),
        ParallelSize::Half => (16, 0xFFFF, 4),
        ParallelSize::Word => (32, 0xFFFF_FFFF, 2),
    };
    let mut result: u64 = 0;
    let mut i: u64 = 0;
    while i < lanes
        invariant
            i <= lanes,
            width == size.width(),
            mask == size.element_mask(),
            lanes == size.lanes(),
            lanes * width == 64,
            result == parallel_sum(size, a, b, i as nat),
        decreases lanes - i,
    {
        let shift = i * width;
        let s1 = (a >> shift) & mask;
        let s2 = (b >> shift) & mask;
        let sum = s1.wrapping_add(s2) & mask;
        result = result | (sum << shift);
        i = i + 1;
    }
    result
}

/// Parallel add instruction
#[derive(Debug)]
pub struct ParallelAdd {
    /// The decoded fields
    pub fields: InstructionFields,
    /// The size of the elements
    pub size: ParallelSize,
}

impl ParallelAdd {
    /// Create new parallel add instruction
    pub fn new(fields: InstructionFields, size: ParallelSize) -> (i: Self)
        ensures
            i.fields == fields,
            i.size == size,
    {
        Self { fields, size }
    }
}

impl Instruction for ParallelAdd {
    open spec fn qualifying_predicate(&self) -> u8 {
        self.fields.qp
    }

    /// The destination takes the pairwise sums of the elements of the two
    /// sources.
    fn execute(&self, cpu: &mut Cpu, _memory: &mut Memory) -> (r: Result<(), EmulatorError>)
        ensures
            *final(_memory) == *old(_memory),
            binary_to_gr(
                *old(cpu),
                *final(cpu),
                self.fields,
                r,
                |a: u64, b: u64| parallel_sum(self.size, a, b, self.size.lanes()),
            ),
    {
        let (src1, src2) = match read_operands(cpu, &self.fields) {
            Ok(Some(v)) => v,
            Ok(None) => {
                return Ok(());
            },
            Err(e) => {
                return Err(e);
            },
        };
        let result = parallel_add(self.size, src1, src2);
        write_gr(cpu, &self.fields, result)
    }
}

/// The sum of `a` and `b`, held at the greatest or least value where it
/// would pass it: of two's-complement numbers if `is_signed`, of unsigned
/// numbers otherwise.
pub open spec fn saturating_sum(is_signed: bool, a: u64, b: u64) -> u64 {
    if is_signed {
        let sum = signed(a) + signed(b);
        if sum > 0x7FFF_FFFF_FFFF_FFFF {
            0x7FFF_FFFF_FFFF_FFFFu64
        } else if sum < -0x8000_0000_0000_0000 {
            0x8000_0000_0000_0000u64
        } else {
            unsigned(sum)
        }
    } else {
        if a + b > u64::MAX {
            u64::MAX
        } else {
            (a + b) as u64
        }
    }
}

/// Adding one to the greatest value gives the greatest value, signed and
/// unsigned alike.
pub proof fn lemma_saturation()
    ensures
        saturating_sum(true, 0x7FFF_FFFF_FFFF_FFFF, 1) == 0x7FFF_FFFF_FFFF_FFFF,
        saturating_sum(false, u64::MAX, 1) == u64::MAX,
        forall|a: u64, b: u64|
            signed(a) + signed(b) > 0x7FFF_FFFF_FFFF_FFFF ==> #[trigger] saturating_sum(true, a, b)
                == 0x7FFF_FFFF_FFFF_FFFF,
        forall|a: u64, b: u64| a + b > u64::MAX ==> #[trigger] saturating_sum(false, a, b) == u64::MAX,
{
}

/// Add with saturation.
pub fn saturating_add(is_signed: bool, a: u64, b: u64) -> (r: u64)
    ensures
        r == saturating_sum(is_signed, a, b),
{
    if is_signed {
        let sa: i128 = if a >= 0x8000_0000_0000_0000 {
            (a as i128) - 0x1_0000_0000_0000_0000i128
        } else {
            a as i128
        };
        let sb: i128 = if b >= 0x8000_0000_0000_0000 {
            (b as i128) - 0x1_0000_0000_0000_0000i128
        } else {
            b as i128
        };
        let sum = sa + sb;
        if sum > 0x7FFF_FFFF_FFFF_FFFFi128 {
            0x7FFF_FFFF_FFFF_FFFF
        } else if sum < -0x8000_0000_0000_0000i128 {
            0x8000_0000_0000_0000
        } else if sum >= 0 {
            sum as u64
        } else {
            (sum + 0x1_0000_0000_0000_0000i128) as u64
        }
    } else {
        a.saturating_add(b)
    }
}

/// Saturating add instruction
#[derive(Debug)]
pub struct SaturatingAdd {
    /// The decoded fields
    pub fields: InstructionFields,
    /// Whether the operands are two's-complement numbers
    pub signed: bool,
}

impl SaturatingAdd {
    /// Create new saturating add instruction
    pub fn new(fields: InstructionFields, signed: bool) -> (i: Self)
        ensures
            i.fields == fields,
            i.signed == signed,
    {
        Self { fields, signed }
    }
}

impl Instruction for SaturatingAdd {
    open spec fn qualifying_predicate(&self) -> u8 {
        self.fields.qp
    }

    /// The destination takes the saturating sum of the two sources.
    fn execute(&self, cpu: &mut Cpu, _memory: &mut Memory) -> (r: Result<(), EmulatorError>)
        ensures
            *final(_memory) == *old(_memory),
            binary_to_gr(
                *old(cpu),
                *final(cpu),
                self.fields,
                r,
                |a: u64, b: u64| saturating_sum(self.signed, a, b),
            ),
    {
        let (src1, src2) = match read_operands(cpu, &self.fields) {
            Ok(Some(v)) => v,
            Ok(None) => {
                return Ok(());
            },
            Err(e) => {
                return Err(e);
            },
        };
        let result = saturating_add(self.signed, src1, src2);
        write_gr(cpu, &self.fields, result)
    }
}

/// `value` rotated left by `count` bits, for a count below 64.
pub open spec fn rotated_left(value: u64, count: u64) -> u64 {
    if count == 0 {
        value
    } else {
        (value << count) | (value >> ((64 - count) as u64))
    }
}

/// The mask that an immediate holds, none of it if there is no immediate.
pub open spec fn immediate_mask(immediate: Option<i64>) -> u64 {
    match immediate {
        Some(imm) => unsigned(imm as int),
        None => 0,
    }
}

/// Rotate `value` left by the low six bits of `amount`.
pub fn rotate_left(value: u64, amount: u64) -> (r: u64)
    ensures
        r == rotated_left(value, shift_count(amount)),
{
    proof {
        lemma_shift_facts(value, amount);
    }
    let count = amount & 0x3F;
    if count == 0 {
        value
    } else {
        (value << count) | (value >> (64 - count))
    }
}

/// Rotate and mask instruction
#[derive(Debug)]
pub struct RotateMask {
    /// The decoded fields
    pub fields: InstructionFields,
}

impl RotateMask {
    /// Create new rotate and mask instruction
    pub fn new(fields: InstructionFields) -> (i: Self)
        ensures
            i.fields == fields,
    {
        Self { fields }
    }
}

impl Instruction for RotateMask {
    open spec fn qualifying_predicate(&self) -> u8 {
        self.fields.qp
    }

    /// The destination takes the first source rotated left by the low six
    /// bits of the second, under the mask that the immediate holds.
    fn execute(&self, cpu: &mut Cpu, _memory: &mut Memory) -> (r: Result<(), EmulatorError>)
        ensures
            *final(_memory) == *old(_memory),
            binary_to_gr(
                *old(cpu),
                *final(cpu),
                self.fields,
                r,
                |a: u64, b: u64| rotated_left(a, shift_count(b)) & immediate_mask(self.fields.immediate),
            ),
    {
        let (value, rot_amount) = match read_operands(cpu, &self.fields) {
            Ok(Some(v)) => v,
            Ok(None) => {
                return Ok(());
            },
            Err(e) => {
                return Err(e);
            },
        };
        // Get mask from immediate field
        let mask = match self.fields.immediate {
            Some(imm) => immediate_bits(imm),
            None => 0,
        };
        // Perform rotation and masking
        let result = rotate_left(value, rot_amount) & mask;
        write_gr(cpu, &self.fields, result)
    }
}

/// Minimum/Maximum operation types
#[derive(Debug, Clone, Copy, PartialEq, Eq, Structural)]
pub enum MinMaxType {
    /// Unsigned minimum
    MinU,
    /// Signed minimum
    MinS,
    /// Unsigned maximum
    MaxU,
    /// Signed maximum
    MaxS,
}

impl MinMaxType {
    /// The one of `a` and `b` that the operation selects; `a` if they are
    /// equal.
    pub open spec fn select(self, a: u64, b: u64) -> u64 {
        match self {
            MinMaxType::MinU => if b < a {
                b
            } else {
                a
            },
            MinMaxType::MaxU => if b > a {
                b
            } else {
                a
            },
            MinMaxType::MinS => if signed(b) < signed(a) {
                b
            } else {
                a
            },
            MinMaxType::MaxS => if signed(b) > signed(a) {
                b
            } else {
                a
            },
        }
    }
}

/// Minimum/Maximum instruction
#[derive(Debug)]
pub struct MinMax {
    /// The decoded fields
    pub fields: InstructionFields,
    /// The operation
    pub op_type: MinMaxType,
}

impl MinMax {
    /// Create new min/max instruction
    pub fn new(fields: InstructionFields, op_type: MinMaxType) -> (i: Self)
        ensures
            i.fields == fields,
            i.op_type == op_type,
    {
        Self { fields, op_type }
    }
}

impl Instruction for MinMax {
    open spec fn qualifying_predicate(&self) -> u8 {
        self.fields.qp
    }

    /// The destination takes the lesser or the greater of the two sources.
    fn execute(&self, cpu: &mut Cpu, _memory: &mut Memory) -> (r: Result<(), EmulatorError>)
        ensures
            *final(_memory) == *old(_memory),
            binary_to_gr(*old(cpu), *final(cpu), self.fields, r, |a: u64, b: u64| self.op_type.select(a, b)),
    {
        let (src1, src2) = match read_operands(cpu, &self.fields) {
            Ok(Some(v)) => v,
            Ok(None) => {
                return Ok(());
            },
            Err(e) => {
                return Err(e);
            },
        };
        let take_second = match self.op_type {
            MinMaxType::MinU => src2 < src1,
            MinMaxType::MaxU => src2 > src1,
            MinMaxType::MinS => signed_less(src2, src1),
            MinMaxType::MaxS => signed_less(src1, src2),
        };
        let result = if take_second {
            src2
        } else {
            src1
        };
        write_gr(cpu, &self.fields, result)
    }
}

/// Extension sizes
#[derive(Debug, Clone, Copy, PartialEq, Eq, Structural)]
pub enum ExtensionSize {
    /// Byte (8 bits)
    Byte,
    /// Half word (16 bits)
    Half,
    /// Word (32 bits)
    Word,
}

/// The low part of `src` extended to 64 bits: with zeros, or with copies of
/// the part's top bit if `sign_extend`.
pub open spec fn extended(size: ExtensionSize, sign_extend: bool, src: u64) -> u64 {
    match size {
        ExtensionSize::Byte => if sign_extend && src & 0x80 != 0 {
            (src & 0xFF) | 0xFFFF_FFFF_FFFF_FF00
        } else {
            src & 0xFF
        },
        ExtensionSize::Half => if sign_extend && src & 0x8000 != 0 {
            (src & 0xFFFF) | 0xFFFF_FFFF_FFFF_0000
        } else {
            src & 0xFFFF
        },
        ExtensionSize::Word => if sign_extend && src & 0x8000_0000 != 0 {
            (src & 0xFFFF_FFFF) | 0xFFFF_FFFF_0000_0000
        } else {
            src & 0xFFFF_FFFF
        },
    }
}

/// Zero/Sign extension instruction
#[derive(Debug)]
pub struct Extend {
    /// The decoded fields
    pub fields: InstructionFields,
    /// The size of the part that is extended
    pub size: ExtensionSize,
    /// Whether the part is extended with its sign
    pub sign_extend: bool,
}

impl Extend {
    /// Create new extension instruction
    pub fn new(fields: InstructionFields, size: ExtensionSize, sign_extend: bool) -> (i: Self)
        ensures
            i.fields == fields,
            i.size == size,
            i.sign_extend == sign_extend,
    {
        Self { fields, size, sign_extend }
    }
}

impl Instruction for Extend {
    open spec fn qualifying_predicate(&self) -> u8 {
        self.fields.qp
    }

    /// The destination takes the low part of the source, extended.
    fn execute(&self, cpu: &mut Cpu, _memory: &mut Memory) -> (r: Result<(), EmulatorError>)
        ensures
            *final(_memory) == *old(_memory),
            unary_to_gr(
                *old(cpu),
                *final(cpu),
                self.fields,
                r,
                |a: u64| extended(self.size, self.sign_extend, a),
            ),
    {
        let src = match read_operand(cpu, &self.fields) {
            Ok(Some(v)) => v,
            Ok(None) => {
                return Ok(());
            },
            Err(e) => {
                return Err(e);
            },
        };
        let result = match self.size {
            ExtensionSize::Byte => if self.sign_extend && src & 0x80 != 0 {
                (src & 0xFF) | 0xFFFF_FFFF_FFFF_FF00
            } else {
                src & 0xFF
            },
            ExtensionSize::Half => if self.sign_extend && src & 0x8000 != 0 {
                (src & 0xFFFF) | 0xFFFF_FFFF_FFFF_0000
            } else {
                src & 0xFFFF
            },
            ExtensionSize::Word => if self.sign_extend && src & 0x8000_0000 != 0 {
                (src & 0xFFFF_FFFF) | 0xFFFF_FFFF_0000_0000
            } else {
                src & 0xFFFF_FFFF
            },
        };
        write_gr(cpu, &self.fields, result)
    }
}

/// Merge instruction
#[derive(Debug)]
pub struct Merge {
    /// The decoded fields
    pub fields: InstructionFields,
}

impl Merge {
    /// Create new merge instruction
    pub fn new(fields: InstructionFields) -> (i: Self)
        ensures
            i.fields == fields,
    {
        Self { fields }
    }
}

/// The word that takes the bits under `mask` from `a` and the others from
/// `b`.
pub open spec fn merged(a: u64, b: u64, mask: u64) -> u64 {
    (a & mask) | (b & !mask)
}

impl Instruction for Merge {
    open spec fn qualifying_predicate(&self) -> u8 {
        self.fields.qp
    }

    /// The destination takes the bits under the immediate's mask from the
    /// first source and the others from the second. An instruction without
    /// an immediate fails once its operands are read.
    fn execute(&self, cpu: &mut Cpu, _memory: &mut Memory) -> (r: Result<(), EmulatorError>)
        ensures
            *final(_memory) == *old(_memory),
            match self.fields.immediate {
                Some(imm) => binary_to_gr(
                    *old(cpu),
                    *final(cpu),
                    self.fields,
                    r,
                    |a: u64, b: u64| merged(a, b, unsigned(imm as int)),
                ),
                None => *final(cpu) == *old(cpu) && match spec_operands(*old(cpu), self.fields) {
                    Err(f) => fails(r, f),
                    Ok(None) => r is Ok,
                    Ok(Some(_)) => fails(r, execution_fault("Missing immediate"@)),
                },
            },
    {
        let (src1, src2) = match read_operands(cpu, &self.fields) {
            Ok(Some(v)) => v,
            Ok(None) => {
                return Ok(());
            },
            Err(e) => {
                return Err(e);
            },
        };
        // Get merge mask from immediate field
        let mask = match self.fields.immediate {
            Some(imm) => immediate_bits(imm),
            None => {
                return Err(EmulatorError::ExecutionError(String::from_str("Missing immediate")));
            },
        };
        // Perform merge operation
        let result = (src1 & mask) | (src2 & !mask);
        write_gr(cpu, &self.fields, result)
    }
}

} // verus!
