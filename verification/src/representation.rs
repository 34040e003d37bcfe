//! The data model of 6809 instructions, operands and assembler directives.
use vstd::prelude::*;

verus! {

/// The high byte of a 16-bit word.
pub open spec fn hi(v: u16) -> u8 {
    (v / 256) as u8
}

/// The low byte of a 16-bit word.
pub open spec fn lo(v: u16) -> u8 {
    (v % 256) as u8
}

/// A 16-bit word as two bytes, most significant first.
pub open spec fn be16(v: u16) -> Seq<u8> {
    seq![hi(v), lo(v)]
}

/// Splits a word into its high and low bytes.
pub fn split_word(v: u16) -> (r: (u8, u8))
    ensures
        r.0 == hi(v),
        r.1 == lo(v),
{
    assert((v >> 8u16) as u8 == (v / 256) as u8) by (bit_vector);
    assert(v as u8 == (v % 256) as u8) by (bit_vector);
    ((v >> 8u16) as u8, v as u8)
}

/// Values that can be written out as big-endian bytes, and read from a
/// 16-bit literal where the value fits.
pub trait IntoBytes: Sized {
    /// The big-endian bytes of a value.
    spec fn spec_to_be_bytes(a: Self) -> Seq<u8>;

    /// The value that a 16-bit literal denotes, if it fits in `Self`.
    spec fn spec_try_from_u16(v: u16) -> Option<Self>;

    /// The big-endian bytes of a value.
    fn to_be_bytes(a: Self) -> (r: Vec<u8>)
        ensures
            r@ == Self::spec_to_be_bytes(a),
    ;

    /// The value that a 16-bit literal denotes, if it fits in `Self`.
    fn try_from_u16(v: u16) -> (r: Option<Self>)
        ensures
            r == Self::spec_try_from_u16(v),
    ;
}

impl IntoBytes for u8 {
    open spec fn spec_to_be_bytes(a: u8) -> Seq<u8> {
        seq![a]
    }

    open spec fn spec_try_from_u16(v: u16) -> Option<u8> {
        if v <= 255 {
            Some(v as u8)
        } else {
            None
        }
    }

    fn to_be_bytes(a: u8) -> (r: Vec<u8>) {
        vec![a]
    }

    fn try_from_u16(v: u16) -> (r: Option<u8>) {
        if v <= 255 {
            Some(v as u8)
        } else {
            None
        }
    }
}

impl IntoBytes for u16 {
    open spec fn spec_to_be_bytes(a: u16) -> Seq<u8> {
        be16(a)
    }

    open spec fn spec_try_from_u16(v: u16) -> Option<u16> {
        Some(v)
    }

    fn to_be_bytes(a: u16) -> (r: Vec<u8>) {
        let (h, l) = split_word(a);
        vec![h, l]
    }

    fn try_from_u16(v: u16) -> (r: Option<u16>) {
        Some(v)
    }
}

/// The big-endian bytes of a value.
pub fn gen_bytes<T: IntoBytes + Copy>(a: T) -> (r: Vec<u8>)
    ensures
        r@ == T::spec_to_be_bytes(a),
{
    T::to_be_bytes(a)
}

/// The registers that PSH and PUL can save and restore. `US` is the other
/// stack pointer: U on the S stack, S on the U stack.
#[derive(Debug, Clone, Copy, PartialEq, Eq, Structural)]
pub enum PushPullRegister {
    A,
    B,
    X,
    Y,
    US,
    PC,
    CC,
    DP,
}

/// The 8-bit registers of TFR and EXG.
#[derive(Debug, Clone, Copy, PartialEq, Eq, Structural)]
pub enum TfrExgRegister8 {
    A,
    B,
    CC,
    DP,
}

/// The 16-bit registers of TFR and EXG.
#[derive(Debug, Clone, Copy, PartialEq, Eq, Structural)]
pub enum TfrExgRegister16 {
    D,
    X,
    Y,
    U,
    S,
    PC,
}

/// The registers that indexed addressing can use as a base.
#[derive(Debug, Clone, Copy, PartialEq, Eq, Structural)]
pub enum IndexRegister {
    X,
    Y,
    U,
    S,
}

/// The accumulators that indexed addressing can use as an offset.
#[derive(Debug, Clone, Copy, PartialEq, Eq, Structural)]
pub enum AccOffsetRegister {
    A,
    B,
    D,
}

/// Indexed and indirect addressing modes.
#[derive(Debug, Clone, Copy, PartialEq, Eq, Structural)]
pub enum IndexedIndirect {
    Const { offset: i16, reg: IndexRegister },
    ConstInd { offset: i16, reg: IndexRegister },
    Acc { offset: AccOffsetRegister, reg: IndexRegister },
    AccInd { offset: AccOffsetRegister, reg: IndexRegister },
    Inc1 { reg: IndexRegister },
    Inc2 { reg: IndexRegister },
    Inc2Ind { reg: IndexRegister },
    Dec1 { reg: IndexRegister },
    Dec2 { reg: IndexRegister },
    Dec2Ind { reg: IndexRegister },
    Pcr { target: u16 },
    PcrInd { target: u16 },
    Pc { offset: u16 },
    PcInd { offset: u16 },
    ExtInd(u16),
}

/// The operand of an instruction that takes an immediate value or a memory
/// location; `T` is `u8` or `u16`, the width of the immediate value.
#[derive(Debug, Clone, Copy, PartialEq, Eq)]
pub enum Type1<T: IntoBytes> {
    IMM(T),
    DIR(u8),
    EXT(u16),
    IND(IndexedIndirect),
}

/// The operand of an instruction that takes a memory location.
#[derive(Debug, Clone, Copy, PartialEq, Eq, Structural)]
pub enum Type2 {
    DIR(u8),
    EXT(u16),
    IND(IndexedIndirect),
}

impl From<IndexedIndirect> for Type2 {
    fn from(v: IndexedIndirect) -> (r: Self) {
        Type2::IND(v)
    }
}

impl vstd::std_specs::convert::FromSpecImpl<IndexedIndirect> for Type2 {
    open spec fn obeys_from_spec() -> bool {
        true
    }

    open spec fn from_spec(v: IndexedIndirect) -> Type2 {
        Type2::IND(v)
    }
}

/// The operand of a branch: a short or long offset, or a label that is not
/// resolved yet.
#[derive(Debug, PartialEq, Eq)]
pub enum Typebr {
    SHORT(i8),
    LONG(i16),
    UNRESOLVED(String),
}

/// A set of push/pull registers, one flag per register.
#[derive(Debug, Clone, Copy, PartialEq, Eq, Structural)]
pub struct RegisterSet {
    pub cc: bool,
    pub a: bool,
    pub b: bool,
    pub dp: bool,
    pub x: bool,
    pub y: bool,
    pub us: bool,
    pub pc: bool,
}

impl RegisterSet {
    /// Whether the set holds a register.
    pub open spec fn has(self, r: PushPullRegister) -> bool {
        match r {
            PushPullRegister::CC => self.cc,
            PushPullRegister::A => self.a,
            PushPullRegister::B => self.b,
            PushPullRegister::DP => self.dp,
            PushPullRegister::X => self.x,
            PushPullRegister::Y => self.y,
            PushPullRegister::US => self.us,
            PushPullRegister::PC => self.pc,
        }
    }

    /// The empty set.
    pub open spec fn empty() -> RegisterSet {
        RegisterSet { cc: false, a: false, b: false, dp: false, x: false, y: false, us: false, pc: false }
    }

    /// The set with one more register.
    pub open spec fn with(self, r: PushPullRegister) -> RegisterSet {
        match r {
            PushPullRegister::CC => RegisterSet { cc: true, ..self },
            PushPullRegister::A => RegisterSet { a: true, ..self },
            PushPullRegister::B => RegisterSet { b: true, ..self },
            PushPullRegister::DP => RegisterSet { dp: true, ..self },
            PushPullRegister::X => RegisterSet { x: true, ..self },
            PushPullRegister::Y => RegisterSet { y: true, ..self },
            PushPullRegister::US => RegisterSet { us: true, ..self },
            PushPullRegister::PC => RegisterSet { pc: true, ..self },
        }
    }

    /// An empty set.
    pub fn new() -> (s: RegisterSet)
        ensures
            s == RegisterSet::empty(),
            s@ == Set::<PushPullRegister>::empty(),
    {
        let s = RegisterSet { cc: false, a: false, b: false, dp: false, x: false, y: false, us: false, pc: false };
        assert(s@ =~= Set::<PushPullRegister>::empty());
        s
    }

    /// Whether the set holds `r`.
    pub fn contains(&self, r: PushPullRegister) -> (b: bool)
        ensures
            b == self.has(r),
            b == self@.contains(r),
    {
        match r {
            PushPullRegister::CC => self.cc,
            PushPullRegister::A => self.a,
            PushPullRegister::B => self.b,
            PushPullRegister::DP => self.dp,
            PushPullRegister::X => self.x,
            PushPullRegister::Y => self.y,
            PushPullRegister::US => self.us,
            PushPullRegister::PC => self.pc,
        }
    }

    /// Adds `r`; returns whether it was not there before.
    pub fn insert(&mut self, r: PushPullRegister) -> (added: bool)
        ensures
            added == !old(self).has(r),
            *final(self) == old(self).with(r),
            final(self)@ == old(self)@.insert(r),
    {
        let added = !self.contains(r);
        match r {
            PushPullRegister::CC => self.cc = true,
            PushPullRegister::A => self.a = true,
            PushPullRegister::B => self.b = true,
            PushPullRegister::DP => self.dp = true,
            PushPullRegister::X => self.x = true,
            PushPullRegister::Y => self.y = true,
            PushPullRegister::US => self.us = true,
            PushPullRegister::PC => self.pc = true,
        }
        assert(self@ =~= old(self)@.insert(r));
        added
    }
}

impl View for RegisterSet {
    type V = Set<PushPullRegister>;

    open spec fn view(&self) -> Set<PushPullRegister> {
        Set::new(|r: PushPullRegister| self.has(r))
    }
}

/// The operand of PSH and PUL: the set of registers to save or restore.
#[derive(Debug, Clone, Copy, PartialEq, Eq, Structural)]
pub struct Typepspl {
    pub registers: RegisterSet,
}

impl core::ops::Deref for Typepspl {
    type Target = RegisterSet;

    /// The register set.
    fn deref(&self) -> (r: &RegisterSet)
        ensures
            *r == self.registers,
    {
        &self.registers
    }
}

/// The operand of ANDCC, ORCC and CWAI: a condition code mask.
#[derive(Debug, Clone, Copy, PartialEq, Eq, Structural)]
pub struct Typecc {
    pub mask: u8,
}

/// The operands of TFR and EXG: two registers of the same width.
#[derive(Debug, Clone, Copy, PartialEq, Eq, Structural)]
pub enum Typext {
    BYTE(TfrExgRegister8, TfrExgRegister8),
    WORD(TfrExgRegister16, TfrExgRegister16),
}

impl Typext {
    /// A pair of 8-bit registers.
    pub fn from_tfr_exg_registers8(r1: TfrExgRegister8, r2: TfrExgRegister8) -> (t: Self)
        ensures
            t == Typext::BYTE(r1, r2),
    {
        Self::BYTE(r1, r2)
    }

    /// A pair of 16-bit registers.
    pub fn from_tfr_exg_registers16(r1: TfrExgRegister16, r2: TfrExgRegister16) -> (t: Self)
        ensures
            t == Typext::WORD(r1, r2),
    {
        Self::WORD(r1, r2)
    }
}

/// A 6809 instruction with its operand.
#[derive(Debug, PartialEq, Eq)]
pub enum Instruction {
    ABX,
    ADCA(Type1<u8>),
    ADCB(Type1<u8>),
    ADDA(Type1<u8>),
    ADDB(Type1<u8>),
    ADDD(Type1<u16>),
    ANDA(Type1<u8>),
    ANDB(Type1<u8>),
    ANDCC(Typecc),
    ASLA,
    ASLB,
    ASL(Type2),
    ASRA,
    ASRB,
    ASR(Type2),
    BCC(Typebr),
    BCS(Typebr),
    BEQ(Typebr),
    BGE(Typebr),
    BGT(Typebr),
    BHI(Typebr),
    BHS(Typebr),
    BITA(Type1<u8>),
    BITB(Type1<u8>),
    BLE(Typebr),
    BLO(Typebr),
    BLS(Typebr),
    BLT(Typebr),
    BMI(Typebr),
    BNE(Typebr),
    BPL(Typebr),
    BRA(Typebr),
    BRN(Typebr),
    BSR(Typebr),
    BVC(Typebr),
    BVS(Typebr),
    CLC,
    CLF,
    CLI,
    CLIF,
    CLRA,
    CLRB,
    CLR(Type2),
    CLV,
    CMPA(Type1<u8>),
    CMPB(Type1<u8>),
    CMPD(Type1<u16>),
    CMPS(Type1<u16>),
    CMPU(Type1<u16>),
    CMPX(Type1<u16>),
    CMPY(Type1<u16>),
    COMA,
    COMB,
    COM(Type2),
    CWAI(Typecc),
    DAA,
    DECA,
    DECB,
    DEC(Type2),
    EORA(Type1<u8>),
    EORB(Type1<u8>),
    EXG(Typext),
    INCA,
    INCB,
    INC(Type2),
    JMP(Type2),
    JSR(Type2),
    LBCC(Typebr),
    LBCS(Typebr),
    LBEQ(Typebr),
    LBGE(Typebr),
    LBGT(Typebr),
    LBHI(Typebr),
    LBHS(Typebr),
    LBLE(Typebr),
    LBLO(Typebr),
    LBLS(Typebr),
    LBLT(Typebr),
    LBMI(Typebr),
    LBNE(Typebr),
    LBPL(Typebr),
    LBRA(Typebr),
    LBRN(Typebr),
    LBSR(Typebr),
    LBVC(Typebr),
    LBVS(Typebr),
    LDA(Type1<u8>),
    LDB(Type1<u8>),
    LDD(Type1<u16>),
    LDS(Type1<u16>),
    LDU(Type1<u16>),
    LDX(Type1<u16>),
    LDY(Type1<u16>),
    LEAS(Type2),
    LEAU(Type2),
    LEAX(Type2),
    LEAY(Type2),
    LSLA,
    LSLB,
    LSL(Type2),
    LSRA,
    LSRB,
    LSR(Type2),
    MUL,
    NEGA,
    NEGB,
    NEG(Type2),
    NOP,
    ORA(Type1<u8>),
    ORB(Type1<u8>),
    ORCC(Typecc),
    PSHU(Typepspl),
    PSHS(Typepspl),
    PULU(Typepspl),
    PULS(Typepspl),
    ROLA,
    ROLB,
    ROL(Type2),
    RORA,
    RORB,
    ROR(Type2),
    RTI,
    RTS,
    SBCA(Type1<u8>),
    SBCB(Type1<u8>),
    SBCC(Typebr),
    SBCS(Typebr),
    SBEQ(Typebr),
    SBLT(Typebr),
    SBLE(Typebr),
    SBGT(Typebr),
    SBGE(Typebr),
    SBHI(Typebr),
    SBHS(Typebr),
    SBLO(Typebr),
    SBLS(Typebr),
    SBMI(Typebr),
    SBNE(Typebr),
    SBPL(Typebr),
    SBRA(Typebr),
    SBRN(Typebr),
    SBSR(Typebr),
    SBVC(Typebr),
    SBVS(Typebr),
    SEC,
    SEF,
    SEI,
    SEIF,
    SEV,
    SEX,
    STA(Type2),
    STB(Type2),
    STD(Type2),
    STS(Type2),
    STU(Type2),
    STX(Type2),
    STY(Type2),
    SUBA(Type1<u8>),
    SUBB(Type1<u8>),
    SUBD(Type1<u16>),
    SWI,
    SWI2,
    SWI3,
    SYNC,
    TFR(Typext),
    TSTA,
    TSTB,
    TST(Type2),}

impl Instruction {
    /// The instruction's mnemonic as the 6809 datasheet spells it, in
    /// upper case.
    pub open spec fn name(self) -> Seq<char> {
        match self {
            Instruction::ABX => seq!['A', 'B', 'X'],
            Instruction::ADCA(_) => seq!['A', 'D', 'C', 'A'],
            Instruction::ADCB(_) => seq!['A', 'D', 'C', 'B'],
            Instruction::ADDA(_) => seq!['A', 'D', 'D', 'A'],
            Instruction::ADDB(_) => seq!['A', 'D', 'D', 'B'],
            Instruction::ADDD(_) => seq!['A', 'D', 'D', 'D'],
            Instruction::ANDA(_) => seq!['A', 'N', 'D', 'A'],
            Instruction::ANDB(_) => seq!['A', 'N', 'D', 'B'],
            Instruction::ANDCC(_) => seq!['A', 'N', 'D', 'C', 'C'],
            Instruction::ASLA => seq!['A', 'S', 'L', 'A'],
            Instruction::ASLB => seq!['A', 'S', 'L', 'B'],
            Instruction::ASL(_) => seq!['A', 'S', 'L'],
            Instruction::ASRA => seq!['A', 'S', 'R', 'A'],
            Instruction::ASRB => seq!['A', 'S', 'R', 'B'],
            Instruction::ASR(_) => seq!['A', 'S', 'R'],
            Instruction::BCC(_) => seq!['B', 'C', 'C'],
            Instruction::BCS(_) => seq!['B', 'C', 'S'],
            Instruction::BEQ(_) => seq!['B', 'E', 'Q'],
            Instruction::BGE(_) => seq!['B', 'G', 'E'],
            Instruction::BGT(_) => seq!['B', 'G', 'T'],
            Instruction::BHI(_) => seq!['B', 'H', 'I'],
            Instruction::BHS(_) => seq!['B', 'H', 'S'],
            Instruction::BITA(_) => seq!['B', 'I', 'T', 'A'],
            Instruction::BITB(_) => seq!['B', 'I', 'T', 'B'],
            Instruction::BLE(_) => seq!['B', 'L', 'E'],
            Instruction::BLO(_) => seq!['B', 'L', 'O'],
            Instruction::BLS(_) => seq!['B', 'L', 'S'],
            Instruction::BLT(_) => seq!['B', 'L', 'T'],
            Instruction::BMI(_) => seq!['B', 'M', 'I'],
            Instruction::BNE(_) => seq!['B', 'N', 'E'],
            Instruction::BPL(_) => seq!['B', 'P', 'L'],
            Instruction::BRA(_) => seq!['B', 'R', 'A'],
            Instruction::BRN(_) => seq!['B', 'R', 'N'],
            Instruction::BSR(_) => seq!['B', 'S', 'R'],
            Instruction::BVC(_) => seq!['B', 'V', 'C'],
            Instruction::BVS(_) => seq!['B', 'V', 'S'],
            Instruction::CLC => seq!['C', 'L', 'C'],
            Instruction::CLF => seq!['C', 'L', 'F'],
            Instruction::CLI => seq!['C', 'L', 'I'],
            Instruction::CLIF => seq!['C', 'L', 'I', 'F'],
            Instruction::CLRA => seq!['C', 'L', 'R', 'A'],
            Instruction::CLRB => seq!['C', 'L', 'R', 'B'],
            Instruction::CLR(_) => seq!['C', 'L', 'R'],
            Instruction::CLV => seq!['C', 'L', 'V'],
            Instruction::CMPA(_) => seq!['C', 'M', 'P', 'A'],
            Instruction::CMPB(_) => seq!['C', 'M', 'P', 'B'],
            Instruction::CMPD(_) => seq!['C', 'M', 'P', 'D'],
            Instruction::CMPS(_) => seq!['C', 'M', 'P', 'S'],
            Instruction::CMPU(_) => seq!['C', 'M', 'P', 'U'],
            Instruction::CMPX(_) => seq!['C', 'M', 'P', 'X'],
            Instruction::CMPY(_) => seq!['C', 'M', 'P', 'Y'],
            Instruction::COMA => seq!['C', 'O', 'M', 'A'],
            Instruction::COMB => seq!['C', 'O', 'M', 'B'],
            Instruction::COM(_) => seq!['C', 'O', 'M'],
            Instruction::CWAI(_) => seq!['C', 'W', 'A', 'I'],
            Instruction::DAA => seq!['D', 'A', 'A'],
            Instruction::DECA => seq!['D', 'E', 'C', 'A'],
            Instruction::DECB => seq!['D', 'E', 'C', 'B'],
            Instruction::DEC(_) => seq!['D', 'E', 'C'],
            Instruction::EORA(_) => seq!['E', 'O', 'R', 'A'],
            Instruction::EORB(_) => seq!['E', 'O', 'R', 'B'],
            Instruction::EXG(_) => seq!['E', 'X', 'G'],
            Instruction::INCA => seq!['I', 'N', 'C', 'A'],
            Instruction::INCB => seq!['I', 'N', 'C', 'B'],
            Instruction::INC(_) => seq!['I', 'N', 'C'],
            Instruction::JMP(_) => seq!['J', 'M', 'P'],
            Instruction::JSR(_) => seq!['J', 'S', 'R'],
            Instruction::LBCC(_) => seq!['L', 'B', 'C', 'C'],
            Instruction::LBCS(_) => seq!['L', 'B', 'C', 'S'],
            Instruction::LBEQ(_) => seq!['L', 'B', 'E', 'Q'],
            Instruction::LBGE(_) => seq!['L', 'B', 'G', 'E'],
            Instruction::LBGT(_) => seq!['L', 'B', 'G', 'T'],
            Instruction::LBHI(_) => seq!['L', 'B', 'H', 'I'],
            Instruction::LBHS(_) => seq!['L', 'B', 'H', 'S'],
            Instruction::LBLE(_) => seq!['L', 'B', 'L', 'E'],
            Instruction::LBLO(_) => seq!['L', 'B', 'L', 'O'],
            Instruction::LBLS(_) => seq!['L', 'B', 'L', 'S'],
            Instruction::LBLT(_) => seq!['L', 'B', 'L', 'T'],
            Instruction::LBMI(_) => seq!['L', 'B', 'M', 'I'],
            Instruction::LBNE(_) => seq!['L', 'B', 'N', 'E'],
            Instruction::LBPL(_) => seq!['L', 'B', 'P', 'L'],
            Instruction::LBRA(_) => seq!['L', 'B', 'R', 'A'],
            Instruction::LBRN(_) => seq!['L', 'B', 'R', 'N'],
            Instruction::LBSR(_) => seq!['L', 'B', 'S', 'R'],
            Instruction::LBVC(_) => seq!['L', 'B', 'V', 'C'],
            Instruction::LBVS(_) => seq!['L', 'B', 'V', 'S'],
            Instruction::LDA(_) => seq!['L', 'D', 'A'],
            Instruction::LDB(_) => seq!['L', 'D', 'B'],
            Instruction::LDD(_) => seq!['L', 'D', 'D'],
            Instruction::LDS(_) => seq!['L', 'D', 'S'],
            Instruction::LDU(_) => seq!['L', 'D', 'U'],
            Instruction::LDX(_) => seq!['L', 'D', 'X'],
            Instruction::LDY(_) => seq!['L', 'D', 'Y'],
            Instruction::LEAS(_) => seq!['L', 'E', 'A', 'S'],
            Instruction::LEAU(_) => seq!['L', 'E', 'A', 'U'],
            Instruction::LEAX(_) => seq!['L', 'E', 'A', 'X'],
            Instruction::LEAY(_) => seq!['L', 'E', 'A', 'Y'],
            Instruction::LSLA => seq!['L', 'S', 'L', 'A'],
            Instruction::LSLB => seq!['L', 'S', 'L', 'B'],
            Instruction::LSL(_) => seq!['L', 'S', 'L'],
            Instruction::LSRA => seq!['L', 'S', 'R', 'A'],
            Instruction::LSRB => seq!['L', 'S', 'R', 'B'],
            Instruction::LSR(_) => seq!['L', 'S', 'R'],
            Instruction::MUL => seq!['M', 'U', 'L'],
            Instruction::NEGA => seq!['N', 'E', 'G', 'A'],
            Instruction::NEGB => seq!['N', 'E', 'G', 'B'],
            Instruction::NEG(_) => seq!['N', 'E', 'G'],
            Instruction::NOP => seq!['N', 'O', 'P'],
            Instruction::ORA(_) => seq!['O', 'R', 'A'],
            Instruction::ORB(_) => seq!['O', 'R', 'B'],
            Instruction::ORCC(_) => seq!['O', 'R', 'C', 'C'],
            Instruction::PSHU(_) => seq!['P', 'S', 'H', 'U'],
            Instruction::PSHS(_) => seq!['P', 'S', 'H', 'S'],
            Instruction::PULU(_) => seq!['P', 'U', 'L', 'U'],
            Instruction::PULS(_) => seq!['P', 'U', 'L', 'S'],
            Instruction::ROLA => seq!['R', 'O', 'L', 'A'],
            Instruction::ROLB => seq!['R', 'O', 'L', 'B'],
            Instruction::ROL(_) => seq!['R', 'O', 'L'],
            Instruction::RORA => seq!['R', 'O', 'R', 'A'],
            Instruction::RORB => seq!['R', 'O', 'R', 'B'],
            Instruction::ROR(_) => seq!['R', 'O', 'R'],
            Instruction::RTI => seq!['R', 'T', 'I'],
            Instruction::RTS => seq!['R', 'T', 'S'],
            Instruction::SBCA(_) => seq!['S', 'B', 'C', 'A'],
            Instruction::SBCB(_) => seq!['S', 'B', 'C', 'B'],
            Instruction::SBCC(_) => seq!['S', 'B', 'C', 'C'],
            Instruction::SBCS(_) => seq!['S', 'B', 'C', 'S'],
            Instruction::SBEQ(_) => seq!['S', 'B', 'E', 'Q'],
            Instruction::SBLT(_) => seq!['S', 'B', 'L', 'T'],
            Instruction::SBLE(_) => seq!['S', 'B', 'L', 'E'],
            Instruction::SBGT(_) => seq!['S', 'B', 'G', 'T'],
            Instruction::SBGE(_) => seq!['S', 'B', 'G', 'E'],
            Instruction::SBHI(_) => seq!['S', 'B', 'H', 'I'],
            Instruction::SBHS(_) => seq!['S', 'B', 'H', 'S'],
            Instruction::SBLO(_) => seq!['S', 'B', 'L', 'O'],
            Instruction::SBLS(_) => seq!['S', 'B', 'L', 'S'],
            Instruction::SBMI(_) => seq!['S', 'B', 'M', 'I'],
            Instruction::SBNE(_) => seq!['S', 'B', 'N', 'E'],
            Instruction::SBPL(_) => seq!['S', 'B', 'P', 'L'],
            Instruction::SBRA(_) => seq!['S', 'B', 'R', 'A'],
            Instruction::SBRN(_) => seq!['S', 'B', 'R', 'N'],
            Instruction::SBSR(_) => seq!['S', 'B', 'S', 'R'],
            Instruction::SBVC(_) => seq!['S', 'B', 'V', 'C'],
            Instruction::SBVS(_) => seq!['S', 'B', 'V', 'S'],
            Instruction::SEC => seq!['S', 'E', 'C'],
            Instruction::SEF => seq!['S', 'E', 'F'],
            Instruction::SEI => seq!['S', 'E', 'I'],
            Instruction::SEIF => seq!['S', 'E', 'I', 'F'],
            Instruction::SEV => seq!['S', 'E', 'V'],
            Instruction::SEX => seq!['S', 'E', 'X'],
            Instruction::STA(_) => seq!['S', 'T', 'A'],
            Instruction::STB(_) => seq!['S', 'T', 'B'],
            Instruction::STD(_) => seq!['S', 'T', 'D'],
            Instruction::STS(_) => seq!['S', 'T', 'S'],
            Instruction::STU(_) => seq!['S', 'T', 'U'],
            Instruction::STX(_) => seq!['S', 'T', 'X'],
            Instruction::STY(_) => seq!['S', 'T', 'Y'],
            Instruction::SUBA(_) => seq!['S', 'U', 'B', 'A'],
            Instruction::SUBB(_) => seq!['S', 'U', 'B', 'B'],
            Instruction::SUBD(_) => seq!['S', 'U', 'B', 'D'],
            Instruction::SWI => seq!['S', 'W', 'I'],
            Instruction::SWI2 => seq!['S', 'W', 'I', '2'],
            Instruction::SWI3 => seq!['S', 'W', 'I', '3'],
            Instruction::SYNC => seq!['S', 'Y', 'N', 'C'],
            Instruction::TFR(_) => seq!['T', 'F', 'R'],
            Instruction::TSTA => seq!['T', 'S', 'T', 'A'],
            Instruction::TSTB => seq!['T', 'S', 'T', 'B'],
            Instruction::TST(_) => seq!['T', 'S', 'T'],
        }
    }
}

/// Data directives: bytes, words, and reserved space.
#[derive(Debug, PartialEq, Eq)]
pub enum Data {
    DB(Vec<u8>),
    DW(Vec<u16>),
    DS(usize),
}

/// Directives that place code or name values: ORG, EXEC, EQU, and the
/// element of a line that holds no instruction.
#[derive(Debug, Clone, Copy, PartialEq, Eq, Structural)]
pub enum Directive {
    ORG(u16),
    EXEC(u16),
    EQU(u16),
    BLANK,
}

/// What a source line holds.
#[derive(Debug, PartialEq, Eq)]
pub enum Element {
    Inst(Instruction),
    Data(Data),
    Directive(Directive),
}

/// `Data` with its vectors taken as sequences.
pub enum SpecData {
    DB(Seq<u8>),
    DW(Seq<u16>),
    DS(usize),
}

/// `Element` with its vectors taken as sequences.
pub enum SpecElement {
    Inst(Instruction),
    Data(SpecData),
    Directive(Directive),
}

impl View for Data {
    type V = SpecData;

    open spec fn view(&self) -> SpecData {
        match self {
            Data::DB(v) => SpecData::DB(v@),
            Data::DW(v) => SpecData::DW(v@),
            Data::DS(n) => SpecData::DS(*n),
        }
    }
}

impl View for Element {
    type V = SpecElement;

    open spec fn view(&self) -> SpecElement {
        match self {
            Element::Inst(i) => SpecElement::Inst(*i),
            Element::Data(d) => SpecElement::Data(d@),
            Element::Directive(d) => SpecElement::Directive(*d),
        }
    }
}

/// A recognised source line: its element and its trailing comment.
#[derive(Debug, PartialEq, Eq)]
pub struct Line {
    pub element: Element,
    pub comment: Option<String>,
}

/// A named run of elements.
#[derive(Debug, PartialEq, Eq)]
pub struct Segment {
    pub name: String,
    pub elements: Vec<Element>,
}

/// The two bytes of a word give the word back: high byte times 256 plus
/// low byte.
pub proof fn law_word_bytes(v: u16)
    ensures
        be16(v).len() == 2,
        be16(v)[0] as int * 256 + be16(v)[1] as int == v as int,
        u16::spec_to_be_bytes(v) == be16(v),
{
}

} // verus!
