//! Machine-code generation: the bytes of each 6809 instruction.
use vstd::prelude::*;
use crate::representation::{
    be16, gen_bytes, hi, lo, split_word, PushPullRegister, AccOffsetRegister, IndexRegister, IndexedIndirect, Instruction, IntoBytes,
    Type1, Type2, Typecc, Typepspl, Typext, TfrExgRegister16, TfrExgRegister8, RegisterSet,
};

verus! {

/// The register field of an indexed postbyte (bits 5 and 6).
pub open spec fn reg_bits(reg: IndexRegister) -> u8 {
    match reg {
        IndexRegister::X => 0x00,
        IndexRegister::Y => 0x20,
        IndexRegister::U => 0x40,
        IndexRegister::S => 0x60,
    }
}

/// Whether a 16-bit value, read as a signed offset, fits in 8 bits.
pub open spec fn fits_i8(v: u16) -> bool {
    v <= 0x7F || v >= 0xFF80
}

/// A PC-relative postbyte with an 8- or 16-bit offset.
pub open spec fn pc_relative(short_byte: u8, long_byte: u8, v: u16) -> Seq<u8> {
    if fits_i8(v) {
        seq![short_byte, lo(v)]
    } else {
        seq![long_byte] + be16(v)
    }
}

/// The postbyte and offset bytes of an indexed or indirect operand.
pub open spec fn spec_encode_indexed(op: IndexedIndirect) -> Seq<u8> {
    match op {
        IndexedIndirect::Const { offset, reg } => {
            if offset == 0 {
                seq![0x84u8 | reg_bits(reg)]
            } else if 1 <= offset <= 7 {
                seq![reg_bits(reg) | (offset as u8)]
            } else if 8 <= offset <= 15 {
                seq![0x88u8 | reg_bits(reg), offset as u8]
            } else {
                seq![0x89u8 | reg_bits(reg)] + be16(offset as u16)
            }
        },
        IndexedIndirect::ConstInd { offset, reg } => {
            if offset == 0 {
                seq![0x94u8 | reg_bits(reg)]
            } else if 8 <= offset <= 15 {
                seq![0x98u8 | reg_bits(reg), offset as u8]
            } else {
                seq![0x99u8 | reg_bits(reg)] + be16(offset as u16)
            }
        },
        IndexedIndirect::Acc { offset, reg } => match offset {
            AccOffsetRegister::A => seq![0x86u8 | reg_bits(reg)],
            AccOffsetRegister::B => seq![0x85u8 | reg_bits(reg)],
            AccOffsetRegister::D => seq![0x8Bu8 | reg_bits(reg)],
        },
        IndexedIndirect::AccInd { offset, reg } => match offset {
            AccOffsetRegister::A => seq![0x96u8 | reg_bits(reg)],
            AccOffsetRegister::B => seq![0x95u8 | reg_bits(reg)],
            AccOffsetRegister::D => seq![0x9Bu8 | reg_bits(reg)],
        },
        IndexedIndirect::Inc1 { reg } => seq![reg_bits(reg) | 0x80u8],
        IndexedIndirect::Inc2 { reg } => seq![reg_bits(reg) | 0x81u8],
        IndexedIndirect::Inc2Ind { reg } => seq![reg_bits(reg) | 0x91u8],
        IndexedIndirect::Dec1 { reg } => seq![reg_bits(reg) | 0x82u8],
        IndexedIndirect::Dec2 { reg } => seq![reg_bits(reg) | 0x83u8],
        IndexedIndirect::Dec2Ind { reg } => seq![reg_bits(reg) | 0x93u8],
        IndexedIndirect::Pcr { target } => pc_relative(0x8C, 0x8D, target),
        IndexedIndirect::PcrInd { target } => pc_relative(0x9C, 0x9D, target),
        IndexedIndirect::Pc { offset } => pc_relative(0x8C, 0x8D, offset),
        IndexedIndirect::PcInd { offset } => pc_relative(0x9C, 0x9D, offset),
        IndexedIndirect::ExtInd(addr) => seq![0x9Fu8] + be16(addr),
    }
}

fn reg_field(reg: IndexRegister) -> (b: u8)
    ensures
        b == reg_bits(reg),
{
    match reg {
        IndexRegister::X => 0x00,
        IndexRegister::Y => 0x20,
        IndexRegister::U => 0x40,
        IndexRegister::S => 0x60,
    }
}

fn encode_pc_relative(short_byte: u8, long_byte: u8, v: u16) -> (r: Vec<u8>)
    ensures
        r@ == pc_relative(short_byte, long_byte, v),
{
    let (h, l) = split_word(v);
    if v <= 0x7F || v >= 0xFF80 {
        vec![short_byte, l]
    } else {
        let r = vec![long_byte, h, l];
        assert(r@ =~= pc_relative(short_byte, long_byte, v));
        r
    }
}

/// The postbyte and offset bytes of an indexed or indirect operand.
pub fn encode_indexed_indirect(operand: &IndexedIndirect) -> (r: Vec<u8>)
    ensures
        r@ == spec_encode_indexed(*operand),
{
    match operand {
        IndexedIndirect::Const { offset, reg } => {
            let off = *offset;
            if off == 0 {
                vec![0x84u8 | reg_field(*reg)]
            } else if 1 <= off && off <= 7 {
                vec![reg_field(*reg) | off as u8]
            } else if 8 <= off && off <= 15 {
                vec![0x88u8 | reg_field(*reg), off as u8]
            } else {
                let (h, l) = split_word(off as u16);
                let r = vec![0x89u8 | reg_field(*reg), h, l];
                assert(r@ =~= spec_encode_indexed(*operand));
                r
            }
        },
        IndexedIndirect::ConstInd { offset, reg } => {
            let off = *offset;
            if off == 0 {
                vec![0x94u8 | reg_field(*reg)]
            } else if 8 <= off && off <= 15 {
                vec![0x98u8 | reg_field(*reg), off as u8]
            } else {
                let (h, l) = split_word(off as u16);
                let r = vec![0x99u8 | reg_field(*reg), h, l];
                assert(r@ =~= spec_encode_indexed(*operand));
                r
            }
        },
        IndexedIndirect::Acc { offset, reg } => match offset {
            AccOffsetRegister::A => vec![0x86u8 | reg_field(*reg)],
            AccOffsetRegister::B => vec![0x85u8 | reg_field(*reg)],
            AccOffsetRegister::D => vec![0x8Bu8 | reg_field(*reg)],
        },
        IndexedIndirect::AccInd { offset, reg } => match offset {
            AccOffsetRegister::A => vec![0x96u8 | reg_field(*reg)],
            AccOffsetRegister::B => vec![0x95u8 | reg_field(*reg)],
            AccOffsetRegister::D => vec![0x9Bu8 | reg_field(*reg)],
        },
        IndexedIndirect::Inc1 { reg } => vec![reg_field(*reg) | 0x80u8],
        IndexedIndirect::Inc2 { reg } => vec![reg_field(*reg) | 0x81u8],
        IndexedIndirect::Inc2Ind { reg } => vec![reg_field(*reg) | 0x91u8],
        IndexedIndirect::Dec1 { reg } => vec![reg_field(*reg) | 0x82u8],
        IndexedIndirect::Dec2 { reg } => vec![reg_field(*reg) | 0x83u8],
        IndexedIndirect::Dec2Ind { reg } => vec![reg_field(*reg) | 0x93u8],
        IndexedIndirect::Pcr { target } => encode_pc_relative(0x8C, 0x8D, *target),
        IndexedIndirect::PcrInd { target } => encode_pc_relative(0x9C, 0x9D, *target),
        IndexedIndirect::Pc { offset } => encode_pc_relative(0x8C, 0x8D, *offset),
        IndexedIndirect::PcInd { offset } => encode_pc_relative(0x9C, 0x9D, *offset),
        IndexedIndirect::ExtInd(addr) => {
            let (h, l) = split_word(*addr);
            let r = vec![0x9Fu8, h, l];
            assert(r@ =~= spec_encode_indexed(*operand));
            r
        },
    }
}

/// The leading byte of a two-byte opcode, if there is one.
pub open spec fn opcode_prefix(opcode: u16) -> Seq<u8> {
    if opcode > 0xFF {
        seq![hi(opcode)]
    } else {
        seq![]
    }
}

/// An instruction without operand: its one- or two-byte opcode.
pub open spec fn spec_encode_type0(opcode: u16) -> Seq<u8> {
    opcode_prefix(opcode) + seq![lo(opcode)]
}

/// The addressing-mode bits of an immediate-or-memory operand.
pub open spec fn type1_mode<T: IntoBytes>(operand: Type1<T>) -> u8 {
    match operand {
        Type1::IMM(_) => 0x00,
        Type1::DIR(_) => 0x10,
        Type1::EXT(_) => 0x30,
        Type1::IND(_) => 0x20,
    }
}

/// The bytes of an immediate-or-memory operand.
pub open spec fn spec_type1_operand<T: IntoBytes>(operand: Type1<T>) -> Seq<u8> {
    match operand {
        Type1::IMM(v) => T::spec_to_be_bytes(v),
        Type1::DIR(a) => seq![a],
        Type1::EXT(a) => be16(a),
        Type1::IND(x) => spec_encode_indexed(x),
    }
}

/// An instruction with an immediate-or-memory operand.
pub open spec fn spec_encode_type1<T: IntoBytes>(opcode: u16, operand: Type1<T>) -> Seq<u8> {
    opcode_prefix(opcode) + seq![lo(opcode) | type1_mode(operand)] + spec_type1_operand(operand)
}

/// The addressing-mode bits of a memory operand.
pub open spec fn type2_mode(operand: Type2) -> u8 {
    match operand {
        Type2::DIR(_) => 0x00,
        Type2::EXT(_) => 0x70,
        Type2::IND(_) => 0x60,
    }
}

/// The bytes of a memory operand.
pub open spec fn spec_type2_operand(operand: Type2) -> Seq<u8> {
    match operand {
        Type2::DIR(a) => seq![a],
        Type2::EXT(a) => be16(a),
        Type2::IND(x) => spec_encode_indexed(x),
    }
}

/// An instruction with a memory operand.
pub open spec fn spec_encode_type2(opcode: u16, operand: Type2) -> Seq<u8> {
    opcode_prefix(opcode) + seq![lo(opcode) | type2_mode(operand)] + spec_type2_operand(operand)
}

/// The addressing-mode step of a store: the direct opcode, then the
/// indexed opcode 0x10 above it and the extended one 0x20 above it.
pub open spec fn store_mode(operand: Type2) -> u8 {
    match operand {
        Type2::DIR(_) => 0x00,
        Type2::IND(_) => 0x10,
        Type2::EXT(_) => 0x20,
    }
}

/// A store instruction (STA, STB, STD, STS, STU, STX, STY), whose opcode is
/// given by its direct-mode code.
pub open spec fn spec_encode_store(opcode: u16, operand: Type2) -> Seq<u8> {
    opcode_prefix(opcode) + seq![(lo(opcode) + store_mode(operand)) as u8] + spec_type2_operand(operand)
}

/// An instruction with a condition code mask.
pub open spec fn spec_encode_typecc(opcode: u8, operand: Typecc) -> Seq<u8> {
    seq![opcode, operand.mask]
}

/// The TFR/EXG code of an 8-bit register.
pub open spec fn code8(r: TfrExgRegister8) -> u8 {
    match r {
        TfrExgRegister8::A => 8,
        TfrExgRegister8::B => 9,
        TfrExgRegister8::CC => 10,
        TfrExgRegister8::DP => 11,
    }
}

/// The TFR/EXG code of a 16-bit register.
pub open spec fn code16(r: TfrExgRegister16) -> u8 {
    match r {
        TfrExgRegister16::D => 0,
        TfrExgRegister16::X => 1,
        TfrExgRegister16::Y => 2,
        TfrExgRegister16::U => 3,
        TfrExgRegister16::S => 4,
        TfrExgRegister16::PC => 5,
    }
}

/// The TFR/EXG postbyte: the source code in the high nibble, the
/// destination code in the low nibble.
pub open spec fn typext_postbyte(operand: Typext) -> u8 {
    match operand {
        Typext::BYTE(r1, r2) => (code8(r1) * 16 + code8(r2)) as u8,
        Typext::WORD(r1, r2) => (code16(r1) * 16 + code16(r2)) as u8,
    }
}

/// A TFR or EXG instruction.
pub open spec fn spec_encode_typext(opcode: u8, operand: Typext) -> Seq<u8> {
    seq![opcode, typext_postbyte(operand)]
}

/// The PSH/PUL mask bit of a register.
pub open spec fn pspl_bit(r: PushPullRegister) -> u8 {
    match r {
        PushPullRegister::CC => 0x01,
        PushPullRegister::A => 0x02,
        PushPullRegister::B => 0x04,
        PushPullRegister::DP => 0x08,
        PushPullRegister::X => 0x10,
        PushPullRegister::Y => 0x20,
        PushPullRegister::US => 0x40,
        PushPullRegister::PC => 0x80,
    }
}

/// The PSH/PUL postbyte: the bits of the registers in the set.
pub open spec fn pspl_mask(s: RegisterSet) -> u8 {
    mask_of(s.cc, s.a, s.b, s.dp, s.x, s.y, s.us, s.pc)
}

/// The mask with the bits 0 to 7 set as the flags say.
pub open spec fn mask_of(b0: bool, b1: bool, b2: bool, b3: bool, b4: bool, b5: bool, b6: bool, b7: bool) -> u8 {
    (if b0 { 0x01u8 } else { 0u8 }) | (if b1 { 0x02u8 } else { 0u8 }) | (if b2 { 0x04u8 } else { 0u8 })
        | (if b3 { 0x08u8 } else { 0u8 }) | (if b4 { 0x10u8 } else { 0u8 }) | (if b5 { 0x20u8 } else { 0u8 })
        | (if b6 { 0x40u8 } else { 0u8 }) | (if b7 { 0x80u8 } else { 0u8 })
}

/// A PSH or PUL instruction.
pub open spec fn spec_encode_typepspl(opcode: u8, operand: Typepspl) -> Seq<u8> {
    seq![opcode, pspl_mask(operand.registers)]
}

fn encode_type0(opcode: u16) -> (r: Vec<u8>)
    ensures
        r@ == spec_encode_type0(opcode),
{
    let (h, l) = split_word(opcode);
    if opcode > 0xFF {
        let r = vec![h, l];
        assert(r@ =~= spec_encode_type0(opcode));
        r
    } else {
        let r = vec![l];
        assert(r@ =~= spec_encode_type0(opcode));
        r
    }
}

fn encode_type1_opcode<T: IntoBytes>(opcode: u16, operand: &Type1<T>) -> (r: Vec<u8>)
    ensures
        r@ == opcode_prefix(opcode) + seq![lo(opcode) | type1_mode(*operand)],
{
    let (h, l) = split_word(opcode);
    let mut bytes: Vec<u8> = Vec::new();
    if opcode > 0xFF {
        bytes.push(h);
    }
    let mode: u8 = match operand {
        Type1::IMM(_) => 0x00,
        Type1::DIR(_) => 0x10,
        Type1::EXT(_) => 0x30,
        Type1::IND(_) => 0x20,
    };
    bytes.push(l | mode);
    assert(bytes@ =~= opcode_prefix(opcode) + seq![lo(opcode) | type1_mode(*operand)]);
    bytes
}

fn encode_type1_operand<T: IntoBytes + Copy>(operand: &Type1<T>) -> (r: Vec<u8>)
    ensures
        r@ == spec_type1_operand(*operand),
{
    match operand {
        Type1::IMM(value) => gen_bytes::<T>(*value),
        Type1::DIR(addr) => vec![*addr],
        Type1::EXT(addr) => {
            let (h, l) = split_word(*addr);
            let r = vec![h, l];
            assert(r@ =~= be16(*addr));
            r
        },
        Type1::IND(indirect) => encode_indexed_indirect(indirect),
    }
}

fn encode_type1<T: IntoBytes + Copy>(opcode: u16, operand: &Type1<T>) -> (r: Vec<u8>)
    ensures
        r@ == spec_encode_type1(opcode, *operand),
{
    let mut bytes = encode_type1_opcode(opcode, operand);
    let mut rest = encode_type1_operand(operand);
    bytes.append(&mut rest);
    bytes
}

fn encode_type2_opcode(opcode: u16, operand: &Type2) -> (r: Vec<u8>)
    ensures
        r@ == opcode_prefix(opcode) + seq![lo(opcode) | type2_mode(*operand)],
{
    let (h, l) = split_word(opcode);
    let mut bytes: Vec<u8> = Vec::new();
    if opcode > 0xFF {
        bytes.push(h);
    }
    let mode: u8 = match operand {
        Type2::DIR(_) => 0x00,
        Type2::EXT(_) => 0x70,
        Type2::IND(_) => 0x60,
    };
    bytes.push(l | mode);
    assert(bytes@ =~= opcode_prefix(opcode) + seq![lo(opcode) | type2_mode(*operand)]);
    bytes
}

fn encode_type2_operand(operand: &Type2) -> (r: Vec<u8>)
    ensures
        r@ == spec_type2_operand(*operand),
{
    match operand {
        Type2::DIR(addr) => vec![*addr],
        Type2::EXT(addr) => {
            let (h, l) = split_word(*addr);
            let r = vec![h, l];
            assert(r@ =~= be16(*addr));
            r
        },
        Type2::IND(indirect) => encode_indexed_indirect(indirect),
    }
}

fn encode_type2(opcode: u16, operand: &Type2) -> (r: Vec<u8>)
    ensures
        r@ == spec_encode_type2(opcode, *operand),
{
    let mut bytes = encode_type2_opcode(opcode, operand);
    let mut rest = encode_type2_operand(operand);
    bytes.append(&mut rest);
    bytes
}

fn encode_store(opcode: u16, operand: &Type2) -> (r: Vec<u8>)
    requires
        opcode % 256 <= 0xDF,
    ensures
        r@ == spec_encode_store(opcode, *operand),
{
    let (h, l) = split_word(opcode);
    let mut bytes: Vec<u8> = Vec::new();
    if opcode > 0xFF {
        bytes.push(h);
    }
    let step: u8 = match operand {
        Type2::DIR(_) => 0x00,
        Type2::IND(_) => 0x10,
        Type2::EXT(_) => 0x20,
    };
    bytes.push(l + step);
    let mut rest = encode_type2_operand(operand);
    bytes.append(&mut rest);
    assert(bytes@ =~= spec_encode_store(opcode, *operand));
    bytes
}

fn encode_typecc(opcode: u8, operand: &Typecc) -> (r: Vec<u8>)
    ensures
        r@ == spec_encode_typecc(opcode, *operand),
{
    vec![opcode, operand.mask]
}

fn register_code_8(reg: &TfrExgRegister8) -> (c: u8)
    ensures
        c == code8(*reg),
{
    match reg {
        TfrExgRegister8::A => 8,
        TfrExgRegister8::B => 9,
        TfrExgRegister8::CC => 10,
        TfrExgRegister8::DP => 11,
    }
}

fn register_code_16(reg: &TfrExgRegister16) -> (c: u8)
    ensures
        c == code16(*reg),
{
    match reg {
        TfrExgRegister16::D => 0,
        TfrExgRegister16::X => 1,
        TfrExgRegister16::Y => 2,
        TfrExgRegister16::U => 3,
        TfrExgRegister16::S => 4,
        TfrExgRegister16::PC => 5,
    }
}

/// Packs two register codes (each below 16) into one postbyte.
fn nibbles(c1: u8, c2: u8) -> (b: u8)
    requires
        c1 < 16,
        c2 < 16,
    ensures
        b == c1 * 16 + c2,
{
    assert(c1 < 16 && c2 < 16 ==> (c1 << 4u8) | c2 == c1 * 16 + c2) by (bit_vector);
    (c1 << 4u8) | c2
}

fn encode_typext(opcode: u8, operand: &Typext) -> (r: Vec<u8>)
    ensures
        r@ == spec_encode_typext(opcode, *operand),
{
    let post = match operand {
        Typext::BYTE(r1, r2) => nibbles(register_code_8(r1), register_code_8(r2)),
        Typext::WORD(r1, r2) => nibbles(register_code_16(r1), register_code_16(r2)),
    };
    vec![opcode, post]
}

fn encode_typepspl(opcode: u8, operand: &Typepspl) -> (r: Vec<u8>)
    ensures
        r@ == spec_encode_typepspl(opcode, *operand),
{
    let regs = &operand.registers;
    let mut mask: u8 = if regs.cc { 0x01u8 } else { 0u8 };
    mask = mask | if regs.a { 0x02u8 } else { 0u8 };
    mask = mask | if regs.b { 0x04u8 } else { 0u8 };
    mask = mask | if regs.dp { 0x08u8 } else { 0u8 };
    mask = mask | if regs.x { 0x10u8 } else { 0u8 };
    mask = mask | if regs.y { 0x20u8 } else { 0u8 };
    mask = mask | if regs.us { 0x40u8 } else { 0u8 };
    mask = mask | if regs.pc { 0x80u8 } else { 0u8 };
    vec![opcode, mask]
}

/// The machine code of an instruction; `None` for the instructions that
/// have no encoding yet (JMP, JSR, LEA and the branches).
pub open spec fn spec_encode_instruction(instr: Instruction) -> Option<Seq<u8>> {
    match instr {
        Instruction::ABX => Some(spec_encode_type0(0x3A)),
        Instruction::ADCA(operand) => Some(spec_encode_type1(0x89, operand)),
        Instruction::ADCB(operand) => Some(spec_encode_type1(0xC9, operand)),
        Instruction::ADDA(operand) => Some(spec_encode_type1(0x8B, operand)),
        Instruction::ADDB(operand) => Some(spec_encode_type1(0xCB, operand)),
        Instruction::ADDD(operand) => Some(spec_encode_type1(0xC3, operand)),
        Instruction::ANDA(operand) => Some(spec_encode_type1(0x84, operand)),
        Instruction::ANDB(operand) => Some(spec_encode_type1(0xC4, operand)),
        Instruction::ANDCC(operand) => Some(spec_encode_typecc(0x1C, operand)),
        Instruction::ASL(operand) => Some(spec_encode_type2(0x08, operand)),
        Instruction::ASLA => Some(spec_encode_type0(0x48)),
        Instruction::ASLB => Some(spec_encode_type0(0x58)),
        Instruction::ASR(operand) => Some(spec_encode_type2(0x07, operand)),
        Instruction::ASRA => Some(spec_encode_type0(0x47)),
        Instruction::ASRB => Some(spec_encode_type0(0x57)),
        Instruction::BITA(operand) => Some(spec_encode_type1(0x85, operand)),
        Instruction::BITB(operand) => Some(spec_encode_type1(0xC5, operand)),
        Instruction::CLC => Some(spec_encode_type0(0x1CFE)),
        Instruction::CLF => Some(spec_encode_type0(0x1CBF)),
        Instruction::CLI => Some(spec_encode_type0(0x1CEF)),
        Instruction::CLIF => Some(spec_encode_type0(0x1CAF)),
        Instruction::CLR(operand) => Some(spec_encode_type2(0x0F, operand)),
        Instruction::CLRA => Some(spec_encode_type0(0x4F)),
        Instruction::CLRB => Some(spec_encode_type0(0x5F)),
        Instruction::CLV => Some(spec_encode_type0(0x1CFD)),
        Instruction::CMPA(operand) => Some(spec_encode_type1(0x81, operand)),
        Instruction::CMPB(operand) => Some(spec_encode_type1(0xC1, operand)),
        Instruction::CMPD(operand) => Some(spec_encode_type1(0x1083, operand)),
        Instruction::CMPS(operand) => Some(spec_encode_type1(0x118C, operand)),
        Instruction::CMPU(operand) => Some(spec_encode_type1(0x1183, operand)),
        Instruction::CMPX(operand) => Some(spec_encode_type1(0x8C, operand)),
        Instruction::CMPY(operand) => Some(spec_encode_type1(0x108C, operand)),
        Instruction::COM(operand) => Some(spec_encode_type2(0x03, operand)),
        Instruction::COMA => Some(spec_encode_type0(0x43)),
        Instruction::COMB => Some(spec_encode_type0(0x53)),
        Instruction::CWAI(operand) => Some(spec_encode_typecc(0x3C, operand)),
        Instruction::DAA => Some(spec_encode_type0(0x19)),
        Instruction::DEC(operand) => Some(spec_encode_type2(0x0A, operand)),
        Instruction::DECA => Some(spec_encode_type0(0x4A)),
        Instruction::DECB => Some(spec_encode_type0(0x5A)),
        Instruction::EORA(operand) => Some(spec_encode_type1(0x88, operand)),
        Instruction::EORB(operand) => Some(spec_encode_type1(0xC8, operand)),
        Instruction::EXG(operand) => Some(spec_encode_typext(0x1E, operand)),
        Instruction::INC(operand) => Some(spec_encode_type2(0x0C, operand)),
        Instruction::INCA => Some(spec_encode_type0(0x4C)),
        Instruction::INCB => Some(spec_encode_type0(0x5C)),
        Instruction::LDA(operand) => Some(spec_encode_type1(0x86, operand)),
        Instruction::LDB(operand) => Some(spec_encode_type1(0xC6, operand)),
        Instruction::LDD(operand) => Some(spec_encode_type1(0xCC, operand)),
        Instruction::LDS(operand) => Some(spec_encode_type1(0x10CE, operand)),
        Instruction::LDU(operand) => Some(spec_encode_type1(0xCE, operand)),
        Instruction::LDX(operand) => Some(spec_encode_type1(0x8E, operand)),
        Instruction::LDY(operand) => Some(spec_encode_type1(0x108E, operand)),
        Instruction::LSL(operand) => Some(spec_encode_type2(0x08, operand)),
        Instruction::LSLA => Some(spec_encode_type0(0x48)),
        Instruction::LSLB => Some(spec_encode_type0(0x58)),
        Instruction::LSR(operand) => Some(spec_encode_type2(0x04, operand)),
        Instruction::LSRA => Some(spec_encode_type0(0x44)),
        Instruction::LSRB => Some(spec_encode_type0(0x54)),
        Instruction::MUL => Some(spec_encode_type0(0x3D)),
        Instruction::NEG(operand) => Some(spec_encode_type2(0x00, operand)),
        Instruction::NEGA => Some(spec_encode_type0(0x40)),
        Instruction::NEGB => Some(spec_encode_type0(0x50)),
        Instruction::NOP => Some(spec_encode_type0(0x12)),
        Instruction::ORA(operand) => Some(spec_encode_type1(0x8A, operand)),
        Instruction::ORB(operand) => Some(spec_encode_type1(0xCA, operand)),
        Instruction::ORCC(operand) => Some(spec_encode_typecc(0x1A, operand)),
        Instruction::PSHS(operand) => Some(spec_encode_typepspl(0x34, operand)),
        Instruction::PSHU(operand) => Some(spec_encode_typepspl(0x36, operand)),
        Instruction::PULS(operand) => Some(spec_encode_typepspl(0x35, operand)),
        Instruction::PULU(operand) => Some(spec_encode_typepspl(0x37, operand)),
        Instruction::ROL(operand) => Some(spec_encode_type2(0x09, operand)),
        Instruction::ROLA => Some(spec_encode_type0(0x49)),
        Instruction::ROLB => Some(spec_encode_type0(0x59)),
        Instruction::ROR(operand) => Some(spec_encode_type2(0x06, operand)),
        Instruction::RORA => Some(spec_encode_type0(0x46)),
        Instruction::RORB => Some(spec_encode_type0(0x56)),
        Instruction::RTI => Some(spec_encode_type0(0x3B)),
        Instruction::RTS => Some(spec_encode_type0(0x39)),
        Instruction::SBCA(operand) => Some(spec_encode_type1(0x82, operand)),
        Instruction::SBCB(operand) => Some(spec_encode_type1(0xC2, operand)),
        Instruction::SEC => Some(spec_encode_type0(0x1A01)),
        Instruction::SEF => Some(spec_encode_type0(0x1A40)),
        Instruction::SEI => Some(spec_encode_type0(0x1A10)),
        Instruction::SEIF => Some(spec_encode_type0(0x1A50)),
        Instruction::SEV => Some(spec_encode_type0(0x1A02)),
        Instruction::STA(operand) => Some(spec_encode_store(0x97, operand)),
        Instruction::STB(operand) => Some(spec_encode_store(0xD7, operand)),
        Instruction::STD(operand) => Some(spec_encode_store(0xDD, operand)),
        Instruction::STS(operand) => Some(spec_encode_store(0x10DF, operand)),
        Instruction::STU(operand) => Some(spec_encode_store(0xDF, operand)),
        Instruction::STX(operand) => Some(spec_encode_store(0x9F, operand)),
        Instruction::STY(operand) => Some(spec_encode_store(0x109F, operand)),
        Instruction::SUBA(operand) => Some(spec_encode_type1(0x80, operand)),
        Instruction::SUBB(operand) => Some(spec_encode_type1(0xC0, operand)),
        Instruction::SUBD(operand) => Some(spec_encode_type1(0x83, operand)),
        Instruction::SEX => Some(spec_encode_type0(0x1D)),
        Instruction::SWI => Some(spec_encode_type0(0x3F)),
        Instruction::SWI2 => Some(spec_encode_type0(0x103F)),
        Instruction::SWI3 => Some(spec_encode_type0(0x113F)),
        Instruction::SYNC => Some(spec_encode_type0(0x13)),
        Instruction::TFR(operand) => Some(spec_encode_typext(0x1F, operand)),
        Instruction::TST(operand) => Some(spec_encode_type2(0x0D, operand)),
        Instruction::TSTA => Some(spec_encode_type0(0x4D)),
        Instruction::TSTB => Some(spec_encode_type0(0x5D)),
        _ => None,
    }
}

/// Whether an instruction has an encoding.
pub open spec fn encodable(instr: Instruction) -> bool {
    spec_encode_instruction(instr) is Some
}

/// Whether an instruction has an encoding, for callers that cannot check
/// `encodable` before calling `encode_instruction`.
pub fn is_encodable(instr: &Instruction) -> (r: bool)
    ensures
        r == encodable(*instr),
{
    match instr {
        Instruction::BCC(_)
        | Instruction::BCS(_)
        | Instruction::BEQ(_)
        | Instruction::BGE(_)
        | Instruction::BGT(_)
        | Instruction::BHI(_)
        | Instruction::BHS(_)
        | Instruction::BLE(_)
        | Instruction::BLO(_)
        | Instruction::BLS(_)
        | Instruction::BLT(_)
        | Instruction::BMI(_)
        | Instruction::BNE(_)
        | Instruction::BPL(_)
        | Instruction::BRA(_)
        | Instruction::BRN(_)
        | Instruction::BSR(_)
        | Instruction::BVC(_)
        | Instruction::BVS(_)
        | Instruction::JMP(_)
        | Instruction::JSR(_)
        | Instruction::LBCC(_)
        | Instruction::LBCS(_)
        | Instruction::LBEQ(_)
        | Instruction::LBGE(_)
        | Instruction::LBGT(_)
        | Instruction::LBHI(_)
        | Instruction::LBHS(_)
        | Instruction::LBLE(_)
        | Instruction::LBLO(_)
        | Instruction::LBLS(_)
        | Instruction::LBLT(_)
        | Instruction::LBMI(_)
        | Instruction::LBNE(_)
        | Instruction::LBPL(_)
        | Instruction::LBRA(_)
        | Instruction::LBRN(_)
        | Instruction::LBSR(_)
        | Instruction::LBVC(_)
        | Instruction::LBVS(_)
        | Instruction::LEAS(_)
        | Instruction::LEAU(_)
        | Instruction::LEAX(_)
        | Instruction::LEAY(_)
        | Instruction::SBCC(_)
        | Instruction::SBCS(_)
        | Instruction::SBEQ(_)
        | Instruction::SBLT(_)
        | Instruction::SBLE(_)
        | Instruction::SBGT(_)
        | Instruction::SBGE(_)
        | Instruction::SBHI(_)
        | Instruction::SBHS(_)
        | Instruction::SBLO(_)
        | Instruction::SBLS(_)
        | Instruction::SBMI(_)
        | Instruction::SBNE(_)
        | Instruction::SBPL(_)
        | Instruction::SBRA(_)
        | Instruction::SBRN(_)
        | Instruction::SBSR(_)
        | Instruction::SBVC(_)
        | Instruction::SBVS(_) => false,
        _ => true,
    }
}

/// The machine code of an instruction: its opcode bytes followed by its
/// operand bytes.
pub fn encode_instruction(instr: &Instruction) -> (r: Vec<u8>)
    requires
        encodable(*instr),
    ensures
        spec_encode_instruction(*instr) == Some(r@),
{
    match instr {
        Instruction::ABX => encode_type0(0x3A),
        Instruction::ADCA(operand) => encode_type1(0x89, operand),
        Instruction::ADCB(operand) => encode_type1(0xC9, operand),
        Instruction::ADDA(operand) => encode_type1(0x8B, operand),
        Instruction::ADDB(operand) => encode_type1(0xCB, operand),
        Instruction::ADDD(operand) => encode_type1(0xC3, operand),
        Instruction::ANDA(operand) => encode_type1(0x84, operand),
        Instruction::ANDB(operand) => encode_type1(0xC4, operand),
        Instruction::ANDCC(operand) => encode_typecc(0x1C, operand),
        Instruction::ASL(operand) => encode_type2(0x08, operand),
        Instruction::ASLA => encode_type0(0x48),
        Instruction::ASLB => encode_type0(0x58),
        Instruction::ASR(operand) => encode_type2(0x07, operand),
        Instruction::ASRA => encode_type0(0x47),
        Instruction::ASRB => encode_type0(0x57),
        Instruction::BITA(operand) => encode_type1(0x85, operand),
        Instruction::BITB(operand) => encode_type1(0xC5, operand),
        Instruction::CLC => encode_type0(0x1CFE),
        Instruction::CLF => encode_type0(0x1CBF),
        Instruction::CLI => encode_type0(0x1CEF),
        Instruction::CLIF => encode_type0(0x1CAF),
        Instruction::CLR(operand) => encode_type2(0x0F, operand),
        Instruction::CLRA => encode_type0(0x4F),
        Instruction::CLRB => encode_type0(0x5F),
        Instruction::CLV => encode_type0(0x1CFD),
        Instruction::CMPA(operand) => encode_type1(0x81, operand),
        Instruction::CMPB(operand) => encode_type1(0xC1, operand),
        Instruction::CMPD(operand) => encode_type1(0x1083, operand),
        Instruction::CMPS(operand) => encode_type1(0x118C, operand),
        Instruction::CMPU(operand) => encode_type1(0x1183, operand),
        Instruction::CMPX(operand) => encode_type1(0x8C, operand),
        Instruction::CMPY(operand) => encode_type1(0x108C, operand),
        Instruction::COM(operand) => encode_type2(0x03, operand),
        Instruction::COMA => encode_type0(0x43),
        Instruction::COMB => encode_type0(0x53),
        Instruction::CWAI(operand) => encode_typecc(0x3C, operand),
        Instruction::DAA => encode_type0(0x19),
        Instruction::DEC(operand) => encode_type2(0x0A, operand),
        Instruction::DECA => encode_type0(0x4A),
        Instruction::DECB => encode_type0(0x5A),
        Instruction::EORA(operand) => encode_type1(0x88, operand),
        Instruction::EORB(operand) => encode_type1(0xC8, operand),
        Instruction::EXG(operand) => encode_typext(0x1E, operand),
        Instruction::INC(operand) => encode_type2(0x0C, operand),
        Instruction::INCA => encode_type0(0x4C),
        Instruction::INCB => encode_type0(0x5C),
        Instruction::LDA(operand) => encode_type1(0x86, operand),
        Instruction::LDB(operand) => encode_type1(0xC6, operand),
        Instruction::LDD(operand) => encode_type1(0xCC, operand),
        Instruction::LDS(operand) => encode_type1(0x10CE, operand),
        Instruction::LDU(operand) => encode_type1(0xCE, operand),
        Instruction::LDX(operand) => encode_type1(0x8E, operand),
        Instruction::LDY(operand) => encode_type1(0x108E, operand),
        Instruction::LSL(operand) => encode_type2(0x08, operand),
        Instruction::LSLA => encode_type0(0x48),
        Instruction::LSLB => encode_type0(0x58),
        Instruction::LSR(operand) => encode_type2(0x04, operand),
        Instruction::LSRA => encode_type0(0x44),
        Instruction::LSRB => encode_type0(0x54),
        Instruction::MUL => encode_type0(0x3D),
        Instruction::NEG(operand) => encode_type2(0x00, operand),
        Instruction::NEGA => encode_type0(0x40),
        Instruction::NEGB => encode_type0(0x50),
        Instruction::NOP => encode_type0(0x12),
        Instruction::ORA(operand) => encode_type1(0x8A, operand),
        Instruction::ORB(operand) => encode_type1(0xCA, operand),
        Instruction::ORCC(operand) => encode_typecc(0x1A, operand),
        Instruction::PSHS(operand) => encode_typepspl(0x34, operand),
        Instruction::PSHU(operand) => encode_typepspl(0x36, operand),
        Instruction::PULS(operand) => encode_typepspl(0x35, operand),
        Instruction::PULU(operand) => encode_typepspl(0x37, operand),
        Instruction::ROL(operand) => encode_type2(0x09, operand),
        Instruction::ROLA => encode_type0(0x49),
        Instruction::ROLB => encode_type0(0x59),
        Instruction::ROR(operand) => encode_type2(0x06, operand),
        Instruction::RORA => encode_type0(0x46),
        Instruction::RORB => encode_type0(0x56),
        Instruction::RTI => encode_type0(0x3B),
        Instruction::RTS => encode_type0(0x39),
        Instruction::SBCA(operand) => encode_type1(0x82, operand),
        Instruction::SBCB(operand) => encode_type1(0xC2, operand),
        Instruction::SEC => encode_type0(0x1A01),
        Instruction::SEF => encode_type0(0x1A40),
        Instruction::SEI => encode_type0(0x1A10),
        Instruction::SEIF => encode_type0(0x1A50),
        Instruction::SEV => encode_type0(0x1A02),
        Instruction::STA(operand) => encode_store(0x97, operand),
        Instruction::STB(operand) => encode_store(0xD7, operand),
        Instruction::STD(operand) => encode_store(0xDD, operand),
        Instruction::STS(operand) => encode_store(0x10DF, operand),
        Instruction::STU(operand) => encode_store(0xDF, operand),
        Instruction::STX(operand) => encode_store(0x9F, operand),
        Instruction::STY(operand) => encode_store(0x109F, operand),
        Instruction::SUBA(operand) => encode_type1(0x80, operand),
        Instruction::SUBB(operand) => encode_type1(0xC0, operand),
        Instruction::SUBD(operand) => encode_type1(0x83, operand),
        Instruction::SEX => encode_type0(0x1D),
        Instruction::SWI => encode_type0(0x3F),
        Instruction::SWI2 => encode_type0(0x103F),
        Instruction::SWI3 => encode_type0(0x113F),
        Instruction::SYNC => encode_type0(0x13),
        Instruction::TFR(operand) => encode_typext(0x1F, operand),
        Instruction::TST(operand) => encode_type2(0x0D, operand),
        Instruction::TSTA => encode_type0(0x4D),
        Instruction::TSTB => encode_type0(0x5D),
        _ => {
            assert(false);
            Vec::new()
        },
    }
}

proof fn lemma_mask_bits(b0: bool, b1: bool, b2: bool, b3: bool, b4: bool, b5: bool, b6: bool, b7: bool)
    by (bit_vector)
    ensures
        (mask_of(b0, b1, b2, b3, b4, b5, b6, b7) & 0x01u8 != 0u8) == b0,
        (mask_of(b0, b1, b2, b3, b4, b5, b6, b7) & 0x02u8 != 0u8) == b1,
        (mask_of(b0, b1, b2, b3, b4, b5, b6, b7) & 0x04u8 != 0u8) == b2,
        (mask_of(b0, b1, b2, b3, b4, b5, b6, b7) & 0x08u8 != 0u8) == b3,
        (mask_of(b0, b1, b2, b3, b4, b5, b6, b7) & 0x10u8 != 0u8) == b4,
        (mask_of(b0, b1, b2, b3, b4, b5, b6, b7) & 0x20u8 != 0u8) == b5,
        (mask_of(b0, b1, b2, b3, b4, b5, b6, b7) & 0x40u8 != 0u8) == b6,
        (mask_of(b0, b1, b2, b3, b4, b5, b6, b7) & 0x80u8 != 0u8) == b7,
{
}

/// The PSH/PUL postbyte has the bit of a register set exactly when the
/// register is in the set: the postbyte and the register set determine
/// each other.
pub proof fn law_pspl_mask(s: RegisterSet, r: PushPullRegister)
    ensures
        (pspl_mask(s) & pspl_bit(r) != 0) == s@.contains(r),
{
    lemma_mask_bits(s.cc, s.a, s.b, s.dp, s.x, s.y, s.us, s.pc);
}

/// The TFR/EXG postbyte holds the source register's code in its high
/// nibble and the destination's in its low nibble; 8-bit registers have the
/// codes 8 to 11 and 16-bit ones 0 to 5, so the postbyte determines the
/// operands.
pub proof fn law_typext_postbyte(t: Typext, u: Typext)
    ensures
        t matches Typext::BYTE(r1, r2) ==> typext_postbyte(t) / 16 == code8(r1) && typext_postbyte(t) % 16
            == code8(r2) && 8 <= code8(r1) <= 11,
        t matches Typext::WORD(r1, r2) ==> typext_postbyte(t) / 16 == code16(r1) && typext_postbyte(t) % 16
            == code16(r2) && code16(r1) <= 5,
        typext_postbyte(t) == typext_postbyte(u) ==> t == u,
{
}

proof fn lemma_indexed_length(x: IndexedIndirect)
    ensures
        1 <= spec_encode_indexed(x).len() <= 3,
{
}

/// Every instruction that has an encoding is 1 to 5 bytes long: at most
/// two opcode bytes, a postbyte, and two bytes of operand.
pub proof fn law_encoding_length(instr: Instruction)
    requires
        encodable(instr),
    ensures
        1 <= spec_encode_instruction(instr)->Some_0.len() <= 5,
{
    match instr {
        Instruction::ADCA(o) | Instruction::ADCB(o) | Instruction::ADDA(o) | Instruction::ADDB(o)
        | Instruction::ANDA(o) | Instruction::ANDB(o) | Instruction::BITA(o) | Instruction::BITB(o)
        | Instruction::CMPA(o) | Instruction::CMPB(o) | Instruction::EORA(o) | Instruction::EORB(o)
        | Instruction::LDA(o) | Instruction::LDB(o) | Instruction::ORA(o) | Instruction::ORB(o)
        | Instruction::SBCA(o) | Instruction::SBCB(o) | Instruction::SUBA(o) | Instruction::SUBB(o) => {
            if let Type1::IND(x) = o {
                lemma_indexed_length(x);
            }
        },
        Instruction::ADDD(o) | Instruction::CMPD(o) | Instruction::CMPS(o) | Instruction::CMPU(o)
        | Instruction::CMPX(o) | Instruction::CMPY(o) | Instruction::LDD(o) | Instruction::LDS(o)
        | Instruction::LDU(o) | Instruction::LDX(o) | Instruction::LDY(o) | Instruction::SUBD(o) => {
            if let Type1::IND(x) = o {
                lemma_indexed_length(x);
            }
        },
        Instruction::ASL(o) | Instruction::ASR(o) | Instruction::CLR(o) | Instruction::COM(o)
        | Instruction::DEC(o) | Instruction::INC(o) | Instruction::LSL(o) | Instruction::LSR(o)
        | Instruction::NEG(o) | Instruction::ROL(o) | Instruction::ROR(o) | Instruction::STA(o)
        | Instruction::STB(o) | Instruction::STD(o) | Instruction::STS(o) | Instruction::STU(o)
        | Instruction::STX(o) | Instruction::STY(o) | Instruction::TST(o) => {
            if let Type2::IND(x) = o {
                lemma_indexed_length(x);
            }
        },
        _ => {},
    }
}

/// The memory operand of an instruction that takes one.
pub open spec fn memory_operand(instr: Instruction) -> Option<Type2> {
    match instr {
        Instruction::ASL(o) => Some(o),
        Instruction::ASR(o) => Some(o),
        Instruction::CLR(o) => Some(o),
        Instruction::COM(o) => Some(o),
        Instruction::DEC(o) => Some(o),
        Instruction::INC(o) => Some(o),
        Instruction::LSL(o) => Some(o),
        Instruction::LSR(o) => Some(o),
        Instruction::NEG(o) => Some(o),
        Instruction::ROL(o) => Some(o),
        Instruction::ROR(o) => Some(o),
        Instruction::STA(o) => Some(o),
        Instruction::STB(o) => Some(o),
        Instruction::STD(o) => Some(o),
        Instruction::STS(o) => Some(o),
        Instruction::STU(o) => Some(o),
        Instruction::STX(o) => Some(o),
        Instruction::STY(o) => Some(o),
        Instruction::TST(o) => Some(o),
        _ => None,
    }
}

/// The same instruction with another memory operand.
pub open spec fn with_memory_operand(instr: Instruction, o: Type2) -> Option<Instruction> {
    match instr {
        Instruction::ASL(_) => Some(Instruction::ASL(o)),
        Instruction::ASR(_) => Some(Instruction::ASR(o)),
        Instruction::CLR(_) => Some(Instruction::CLR(o)),
        Instruction::COM(_) => Some(Instruction::COM(o)),
        Instruction::DEC(_) => Some(Instruction::DEC(o)),
        Instruction::INC(_) => Some(Instruction::INC(o)),
        Instruction::LSL(_) => Some(Instruction::LSL(o)),
        Instruction::LSR(_) => Some(Instruction::LSR(o)),
        Instruction::NEG(_) => Some(Instruction::NEG(o)),
        Instruction::ROL(_) => Some(Instruction::ROL(o)),
        Instruction::ROR(_) => Some(Instruction::ROR(o)),
        Instruction::STA(_) => Some(Instruction::STA(o)),
        Instruction::STB(_) => Some(Instruction::STB(o)),
        Instruction::STD(_) => Some(Instruction::STD(o)),
        Instruction::STS(_) => Some(Instruction::STS(o)),
        Instruction::STU(_) => Some(Instruction::STU(o)),
        Instruction::STX(_) => Some(Instruction::STX(o)),
        Instruction::STY(_) => Some(Instruction::STY(o)),
        Instruction::TST(_) => Some(Instruction::TST(o)),
        _ => None,
    }
}

/// The position of the opcode byte in an encoding: after the page prefix
/// 0x10 or 0x11 where there is one.
pub open spec fn opcode_index(e: Seq<u8>) -> int {
    if e.len() > 0 && (e[0] == 0x10 || e[0] == 0x11) {
        1
    } else {
        0
    }
}

/// Whether two memory operands use different addressing modes.
pub open spec fn other_mode(a: Type2, b: Type2) -> bool {
    match (a, b) {
        (Type2::DIR(_), Type2::DIR(_)) => false,
        (Type2::EXT(_), Type2::EXT(_)) => false,
        (Type2::IND(_), Type2::IND(_)) => false,
        _ => true,
    }
}

proof fn lemma_memory_mode_bits(b: u8)
    by (bit_vector)
    requires
        b < 0x10,
    ensures
        b | 0x00u8 == b,
        b | 0x60u8 >= 0x60,
        b | 0x70u8 >= 0x70,
        b | 0x60u8 != b | 0x70u8,
{
}

/// For an instruction with a memory operand the opcode byte tells the
/// addressing mode: the same instruction with an operand of another mode
/// has the same page prefix and another opcode byte.
pub proof fn law_mode_in_opcode(instr: Instruction, o: Type2)
    requires
        memory_operand(instr) is Some,
        other_mode(memory_operand(instr)->Some_0, o),
    ensures
        ({
            let e1 = spec_encode_instruction(instr)->Some_0;
            let e2 = spec_encode_instruction(with_memory_operand(instr, o)->Some_0)->Some_0;
            let k = opcode_index(e1);
            &&& k == opcode_index(e2)
            &&& k < e1.len() && k < e2.len()
            &&& e1.take(k) == e2.take(k)
            &&& e1[k] != e2[k]
        }),
{
    match instr {
        Instruction::ASL(_) | Instruction::LSL(_) => lemma_memory_mode_bits(0x08),
        Instruction::ASR(_) => lemma_memory_mode_bits(0x07),
        Instruction::CLR(_) => lemma_memory_mode_bits(0x0F),
        Instruction::COM(_) => lemma_memory_mode_bits(0x03),
        Instruction::DEC(_) => lemma_memory_mode_bits(0x0A),
        Instruction::INC(_) => lemma_memory_mode_bits(0x0C),
        Instruction::LSR(_) => lemma_memory_mode_bits(0x04),
        Instruction::NEG(_) => lemma_memory_mode_bits(0x00),
        Instruction::ROL(_) => lemma_memory_mode_bits(0x09),
        Instruction::ROR(_) => lemma_memory_mode_bits(0x06),
        Instruction::TST(_) => lemma_memory_mode_bits(0x0D),
        _ => {},
    }
}

/// The number of an index register in bits 5 and 6 of a postbyte.
pub open spec fn reg_number(reg: IndexRegister) -> u8 {
    match reg {
        IndexRegister::X => 0,
        IndexRegister::Y => 1,
        IndexRegister::U => 2,
        IndexRegister::S => 3,
    }
}

/// A 16-bit word read as a two's complement number.
pub open spec fn signed16(v: int) -> int {
    if v >= 0x8000 {
        v - 0x10000
    } else {
        v
    }
}

proof fn lemma_postbyte_fields(b: u8, r: u8)
    by (bit_vector)
    requires
        b < 8 || b == 0x84 || b == 0x88 || b == 0x89 || b == 0x94 || b == 0x98 || b == 0x99,
        r == 0 || r == 0x20 || r == 0x40 || r == 0x60,
    ensures
        ((b | r) >> 5u8) & 3u8 == r / 32,
        ((r | b) >> 5u8) & 3u8 == r / 32,
        (b | r) & 0x80u8 == b & 0x80u8,
        (r | b) & 0x80u8 == b & 0x80u8,
        (r | b) & 0x1Fu8 == b & 0x1Fu8,
        b < 8 ==> b & 0x1Fu8 == b && b & 0x80u8 == 0,
        b >= 0x80 ==> b & 0x80u8 != 0,
{
}

proof fn lemma_offset_word(offset: i16)
    by (bit_vector)
    ensures
        (offset as u16) as int == if offset < 0 { offset + 0x10000 } else { offset as int },
{
}

/// A constant-offset indexed postbyte gives back its operand: bits 5 and 6
/// hold the register; a one-byte encoding holds the offset in its low five
/// bits (bit 7 clear) or means no offset (bit 7 set); a two-byte one holds
/// it in its second byte, and a three-byte one in its last two bytes as a
/// signed big-endian word.
pub proof fn law_constant_offset(x: IndexedIndirect)
    requires
        x is Const || x is ConstInd,
    ensures
        ({
            let e = spec_encode_indexed(x);
            let (offset, reg) = match x {
                IndexedIndirect::Const { offset, reg } => (offset, reg),
                IndexedIndirect::ConstInd { offset, reg } => (offset, reg),
                _ => (0i16, IndexRegister::X),
            };
            &&& 1 <= e.len() <= 3
            &&& (e[0] >> 5u8) & 3u8 == reg_number(reg)
            &&& e.len() == 1 ==> offset as int == if e[0] & 0x80u8 == 0 { (e[0] & 0x1Fu8) as int } else { 0 }
            &&& e.len() == 2 ==> offset as int == e[1] as int
            &&& e.len() == 3 ==> offset as int == signed16(e[1] as int * 256 + e[2] as int)
        }),
{
    let (offset, reg) = match x {
        IndexedIndirect::Const { offset, reg } => (offset, reg),
        IndexedIndirect::ConstInd { offset, reg } => (offset, reg),
        _ => (0i16, IndexRegister::X),
    };
    let r = reg_bits(reg);
    lemma_offset_word(offset);
    if x is Const {
        if offset == 0 {
            lemma_postbyte_fields(0x84, r);
        } else if 1 <= offset <= 7 {
            lemma_postbyte_fields(offset as u8, r);
        } else if 8 <= offset <= 15 {
            lemma_postbyte_fields(0x88, r);
        } else {
            lemma_postbyte_fields(0x89, r);
        }
    } else {
        if offset == 0 {
            lemma_postbyte_fields(0x94, r);
        } else if 8 <= offset <= 15 {
            lemma_postbyte_fields(0x98, r);
        } else {
            lemma_postbyte_fields(0x99, r);
        }
    }
}


/// An opcode chosen by the addressing mode of an immediate-or-memory
/// operand.
pub open spec fn mode_opcode1<T: IntoBytes>(o: Type1<T>, imm: u16, dir: u16, ind: u16, ext: u16) -> u16 {
    match o {
        Type1::IMM(_) => imm,
        Type1::DIR(_) => dir,
        Type1::IND(_) => ind,
        Type1::EXT(_) => ext,
    }
}

/// An opcode chosen by the addressing mode of a memory operand.
pub open spec fn mode_opcode2(o: Type2, dir: u16, ind: u16, ext: u16) -> u16 {
    match o {
        Type2::DIR(_) => dir,
        Type2::IND(_) => ind,
        Type2::EXT(_) => ext,
    }
}

/// The opcode of an instruction in its addressing mode, as the 6809
/// datasheet lists it (a page prefix 0x10 or 0x11 in the high byte);
/// `None` for the instructions that have no encoding yet. The pseudo
/// instructions CLC, CLF, CLI, CLIF, CLV and SEC, SEF, SEI, SEIF, SEV are
/// ANDCC and ORCC with their fixed masks.
pub open spec fn datasheet_opcode(instr: Instruction) -> Option<u16> {
    match instr {
        Instruction::ABX => Some(0x3A),
        Instruction::ADCA(o) => Some(mode_opcode1(o, 0x89, 0x99, 0xA9, 0xB9)),
        Instruction::ADCB(o) => Some(mode_opcode1(o, 0xC9, 0xD9, 0xE9, 0xF9)),
        Instruction::ADDA(o) => Some(mode_opcode1(o, 0x8B, 0x9B, 0xAB, 0xBB)),
        Instruction::ADDB(o) => Some(mode_opcode1(o, 0xCB, 0xDB, 0xEB, 0xFB)),
        Instruction::ADDD(o) => Some(mode_opcode1(o, 0xC3, 0xD3, 0xE3, 0xF3)),
        Instruction::ANDA(o) => Some(mode_opcode1(o, 0x84, 0x94, 0xA4, 0xB4)),
        Instruction::ANDB(o) => Some(mode_opcode1(o, 0xC4, 0xD4, 0xE4, 0xF4)),
        Instruction::ANDCC(_) => Some(0x1C),
        Instruction::ASL(o) => Some(mode_opcode2(o, 0x08, 0x68, 0x78)),
        Instruction::ASLA => Some(0x48),
        Instruction::ASLB => Some(0x58),
        Instruction::ASR(o) => Some(mode_opcode2(o, 0x07, 0x67, 0x77)),
        Instruction::ASRA => Some(0x47),
        Instruction::ASRB => Some(0x57),
        Instruction::BITA(o) => Some(mode_opcode1(o, 0x85, 0x95, 0xA5, 0xB5)),
        Instruction::BITB(o) => Some(mode_opcode1(o, 0xC5, 0xD5, 0xE5, 0xF5)),
        Instruction::CLC => Some(0x1CFE),
        Instruction::CLF => Some(0x1CBF),
        Instruction::CLI => Some(0x1CEF),
        Instruction::CLIF => Some(0x1CAF),
        Instruction::CLR(o) => Some(mode_opcode2(o, 0x0F, 0x6F, 0x7F)),
        Instruction::CLRA => Some(0x4F),
        Instruction::CLRB => Some(0x5F),
        Instruction::CLV => Some(0x1CFD),
        Instruction::CMPA(o) => Some(mode_opcode1(o, 0x81, 0x91, 0xA1, 0xB1)),
        Instruction::CMPB(o) => Some(mode_opcode1(o, 0xC1, 0xD1, 0xE1, 0xF1)),
        Instruction::CMPD(o) => Some(mode_opcode1(o, 0x1083, 0x1093, 0x10A3, 0x10B3)),
        Instruction::CMPS(o) => Some(mode_opcode1(o, 0x118C, 0x119C, 0x11AC, 0x11BC)),
        Instruction::CMPU(o) => Some(mode_opcode1(o, 0x1183, 0x1193, 0x11A3, 0x11B3)),
        Instruction::CMPX(o) => Some(mode_opcode1(o, 0x8C, 0x9C, 0xAC, 0xBC)),
        Instruction::CMPY(o) => Some(mode_opcode1(o, 0x108C, 0x109C, 0x10AC, 0x10BC)),
        Instruction::COM(o) => Some(mode_opcode2(o, 0x03, 0x63, 0x73)),
        Instruction::COMA => Some(0x43),
        Instruction::COMB => Some(0x53),
        Instruction::CWAI(_) => Some(0x3C),
        Instruction::DAA => Some(0x19),
        Instruction::DEC(o) => Some(mode_opcode2(o, 0x0A, 0x6A, 0x7A)),
        Instruction::DECA => Some(0x4A),
        Instruction::DECB => Some(0x5A),
        Instruction::EORA(o) => Some(mode_opcode1(o, 0x88, 0x98, 0xA8, 0xB8)),
        Instruction::EORB(o) => Some(mode_opcode1(o, 0xC8, 0xD8, 0xE8, 0xF8)),
        Instruction::EXG(_) => Some(0x1E),
        Instruction::INC(o) => Some(mode_opcode2(o, 0x0C, 0x6C, 0x7C)),
        Instruction::INCA => Some(0x4C),
        Instruction::INCB => Some(0x5C),
        Instruction::LDA(o) => Some(mode_opcode1(o, 0x86, 0x96, 0xA6, 0xB6)),
        Instruction::LDB(o) => Some(mode_opcode1(o, 0xC6, 0xD6, 0xE6, 0xF6)),
        Instruction::LDD(o) => Some(mode_opcode1(o, 0xCC, 0xDC, 0xEC, 0xFC)),
        Instruction::LDS(o) => Some(mode_opcode1(o, 0x10CE, 0x10DE, 0x10EE, 0x10FE)),
        Instruction::LDU(o) => Some(mode_opcode1(o, 0xCE, 0xDE, 0xEE, 0xFE)),
        Instruction::LDX(o) => Some(mode_opcode1(o, 0x8E, 0x9E, 0xAE, 0xBE)),
        Instruction::LDY(o) => Some(mode_opcode1(o, 0x108E, 0x109E, 0x10AE, 0x10BE)),
        Instruction::LSL(o) => Some(mode_opcode2(o, 0x08, 0x68, 0x78)),
        Instruction::LSLA => Some(0x48),
        Instruction::LSLB => Some(0x58),
        Instruction::LSR(o) => Some(mode_opcode2(o, 0x04, 0x64, 0x74)),
        Instruction::LSRA => Some(0x44),
        Instruction::LSRB => Some(0x54),
        Instruction::MUL => Some(0x3D),
        Instruction::NEG(o) => Some(mode_opcode2(o, 0x00, 0x60, 0x70)),
        Instruction::NEGA => Some(0x40),
        Instruction::NEGB => Some(0x50),
        Instruction::NOP => Some(0x12),
        Instruction::ORA(o) => Some(mode_opcode1(o, 0x8A, 0x9A, 0xAA, 0xBA)),
        Instruction::ORB(o) => Some(mode_opcode1(o, 0xCA, 0xDA, 0xEA, 0xFA)),
        Instruction::ORCC(_) => Some(0x1A),
        Instruction::PSHS(_) => Some(0x34),
        Instruction::PSHU(_) => Some(0x36),
        Instruction::PULS(_) => Some(0x35),
        Instruction::PULU(_) => Some(0x37),
        Instruction::ROL(o) => Some(mode_opcode2(o, 0x09, 0x69, 0x79)),
        Instruction::ROLA => Some(0x49),
        Instruction::ROLB => Some(0x59),
        Instruction::ROR(o) => Some(mode_opcode2(o, 0x06, 0x66, 0x76)),
        Instruction::RORA => Some(0x46),
        Instruction::RORB => Some(0x56),
        Instruction::RTI => Some(0x3B),
        Instruction::RTS => Some(0x39),
        Instruction::SBCA(o) => Some(mode_opcode1(o, 0x82, 0x92, 0xA2, 0xB2)),
        Instruction::SBCB(o) => Some(mode_opcode1(o, 0xC2, 0xD2, 0xE2, 0xF2)),
        Instruction::SEC => Some(0x1A01),
        Instruction::SEF => Some(0x1A40),
        Instruction::SEI => Some(0x1A10),
        Instruction::SEIF => Some(0x1A50),
        Instruction::SEV => Some(0x1A02),
        Instruction::STA(o) => Some(mode_opcode2(o, 0x97, 0xA7, 0xB7)),
        Instruction::STB(o) => Some(mode_opcode2(o, 0xD7, 0xE7, 0xF7)),
        Instruction::STD(o) => Some(mode_opcode2(o, 0xDD, 0xED, 0xFD)),
        Instruction::STS(o) => Some(mode_opcode2(o, 0x10DF, 0x10EF, 0x10FF)),
        Instruction::STU(o) => Some(mode_opcode2(o, 0xDF, 0xEF, 0xFF)),
        Instruction::STX(o) => Some(mode_opcode2(o, 0x9F, 0xAF, 0xBF)),
        Instruction::STY(o) => Some(mode_opcode2(o, 0x109F, 0x10AF, 0x10BF)),
        Instruction::SUBA(o) => Some(mode_opcode1(o, 0x80, 0x90, 0xA0, 0xB0)),
        Instruction::SUBB(o) => Some(mode_opcode1(o, 0xC0, 0xD0, 0xE0, 0xF0)),
        Instruction::SUBD(o) => Some(mode_opcode1(o, 0x83, 0x93, 0xA3, 0xB3)),
        Instruction::SEX => Some(0x1D),
        Instruction::SWI => Some(0x3F),
        Instruction::SWI2 => Some(0x103F),
        Instruction::SWI3 => Some(0x113F),
        Instruction::SYNC => Some(0x13),
        Instruction::TFR(_) => Some(0x1F),
        Instruction::TST(o) => Some(mode_opcode2(o, 0x0D, 0x6D, 0x7D)),
        Instruction::TSTA => Some(0x4D),
        Instruction::TSTB => Some(0x5D),
        _ => None,
    }
}

/// The bytes of an opcode: the page prefix, where there is one, then the
/// opcode byte.
pub open spec fn opcode_bytes(op: u16) -> Seq<u8> {
    if op > 0xFF {
        seq![hi(op), lo(op)]
    } else {
        seq![lo(op)]
    }
}

/// The bytes that follow the opcode: the operand's bytes, the condition
/// code mask, or the register postbyte.
pub open spec fn operand_bytes(instr: Instruction) -> Seq<u8> {
    match instr {
        Instruction::ADCA(o) => spec_type1_operand(o),
        Instruction::ADCB(o) => spec_type1_operand(o),
        Instruction::ADDA(o) => spec_type1_operand(o),
        Instruction::ADDB(o) => spec_type1_operand(o),
        Instruction::ADDD(o) => spec_type1_operand(o),
        Instruction::ANDA(o) => spec_type1_operand(o),
        Instruction::ANDB(o) => spec_type1_operand(o),
        Instruction::ANDCC(o) => seq![o.mask],
        Instruction::ASL(o) => spec_type2_operand(o),
        Instruction::ASR(o) => spec_type2_operand(o),
        Instruction::BITA(o) => spec_type1_operand(o),
        Instruction::BITB(o) => spec_type1_operand(o),
        Instruction::CLR(o) => spec_type2_operand(o),
        Instruction::CMPA(o) => spec_type1_operand(o),
        Instruction::CMPB(o) => spec_type1_operand(o),
        Instruction::CMPD(o) => spec_type1_operand(o),
        Instruction::CMPS(o) => spec_type1_operand(o),
        Instruction::CMPU(o) => spec_type1_operand(o),
        Instruction::CMPX(o) => spec_type1_operand(o),
        Instruction::CMPY(o) => spec_type1_operand(o),
        Instruction::COM(o) => spec_type2_operand(o),
        Instruction::CWAI(o) => seq![o.mask],
        Instruction::DEC(o) => spec_type2_operand(o),
        Instruction::EORA(o) => spec_type1_operand(o),
        Instruction::EORB(o) => spec_type1_operand(o),
        Instruction::EXG(o) => seq![typext_postbyte(o)],
        Instruction::INC(o) => spec_type2_operand(o),
        Instruction::LDA(o) => spec_type1_operand(o),
        Instruction::LDB(o) => spec_type1_operand(o),
        Instruction::LDD(o) => spec_type1_operand(o),
        Instruction::LDS(o) => spec_type1_operand(o),
        Instruction::LDU(o) => spec_type1_operand(o),
        Instruction::LDX(o) => spec_type1_operand(o),
        Instruction::LDY(o) => spec_type1_operand(o),
        Instruction::LSL(o) => spec_type2_operand(o),
        Instruction::LSR(o) => spec_type2_operand(o),
        Instruction::NEG(o) => spec_type2_operand(o),
        Instruction::ORA(o) => spec_type1_operand(o),
        Instruction::ORB(o) => spec_type1_operand(o),
        Instruction::ORCC(o) => seq![o.mask],
        Instruction::PSHS(o) => seq![pspl_mask(o.registers)],
        Instruction::PSHU(o) => seq![pspl_mask(o.registers)],
        Instruction::PULS(o) => seq![pspl_mask(o.registers)],
        Instruction::PULU(o) => seq![pspl_mask(o.registers)],
        Instruction::ROL(o) => spec_type2_operand(o),
        Instruction::ROR(o) => spec_type2_operand(o),
        Instruction::SBCA(o) => spec_type1_operand(o),
        Instruction::SBCB(o) => spec_type1_operand(o),
        Instruction::STA(o) => spec_type2_operand(o),
        Instruction::STB(o) => spec_type2_operand(o),
        Instruction::STD(o) => spec_type2_operand(o),
        Instruction::STS(o) => spec_type2_operand(o),
        Instruction::STU(o) => spec_type2_operand(o),
        Instruction::STX(o) => spec_type2_operand(o),
        Instruction::STY(o) => spec_type2_operand(o),
        Instruction::SUBA(o) => spec_type1_operand(o),
        Instruction::SUBB(o) => spec_type1_operand(o),
        Instruction::SUBD(o) => spec_type1_operand(o),
        Instruction::TFR(o) => seq![typext_postbyte(o)],
        Instruction::TST(o) => spec_type2_operand(o),
        _ => seq![],
    }
}

proof fn lemma_mode_bits(b: u8)
    by (bit_vector)
    ensures
        b | 0x00u8 == b,
        b % 64 < 16 ==> b | 0x10u8 == b + 0x10 && b | 0x20u8 == b + 0x20 && b | 0x30u8 == b + 0x30,
        b < 16 ==> b | 0x60u8 == b + 0x60 && b | 0x70u8 == b + 0x70,
{
}

/// Every instruction is encoded with its datasheet opcode for its
/// addressing mode, followed by its operand bytes; an instruction has an
/// encoding exactly where the table lists an opcode.
pub proof fn law_datasheet_opcodes(instr: Instruction)
    ensures
        spec_encode_instruction(instr) == match datasheet_opcode(instr) {
            Some(op) => Some(opcode_bytes(op) + operand_bytes(instr)),
            None => None::<Seq<u8>>,
        },
{
    match instr {
        Instruction::ADCA(_) => lemma_mode_bits(lo(0x89)),
        Instruction::ADCB(_) => lemma_mode_bits(lo(0xC9)),
        Instruction::ADDA(_) => lemma_mode_bits(lo(0x8B)),
        Instruction::ADDB(_) => lemma_mode_bits(lo(0xCB)),
        Instruction::ADDD(_) => lemma_mode_bits(lo(0xC3)),
        Instruction::ANDA(_) => lemma_mode_bits(lo(0x84)),
        Instruction::ANDB(_) => lemma_mode_bits(lo(0xC4)),
        Instruction::ASL(_) => lemma_mode_bits(lo(0x08)),
        Instruction::ASR(_) => lemma_mode_bits(lo(0x07)),
        Instruction::BITA(_) => lemma_mode_bits(lo(0x85)),
        Instruction::BITB(_) => lemma_mode_bits(lo(0xC5)),
        Instruction::CLR(_) => lemma_mode_bits(lo(0x0F)),
        Instruction::CMPA(_) => lemma_mode_bits(lo(0x81)),
        Instruction::CMPB(_) => lemma_mode_bits(lo(0xC1)),
        Instruction::CMPD(_) => lemma_mode_bits(lo(0x1083)),
        Instruction::CMPS(_) => lemma_mode_bits(lo(0x118C)),
        Instruction::CMPU(_) => lemma_mode_bits(lo(0x1183)),
        Instruction::CMPX(_) => lemma_mode_bits(lo(0x8C)),
        Instruction::CMPY(_) => lemma_mode_bits(lo(0x108C)),
        Instruction::COM(_) => lemma_mode_bits(lo(0x03)),
        Instruction::DEC(_) => lemma_mode_bits(lo(0x0A)),
        Instruction::EORA(_) => lemma_mode_bits(lo(0x88)),
        Instruction::EORB(_) => lemma_mode_bits(lo(0xC8)),
        Instruction::INC(_) => lemma_mode_bits(lo(0x0C)),
        Instruction::LDA(_) => lemma_mode_bits(lo(0x86)),
        Instruction::LDB(_) => lemma_mode_bits(lo(0xC6)),
        Instruction::LDD(_) => lemma_mode_bits(lo(0xCC)),
        Instruction::LDS(_) => lemma_mode_bits(lo(0x10CE)),
        Instruction::LDU(_) => lemma_mode_bits(lo(0xCE)),
        Instruction::LDX(_) => lemma_mode_bits(lo(0x8E)),
        Instruction::LDY(_) => lemma_mode_bits(lo(0x108E)),
        Instruction::LSL(_) => lemma_mode_bits(lo(0x08)),
        Instruction::LSR(_) => lemma_mode_bits(lo(0x04)),
        Instruction::NEG(_) => lemma_mode_bits(lo(0x00)),
        Instruction::ORA(_) => lemma_mode_bits(lo(0x8A)),
        Instruction::ORB(_) => lemma_mode_bits(lo(0xCA)),
        Instruction::ROL(_) => lemma_mode_bits(lo(0x09)),
        Instruction::ROR(_) => lemma_mode_bits(lo(0x06)),
        Instruction::SBCA(_) => lemma_mode_bits(lo(0x82)),
        Instruction::SBCB(_) => lemma_mode_bits(lo(0xC2)),
        Instruction::SUBA(_) => lemma_mode_bits(lo(0x80)),
        Instruction::SUBB(_) => lemma_mode_bits(lo(0xC0)),
        Instruction::SUBD(_) => lemma_mode_bits(lo(0x83)),
        Instruction::TST(_) => lemma_mode_bits(lo(0x0D)),
        _ => {},
    }
}


/// The index register that bits 5 and 6 of a postbyte select.
pub open spec fn postbyte_register(b: u8) -> IndexRegister {
    let n = (b >> 5u8) & 3u8;
    if n == 0 {
        IndexRegister::X
    } else if n == 1 {
        IndexRegister::Y
    } else if n == 2 {
        IndexRegister::U
    } else {
        IndexRegister::S
    }
}

/// A byte read as a two's complement number.
pub open spec fn signed8(v: u8) -> int {
    if v >= 0x80 {
        v - 0x100
    } else {
        v as int
    }
}

/// A byte widened to a word with its sign bit copied into the high byte.
pub open spec fn sign_extend(v: u8) -> u16 {
    if v >= 0x80 {
        (0xFF00 + v) as u16
    } else {
        v as u16
    }
}

/// The operand that an indexed postbyte and the bytes after it stand for,
/// read as the 6809 datasheet lays the postbyte out: bits 5 and 6 select
/// the index register; with bit 7 clear the low five bits are a signed
/// offset; with bit 7 set the low five bits (bit 4 for indirect) give the
/// mode: 0 `,R+`, 1 `,R++`, 2 `,-R`, 3 `,--R`, 4 no offset, 5 B offset,
/// 6 A offset, 8 and 9 an 8- and 16-bit offset, 0xB D offset, 0xC and 0xD
/// an 8- and 16-bit offset from PC, 0x1F extended indirect. `None` where
/// the bytes are no operand.
pub open spec fn decode_indexed(e: Seq<u8>) -> Option<IndexedIndirect> {
    if e.len() == 0 {
        None
    } else {
        let b = e[0];
        let reg = postbyte_register(b);
        let m = b & 0x9Fu8;
        let n = e.len();
        let word: int = if n == 3 { e[1] as int * 256 + e[2] as int } else { 0 };
        if m < 0x80 && n == 1 {
            Some(IndexedIndirect::Const { offset: (if m >= 0x10 { m - 0x20 } else { m as int }) as i16, reg })
        } else if m == 0x80 && n == 1 {
            Some(IndexedIndirect::Inc1 { reg })
        } else if m == 0x81 && n == 1 {
            Some(IndexedIndirect::Inc2 { reg })
        } else if m == 0x91 && n == 1 {
            Some(IndexedIndirect::Inc2Ind { reg })
        } else if m == 0x82 && n == 1 {
            Some(IndexedIndirect::Dec1 { reg })
        } else if m == 0x83 && n == 1 {
            Some(IndexedIndirect::Dec2 { reg })
        } else if m == 0x93 && n == 1 {
            Some(IndexedIndirect::Dec2Ind { reg })
        } else if m == 0x84 && n == 1 {
            Some(IndexedIndirect::Const { offset: 0, reg })
        } else if m == 0x94 && n == 1 {
            Some(IndexedIndirect::ConstInd { offset: 0, reg })
        } else if m == 0x85 && n == 1 {
            Some(IndexedIndirect::Acc { offset: AccOffsetRegister::B, reg })
        } else if m == 0x95 && n == 1 {
            Some(IndexedIndirect::AccInd { offset: AccOffsetRegister::B, reg })
        } else if m == 0x86 && n == 1 {
            Some(IndexedIndirect::Acc { offset: AccOffsetRegister::A, reg })
        } else if m == 0x96 && n == 1 {
            Some(IndexedIndirect::AccInd { offset: AccOffsetRegister::A, reg })
        } else if m == 0x8B && n == 1 {
            Some(IndexedIndirect::Acc { offset: AccOffsetRegister::D, reg })
        } else if m == 0x9B && n == 1 {
            Some(IndexedIndirect::AccInd { offset: AccOffsetRegister::D, reg })
        } else if m == 0x88 && n == 2 {
            Some(IndexedIndirect::Const { offset: signed8(e[1]) as i16, reg })
        } else if m == 0x98 && n == 2 {
            Some(IndexedIndirect::ConstInd { offset: signed8(e[1]) as i16, reg })
        } else if m == 0x89 && n == 3 {
            Some(IndexedIndirect::Const { offset: signed16(word) as i16, reg })
        } else if m == 0x99 && n == 3 {
            Some(IndexedIndirect::ConstInd { offset: signed16(word) as i16, reg })
        } else if m == 0x8C && n == 2 {
            Some(IndexedIndirect::Pc { offset: sign_extend(e[1]) })
        } else if m == 0x9C && n == 2 {
            Some(IndexedIndirect::PcInd { offset: sign_extend(e[1]) })
        } else if m == 0x8D && n == 3 {
            Some(IndexedIndirect::Pc { offset: word as u16 })
        } else if m == 0x9D && n == 3 {
            Some(IndexedIndirect::PcInd { offset: word as u16 })
        } else if m == 0x9F && n == 3 {
            Some(IndexedIndirect::ExtInd(word as u16))
        } else {
            None
        }
    }
}

/// An operand as the postbyte tells it: a PC-relative operand given by its
/// target is the one given by its offset, which is encoded the same way.
pub open spec fn plain_operand(x: IndexedIndirect) -> IndexedIndirect {
    match x {
        IndexedIndirect::Pcr { target } => IndexedIndirect::Pc { offset: target },
        IndexedIndirect::PcrInd { target } => IndexedIndirect::PcInd { offset: target },
        _ => x,
    }
}

proof fn lemma_postbyte_bits(c: u8, r: u8)
    by (bit_vector)
    requires
        c < 0x20 || (0x80 <= c && c < 0xA0),
        r == 0 || r == 0x20 || r == 0x40 || r == 0x60,
    ensures
        c & 0x9Fu8 == c,
        (c | r) & 0x9Fu8 == c,
        (r | c) & 0x9Fu8 == c,
        ((c | r) >> 5u8) & 3u8 == r / 32,
        ((r | c) >> 5u8) & 3u8 == r / 32,
{
}

/// The encoding of an indexed operand gives the operand back: reading the
/// postbyte and the bytes after it as the datasheet lays them out yields
/// the operand (a PC-relative one by its offset).
pub proof fn law_indexed_decodes(x: IndexedIndirect)
    ensures
        decode_indexed(spec_encode_indexed(x)) == Some(plain_operand(x)),
{
    let e = spec_encode_indexed(x);
    match x {
        IndexedIndirect::Const { offset, reg } => {
            lemma_offset_word(offset);
            let c: u8 = if offset == 0 {
                0x84
            } else if 1 <= offset <= 7 {
                offset as u8
            } else if 8 <= offset <= 15 {
                0x88
            } else {
                0x89
            };
            lemma_postbyte_bits(c, reg_bits(reg));
            assert(decode_indexed(e) == Some(plain_operand(x)));
        },
        IndexedIndirect::ConstInd { offset, reg } => {
            lemma_offset_word(offset);
            let c: u8 = if offset == 0 {
                0x94
            } else if 8 <= offset <= 15 {
                0x98
            } else {
                0x99
            };
            lemma_postbyte_bits(c, reg_bits(reg));
            assert(decode_indexed(e) == Some(plain_operand(x)));
        },
        IndexedIndirect::Acc { offset, reg } => {
            lemma_postbyte_bits(0x86, reg_bits(reg));
            lemma_postbyte_bits(0x85, reg_bits(reg));
            lemma_postbyte_bits(0x8B, reg_bits(reg));
            assert(decode_indexed(e) == Some(plain_operand(x)));
        },
        IndexedIndirect::AccInd { offset, reg } => {
            lemma_postbyte_bits(0x96, reg_bits(reg));
            lemma_postbyte_bits(0x95, reg_bits(reg));
            lemma_postbyte_bits(0x9B, reg_bits(reg));
            assert(decode_indexed(e) == Some(plain_operand(x)));
        },
        IndexedIndirect::Inc1 { reg } => {
            lemma_postbyte_bits(0x80, reg_bits(reg));
            assert(decode_indexed(e) == Some(plain_operand(x)));
        },
        IndexedIndirect::Inc2 { reg } => {
            lemma_postbyte_bits(0x81, reg_bits(reg));
            assert(decode_indexed(e) == Some(plain_operand(x)));
        },
        IndexedIndirect::Inc2Ind { reg } => {
            lemma_postbyte_bits(0x91, reg_bits(reg));
            assert(decode_indexed(e) == Some(plain_operand(x)));
        },
        IndexedIndirect::Dec1 { reg } => {
            lemma_postbyte_bits(0x82, reg_bits(reg));
            assert(decode_indexed(e) == Some(plain_operand(x)));
        },
        IndexedIndirect::Dec2 { reg } => {
            lemma_postbyte_bits(0x83, reg_bits(reg));
            assert(decode_indexed(e) == Some(plain_operand(x)));
        },
        IndexedIndirect::Dec2Ind { reg } => {
            lemma_postbyte_bits(0x93, reg_bits(reg));
            assert(decode_indexed(e) == Some(plain_operand(x)));
        },
        IndexedIndirect::Pcr { target: v } | IndexedIndirect::Pc { offset: v } => {
            lemma_postbyte_bits(0x8C, 0);
            lemma_postbyte_bits(0x8D, 0);
            assert(decode_indexed(e) == Some(plain_operand(x)));
        },
        IndexedIndirect::PcrInd { target: v } | IndexedIndirect::PcInd { offset: v } => {
            lemma_postbyte_bits(0x9C, 0);
            lemma_postbyte_bits(0x9D, 0);
            assert(decode_indexed(e) == Some(plain_operand(x)));
        },
        IndexedIndirect::ExtInd(a) => {
            lemma_postbyte_bits(0x9F, 0);
            assert(decode_indexed(e) == Some(plain_operand(x)));
        },
    }
}

/// Distinct indexed operands encode to distinct bytes, but for a
/// PC-relative operand given by its target and the same one given by its
/// offset.
pub proof fn law_indexed_injective(x: IndexedIndirect, y: IndexedIndirect)
    requires
        spec_encode_indexed(x) == spec_encode_indexed(y),
    ensures
        plain_operand(x) == plain_operand(y),
{
    law_indexed_decodes(x);
    law_indexed_decodes(y);
}

} // verus!
