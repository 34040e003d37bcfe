use assassin::generation::{encode_indexed_indirect, encode_instruction, is_encodable};
use assassin::representation::{
    gen_bytes, AccOffsetRegister, IndexRegister, IndexedIndirect, Instruction, PushPullRegister, RegisterSet,
    TfrExgRegister16, TfrExgRegister8, Type1, Type2, Typecc, Typepspl, Typext,
};

fn regs(list: &[PushPullRegister]) -> RegisterSet {
    let mut s = RegisterSet::new();
    for r in list {
        s.insert(*r);
    }
    s
}

#[test]
fn inherent_instructions() {
    assert_eq!(encode_instruction(&Instruction::ABX), vec![0x3A]);
    assert_eq!(encode_instruction(&Instruction::NOP), vec![0x12]);
    assert_eq!(encode_instruction(&Instruction::SWI2), vec![0x10, 0x3F]);
    assert_eq!(encode_instruction(&Instruction::SWI3), vec![0x11, 0x3F]);
    assert_eq!(encode_instruction(&Instruction::CLC), vec![0x1C, 0xFE]);
    assert_eq!(encode_instruction(&Instruction::SEI), vec![0x1A, 0x10]);
    assert_eq!(encode_instruction(&Instruction::ASLA), encode_instruction(&Instruction::LSLA));
}

#[test]
fn immediate_and_memory_modes() {
    assert_eq!(encode_instruction(&Instruction::LDA(Type1::IMM(0x10))), vec![0x86, 0x10]);
    assert_eq!(encode_instruction(&Instruction::LDA(Type1::DIR(0x20))), vec![0x96, 0x20]);
    assert_eq!(encode_instruction(&Instruction::LDA(Type1::EXT(0x1234))), vec![0xB6, 0x12, 0x34]);
    assert_eq!(
        encode_instruction(&Instruction::LDA(Type1::IND(IndexedIndirect::Const { offset: 5, reg: IndexRegister::X }))),
        vec![0xA6, 0x05]
    );
    assert_eq!(encode_instruction(&Instruction::LDD(Type1::IMM(0x1234))), vec![0xCC, 0x12, 0x34]);
    assert_eq!(encode_instruction(&Instruction::CMPY(Type1::IMM(1))), vec![0x10, 0x8C, 0x00, 0x01]);
    assert_eq!(encode_instruction(&Instruction::CMPD(Type1::EXT(0x1234))), vec![0x10, 0xB3, 0x12, 0x34]);
    assert_eq!(
        encode_instruction(&Instruction::LDS(Type1::IND(IndexedIndirect::ExtInd(0x1234)))),
        vec![0x10, 0xEE, 0x9F, 0x12, 0x34]
    );
}

#[test]
fn memory_only_modes() {
    assert_eq!(encode_instruction(&Instruction::STA(Type2::DIR(0x10))), vec![0x97, 0x10]);
    assert_eq!(encode_instruction(&Instruction::STA(Type2::EXT(0x1234))), vec![0xB7, 0x12, 0x34]);
    assert_eq!(
        encode_instruction(&Instruction::STA(Type2::IND(IndexedIndirect::Inc1 { reg: IndexRegister::X }))),
        vec![0xA7, 0x80]
    );
    assert_eq!(
        encode_instruction(&Instruction::CLR(Type2::IND(IndexedIndirect::Inc1 { reg: IndexRegister::Y }))),
        vec![0x6F, 0xA0]
    );
    assert_eq!(encode_instruction(&Instruction::STS(Type2::EXT(0x1234))), vec![0x10, 0xFF, 0x12, 0x34]);
    assert_eq!(encode_instruction(&Instruction::STS(Type2::DIR(0x12))), vec![0x10, 0xDF, 0x12]);
    assert_eq!(encode_instruction(&Instruction::STB(Type2::EXT(0x0102))), vec![0xF7, 0x01, 0x02]);
    assert_eq!(encode_instruction(&Instruction::STD(Type2::EXT(0x0102))), vec![0xFD, 0x01, 0x02]);
    assert_eq!(encode_instruction(&Instruction::STU(Type2::DIR(0x05))), vec![0xDF, 0x05]);
    assert_eq!(encode_instruction(&Instruction::STX(Type2::EXT(0x0102))), vec![0xBF, 0x01, 0x02]);
    assert_eq!(
        encode_instruction(&Instruction::STY(Type2::IND(IndexedIndirect::Dec1 { reg: IndexRegister::Y }))),
        vec![0x10, 0xAF, 0xA2]
    );
    assert_eq!(encode_instruction(&Instruction::NEG(Type2::DIR(0x01))), vec![0x00, 0x01]);
}

#[test]
fn condition_code_and_register_operands() {
    assert_eq!(encode_instruction(&Instruction::ANDCC(Typecc { mask: 0xFE })), vec![0x1C, 0xFE]);
    assert_eq!(encode_instruction(&Instruction::CWAI(Typecc { mask: 0xEF })), vec![0x3C, 0xEF]);
    assert_eq!(
        encode_instruction(&Instruction::TFR(Typext::from_tfr_exg_registers8(TfrExgRegister8::A, TfrExgRegister8::B))),
        vec![0x1F, 0x89]
    );
    assert_eq!(
        encode_instruction(&Instruction::EXG(Typext::from_tfr_exg_registers16(TfrExgRegister16::X, TfrExgRegister16::Y))),
        vec![0x1E, 0x12]
    );
    assert_eq!(
        encode_instruction(&Instruction::TFR(Typext::WORD(TfrExgRegister16::D, TfrExgRegister16::PC))),
        vec![0x1F, 0x05]
    );
    assert_eq!(
        encode_instruction(&Instruction::EXG(Typext::BYTE(TfrExgRegister8::CC, TfrExgRegister8::DP))),
        vec![0x1E, 0xAB]
    );
}

#[test]
fn push_pull_masks() {
    let abx = regs(&[PushPullRegister::A, PushPullRegister::B, PushPullRegister::X]);
    assert_eq!(encode_instruction(&Instruction::PSHS(Typepspl { registers: abx })), vec![0x34, 0x16]);
    let ccpcus = regs(&[PushPullRegister::CC, PushPullRegister::PC, PushPullRegister::US]);
    assert_eq!(encode_instruction(&Instruction::PULU(Typepspl { registers: ccpcus })), vec![0x37, 0xC1]);
    let all = regs(&[
        PushPullRegister::A,
        PushPullRegister::B,
        PushPullRegister::X,
        PushPullRegister::Y,
        PushPullRegister::US,
        PushPullRegister::PC,
        PushPullRegister::CC,
        PushPullRegister::DP,
    ]);
    assert_eq!(encode_instruction(&Instruction::PSHU(Typepspl { registers: all })), vec![0x36, 0xFF]);
    assert_eq!(encode_instruction(&Instruction::PULS(Typepspl { registers: RegisterSet::new() })), vec![0x35, 0x00]);
}

fn lda_indexed(x: IndexedIndirect) -> Vec<u8> {
    encode_instruction(&Instruction::LDA(Type1::IND(x)))
}

#[test]
fn indexed_postbytes() {
    assert_eq!(lda_indexed(IndexedIndirect::Const { offset: 0, reg: IndexRegister::Y }), vec![0xA6, 0xA4]);
    assert_eq!(lda_indexed(IndexedIndirect::Const { offset: 7, reg: IndexRegister::S }), vec![0xA6, 0x67]);
    assert_eq!(lda_indexed(IndexedIndirect::Const { offset: 10, reg: IndexRegister::U }), vec![0xA6, 0xC8, 0x0A]);
    assert_eq!(lda_indexed(IndexedIndirect::Const { offset: 300, reg: IndexRegister::S }), vec![0xA6, 0xE9, 0x01, 0x2C]);
    assert_eq!(lda_indexed(IndexedIndirect::Const { offset: -1, reg: IndexRegister::X }), vec![0xA6, 0x89, 0xFF, 0xFF]);
    assert_eq!(lda_indexed(IndexedIndirect::ConstInd { offset: 0, reg: IndexRegister::X }), vec![0xA6, 0x94]);
    assert_eq!(lda_indexed(IndexedIndirect::ConstInd { offset: 9, reg: IndexRegister::Y }), vec![0xA6, 0xB8, 0x09]);
    assert_eq!(lda_indexed(IndexedIndirect::ConstInd { offset: 5, reg: IndexRegister::X }), vec![0xA6, 0x99, 0x00, 0x05]);
    assert_eq!(lda_indexed(IndexedIndirect::Acc { offset: AccOffsetRegister::B, reg: IndexRegister::Y }), vec![0xA6, 0xA5]);
    assert_eq!(lda_indexed(IndexedIndirect::AccInd { offset: AccOffsetRegister::D, reg: IndexRegister::S }), vec![0xA6, 0xFB]);
    assert_eq!(lda_indexed(IndexedIndirect::Inc2 { reg: IndexRegister::X }), vec![0xA6, 0x81]);
    assert_eq!(lda_indexed(IndexedIndirect::Inc2Ind { reg: IndexRegister::U }), vec![0xA6, 0xD1]);
    assert_eq!(lda_indexed(IndexedIndirect::Dec1 { reg: IndexRegister::X }), vec![0xA6, 0x82]);
    assert_eq!(lda_indexed(IndexedIndirect::Dec2 { reg: IndexRegister::Y }), vec![0xA6, 0xA3]);
    assert_eq!(lda_indexed(IndexedIndirect::Dec2Ind { reg: IndexRegister::U }), vec![0xA6, 0xD3]);
    assert_eq!(lda_indexed(IndexedIndirect::Pcr { target: 5 }), vec![0xA6, 0x8C, 0x05]);
    assert_eq!(lda_indexed(IndexedIndirect::Pcr { target: 0xFFF0 }), vec![0xA6, 0x8C, 0xF0]);
    assert_eq!(lda_indexed(IndexedIndirect::Pcr { target: 0x1234 }), vec![0xA6, 0x8D, 0x12, 0x34]);
    assert_eq!(lda_indexed(IndexedIndirect::PcrInd { target: 0x7F }), vec![0xA6, 0x9C, 0x7F]);
    assert_eq!(lda_indexed(IndexedIndirect::Pc { offset: 0xFF80 }), vec![0xA6, 0x8C, 0x80]);
    assert_eq!(lda_indexed(IndexedIndirect::PcInd { offset: 0x80 }), vec![0xA6, 0x9D, 0x00, 0x80]);
    assert_eq!(lda_indexed(IndexedIndirect::ExtInd(0xBEEF)), vec![0xA6, 0x9F, 0xBE, 0xEF]);
}

#[test]
fn big_endian_bytes() {
    assert_eq!(gen_bytes(0x1234u16), vec![0x12, 0x34]);
    assert_eq!(gen_bytes(0x00FFu16), vec![0x00, 0xFF]);
    assert_eq!(gen_bytes(7u8), vec![7]);
}

#[test]
fn postbyte_law_examples() {
    // Each register set gives its own PSH/PUL postbyte, and each register
    // pair its own TFR/EXG postbyte.
    let x = regs(&[PushPullRegister::X]);
    assert_eq!(encode_instruction(&Instruction::PSHS(Typepspl { registers: x }))[1] & 0x10, 0x10);
    assert_eq!(encode_instruction(&Instruction::PSHS(Typepspl { registers: x }))[1] & 0x20, 0x00);
    let ab = encode_instruction(&Instruction::TFR(Typext::BYTE(TfrExgRegister8::A, TfrExgRegister8::B)));
    let ba = encode_instruction(&Instruction::TFR(Typext::BYTE(TfrExgRegister8::B, TfrExgRegister8::A)));
    assert_ne!(ab, ba);
    assert_eq!(ab[1] >> 4, 8);
    assert_eq!(ab[1] & 0x0F, 9);
}

#[test]
fn indexed_operand_converts_to_memory_operand() {
    let x = IndexedIndirect::Inc1 { reg: IndexRegister::X };
    assert_eq!(Type2::from(x), Type2::IND(x));
}

#[test]
fn register_set_insert_reports_duplicates() {
    let mut s = RegisterSet::new();
    assert!(s.insert(PushPullRegister::A));
    assert!(!s.insert(PushPullRegister::A));
    assert!(s.contains(PushPullRegister::A));
    assert!(!s.contains(PushPullRegister::B));
}

#[test]
fn push_pull_operand_derefs_to_its_register_set() {
    let t = Typepspl { registers: regs(&[PushPullRegister::DP]) };
    assert!(t.contains(PushPullRegister::DP));
    assert!(!t.contains(PushPullRegister::PC));
}

#[test]
fn encodings_are_one_to_five_bytes() {
    let samples = vec![
        Instruction::RTS,
        Instruction::SWI3,
        Instruction::LDA(Type1::IMM(1)),
        Instruction::LDY(Type1::IMM(0xFFFF)),
        Instruction::CMPS(Type1::IND(IndexedIndirect::Const { offset: -300, reg: IndexRegister::U })),
        Instruction::STY(Type2::IND(IndexedIndirect::PcrInd { target: 0x4000 })),
        Instruction::ORCC(Typecc { mask: 0x50 }),
    ];
    let lengths: Vec<usize> = samples.iter().map(|i| encode_instruction(i).len()).collect();
    assert_eq!(lengths, vec![1, 2, 2, 4, 5, 5, 2]);
}

#[test]
fn memory_modes_have_their_own_opcodes() {
    let modes = [Type2::DIR(1), Type2::EXT(1), Type2::IND(IndexedIndirect::Inc1 { reg: IndexRegister::X })];
    let ops: Vec<u8> = modes.iter().map(|m| encode_instruction(&Instruction::STA(*m))[0]).collect();
    assert_eq!(ops, vec![0x97, 0xB7, 0xA7]);
    let ops: Vec<u8> = modes.iter().map(|m| encode_instruction(&Instruction::INC(*m))[0]).collect();
    assert_eq!(ops, vec![0x0C, 0x7C, 0x6C]);
    let ops: Vec<u8> = modes.iter().map(|m| encode_instruction(&Instruction::STY(*m))[1]).collect();
    assert_eq!(ops, vec![0x9F, 0xBF, 0xAF]);
}

#[test]
fn no_offset_differs_from_auto_increment() {
    assert_ne!(
        lda_indexed(IndexedIndirect::Const { offset: 0, reg: IndexRegister::X }),
        lda_indexed(IndexedIndirect::Inc1 { reg: IndexRegister::X })
    );
    assert_eq!(lda_indexed(IndexedIndirect::Const { offset: 0, reg: IndexRegister::X }), vec![0xA6, 0x84]);
}

#[test]
fn constant_offset_postbyte_gives_back_register_and_offset() {
    let e = lda_indexed(IndexedIndirect::Const { offset: -300, reg: IndexRegister::U });
    assert_eq!((e[1] >> 5) & 3, 2);
    assert_eq!(i16::from_be_bytes([e[2], e[3]]), -300);
    let e = lda_indexed(IndexedIndirect::Const { offset: 6, reg: IndexRegister::S });
    assert_eq!((e[1] >> 5) & 3, 3);
    assert_eq!(e[1] & 0x1F, 6);
}

#[test]
fn which_instructions_encode() {
    assert!(is_encodable(&Instruction::ABX));
    assert!(is_encodable(&Instruction::STA(Type2::DIR(0))));
    assert!(!is_encodable(&Instruction::JMP(Type2::DIR(0))));
    assert!(!is_encodable(&Instruction::BRA(assassin::representation::Typebr::SHORT(1))));
}

#[test]
fn indexed_operand_bytes() {
    assert_eq!(encode_indexed_indirect(&IndexedIndirect::Const { offset: 0, reg: IndexRegister::S }), vec![0xE4]);
    assert_eq!(encode_indexed_indirect(&IndexedIndirect::Const { offset: 12, reg: IndexRegister::X }), vec![0x88, 0x0C]);
    assert_eq!(
        encode_indexed_indirect(&IndexedIndirect::ConstInd { offset: -2, reg: IndexRegister::Y }),
        vec![0xB9, 0xFF, 0xFE]
    );
    let e = encode_indexed_indirect(&IndexedIndirect::ConstInd { offset: -2, reg: IndexRegister::Y });
    assert_eq!((e[0] >> 5) & 3, 1);
    assert_eq!(i16::from_be_bytes([e[1], e[2]]), -2);
}
