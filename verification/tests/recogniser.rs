use assassin::parser::{tokenize, Token};
use assassin::recogniser::Recogniser;
use assassin::representation::{
    Data, Directive, Element, Instruction, Line, PushPullRegister, RegisterSet, TfrExgRegister16,
    TfrExgRegister8, Type1, Type2, Typebr, Typecc, Typepspl, Typext,
};

fn line(r: &mut Recogniser, src: &str) -> Result<Line, String> {
    let tokens = tokenize(src);
    r.recognise_line(&tokens)
}

fn element(src: &str) -> Result<Element, String> {
    let mut r = Recogniser::new();
    line(&mut r, src).map(|l| l.element)
}

fn inst(i: Instruction) -> Result<Element, String> {
    Ok(Element::Inst(i))
}

fn err(m: &str) -> Result<Element, String> {
    Err(m.to_string())
}

#[test]
fn inherent_instruction() {
    assert_eq!(element("  ABX"), inst(Instruction::ABX));
    assert_eq!(element("  swi2"), inst(Instruction::SWI2));
}

#[test]
fn labelled_line_binds_the_label() {
    let mut r = Recogniser::new();
    let l = line(&mut r, "loop: LDA #5 ; count").unwrap();
    assert_eq!(l.element, Element::Inst(Instruction::LDA(Type1::IMM(5))));
    assert_eq!(l.comment, Some(" count".to_string()));
    assert_eq!(r.get("loop"), Some(&0));
    assert_eq!(r.get("count"), None);
}

#[test]
fn label_is_bound_even_when_the_line_fails() {
    let mut r = Recogniser::new();
    assert_eq!(line(&mut r, "here: FOO"), Err("unknown mnemonic".to_string()));
    assert_eq!(r.get("here"), Some(&0));
}

#[test]
fn label_alone_and_blank_lines() {
    let mut r = Recogniser::new();
    let l = line(&mut r, "alone:").unwrap();
    assert_eq!(l.element, Element::Directive(Directive::BLANK));
    assert_eq!(r.get("alone"), Some(&0));
    let l = line(&mut r, "").unwrap();
    assert_eq!(l.element, Element::Directive(Directive::BLANK));
    assert_eq!(l.comment, None);
    let l = line(&mut r, "; just a comment").unwrap();
    assert_eq!(l.element, Element::Directive(Directive::BLANK));
    assert_eq!(l.comment, Some(" just a comment".to_string()));
}

#[test]
fn indented_blank_and_comment_lines_are_blank() {
    let mut r = Recogniser::new();
    let l = line(&mut r, "  ").unwrap();
    assert_eq!(l.element, Element::Directive(Directive::BLANK));
    let l = line(&mut r, "   ; note").unwrap();
    assert_eq!(l.element, Element::Directive(Directive::BLANK));
    assert_eq!(l.comment, Some(" note".to_string()));
    let tokens = vec![Token::Empty, Token::Comment(" c".to_string())];
    assert_eq!(r.recognise(&tokens, 2), Ok(None));
    assert_eq!(r.get("c"), None);
}

#[test]
fn comment_in_place_of_a_mnemonic_is_an_error() {
    let mut r = Recogniser::new();
    let tokens = vec![
        Token::Name("here".to_string()),
        Token::Colon,
        Token::Comment(" a".to_string()),
        Token::Comment(" b".to_string()),
    ];
    assert_eq!(r.recognise_line(&tokens), Err("Unexpected token".to_string()));
    assert_eq!(r.get("here"), Some(&0));
}

#[test]
fn recognise_binds_a_label_before_an_error() {
    let mut r = Recogniser::new();
    let tokens = vec![Token::Name("top".to_string()), Token::Colon, Token::Hash];
    assert_eq!(r.recognise(&tokens, 3), Err("Unexpected token".to_string()));
    assert_eq!(r.get("top"), Some(&0));
}

#[test]
fn immediate_and_memory_operands() {
    assert_eq!(element("  lda <$10"), inst(Instruction::LDA(Type1::DIR(0x10))));
    assert_eq!(element("  LDD #$1234"), inst(Instruction::LDD(Type1::IMM(0x1234))));
    assert_eq!(element("  LDX >$1234"), inst(Instruction::LDX(Type1::EXT(0x1234))));
    assert_eq!(element("  CMPA 300"), inst(Instruction::CMPA(Type1::EXT(300))));
    assert_eq!(element("  STA >$1234"), inst(Instruction::STA(Type2::EXT(0x1234))));
    assert_eq!(element("  STA 1234"), inst(Instruction::STA(Type2::EXT(1234))));
    assert_eq!(element("  CLR <0"), inst(Instruction::CLR(Type2::DIR(0))));
}

#[test]
fn operand_errors() {
    assert_eq!(element("  LDA #256"), err("Immediate value not valid for Type1 operand type"));
    assert_eq!(element("  LDA #"), err("Expected unsigned value after # in immediate operand"));
    assert_eq!(element("  LDA"), err("Expected immediate or memory operand"));
    assert_eq!(element("  STA"), err("Expected memory operand"));
    assert_eq!(element("  STA <300"), err("Direct page address too large for 8-bit offset"));
    assert_eq!(element("  STA <x"), err("Expected unsigned value after < in memory operand"));
    assert_eq!(element("  STA >"), err("Expected unsigned value after > in memory operand"));
    assert_eq!(element("  STA label"), err("unexpected memory operand"));
}

#[test]
fn bracket_operand_is_refused() {
    let mut r = Recogniser::new();
    let tokens = vec![Token::Empty, Token::Name("LDA".to_string()), Token::OpenBracket];
    assert_eq!(r.recognise_line(&tokens), Err("Expected ] at end of indexed indirect operand".to_string()));
}

#[test]
fn push_pull_lists() {
    let mut abx = RegisterSet::new();
    abx.insert(PushPullRegister::A);
    abx.insert(PushPullRegister::B);
    abx.insert(PushPullRegister::X);
    assert_eq!(element("  PSHS A,B,X"), inst(Instruction::PSHS(Typepspl { registers: abx })));
    let mut us = RegisterSet::new();
    us.insert(PushPullRegister::US);
    assert_eq!(element("  PSHS u"), inst(Instruction::PSHS(Typepspl { registers: us })));
    assert_eq!(element("  PULU S"), inst(Instruction::PULU(Typepspl { registers: us })));
}

#[test]
fn push_pull_errors() {
    assert_eq!(element("  PSHS A,A"), err("Duplicate register in PSH/PUL: A"));
    assert_eq!(element("  PSHS A B"), err("Unexpected token(s) at end of line"));
    assert_eq!(element("  PSHU U"), err("Can't push/pull U register on U stack"));
    assert_eq!(element("  PULS S"), err("Can't push/pull S register on S stack"));
    assert_eq!(element("  PSHS Q"), err("Invalid PSH/PUL register: Q"));
    assert_eq!(element("  PSHS A,"), err("Expected register name after comma in PSH/PUL"));
    assert_eq!(element("  PSHS"), err("Expected register name in PSH/PUL"));
}

#[test]
fn transfer_exchange() {
    assert_eq!(element("  TFR A,B"), inst(Instruction::TFR(Typext::BYTE(TfrExgRegister8::A, TfrExgRegister8::B))));
    assert_eq!(element("  EXG x,y"), inst(Instruction::EXG(Typext::WORD(TfrExgRegister16::X, TfrExgRegister16::Y))));
    assert_eq!(element("  TFR A,X"), err("Invalid TFR/EXG register: X"));
    assert_eq!(element("  TFR Q,X"), err("Invalid TFR/EXG source register: Q"));
    assert_eq!(element("  TFR A"), err("Expected comma after source register in TFR/EXG"));
    assert_eq!(element("  TFR A,"), err("Expected destination register after comma in TFR/EXG"));
    assert_eq!(element("  TFR 1"), err("Expected source register in TFR/EXG"));
}

#[test]
fn condition_masks() {
    assert_eq!(element("  ANDCC #$FE"), inst(Instruction::ANDCC(Typecc { mask: 0xFE })));
    assert_eq!(element("  ANDCC $FE"), err("Expected # before condition mask"));
    assert_eq!(element("  ORCC #300"), err("Invalid numeric value in condition mask"));
    assert_eq!(element("  CWAI #"), err("Expected condition mask"));
}

#[test]
fn branches() {
    assert_eq!(element("  BRA 10"), inst(Instruction::BRA(Typebr::SHORT(10))));
    assert_eq!(element("  BRA 200"), inst(Instruction::BRA(Typebr::LONG(200))));
    assert_eq!(element("  BEQ loop"), inst(Instruction::BEQ(Typebr::UNRESOLVED("loop".to_string()))));
    assert_eq!(element("  LBNE 5"), inst(Instruction::BNE(Typebr::LONG(5))));
    assert_eq!(element("  SBRA 5"), inst(Instruction::BRA(Typebr::SHORT(5))));
    assert_eq!(element("  BRA 40000"), err("Branch target offset too large"));
    assert_eq!(element("  LBRA 40000"), err("Branch target offset too large"));
    assert_eq!(element("  SBRA 128"), err("Branch target offset too large"));
    assert_eq!(element("  SBRA lbl"), err("Expected unsigned value in short branch operand"));
    assert_eq!(element("  BRA #1"), err("Expected unsigned value or label in branch operand"));
}

#[test]
fn directives() {
    assert_eq!(element("  ORG $100"), Ok(Element::Directive(Directive::ORG(256))));
    assert_eq!(element("  exec 5"), Ok(Element::Directive(Directive::EXEC(5))));
    assert_eq!(element("  EQU 7"), Ok(Element::Directive(Directive::EQU(7))));
    assert_eq!(element("  ORG"), err("Expected operand after ORG"));
    assert_eq!(element("  EQU x"), err("Expected unsigned value after EQU"));
    assert_eq!(element("  DS 10"), Ok(Element::Data(Data::DS(10))));
    assert_eq!(element("  DS"), err("Expected operand after DS"));
}

#[test]
fn data_lists() {
    assert_eq!(element("  DB 1,2,\"AB\""), Ok(Element::Data(Data::DB(vec![1, 2, 65, 66]))));
    assert_eq!(element("  DB 300"), Ok(Element::Data(Data::DB(vec![44]))));
    assert_eq!(element("  DB \"é\""), Ok(Element::Data(Data::DB(vec![0xC3, 0xA9]))));
    assert_eq!(element("  DB"), Ok(Element::Data(Data::DB(vec![]))));
    assert_eq!(element("  DW 1,$1234"), Ok(Element::Data(Data::DW(vec![1, 0x1234]))));
    assert_eq!(element("  DB #"), err("Expected unsigned value after DB"));
    assert_eq!(element("  DW \"x\""), err("Expected unsigned value after DW"));
}

#[test]
fn line_errors() {
    assert_eq!(element("  FOO"), err("unknown mnemonic"));
    assert_eq!(element("  ABX 5"), err("Unexpected token(s) at end of line"));
    assert_eq!(element("LDA #5"), err("Unexpected token"));
    assert_eq!(element("LABEL"), err("Unexpected end of line"));
    assert_eq!(element(" :"), err("Unexpected : at start of line"));
    assert_eq!(element("#"), err("Unexpected token"));
    assert_eq!(element("  5"), err("Unexpected token"));
}

#[test]
fn program_counter_stays_at_zero() {
    let mut r = Recogniser::new();
    line(&mut r, "a: NOP").unwrap();
    line(&mut r, "b: NOP").unwrap();
    assert_eq!(r.get("a"), Some(&0));
    assert_eq!(r.get("b"), Some(&0));
}
