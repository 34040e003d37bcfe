//! The recogniser: a line of tokens to an instruction or directive, with
//! the label that the line defines.
use vstd::prelude::*;
use crate::namelist::Namelist;
use crate::parser::Token;
use crate::representation::{
    Data, Directive, Element, IndexedIndirect, Instruction, IntoBytes, Line, PushPullRegister,
    RegisterSet, SpecData, SpecElement, TfrExgRegister16, TfrExgRegister8, Type1, Type2, Typebr,
    Typecc, Typepspl, Typext,
};
use crate::text::{str_eq, to_uppercase, upper_case};
use vstd::utf8::encode_utf8;

verus! {

/// The stack that a PSH or PUL works on.
#[derive(Debug, Clone, Copy, PartialEq, Eq, Structural)]
pub enum Stack {
    S,
    U,
}

/// The token at `p` of a line that ends at `end`, if `p` is before the end.
pub open spec fn token_at(toks: Seq<Token>, p: int, end: int) -> Option<Token> {
    if 0 <= p < end {
        Some(toks[p])
    } else {
        None
    }
}

/// Whether an exec result is the result that a spec function describes:
/// the same value and position, or an error with the same message.
pub open spec fn agrees<T>(r: Result<(T, usize), String>, s: Result<(T, int), Seq<char>>) -> bool {
    match r {
        Ok((v, p)) => s == Ok::<(T, int), Seq<char>>((v, p as int)),
        Err(e) => s == Err::<(T, int), Seq<char>>(e@),
    }
}

/// An error with a fixed message.
fn fail<T>(m: &str) -> (r: Result<T, String>)
    ensures
        r matches Err(e) && e@ == m@,
{
    Err(String::from_str(m))
}

/// An error whose message ends with a name.
fn fail_with<T>(m: &str, name: &str) -> (r: Result<T, String>)
    ensures
        r matches Err(e) && e@ == m@ + name@,
{
    let mut e = String::from_str(m);
    e.append(name);
    Err(e)
}

// ---------------------------------------------------------------------------
// Condition code masks: `#value`.

/// The operand of ANDCC, ORCC and CWAI: `#` and a mask below 256.
pub open spec fn spec_do_typecc(toks: Seq<Token>, pos: int, end: int) -> Result<(Typecc, int), Seq<char>> {
    match token_at(toks, pos, end) {
        Some(Token::Hash) => match token_at(toks, pos + 1, end) {
            Some(Token::Unsigned(v)) => if v <= 255 {
                Ok((Typecc { mask: v as u8 }, pos + 2))
            } else {
                Err("Invalid numeric value in condition mask"@)
            },
            _ => Err("Expected condition mask"@),
        },
        _ => Err("Expected # before condition mask"@),
    }
}

fn do_typecc(tokens: &[Token], pos: usize, end: usize) -> (r: Result<(Typecc, usize), String>)
    requires
        pos <= end <= tokens@.len(),
    ensures
        agrees(r, spec_do_typecc(tokens@, pos as int, end as int)),
{
    if pos < end {
        if let Token::Hash = &tokens[pos] {
            if pos + 1 < end {
                if let Token::Unsigned(v) = &tokens[pos + 1] {
                    if *v <= 255 {
                        return Ok((Typecc { mask: *v as u8 }, pos + 2));
                    } else {
                        return fail("Invalid numeric value in condition mask");
                    }
                }
            }
            return fail("Expected condition mask");
        }
    }
    fail("Expected # before condition mask")
}

// ---------------------------------------------------------------------------
// Register pairs of TFR and EXG: `src,dst`.

/// The 8-bit TFR/EXG register that a name denotes.
pub open spec fn spec_tfr8(reg: Seq<char>) -> Option<TfrExgRegister8> {
    if reg == "A"@ || reg == "a"@ {
        Some(TfrExgRegister8::A)
    } else if reg == "B"@ || reg == "b"@ {
        Some(TfrExgRegister8::B)
    } else if reg == "CC"@ || reg == "cc"@ {
        Some(TfrExgRegister8::CC)
    } else if reg == "DP"@ || reg == "dp"@ {
        Some(TfrExgRegister8::DP)
    } else {
        None
    }
}

/// The 16-bit TFR/EXG register that a name denotes.
pub open spec fn spec_tfr16(reg: Seq<char>) -> Option<TfrExgRegister16> {
    if reg == "D"@ || reg == "d"@ {
        Some(TfrExgRegister16::D)
    } else if reg == "X"@ || reg == "x"@ {
        Some(TfrExgRegister16::X)
    } else if reg == "Y"@ || reg == "y"@ {
        Some(TfrExgRegister16::Y)
    } else if reg == "U"@ || reg == "u"@ {
        Some(TfrExgRegister16::U)
    } else if reg == "S"@ || reg == "s"@ {
        Some(TfrExgRegister16::S)
    } else if reg == "PC"@ || reg == "pc"@ {
        Some(TfrExgRegister16::PC)
    } else {
        None
    }
}

fn tfr8(reg: &str) -> (r: Option<TfrExgRegister8>)
    ensures
        r == spec_tfr8(reg@),
{
    if str_eq(reg, "A") || str_eq(reg, "a") {
        Some(TfrExgRegister8::A)
    } else if str_eq(reg, "B") || str_eq(reg, "b") {
        Some(TfrExgRegister8::B)
    } else if str_eq(reg, "CC") || str_eq(reg, "cc") {
        Some(TfrExgRegister8::CC)
    } else if str_eq(reg, "DP") || str_eq(reg, "dp") {
        Some(TfrExgRegister8::DP)
    } else {
        None
    }
}

fn tfr16(reg: &str) -> (r: Option<TfrExgRegister16>)
    ensures
        r == spec_tfr16(reg@),
{
    if str_eq(reg, "D") || str_eq(reg, "d") {
        Some(TfrExgRegister16::D)
    } else if str_eq(reg, "X") || str_eq(reg, "x") {
        Some(TfrExgRegister16::X)
    } else if str_eq(reg, "Y") || str_eq(reg, "y") {
        Some(TfrExgRegister16::Y)
    } else if str_eq(reg, "U") || str_eq(reg, "u") {
        Some(TfrExgRegister16::U)
    } else if str_eq(reg, "S") || str_eq(reg, "s") {
        Some(TfrExgRegister16::S)
    } else if str_eq(reg, "PC") || str_eq(reg, "pc") {
        Some(TfrExgRegister16::PC)
    } else {
        None
    }
}

/// The operands of TFR and EXG: two registers of one width, comma
/// separated. The source register decides the width.
pub open spec fn spec_do_typext(toks: Seq<Token>, pos: int, end: int) -> Result<(Typext, int), Seq<char>> {
    match token_at(toks, pos, end) {
        Some(Token::Name(src)) => match token_at(toks, pos + 1, end) {
            Some(Token::Comma) => match token_at(toks, pos + 2, end) {
                Some(Token::Name(dst)) => {
                    if spec_tfr8(src@) is Some {
                        match spec_tfr8(dst@) {
                            Some(d) => Ok((Typext::BYTE(spec_tfr8(src@)->Some_0, d), pos + 3)),
                            None => Err("Invalid TFR/EXG register: "@ + dst@),
                        }
                    } else if spec_tfr16(src@) is Some {
                        match spec_tfr16(dst@) {
                            Some(d) => Ok((Typext::WORD(spec_tfr16(src@)->Some_0, d), pos + 3)),
                            None => Err("Invalid TFR/EXG register: "@ + dst@),
                        }
                    } else {
                        Err("Invalid TFR/EXG source register: "@ + src@)
                    }
                },
                _ => Err("Expected destination register after comma in TFR/EXG"@),
            },
            _ => Err("Expected comma after source register in TFR/EXG"@),
        },
        _ => Err("Expected source register in TFR/EXG"@),
    }
}

fn do_typext(tokens: &[Token], pos: usize, end: usize) -> (r: Result<(Typext, usize), String>)
    requires
        pos <= end <= tokens@.len(),
    ensures
        agrees(r, spec_do_typext(tokens@, pos as int, end as int)),
{
    if pos < end {
        if let Token::Name(src) = &tokens[pos] {
            if pos + 1 < end {
                if let Token::Comma = &tokens[pos + 1] {
                    if pos + 2 < end {
                        if let Token::Name(dst) = &tokens[pos + 2] {
                            if let Some(s) = tfr8(src.as_str()) {
                                return match tfr8(dst.as_str()) {
                                    Some(d) => Ok((Typext::BYTE(s, d), pos + 3)),
                                    None => fail_with("Invalid TFR/EXG register: ", dst.as_str()),
                                };
                            } else if let Some(s) = tfr16(src.as_str()) {
                                return match tfr16(dst.as_str()) {
                                    Some(d) => Ok((Typext::WORD(s, d), pos + 3)),
                                    None => fail_with("Invalid TFR/EXG register: ", dst.as_str()),
                                };
                            } else {
                                return fail_with("Invalid TFR/EXG source register: ", src.as_str());
                            }
                        }
                    }
                    return fail("Expected destination register after comma in TFR/EXG");
                }
            }
            return fail("Expected comma after source register in TFR/EXG");
        }
    }
    fail("Expected source register in TFR/EXG")
}

/// Whether `n` is a name of the 8-bit TFR/EXG register `r`: its datasheet
/// name in upper or in lower case.
pub open spec fn names_tfr8(n: Seq<char>, r: TfrExgRegister8) -> bool {
    match r {
        TfrExgRegister8::A => n == seq!['A'] || n == seq!['a'],
        TfrExgRegister8::B => n == seq!['B'] || n == seq!['b'],
        TfrExgRegister8::CC => n == seq!['C', 'C'] || n == seq!['c', 'c'],
        TfrExgRegister8::DP => n == seq!['D', 'P'] || n == seq!['d', 'p'],
    }
}

/// Whether `n` is a name of the 16-bit TFR/EXG register `r`: its datasheet
/// name in upper or in lower case.
pub open spec fn names_tfr16(n: Seq<char>, r: TfrExgRegister16) -> bool {
    match r {
        TfrExgRegister16::D => n == seq!['D'] || n == seq!['d'],
        TfrExgRegister16::X => n == seq!['X'] || n == seq!['x'],
        TfrExgRegister16::Y => n == seq!['Y'] || n == seq!['y'],
        TfrExgRegister16::U => n == seq!['U'] || n == seq!['u'],
        TfrExgRegister16::S => n == seq!['S'] || n == seq!['s'],
        TfrExgRegister16::PC => n == seq!['P', 'C'] || n == seq!['p', 'c'],
    }
}

proof fn lemma_tfr8_name(n: Seq<char>)
    ensures
        spec_tfr8(n) matches Some(r) ==> names_tfr8(n, r),
{
    if n == "A"@ || n == "a"@ {
        reveal_strlit("A");
        reveal_strlit("a");
        if n == "A"@ {
            assert(n =~= seq!['A']);
        } else {
            assert(n =~= seq!['a']);
        }
    } else if n == "B"@ || n == "b"@ {
        reveal_strlit("B");
        reveal_strlit("b");
        if n == "B"@ {
            assert(n =~= seq!['B']);
        } else {
            assert(n =~= seq!['b']);
        }
    } else if n == "CC"@ || n == "cc"@ {
        reveal_strlit("CC");
        reveal_strlit("cc");
        if n == "CC"@ {
            assert(n =~= seq!['C', 'C']);
        } else {
            assert(n =~= seq!['c', 'c']);
        }
    } else if n == "DP"@ || n == "dp"@ {
        reveal_strlit("DP");
        reveal_strlit("dp");
        if n == "DP"@ {
            assert(n =~= seq!['D', 'P']);
        } else {
            assert(n =~= seq!['d', 'p']);
        }
    }
}

proof fn lemma_tfr16_name(n: Seq<char>)
    ensures
        spec_tfr16(n) matches Some(r) ==> names_tfr16(n, r),
{
    if n == "D"@ || n == "d"@ {
        reveal_strlit("D");
        reveal_strlit("d");
        if n == "D"@ {
            assert(n =~= seq!['D']);
        } else {
            assert(n =~= seq!['d']);
        }
    } else if n == "X"@ || n == "x"@ {
        reveal_strlit("X");
        reveal_strlit("x");
        if n == "X"@ {
            assert(n =~= seq!['X']);
        } else {
            assert(n =~= seq!['x']);
        }
    } else if n == "Y"@ || n == "y"@ {
        reveal_strlit("Y");
        reveal_strlit("y");
        if n == "Y"@ {
            assert(n =~= seq!['Y']);
        } else {
            assert(n =~= seq!['y']);
        }
    } else if n == "U"@ || n == "u"@ {
        reveal_strlit("U");
        reveal_strlit("u");
        if n == "U"@ {
            assert(n =~= seq!['U']);
        } else {
            assert(n =~= seq!['u']);
        }
    } else if n == "S"@ || n == "s"@ {
        reveal_strlit("S");
        reveal_strlit("s");
        if n == "S"@ {
            assert(n =~= seq!['S']);
        } else {
            assert(n =~= seq!['s']);
        }
    } else if n == "PC"@ || n == "pc"@ {
        reveal_strlit("PC");
        reveal_strlit("pc");
        if n == "PC"@ {
            assert(n =~= seq!['P', 'C']);
        } else {
            assert(n =~= seq!['p', 'c']);
        }
    }
}

/// A name of a TFR/EXG register is read as that register; a name of a
/// 16-bit register is no name of an 8-bit one.
proof fn lemma_tfr_reads(n: Seq<char>)
    ensures
        forall|a: TfrExgRegister8| names_tfr8(n, a) ==> spec_tfr8(n) == Some(a),
        forall|r: TfrExgRegister16| names_tfr16(n, r) ==> spec_tfr8(n) is None && spec_tfr16(n) == Some(r),
{
    reveal_strlit("A");
    reveal_strlit("a");
    reveal_strlit("B");
    reveal_strlit("b");
    reveal_strlit("CC");
    reveal_strlit("cc");
    reveal_strlit("DP");
    reveal_strlit("dp");
    reveal_strlit("D");
    reveal_strlit("d");
    reveal_strlit("X");
    reveal_strlit("x");
    reveal_strlit("Y");
    reveal_strlit("y");
    reveal_strlit("U");
    reveal_strlit("u");
    reveal_strlit("S");
    reveal_strlit("s");
    reveal_strlit("PC");
    reveal_strlit("pc");
    assert(seq!['A'].len() == 1 && seq!['A'][0] == 'A');
    assert(seq!['a'].len() == 1 && seq!['a'][0] == 'a');
    assert(seq!['B'].len() == 1 && seq!['B'][0] == 'B');
    assert(seq!['b'].len() == 1 && seq!['b'][0] == 'b');
    assert(seq!['C', 'C'].len() == 2 && seq!['C', 'C'][0] == 'C' && seq!['C', 'C'][1] == 'C');
    assert(seq!['c', 'c'].len() == 2 && seq!['c', 'c'][0] == 'c' && seq!['c', 'c'][1] == 'c');
    assert(seq!['D', 'P'].len() == 2 && seq!['D', 'P'][0] == 'D' && seq!['D', 'P'][1] == 'P');
    assert(seq!['d', 'p'].len() == 2 && seq!['d', 'p'][0] == 'd' && seq!['d', 'p'][1] == 'p');
    assert(seq!['D'].len() == 1 && seq!['D'][0] == 'D');
    assert(seq!['d'].len() == 1 && seq!['d'][0] == 'd');
    assert(seq!['X'].len() == 1 && seq!['X'][0] == 'X');
    assert(seq!['x'].len() == 1 && seq!['x'][0] == 'x');
    assert(seq!['Y'].len() == 1 && seq!['Y'][0] == 'Y');
    assert(seq!['y'].len() == 1 && seq!['y'][0] == 'y');
    assert(seq!['U'].len() == 1 && seq!['U'][0] == 'U');
    assert(seq!['u'].len() == 1 && seq!['u'][0] == 'u');
    assert(seq!['S'].len() == 1 && seq!['S'][0] == 'S');
    assert(seq!['s'].len() == 1 && seq!['s'][0] == 's');
    assert(seq!['P', 'C'].len() == 2 && seq!['P', 'C'][0] == 'P' && seq!['P', 'C'][1] == 'C');
    assert(seq!['p', 'c'].len() == 2 && seq!['p', 'c'][0] == 'p' && seq!['p', 'c'][1] == 'c');
    assert forall|a: TfrExgRegister8| names_tfr8(n, a) implies spec_tfr8(n) == Some(a) by {
        match a {
            TfrExgRegister8::A => {
                if n == seq!['A'] {
                    assert(n =~= "A"@);
                } else {
                    assert(n =~= "a"@);
                }
            },
            TfrExgRegister8::B => {
                if n == seq!['B'] {
                    assert(n =~= "B"@);
                } else {
                    assert(n =~= "b"@);
                }
            },
            TfrExgRegister8::CC => {
                if n == seq!['C', 'C'] {
                    assert(n =~= "CC"@);
                } else {
                    assert(n =~= "cc"@);
                }
            },
            TfrExgRegister8::DP => {
                if n == seq!['D', 'P'] {
                    assert(n =~= "DP"@);
                } else {
                    assert(n =~= "dp"@);
                }
            },
        }
    }
    assert forall|r: TfrExgRegister16| names_tfr16(n, r) implies spec_tfr8(n) is None && spec_tfr16(n) == Some(r) by {
        match r {
            TfrExgRegister16::D => {
                if n == seq!['D'] {
                    assert(n =~= "D"@);
                } else {
                    assert(n =~= "d"@);
                }
            },
            TfrExgRegister16::X => {
                if n == seq!['X'] {
                    assert(n =~= "X"@);
                } else {
                    assert(n =~= "x"@);
                }
            },
            TfrExgRegister16::Y => {
                if n == seq!['Y'] {
                    assert(n =~= "Y"@);
                } else {
                    assert(n =~= "y"@);
                }
            },
            TfrExgRegister16::U => {
                if n == seq!['U'] {
                    assert(n =~= "U"@);
                } else {
                    assert(n =~= "u"@);
                }
            },
            TfrExgRegister16::S => {
                if n == seq!['S'] {
                    assert(n =~= "S"@);
                } else {
                    assert(n =~= "s"@);
                }
            },
            TfrExgRegister16::PC => {
                if n == seq!['P', 'C'] {
                    assert(n =~= "PC"@);
                } else {
                    assert(n =~= "pc"@);
                }
            },
        }
    }
}

/// The registers of a TFR or EXG operand are the ones the operand names:
/// the source is named by the first token, the destination by the token
/// after the comma, both of the same width.
pub proof fn law_typext_registers(toks: Seq<Token>, pos: int, end: int)
    ensures
        spec_do_typext(toks, pos, end) matches Ok((t, p)) ==> {
            &&& p == pos + 3
            &&& toks[pos] is Name && toks[pos + 2] is Name
            &&& match t {
                Typext::BYTE(a, b) => names_tfr8(toks[pos]->Name_0@, a) && names_tfr8(toks[pos + 2]->Name_0@, b),
                Typext::WORD(a, b) => names_tfr16(toks[pos]->Name_0@, a) && names_tfr16(toks[pos + 2]->Name_0@, b),
            }
        },
{
    if let (Some(Token::Name(src)), Some(Token::Name(dst))) = (token_at(toks, pos, end), token_at(toks, pos + 2, end)) {
        lemma_tfr8_name(src@);
        lemma_tfr8_name(dst@);
        lemma_tfr16_name(src@);
        lemma_tfr16_name(dst@);
    }
}

// ---------------------------------------------------------------------------
// Register lists of PSH and PUL: `reg,reg,...`.

/// The push/pull register that a name denotes on a stack. A stack cannot
/// hold its own stack pointer.
pub open spec fn spec_pspl_register(reg: Seq<char>, stack: Stack) -> Result<PushPullRegister, Seq<char>> {
    if reg == "A"@ || reg == "a"@ {
        Ok(PushPullRegister::A)
    } else if reg == "B"@ || reg == "b"@ {
        Ok(PushPullRegister::B)
    } else if reg == "X"@ || reg == "x"@ {
        Ok(PushPullRegister::X)
    } else if reg == "Y"@ || reg == "y"@ {
        Ok(PushPullRegister::Y)
    } else if reg == "U"@ || reg == "u"@ {
        if stack == Stack::S {
            Ok(PushPullRegister::US)
        } else {
            Err("Can't push/pull U register on U stack"@)
        }
    } else if reg == "S"@ || reg == "s"@ {
        if stack == Stack::U {
            Ok(PushPullRegister::US)
        } else {
            Err("Can't push/pull S register on S stack"@)
        }
    } else if reg == "PC"@ || reg == "pc"@ {
        Ok(PushPullRegister::PC)
    } else if reg == "CC"@ || reg == "cc"@ {
        Ok(PushPullRegister::CC)
    } else if reg == "DP"@ || reg == "dp"@ {
        Ok(PushPullRegister::DP)
    } else {
        Err("Invalid PSH/PUL register: "@ + reg)
    }
}

fn pspl_register(reg: &str, stack: Stack) -> (r: Result<PushPullRegister, String>)
    ensures
        match r {
            Ok(x) => spec_pspl_register(reg@, stack) == Ok::<PushPullRegister, Seq<char>>(x),
            Err(e) => spec_pspl_register(reg@, stack) == Err::<PushPullRegister, Seq<char>>(e@),
        },
{
    if str_eq(reg, "A") || str_eq(reg, "a") {
        Ok(PushPullRegister::A)
    } else if str_eq(reg, "B") || str_eq(reg, "b") {
        Ok(PushPullRegister::B)
    } else if str_eq(reg, "X") || str_eq(reg, "x") {
        Ok(PushPullRegister::X)
    } else if str_eq(reg, "Y") || str_eq(reg, "y") {
        Ok(PushPullRegister::Y)
    } else if str_eq(reg, "U") || str_eq(reg, "u") {
        match stack {
            Stack::S => Ok(PushPullRegister::US),
            Stack::U => fail("Can't push/pull U register on U stack"),
        }
    } else if str_eq(reg, "S") || str_eq(reg, "s") {
        match stack {
            Stack::U => Ok(PushPullRegister::US),
            Stack::S => fail("Can't push/pull S register on S stack"),
        }
    } else if str_eq(reg, "PC") || str_eq(reg, "pc") {
        Ok(PushPullRegister::PC)
    } else if str_eq(reg, "CC") || str_eq(reg, "cc") {
        Ok(PushPullRegister::CC)
    } else if str_eq(reg, "DP") || str_eq(reg, "dp") {
        Ok(PushPullRegister::DP)
    } else {
        fail_with("Invalid PSH/PUL register: ", reg)
    }
}

/// The rest of a register list from `p` on, after the registers in `set`:
/// each `,` must be followed by a register not yet in the list. The first
/// token that is not a `,` ends the list and is left for the end-of-line
/// check.
pub open spec fn spec_pspl_rest(stack: Stack, toks: Seq<Token>, p: int, end: int, set: RegisterSet) -> Result<
    (Typepspl, int),
    Seq<char>,
>
    decreases end - p,
{
    match token_at(toks, p, end) {
        Some(Token::Comma) => match token_at(toks, p + 1, end) {
            Some(Token::Name(reg)) => match spec_pspl_register(reg@, stack) {
                Ok(r) => if set.has(r) {
                    Err("Duplicate register in PSH/PUL: "@ + reg@)
                } else {
                    spec_pspl_rest(stack, toks, p + 2, end, set.with(r))
                },
                Err(e) => Err(e),
            },
            _ => Err("Expected register name after comma in PSH/PUL"@),
        },
        Some(_) => Ok((Typepspl { registers: set }, p)),
        None => Ok((Typepspl { registers: set }, p)),
    }
}

/// The operand of PSH and PUL: a comma-separated list of distinct registers.
pub open spec fn spec_do_typepspl(stack: Stack, toks: Seq<Token>, pos: int, end: int) -> Result<
    (Typepspl, int),
    Seq<char>,
> {
    match token_at(toks, pos, end) {
        Some(Token::Name(reg)) => match spec_pspl_register(reg@, stack) {
            Ok(r) => spec_pspl_rest(stack, toks, pos + 1, end, RegisterSet::empty().with(r)),
            Err(e) => Err(e),
        },
        _ => Err("Expected register name in PSH/PUL"@),
    }
}

fn do_typepspl(stack: Stack, tokens: &[Token], pos: usize, end: usize) -> (r: Result<(Typepspl, usize), String>)
    requires
        pos <= end <= tokens@.len(),
    ensures
        agrees(r, spec_do_typepspl(stack, tokens@, pos as int, end as int)),
{
    if pos < end {
        if let Token::Name(reg_name) = &tokens[pos] {
            let mut registers = RegisterSet::new();
            match pspl_register(reg_name.as_str(), stack) {
                Ok(reg) => {
                    registers.insert(reg);
                },
                Err(e) => {
                    return Err(e);
                },
            }
            let mut p = pos + 1;
            loop
                invariant
                    pos < p <= end <= tokens@.len(),
                    spec_do_typepspl(stack, tokens@, pos as int, end as int) == spec_pspl_rest(
                        stack,
                        tokens@,
                        p as int,
                        end as int,
                        registers,
                    ),
                decreases end - p,
            {
                if p < end {
                    if let Token::Comma = &tokens[p] {
                        if p + 1 < end {
                            if let Token::Name(reg_name) = &tokens[p + 1] {
                                match pspl_register(reg_name.as_str(), stack) {
                                    Ok(reg) => {
                                        if !registers.insert(reg) {
                                            return fail_with(
                                                "Duplicate register in PSH/PUL: ",
                                                reg_name.as_str(),
                                            );
                                        }
                                    },
                                    Err(e) => {
                                        return Err(e);
                                    },
                                }
                                p = p + 2;
                                continue;
                            }
                        }
                        return fail("Expected register name after comma in PSH/PUL");
                    }
                    return Ok((Typepspl { registers }, p));
                }
                return Ok((Typepspl { registers }, p));
            }
        }
    }
    fail("Expected register name in PSH/PUL")
}


/// Whether `n` is a name of the register `r` in a register list for the
/// stack: the register's datasheet name, in upper or in lower case. On the
/// S stack the other stack pointer is `U`, on the U stack it is `S`.
pub open spec fn names_register(n: Seq<char>, r: PushPullRegister, stack: Stack) -> bool {
    match r {
        PushPullRegister::A => n == seq!['A'] || n == seq!['a'],
        PushPullRegister::B => n == seq!['B'] || n == seq!['b'],
        PushPullRegister::X => n == seq!['X'] || n == seq!['x'],
        PushPullRegister::Y => n == seq!['Y'] || n == seq!['y'],
        PushPullRegister::US => match stack {
            Stack::S => n == seq!['U'] || n == seq!['u'],
            Stack::U => n == seq!['S'] || n == seq!['s'],
        },
        PushPullRegister::PC => n == seq!['P', 'C'] || n == seq!['p', 'c'],
        PushPullRegister::CC => n == seq!['C', 'C'] || n == seq!['c', 'c'],
        PushPullRegister::DP => n == seq!['D', 'P'] || n == seq!['d', 'p'],
    }
}

/// Whether the token at `j` is a name of `r`.
pub open spec fn names_at(toks: Seq<Token>, j: int, r: PushPullRegister, stack: Stack) -> bool {
    toks[j] matches Token::Name(n) && names_register(n@, r, stack)
}

/// Whether one of the tokens from `from` up to `to` is a name of `r`.
pub open spec fn listed(toks: Seq<Token>, from: int, to: int, r: PushPullRegister, stack: Stack) -> bool {
    exists|j: int| from <= j < to && #[trigger] names_at(toks, j, r, stack)
}

/// A name that denotes a register names that register and no other.
proof fn lemma_register_name(n: Seq<char>, stack: Stack)
    ensures
        spec_pspl_register(n, stack) matches Ok(r0) ==> forall|r: PushPullRegister|
            names_register(n, r, stack) == (r == r0),
{
    reveal_strlit("A");
    reveal_strlit("a");
    reveal_strlit("B");
    reveal_strlit("b");
    reveal_strlit("X");
    reveal_strlit("x");
    reveal_strlit("Y");
    reveal_strlit("y");
    reveal_strlit("U");
    reveal_strlit("u");
    reveal_strlit("S");
    reveal_strlit("s");
    reveal_strlit("PC");
    reveal_strlit("pc");
    reveal_strlit("CC");
    reveal_strlit("cc");
    reveal_strlit("DP");
    reveal_strlit("dp");
    assert(seq!['A'].len() == 1 && seq!['A'][0] == 'A');
    assert(seq!['a'].len() == 1 && seq!['a'][0] == 'a');
    assert(seq!['B'].len() == 1 && seq!['B'][0] == 'B');
    assert(seq!['b'].len() == 1 && seq!['b'][0] == 'b');
    assert(seq!['X'].len() == 1 && seq!['X'][0] == 'X');
    assert(seq!['x'].len() == 1 && seq!['x'][0] == 'x');
    assert(seq!['Y'].len() == 1 && seq!['Y'][0] == 'Y');
    assert(seq!['y'].len() == 1 && seq!['y'][0] == 'y');
    assert(seq!['U'].len() == 1 && seq!['U'][0] == 'U');
    assert(seq!['u'].len() == 1 && seq!['u'][0] == 'u');
    assert(seq!['S'].len() == 1 && seq!['S'][0] == 'S');
    assert(seq!['s'].len() == 1 && seq!['s'][0] == 's');
    assert(seq!['P', 'C'].len() == 2 && seq!['P', 'C'][0] == 'P' && seq!['P', 'C'][1] == 'C');
    assert(seq!['p', 'c'].len() == 2 && seq!['p', 'c'][0] == 'p' && seq!['p', 'c'][1] == 'c');
    assert(seq!['C', 'C'].len() == 2 && seq!['C', 'C'][0] == 'C' && seq!['C', 'C'][1] == 'C');
    assert(seq!['c', 'c'].len() == 2 && seq!['c', 'c'][0] == 'c' && seq!['c', 'c'][1] == 'c');
    assert(seq!['D', 'P'].len() == 2 && seq!['D', 'P'][0] == 'D' && seq!['D', 'P'][1] == 'P');
    assert(seq!['d', 'p'].len() == 2 && seq!['d', 'p'][0] == 'd' && seq!['d', 'p'][1] == 'p');
    if n == "A"@ || n == "a"@ {
        reveal_strlit("A");
        reveal_strlit("a");
        if n == "A"@ {
            assert(n =~= seq!['A']);
        } else {
            assert(n =~= seq!['a']);
        }
    } else if n == "B"@ || n == "b"@ {
        reveal_strlit("B");
        reveal_strlit("b");
        if n == "B"@ {
            assert(n =~= seq!['B']);
        } else {
            assert(n =~= seq!['b']);
        }
    } else if n == "X"@ || n == "x"@ {
        reveal_strlit("X");
        reveal_strlit("x");
        if n == "X"@ {
            assert(n =~= seq!['X']);
        } else {
            assert(n =~= seq!['x']);
        }
    } else if n == "Y"@ || n == "y"@ {
        reveal_strlit("Y");
        reveal_strlit("y");
        if n == "Y"@ {
            assert(n =~= seq!['Y']);
        } else {
            assert(n =~= seq!['y']);
        }
    } else if n == "U"@ || n == "u"@ {
        reveal_strlit("U");
        reveal_strlit("u");
        if n == "U"@ {
            assert(n =~= seq!['U']);
        } else {
            assert(n =~= seq!['u']);
        }
    } else if n == "S"@ || n == "s"@ {
        reveal_strlit("S");
        reveal_strlit("s");
        if n == "S"@ {
            assert(n =~= seq!['S']);
        } else {
            assert(n =~= seq!['s']);
        }
    } else if n == "PC"@ || n == "pc"@ {
        reveal_strlit("PC");
        reveal_strlit("pc");
        if n == "PC"@ {
            assert(n =~= seq!['P', 'C']);
        } else {
            assert(n =~= seq!['p', 'c']);
        }
    } else if n == "CC"@ || n == "cc"@ {
        reveal_strlit("CC");
        reveal_strlit("cc");
        if n == "CC"@ {
            assert(n =~= seq!['C', 'C']);
        } else {
            assert(n =~= seq!['c', 'c']);
        }
    } else if n == "DP"@ || n == "dp"@ {
        reveal_strlit("DP");
        reveal_strlit("dp");
        if n == "DP"@ {
            assert(n =~= seq!['D', 'P']);
        } else {
            assert(n =~= seq!['d', 'p']);
        }
    }
}

/// The rest of a register list adds exactly the registers that it names.
proof fn lemma_pspl_rest_names(stack: Stack, toks: Seq<Token>, pos: int, p: int, end: int, set: RegisterSet)
    requires
        pos <= p,
        forall|r: PushPullRegister| set.has(r) == listed(toks, pos, p, r, stack),
    ensures
        spec_pspl_rest(stack, toks, p, end, set) matches Ok((t, q)) ==> forall|r: PushPullRegister|
            t.registers.has(r) == listed(toks, pos, q, r, stack),
    decreases end - p,
{
    if let Some(Token::Comma) = token_at(toks, p, end) {
        if let Some(Token::Name(reg)) = token_at(toks, p + 1, end) {
            lemma_register_name(reg@, stack);
            if let Ok(r0) = spec_pspl_register(reg@, stack) {
                if !set.has(r0) {
                    let next = set.with(r0);
                    assert forall|r: PushPullRegister| next.has(r) == listed(toks, pos, p + 2, r, stack) by {
                        if listed(toks, pos, p + 2, r, stack) {
                            let j = choose|j: int| pos <= j < p + 2 && #[trigger] names_at(toks, j, r, stack);
                            if j < p {
                                assert(listed(toks, pos, p, r, stack));
                            }
                        }
                        if set.has(r) {
                            let j = choose|j: int| pos <= j < p && #[trigger] names_at(toks, j, r, stack);
                            assert(pos <= j < p + 2);
                        }
                        if r == r0 {
                            assert(names_at(toks, p + 1, r, stack));
                        }
                    }
                    lemma_pspl_rest_names(stack, toks, pos, p + 2, end, next);
                }
            }
        }
    }
}

/// The register set of a PSH or PUL list holds exactly the registers that
/// the list names: a register is in the set if and only if one of the
/// list's names, in either case, is its name.
pub proof fn law_pspl_registers(stack: Stack, toks: Seq<Token>, pos: int, end: int)
    ensures
        spec_do_typepspl(stack, toks, pos, end) matches Ok((t, p)) ==> forall|r: PushPullRegister|
            t.registers.has(r) == listed(toks, pos, p, r, stack),
{
    if let Some(Token::Name(reg)) = token_at(toks, pos, end) {
        lemma_register_name(reg@, stack);
        if let Ok(r0) = spec_pspl_register(reg@, stack) {
            let set = RegisterSet::empty().with(r0);
            assert forall|r: PushPullRegister| set.has(r) == listed(toks, pos, pos + 1, r, stack) by {
                if r == r0 {
                    assert(names_at(toks, pos, r, stack));
                }
            }
            lemma_pspl_rest_names(stack, toks, pos, pos + 1, end, set);
        }
    }
}

// ---------------------------------------------------------------------------
// Memory operands: `<direct`, `>extended`, or an address.

/// A memory operand that starts with `first`; the tokens after it start at
/// `pos`.
pub open spec fn spec_memory_operand(first: Token, toks: Seq<Token>, pos: int, end: int) -> Result<
    (Type2, int),
    Seq<char>,
> {
    match first {
        Token::LessThan => match token_at(toks, pos, end) {
            Some(Token::Unsigned(v)) => if v <= 255 {
                Ok((Type2::DIR(v as u8), pos + 1))
            } else {
                Err("Direct page address too large for 8-bit offset"@)
            },
            _ => Err("Expected unsigned value after < in memory operand"@),
        },
        Token::GreaterThan => match token_at(toks, pos, end) {
            Some(Token::Unsigned(v)) => Ok((Type2::EXT(v), pos + 1)),
            _ => Err("Expected unsigned value after > in memory operand"@),
        },
        Token::Unsigned(v) => Ok((Type2::EXT(v), pos)),
        Token::OpenBracket => Err("Expected ] at end of indexed indirect operand"@),
        _ => Err("unexpected memory operand"@),
    }
}

fn parse_memory_operand(first: &Token, tokens: &[Token], pos: usize, end: usize) -> (r: Result<(Type2, usize), String>)
    requires
        pos <= end <= tokens@.len(),
    ensures
        agrees(r, spec_memory_operand(*first, tokens@, pos as int, end as int)),
{
    match first {
        Token::LessThan => {
            if pos < end {
                if let Token::Unsigned(v) = &tokens[pos] {
                    if *v <= 255 {
                        return Ok((Type2::DIR(*v as u8), pos + 1));
                    } else {
                        return fail("Direct page address too large for 8-bit offset");
                    }
                }
            }
            fail("Expected unsigned value after < in memory operand")
        },
        Token::GreaterThan => {
            if pos < end {
                if let Token::Unsigned(v) = &tokens[pos] {
                    return Ok((Type2::EXT(*v), pos + 1));
                }
            }
            fail("Expected unsigned value after > in memory operand")
        },
        Token::Unsigned(v) => Ok((Type2::EXT(*v), pos)),
        Token::OpenBracket => fail("Expected ] at end of indexed indirect operand"),
        _ => fail("unexpected memory operand"),
    }
}

/// A memory operand as the operand of an immediate-or-memory instruction.
pub open spec fn memory_as_type1<T: IntoBytes>(m: Type2) -> Type1<T> {
    match m {
        Type2::DIR(a) => Type1::DIR(a),
        Type2::EXT(a) => Type1::EXT(a),
        Type2::IND(x) => Type1::IND(x),
    }
}

/// The operand of an immediate-or-memory instruction: `#value`, where the
/// value must fit in `T`, or a memory operand.
pub open spec fn spec_do_type1<T: IntoBytes>(toks: Seq<Token>, pos: int, end: int) -> Result<
    (Type1<T>, int),
    Seq<char>,
> {
    match token_at(toks, pos, end) {
        Some(Token::Hash) => match token_at(toks, pos + 1, end) {
            Some(Token::Unsigned(v)) => match T::spec_try_from_u16(v) {
                Some(imm) => Ok((Type1::IMM(imm), pos + 2)),
                None => Err("Immediate value not valid for Type1 operand type"@),
            },
            _ => Err("Expected unsigned value after # in immediate operand"@),
        },
        Some(first) => match spec_memory_operand(first, toks, pos + 1, end) {
            Ok((m, p)) => Ok((memory_as_type1(m), p)),
            Err(e) => Err(e),
        },
        None => Err("Expected immediate or memory operand"@),
    }
}

fn do_type1<T: IntoBytes>(tokens: &[Token], pos: usize, end: usize) -> (r: Result<(Type1<T>, usize), String>)
    requires
        pos <= end <= tokens@.len(),
    ensures
        agrees(r, spec_do_type1::<T>(tokens@, pos as int, end as int)),
{
    if pos < end {
        if let Token::Hash = &tokens[pos] {
            if pos + 1 < end {
                if let Token::Unsigned(v) = &tokens[pos + 1] {
                    return match T::try_from_u16(*v) {
                        Some(imm) => Ok((Type1::IMM(imm), pos + 2)),
                        None => fail("Immediate value not valid for Type1 operand type"),
                    };
                }
            }
            return fail("Expected unsigned value after # in immediate operand");
        }
        match parse_memory_operand(&tokens[pos], tokens, pos + 1, end) {
            Ok((m, p)) => {
                let t: Type1<T> = match m {
                    Type2::DIR(a) => Type1::DIR(a),
                    Type2::EXT(a) => Type1::EXT(a),
                    Type2::IND(x) => Type1::IND(x),
                };
                Ok((t, p))
            },
            Err(e) => Err(e),
        }
    } else {
        fail("Expected immediate or memory operand")
    }
}

/// The operand of a memory-only instruction.
pub open spec fn spec_do_type2(toks: Seq<Token>, pos: int, end: int) -> Result<(Type2, int), Seq<char>> {
    match token_at(toks, pos, end) {
        Some(first) => spec_memory_operand(first, toks, pos + 1, end),
        None => Err("Expected memory operand"@),
    }
}

fn do_type2(tokens: &[Token], pos: usize, end: usize) -> (r: Result<(Type2, usize), String>)
    requires
        pos <= end <= tokens@.len(),
    ensures
        agrees(r, spec_do_type2(tokens@, pos as int, end as int)),
{
    if pos < end {
        parse_memory_operand(&tokens[pos], tokens, pos + 1, end)
    } else {
        fail("Expected memory operand")
    }
}

// ---------------------------------------------------------------------------
// Branch targets.

/// The target of a branch: an offset (short up to 127, long up to 32767)
/// or a label.
pub open spec fn spec_do_typebr(toks: Seq<Token>, pos: int, end: int) -> Result<(Typebr, int), Seq<char>> {
    match token_at(toks, pos, end) {
        Some(Token::Unsigned(v)) => if v <= 127 {
            Ok((Typebr::SHORT(v as i8), pos + 1))
        } else if v <= 32767 {
            Ok((Typebr::LONG(v as i16), pos + 1))
        } else {
            Err("Branch target offset too large"@)
        },
        Some(Token::Name(label)) => Ok((Typebr::UNRESOLVED(label), pos + 1)),
        _ => Err("Expected unsigned value or label in branch operand"@),
    }
}

/// The target of a short branch: an offset up to 127.
pub open spec fn spec_do_typesbr(toks: Seq<Token>, pos: int, end: int) -> Result<(Typebr, int), Seq<char>> {
    match token_at(toks, pos, end) {
        Some(Token::Unsigned(v)) => if v <= 127 {
            Ok((Typebr::SHORT(v as i8), pos + 1))
        } else {
            Err("Branch target offset too large"@)
        },
        _ => Err("Expected unsigned value in short branch operand"@),
    }
}

/// The target of a long branch: an offset up to 32767 or a label.
pub open spec fn spec_do_typelbr(toks: Seq<Token>, pos: int, end: int) -> Result<(Typebr, int), Seq<char>> {
    match token_at(toks, pos, end) {
        Some(Token::Unsigned(v)) => if v <= 32767 {
            Ok((Typebr::LONG(v as i16), pos + 1))
        } else {
            Err("Branch target offset too large"@)
        },
        Some(Token::Name(label)) => Ok((Typebr::UNRESOLVED(label), pos + 1)),
        _ => Err("Expected unsigned value or label in branch operand"@),
    }
}

fn do_typebr(tokens: &[Token], pos: usize, end: usize) -> (r: Result<(Typebr, usize), String>)
    requires
        pos <= end <= tokens@.len(),
    ensures
        agrees(r, spec_do_typebr(tokens@, pos as int, end as int)),
{
    if pos < end {
        match &tokens[pos] {
            Token::Unsigned(v) => {
                if *v <= 127 {
                    return Ok((Typebr::SHORT(*v as i8), pos + 1));
                } else if *v <= 32767 {
                    return Ok((Typebr::LONG(*v as i16), pos + 1));
                } else {
                    return fail("Branch target offset too large");
                }
            },
            Token::Name(label) => {
                return Ok((Typebr::UNRESOLVED(label.clone()), pos + 1));
            },
            _ => {},
        }
    }
    fail("Expected unsigned value or label in branch operand")
}

fn do_typesbr(tokens: &[Token], pos: usize, end: usize) -> (r: Result<(Typebr, usize), String>)
    requires
        pos <= end <= tokens@.len(),
    ensures
        agrees(r, spec_do_typesbr(tokens@, pos as int, end as int)),
{
    if pos < end {
        if let Token::Unsigned(v) = &tokens[pos] {
            if *v <= 127 {
                return Ok((Typebr::SHORT(*v as i8), pos + 1));
            } else {
                return fail("Branch target offset too large");
            }
        }
    }
    fail("Expected unsigned value in short branch operand")
}

fn do_typelbr(tokens: &[Token], pos: usize, end: usize) -> (r: Result<(Typebr, usize), String>)
    requires
        pos <= end <= tokens@.len(),
    ensures
        agrees(r, spec_do_typelbr(tokens@, pos as int, end as int)),
{
    if pos < end {
        match &tokens[pos] {
            Token::Unsigned(v) => {
                if *v <= 32767 {
                    return Ok((Typebr::LONG(*v as i16), pos + 1));
                } else {
                    return fail("Branch target offset too large");
                }
            },
            Token::Name(label) => {
                return Ok((Typebr::UNRESOLVED(label.clone()), pos + 1));
            },
            _ => {},
        }
    }
    fail("Expected unsigned value or label in branch operand")
}

/// Whether a memory operand is the one its tokens from `pos` on mark:
/// `<` and a number is that direct page address, `>` and a number or a bare
/// number that extended address; `p` is the position after it.
pub open spec fn marked_memory(toks: Seq<Token>, pos: int, o: Type2, p: int) -> bool {
    match o {
        Type2::DIR(a) => toks[pos] is LessThan && toks[pos + 1] == Token::Unsigned(a as u16) && p == pos + 2,
        Type2::EXT(a) => (toks[pos] is GreaterThan && toks[pos + 1] == Token::Unsigned(a) && p == pos + 2) || (
        toks[pos] == Token::Unsigned(a) && p == pos + 1),
        Type2::IND(_) => false,
    }
}

/// The addressing mode of a memory operand is the one its first token
/// marks, and its address is the number written.
pub proof fn law_memory_mode(toks: Seq<Token>, pos: int, end: int)
    ensures
        spec_do_type2(toks, pos, end) matches Ok((o, p)) ==> marked_memory(toks, pos, o, p),
{
}

/// The addressing mode of an immediate-or-memory operand is the one its
/// first token marks: `#` and a number is that immediate value (where it
/// fits the operand's width), otherwise as for a memory operand.
pub proof fn law_immediate_mode<T: IntoBytes>(toks: Seq<Token>, pos: int, end: int)
    ensures
        spec_do_type1::<T>(toks, pos, end) matches Ok((o, p)) ==> match o {
            Type1::IMM(v) => p == pos + 2 && toks[pos] is Hash && (toks[pos + 1] matches Token::Unsigned(n)
                && T::spec_try_from_u16(n) == Some(v)),
            Type1::DIR(a) => marked_memory(toks, pos, Type2::DIR(a), p),
            Type1::EXT(a) => marked_memory(toks, pos, Type2::EXT(a), p),
            Type1::IND(_) => false,
        },
{
}

/// A branch target is the number or the label written: a number up to 127
/// is a short offset, a larger one up to 32767 a long offset (a long
/// branch spelling takes every number as long, a short spelling takes no
/// label), a name is a label to resolve.
pub proof fn law_branch_target(toks: Seq<Token>, pos: int, end: int)
    ensures
        spec_do_typebr(toks, pos, end) matches Ok((t, p)) ==> p == pos + 1 && match t {
            Typebr::SHORT(s) => toks[pos] matches Token::Unsigned(n) && n <= 127 && s as int == n as int,
            Typebr::LONG(l) => toks[pos] matches Token::Unsigned(n) && 127 < n <= 32767 && l as int == n as int,
            Typebr::UNRESOLVED(label) => toks[pos] == Token::Name(label),
        },
        spec_do_typesbr(toks, pos, end) matches Ok((t, p)) ==> p == pos + 1 && (t matches Typebr::SHORT(s)
            && (toks[pos] matches Token::Unsigned(n) && n <= 127 && s as int == n as int)),
        spec_do_typelbr(toks, pos, end) matches Ok((t, p)) ==> p == pos + 1 && match t {
            Typebr::SHORT(_) => false,
            Typebr::LONG(l) => toks[pos] matches Token::Unsigned(n) && n <= 32767 && l as int == n as int,
            Typebr::UNRESOLVED(label) => toks[pos] == Token::Name(label),
        },
{
}

// ---------------------------------------------------------------------------
// Data directives.

/// Bytes in front of the bytes of the rest of a DB list.
pub open spec fn prefix_bytes(b: Seq<u8>, rest: Result<(Seq<u8>, int), Seq<char>>) -> Result<(Seq<u8>, int), Seq<char>> {
    match rest {
        Ok((bs, p)) => Ok((b + bs, p)),
        Err(e) => Err(e),
    }
}

/// The bytes of a DB list from `p` on: numbers (their low byte) and
/// strings (their UTF-8 bytes); commas are skipped and a comment ends the
/// list.
pub open spec fn spec_db(toks: Seq<Token>, p: int, end: int) -> Result<(Seq<u8>, int), Seq<char>>
    decreases end - p,
{
    if p < 0 || p >= end {
        Ok((seq![], p))
    } else {
        match toks[p] {
            Token::Unsigned(v) => prefix_bytes(seq![v as u8], spec_db(toks, p + 1, end)),
            Token::String(s) => prefix_bytes(encode_utf8(s@), spec_db(toks, p + 1, end)),
            Token::Comma => spec_db(toks, p + 1, end),
            Token::Comment(_) => Ok((seq![], p + 1)),
            _ => Err("Expected unsigned value after DB"@),
        }
    }
}

/// Words in front of the words of the rest of a DW list.
pub open spec fn prefix_words(w: Seq<u16>, rest: Result<(Seq<u16>, int), Seq<char>>) -> Result<(Seq<u16>, int), Seq<char>> {
    match rest {
        Ok((ws, p)) => Ok((w + ws, p)),
        Err(e) => Err(e),
    }
}

/// The words of a DW list from `p` on: numbers; commas are skipped and a
/// comment ends the list.
pub open spec fn spec_dw(toks: Seq<Token>, p: int, end: int) -> Result<(Seq<u16>, int), Seq<char>>
    decreases end - p,
{
    if p < 0 || p >= end {
        Ok((seq![], p))
    } else {
        match toks[p] {
            Token::Unsigned(v) => prefix_words(seq![v], spec_dw(toks, p + 1, end)),
            Token::Comma => spec_dw(toks, p + 1, end),
            Token::Comment(_) => Ok((seq![], p + 1)),
            _ => Err("Expected unsigned value after DW"@),
        }
    }
}

fn do_db(tokens: &[Token], pos: usize, end: usize) -> (r: Result<(Vec<u8>, usize), String>)
    requires
        pos <= end <= tokens@.len(),
    ensures
        match r {
            Ok((v, p)) => spec_db(tokens@, pos as int, end as int) == Ok::<(Seq<u8>, int), Seq<char>>((v@, p as int)),
            Err(e) => spec_db(tokens@, pos as int, end as int) == Err::<(Seq<u8>, int), Seq<char>>(e@),
        },
{
    let mut values: Vec<u8> = Vec::new();
    let mut p = pos;
    while p < end
        invariant
            pos <= p <= end <= tokens@.len(),
            spec_db(tokens@, pos as int, end as int) == prefix_bytes(values@, spec_db(tokens@, p as int, end as int)),
        decreases end - p,
    {
        let ghost before = values@;
        match &tokens[p] {
            Token::Unsigned(v) => {
                values.push(*v as u8);
                proof {
                    if let Ok((bs, q)) = spec_db(tokens@, p + 1, end as int) {
                        assert(before + (seq![*v as u8] + bs) =~= values@ + bs);
                    }
                }
            },
            Token::String(s) => {
                let bytes = s.as_str().as_bytes();
                let n = bytes.len();
                let mut k: usize = 0;
                while k < n
                    invariant
                        n == bytes@.len(),
                        k <= n,
                        values@ == before + bytes@.take(k as int),
                    decreases n - k,
                {
                    values.push(bytes[k]);
                    k = k + 1;
                    assert(values@ =~= before + bytes@.take(k as int));
                }
                proof {
                    assert(bytes@.take(n as int) =~= bytes@);
                    if let Ok((bs, q)) = spec_db(tokens@, p + 1, end as int) {
                        assert(before + (bytes@ + bs) =~= values@ + bs);
                    }
                }
            },
            Token::Comma => {},
            Token::Comment(_) => {
                proof {
                    assert(values@ + seq![] =~= values@);
                }
                return Ok((values, p + 1));
            },
            _ => {
                return fail("Expected unsigned value after DB");
            },
        }
        p = p + 1;
    }
    assert(values@ + seq![] =~= values@);
    Ok((values, p))
}

fn do_dw(tokens: &[Token], pos: usize, end: usize) -> (r: Result<(Vec<u16>, usize), String>)
    requires
        pos <= end <= tokens@.len(),
    ensures
        match r {
            Ok((v, p)) => spec_dw(tokens@, pos as int, end as int) == Ok::<(Seq<u16>, int), Seq<char>>((v@, p as int)),
            Err(e) => spec_dw(tokens@, pos as int, end as int) == Err::<(Seq<u16>, int), Seq<char>>(e@),
        },
{
    let mut values: Vec<u16> = Vec::new();
    let mut p = pos;
    while p < end
        invariant
            pos <= p <= end <= tokens@.len(),
            spec_dw(tokens@, pos as int, end as int) == prefix_words(values@, spec_dw(tokens@, p as int, end as int)),
        decreases end - p,
    {
        let ghost before = values@;
        match &tokens[p] {
            Token::Unsigned(v) => {
                values.push(*v);
                proof {
                    if let Ok((ws, q)) = spec_dw(tokens@, p + 1, end as int) {
                        assert(before + (seq![*v] + ws) =~= values@ + ws);
                    }
                }
            },
            Token::Comma => {},
            Token::Comment(_) => {
                proof {
                    assert(values@ + seq![] =~= values@);
                }
                return Ok((values, p + 1));
            },
            _ => {
                return fail("Expected unsigned value after DW");
            },
        }
        p = p + 1;
    }
    assert(values@ + seq![] =~= values@);
    Ok((values, p))
}

/// The view of a recognised element and the position after it.
pub open spec fn result_view(r: Result<(Element, usize), String>) -> Result<(SpecElement, int), Seq<char>> {
    match r {
        Ok((e, p)) => Ok((e@, p as int)),
        Err(m) => Err(m@),
    }
}

/// An operand result as an instruction result.
pub open spec fn lift<A>(r: Result<(A, int), Seq<char>>, f: spec_fn(A) -> Instruction) -> Result<
    (SpecElement, int),
    Seq<char>,
> {
    match r {
        Ok((a, p)) => Ok((SpecElement::Inst(f(a)), p)),
        Err(e) => Err(e),
    }
}

/// A directive with one number: ORG, EXEC, EQU or DS.
pub open spec fn spec_value_directive(name: Seq<char>, toks: Seq<Token>, pos: int, end: int) -> Result<
    (u16, int),
    Seq<char>,
> {
    match token_at(toks, pos, end) {
        None => Err("Expected operand after "@ + name),
        Some(Token::Unsigned(v)) => Ok((v, pos + 1)),
        Some(_) => Err("Expected unsigned value after "@ + name),
    }
}

fn value_directive(name: &str, tokens: &[Token], pos: usize, end: usize) -> (r: Result<(u16, usize), String>)
    requires
        pos <= end <= tokens@.len(),
    ensures
        agrees(r, spec_value_directive(name@, tokens@, pos as int, end as int)),
{
    if pos < end {
        if let Token::Unsigned(v) = &tokens[pos] {
            Ok((*v, pos + 1))
        } else {
            fail_with("Expected unsigned value after ", name)
        }
    } else {
        fail_with("Expected operand after ", name)
    }
}

/// The directives of the table.
pub open spec fn spec_directive(up: Seq<char>, toks: Seq<Token>, pos: int, end: int) -> Option<
    Result<(SpecElement, int), Seq<char>>,
> {
    if up == "ORG"@ {
        Some(match spec_value_directive("ORG"@, toks, pos, end) {
            Ok((v, p)) => Ok((SpecElement::Directive(Directive::ORG(v)), p)),
            Err(e) => Err(e),
        })
    } else if up == "EXEC"@ {
        Some(match spec_value_directive("EXEC"@, toks, pos, end) {
            Ok((v, p)) => Ok((SpecElement::Directive(Directive::EXEC(v)), p)),
            Err(e) => Err(e),
        })
    } else if up == "EQU"@ {
        Some(match spec_value_directive("EQU"@, toks, pos, end) {
            Ok((v, p)) => Ok((SpecElement::Directive(Directive::EQU(v)), p)),
            Err(e) => Err(e),
        })
    } else if up == "DB"@ {
        Some(match spec_db(toks, pos, end) {
            Ok((bs, p)) => Ok((SpecElement::Data(SpecData::DB(bs)), p)),
            Err(e) => Err(e),
        })
    } else if up == "DW"@ {
        Some(match spec_dw(toks, pos, end) {
            Ok((ws, p)) => Ok((SpecElement::Data(SpecData::DW(ws)), p)),
            Err(e) => Err(e),
        })
    } else if up == "DS"@ {
        Some(match spec_value_directive("DS"@, toks, pos, end) {
            Ok((v, p)) => Ok((SpecElement::Data(SpecData::DS(v as usize)), p)),
            Err(e) => Err(e),
        })
    } else {
        None
    }
}

fn directive(up: &str, tokens: &[Token], pos: usize, end: usize) -> (r: Option<Result<(Element, usize), String>>)
    requires
        pos <= end <= tokens@.len(),
    ensures
        match r {
            Some(res) => spec_directive(up@, tokens@, pos as int, end as int) == Some(result_view(res)),
            None => spec_directive(up@, tokens@, pos as int, end as int) is None,
        },
{
    if str_eq(up, "ORG") {
        return Some(match value_directive("ORG", tokens, pos, end) {
            Ok((v, p)) => Ok((Element::Directive(Directive::ORG(v)), p)),
            Err(e) => Err(e),
        });
    }
    if str_eq(up, "EXEC") {
        return Some(match value_directive("EXEC", tokens, pos, end) {
            Ok((v, p)) => Ok((Element::Directive(Directive::EXEC(v)), p)),
            Err(e) => Err(e),
        });
    }
    if str_eq(up, "EQU") {
        return Some(match value_directive("EQU", tokens, pos, end) {
            Ok((v, p)) => Ok((Element::Directive(Directive::EQU(v)), p)),
            Err(e) => Err(e),
        });
    }
    if str_eq(up, "DB") {
        return Some(match do_db(tokens, pos, end) {
            Ok((bs, p)) => Ok((Element::Data(Data::DB(bs)), p)),
            Err(e) => Err(e),
        });
    }
    if str_eq(up, "DW") {
        return Some(match do_dw(tokens, pos, end) {
            Ok((ws, p)) => Ok((Element::Data(Data::DW(ws)), p)),
            Err(e) => Err(e),
        });
    }
    if str_eq(up, "DS") {
        return Some(match value_directive("DS", tokens, pos, end) {
            Ok((v, p)) => Ok((Element::Data(Data::DS(v as usize)), p)),
            Err(e) => Err(e),
        });
    }
    None
}

// ---------------------------------------------------------------------------
// The instruction table.

/// Part 1 of the instruction table.
pub open spec fn spec_table_1(up: Seq<char>, toks: Seq<Token>, pos: int, end: int) -> Option<
    Result<(SpecElement, int), Seq<char>>,
> {
    if up == "ABX"@ {
        Some(Ok((SpecElement::Inst(Instruction::ABX), pos)))
    } else if up == "ADCA"@ {
        Some(lift(spec_do_type1::<u8>(toks, pos, end), |o: Type1<u8>| Instruction::ADCA(o)))
    } else if up == "ADCB"@ {
        Some(lift(spec_do_type1::<u8>(toks, pos, end), |o: Type1<u8>| Instruction::ADCB(o)))
    } else if up == "ADDA"@ {
        Some(lift(spec_do_type1::<u8>(toks, pos, end), |o: Type1<u8>| Instruction::ADDA(o)))
    } else if up == "ADDB"@ {
        Some(lift(spec_do_type1::<u8>(toks, pos, end), |o: Type1<u8>| Instruction::ADDB(o)))
    } else if up == "ADDD"@ {
        Some(lift(spec_do_type1::<u16>(toks, pos, end), |o: Type1<u16>| Instruction::ADDD(o)))
    } else if up == "ANDA"@ {
        Some(lift(spec_do_type1::<u8>(toks, pos, end), |o: Type1<u8>| Instruction::ANDA(o)))
    } else if up == "ANDB"@ {
        Some(lift(spec_do_type1::<u8>(toks, pos, end), |o: Type1<u8>| Instruction::ANDB(o)))
    } else if up == "ANDCC"@ {
        Some(lift(spec_do_typecc(toks, pos, end), |o: Typecc| Instruction::ANDCC(o)))
    } else if up == "ASLA"@ {
        Some(Ok((SpecElement::Inst(Instruction::ASLA), pos)))
    } else if up == "ASLB"@ {
        Some(Ok((SpecElement::Inst(Instruction::ASLB), pos)))
    } else if up == "ASL"@ {
        Some(lift(spec_do_type2(toks, pos, end), |o: Type2| Instruction::ASL(o)))
    } else if up == "ASRA"@ {
        Some(Ok((SpecElement::Inst(Instruction::ASRA), pos)))
    } else if up == "ASRB"@ {
        Some(Ok((SpecElement::Inst(Instruction::ASRB), pos)))
    } else if up == "ASR"@ {
        Some(lift(spec_do_type2(toks, pos, end), |o: Type2| Instruction::ASR(o)))
    } else if up == "BITA"@ {
        Some(lift(spec_do_type1::<u8>(toks, pos, end), |o: Type1<u8>| Instruction::BITA(o)))
    } else if up == "BITB"@ {
        Some(lift(spec_do_type1::<u8>(toks, pos, end), |o: Type1<u8>| Instruction::BITB(o)))
    } else if up == "BCC"@ {
        Some(lift(spec_do_typebr(toks, pos, end), |o: Typebr| Instruction::BCC(o)))
    } else if up == "BCS"@ {
        Some(lift(spec_do_typebr(toks, pos, end), |o: Typebr| Instruction::BCS(o)))
    } else if up == "BEQ"@ {
        Some(lift(spec_do_typebr(toks, pos, end), |o: Typebr| Instruction::BEQ(o)))
    } else if up == "BGE"@ {
        Some(lift(spec_do_typebr(toks, pos, end), |o: Typebr| Instruction::BGE(o)))
    } else if up == "BGT"@ {
        Some(lift(spec_do_typebr(toks, pos, end), |o: Typebr| Instruction::BGT(o)))
    } else if up == "BHI"@ {
        Some(lift(spec_do_typebr(toks, pos, end), |o: Typebr| Instruction::BHI(o)))
    } else if up == "BHS"@ {
        Some(lift(spec_do_typebr(toks, pos, end), |o: Typebr| Instruction::BHS(o)))
    } else if up == "BLE"@ {
        Some(lift(spec_do_typebr(toks, pos, end), |o: Typebr| Instruction::BLE(o)))
    } else if up == "BLO"@ {
        Some(lift(spec_do_typebr(toks, pos, end), |o: Typebr| Instruction::BLO(o)))
    } else if up == "BLS"@ {
        Some(lift(spec_do_typebr(toks, pos, end), |o: Typebr| Instruction::BLS(o)))
    } else if up == "BLT"@ {
        Some(lift(spec_do_typebr(toks, pos, end), |o: Typebr| Instruction::BLT(o)))
    } else if up == "BMI"@ {
        Some(lift(spec_do_typebr(toks, pos, end), |o: Typebr| Instruction::BMI(o)))
    } else if up == "BNE"@ {
        Some(lift(spec_do_typebr(toks, pos, end), |o: Typebr| Instruction::BNE(o)))
    } else if up == "BPL"@ {
        Some(lift(spec_do_typebr(toks, pos, end), |o: Typebr| Instruction::BPL(o)))
    } else if up == "BRA"@ {
        Some(lift(spec_do_typebr(toks, pos, end), |o: Typebr| Instruction::BRA(o)))
    } else if up == "BRN"@ {
        Some(lift(spec_do_typebr(toks, pos, end), |o: Typebr| Instruction::BRN(o)))
    } else if up == "BSR"@ {
        Some(lift(spec_do_typebr(toks, pos, end), |o: Typebr| Instruction::BSR(o)))
    } else if up == "BVC"@ {
        Some(lift(spec_do_typebr(toks, pos, end), |o: Typebr| Instruction::BVC(o)))
    } else if up == "BVS"@ {
        Some(lift(spec_do_typebr(toks, pos, end), |o: Typebr| Instruction::BVS(o)))
    } else if up == "CLC"@ {
        Some(Ok((SpecElement::Inst(Instruction::CLC), pos)))
    } else if up == "CLF"@ {
        Some(Ok((SpecElement::Inst(Instruction::CLF), pos)))
    } else if up == "CLI"@ {
        Some(Ok((SpecElement::Inst(Instruction::CLI), pos)))
    } else if up == "CLIF"@ {
        Some(Ok((SpecElement::Inst(Instruction::CLIF), pos)))
    } else if up == "CLRA"@ {
        Some(Ok((SpecElement::Inst(Instruction::CLRA), pos)))
    } else if up == "CLRB"@ {
        Some(Ok((SpecElement::Inst(Instruction::CLRB), pos)))
    } else {
        None
    }
}

fn table_1(up: &str, tokens: &[Token], pos: usize, end: usize) -> (r: Option<Result<(Element, usize), String>>)
    requires
        pos <= end <= tokens@.len(),
    ensures
        match r {
            Some(res) => spec_table_1(up@, tokens@, pos as int, end as int) == Some(result_view(res)),
            None => spec_table_1(up@, tokens@, pos as int, end as int) is None,
        },
{
    if str_eq(up, "ABX") {
        return Some(Ok((Element::Inst(Instruction::ABX), pos)));
    }
    if str_eq(up, "ADCA") {
        return Some(match do_type1::<u8>(tokens, pos, end) {
            Ok((o, p)) => Ok((Element::Inst(Instruction::ADCA(o)), p)),
            Err(e) => Err(e),
        });
    }
    if str_eq(up, "ADCB") {
        return Some(match do_type1::<u8>(tokens, pos, end) {
            Ok((o, p)) => Ok((Element::Inst(Instruction::ADCB(o)), p)),
            Err(e) => Err(e),
        });
    }
    if str_eq(up, "ADDA") {
        return Some(match do_type1::<u8>(tokens, pos, end) {
            Ok((o, p)) => Ok((Element::Inst(Instruction::ADDA(o)), p)),
            Err(e) => Err(e),
        });
    }
    if str_eq(up, "ADDB") {
        return Some(match do_type1::<u8>(tokens, pos, end) {
            Ok((o, p)) => Ok((Element::Inst(Instruction::ADDB(o)), p)),
            Err(e) => Err(e),
        });
    }
    if str_eq(up, "ADDD") {
        return Some(match do_type1::<u16>(tokens, pos, end) {
            Ok((o, p)) => Ok((Element::Inst(Instruction::ADDD(o)), p)),
            Err(e) => Err(e),
        });
    }
    if str_eq(up, "ANDA") {
        return Some(match do_type1::<u8>(tokens, pos, end) {
            Ok((o, p)) => Ok((Element::Inst(Instruction::ANDA(o)), p)),
            Err(e) => Err(e),
        });
    }
    if str_eq(up, "ANDB") {
        return Some(match do_type1::<u8>(tokens, pos, end) {
            Ok((o, p)) => Ok((Element::Inst(Instruction::ANDB(o)), p)),
            Err(e) => Err(e),
        });
    }
    if str_eq(up, "ANDCC") {
        return Some(match do_typecc(tokens, pos, end) {
            Ok((o, p)) => Ok((Element::Inst(Instruction::ANDCC(o)), p)),
            Err(e) => Err(e),
        });
    }
    if str_eq(up, "ASLA") {
        return Some(Ok((Element::Inst(Instruction::ASLA), pos)));
    }
    if str_eq(up, "ASLB") {
        return Some(Ok((Element::Inst(Instruction::ASLB), pos)));
    }
    if str_eq(up, "ASL") {
        return Some(match do_type2(tokens, pos, end) {
            Ok((o, p)) => Ok((Element::Inst(Instruction::ASL(o)), p)),
            Err(e) => Err(e),
        });
    }
    if str_eq(up, "ASRA") {
        return Some(Ok((Element::Inst(Instruction::ASRA), pos)));
    }
    if str_eq(up, "ASRB") {
        return Some(Ok((Element::Inst(Instruction::ASRB), pos)));
    }
    if str_eq(up, "ASR") {
        return Some(match do_type2(tokens, pos, end) {
            Ok((o, p)) => Ok((Element::Inst(Instruction::ASR(o)), p)),
            Err(e) => Err(e),
        });
    }
    if str_eq(up, "BITA") {
        return Some(match do_type1::<u8>(tokens, pos, end) {
            Ok((o, p)) => Ok((Element::Inst(Instruction::BITA(o)), p)),
            Err(e) => Err(e),
        });
    }
    if str_eq(up, "BITB") {
        return Some(match do_type1::<u8>(tokens, pos, end) {
            Ok((o, p)) => Ok((Element::Inst(Instruction::BITB(o)), p)),
            Err(e) => Err(e),
        });
    }
    if str_eq(up, "BCC") {
        return Some(match do_typebr(tokens, pos, end) {
            Ok((o, p)) => Ok((Element::Inst(Instruction::BCC(o)), p)),
            Err(e) => Err(e),
        });
    }
    if str_eq(up, "BCS") {
        return Some(match do_typebr(tokens, pos, end) {
            Ok((o, p)) => Ok((Element::Inst(Instruction::BCS(o)), p)),
            Err(e) => Err(e),
        });
    }
    if str_eq(up, "BEQ") {
        return Some(match do_typebr(tokens, pos, end) {
            Ok((o, p)) => Ok((Element::Inst(Instruction::BEQ(o)), p)),
            Err(e) => Err(e),
        });
    }
    if str_eq(up, "BGE") {
        return Some(match do_typebr(tokens, pos, end) {
            Ok((o, p)) => Ok((Element::Inst(Instruction::BGE(o)), p)),
            Err(e) => Err(e),
        });
    }
    if str_eq(up, "BGT") {
        return Some(match do_typebr(tokens, pos, end) {
            Ok((o, p)) => Ok((Element::Inst(Instruction::BGT(o)), p)),
            Err(e) => Err(e),
        });
    }
    if str_eq(up, "BHI") {
        return Some(match do_typebr(tokens, pos, end) {
            Ok((o, p)) => Ok((Element::Inst(Instruction::BHI(o)), p)),
            Err(e) => Err(e),
        });
    }
    if str_eq(up, "BHS") {
        return Some(match do_typebr(tokens, pos, end) {
            Ok((o, p)) => Ok((Element::Inst(Instruction::BHS(o)), p)),
            Err(e) => Err(e),
        });
    }
    if str_eq(up, "BLE") {
        return Some(match do_typebr(tokens, pos, end) {
            Ok((o, p)) => Ok((Element::Inst(Instruction::BLE(o)), p)),
            Err(e) => Err(e),
        });
    }
    if str_eq(up, "BLO") {
        return Some(match do_typebr(tokens, pos, end) {
            Ok((o, p)) => Ok((Element::Inst(Instruction::BLO(o)), p)),
            Err(e) => Err(e),
        });
    }
    if str_eq(up, "BLS") {
        return Some(match do_typebr(tokens, pos, end) {
            Ok((o, p)) => Ok((Element::Inst(Instruction::BLS(o)), p)),
            Err(e) => Err(e),
        });
    }
    if str_eq(up, "BLT") {
        return Some(match do_typebr(tokens, pos, end) {
            Ok((o, p)) => Ok((Element::Inst(Instruction::BLT(o)), p)),
            Err(e) => Err(e),
        });
    }
    if str_eq(up, "BMI") {
        return Some(match do_typebr(tokens, pos, end) {
            Ok((o, p)) => Ok((Element::Inst(Instruction::BMI(o)), p)),
            Err(e) => Err(e),
        });
    }
    if str_eq(up, "BNE") {
        return Some(match do_typebr(tokens, pos, end) {
            Ok((o, p)) => Ok((Element::Inst(Instruction::BNE(o)), p)),
            Err(e) => Err(e),
        });
    }
    if str_eq(up, "BPL") {
        return Some(match do_typebr(tokens, pos, end) {
            Ok((o, p)) => Ok((Element::Inst(Instruction::BPL(o)), p)),
            Err(e) => Err(e),
        });
    }
    if str_eq(up, "BRA") {
        return Some(match do_typebr(tokens, pos, end) {
            Ok((o, p)) => Ok((Element::Inst(Instruction::BRA(o)), p)),
            Err(e) => Err(e),
        });
    }
    if str_eq(up, "BRN") {
        return Some(match do_typebr(tokens, pos, end) {
            Ok((o, p)) => Ok((Element::Inst(Instruction::BRN(o)), p)),
            Err(e) => Err(e),
        });
    }
    if str_eq(up, "BSR") {
        return Some(match do_typebr(tokens, pos, end) {
            Ok((o, p)) => Ok((Element::Inst(Instruction::BSR(o)), p)),
            Err(e) => Err(e),
        });
    }
    if str_eq(up, "BVC") {
        return Some(match do_typebr(tokens, pos, end) {
            Ok((o, p)) => Ok((Element::Inst(Instruction::BVC(o)), p)),
            Err(e) => Err(e),
        });
    }
    if str_eq(up, "BVS") {
        return Some(match do_typebr(tokens, pos, end) {
            Ok((o, p)) => Ok((Element::Inst(Instruction::BVS(o)), p)),
            Err(e) => Err(e),
        });
    }
    if str_eq(up, "CLC") {
        return Some(Ok((Element::Inst(Instruction::CLC), pos)));
    }
    if str_eq(up, "CLF") {
        return Some(Ok((Element::Inst(Instruction::CLF), pos)));
    }
    if str_eq(up, "CLI") {
        return Some(Ok((Element::Inst(Instruction::CLI), pos)));
    }
    if str_eq(up, "CLIF") {
        return Some(Ok((Element::Inst(Instruction::CLIF), pos)));
    }
    if str_eq(up, "CLRA") {
        return Some(Ok((Element::Inst(Instruction::CLRA), pos)));
    }
    if str_eq(up, "CLRB") {
        return Some(Ok((Element::Inst(Instruction::CLRB), pos)));
    }
    None
}

/// Part 2 of the instruction table.
pub open spec fn spec_table_2(up: Seq<char>, toks: Seq<Token>, pos: int, end: int) -> Option<
    Result<(SpecElement, int), Seq<char>>,
> {
    if up == "CLR"@ {
        Some(lift(spec_do_type2(toks, pos, end), |o: Type2| Instruction::CLR(o)))
    } else if up == "CMPA"@ {
        Some(lift(spec_do_type1::<u8>(toks, pos, end), |o: Type1<u8>| Instruction::CMPA(o)))
    } else if up == "CMPB"@ {
        Some(lift(spec_do_type1::<u8>(toks, pos, end), |o: Type1<u8>| Instruction::CMPB(o)))
    } else if up == "CMPD"@ {
        Some(lift(spec_do_type1::<u16>(toks, pos, end), |o: Type1<u16>| Instruction::CMPD(o)))
    } else if up == "CMPS"@ {
        Some(lift(spec_do_type1::<u16>(toks, pos, end), |o: Type1<u16>| Instruction::CMPS(o)))
    } else if up == "CMPU"@ {
        Some(lift(spec_do_type1::<u16>(toks, pos, end), |o: Type1<u16>| Instruction::CMPU(o)))
    } else if up == "CMPX"@ {
        Some(lift(spec_do_type1::<u16>(toks, pos, end), |o: Type1<u16>| Instruction::CMPX(o)))
    } else if up == "CMPY"@ {
        Some(lift(spec_do_type1::<u16>(toks, pos, end), |o: Type1<u16>| Instruction::CMPY(o)))
    } else if up == "CLV"@ {
        Some(Ok((SpecElement::Inst(Instruction::CLV), pos)))
    } else if up == "COMA"@ {
        Some(Ok((SpecElement::Inst(Instruction::COMA), pos)))
    } else if up == "COMB"@ {
        Some(Ok((SpecElement::Inst(Instruction::COMB), pos)))
    } else if up == "COM"@ {
        Some(lift(spec_do_type2(toks, pos, end), |o: Type2| Instruction::COM(o)))
    } else if up == "CWAI"@ {
        Some(lift(spec_do_typecc(toks, pos, end), |o: Typecc| Instruction::CWAI(o)))
    } else if up == "DAA"@ {
        Some(Ok((SpecElement::Inst(Instruction::DAA), pos)))
    } else if up == "DECA"@ {
        Some(Ok((SpecElement::Inst(Instruction::DECA), pos)))
    } else if up == "DECB"@ {
        Some(Ok((SpecElement::Inst(Instruction::DECB), pos)))
    } else if up == "DEC"@ {
        Some(lift(spec_do_type2(toks, pos, end), |o: Type2| Instruction::DEC(o)))
    } else if up == "EXG"@ {
        Some(lift(spec_do_typext(toks, pos, end), |o: Typext| Instruction::EXG(o)))
    } else if up == "INCA"@ {
        Some(Ok((SpecElement::Inst(Instruction::INCA), pos)))
    } else if up == "INCB"@ {
        Some(Ok((SpecElement::Inst(Instruction::INCB), pos)))
    } else if up == "INC"@ {
        Some(lift(spec_do_type2(toks, pos, end), |o: Type2| Instruction::INC(o)))
    } else if up == "JMP"@ {
        Some(lift(spec_do_type2(toks, pos, end), |o: Type2| Instruction::JMP(o)))
    } else if up == "JSR"@ {
        Some(lift(spec_do_type2(toks, pos, end), |o: Type2| Instruction::JSR(o)))
    } else if up == "LBCC"@ {
        Some(lift(spec_do_typelbr(toks, pos, end), |o: Typebr| Instruction::BCC(o)))
    } else if up == "LBCS"@ {
        Some(lift(spec_do_typelbr(toks, pos, end), |o: Typebr| Instruction::BCS(o)))
    } else if up == "LBEQ"@ {
        Some(lift(spec_do_typelbr(toks, pos, end), |o: Typebr| Instruction::BEQ(o)))
    } else if up == "LBGE"@ {
        Some(lift(spec_do_typelbr(toks, pos, end), |o: Typebr| Instruction::BGE(o)))
    } else if up == "LBGT"@ {
        Some(lift(spec_do_typelbr(toks, pos, end), |o: Typebr| Instruction::BGT(o)))
    } else if up == "LBHI"@ {
        Some(lift(spec_do_typelbr(toks, pos, end), |o: Typebr| Instruction::BHI(o)))
    } else if up == "LBHS"@ {
        Some(lift(spec_do_typelbr(toks, pos, end), |o: Typebr| Instruction::BHS(o)))
    } else if up == "LBLE"@ {
        Some(lift(spec_do_typelbr(toks, pos, end), |o: Typebr| Instruction::BLE(o)))
    } else if up == "LBLO"@ {
        Some(lift(spec_do_typelbr(toks, pos, end), |o: Typebr| Instruction::BLO(o)))
    } else if up == "LBLS"@ {
        Some(lift(spec_do_typelbr(toks, pos, end), |o: Typebr| Instruction::BLS(o)))
    } else if up == "LBLT"@ {
        Some(lift(spec_do_typelbr(toks, pos, end), |o: Typebr| Instruction::BLT(o)))
    } else if up == "LBMI"@ {
        Some(lift(spec_do_typelbr(toks, pos, end), |o: Typebr| Instruction::BMI(o)))
    } else if up == "LBNE"@ {
        Some(lift(spec_do_typelbr(toks, pos, end), |o: Typebr| Instruction::BNE(o)))
    } else if up == "LBPL"@ {
        Some(lift(spec_do_typelbr(toks, pos, end), |o: Typebr| Instruction::BPL(o)))
    } else if up == "LBRA"@ {
        Some(lift(spec_do_typelbr(toks, pos, end), |o: Typebr| Instruction::BRA(o)))
    } else if up == "LBRN"@ {
        Some(lift(spec_do_typelbr(toks, pos, end), |o: Typebr| Instruction::BRN(o)))
    } else if up == "LBSR"@ {
        Some(lift(spec_do_typelbr(toks, pos, end), |o: Typebr| Instruction::BSR(o)))
    } else if up == "LBVC"@ {
        Some(lift(spec_do_typelbr(toks, pos, end), |o: Typebr| Instruction::BVC(o)))
    } else if up == "LBVS"@ {
        Some(lift(spec_do_typelbr(toks, pos, end), |o: Typebr| Instruction::BVS(o)))
    } else {
        None
    }
}

fn table_2(up: &str, tokens: &[Token], pos: usize, end: usize) -> (r: Option<Result<(Element, usize), String>>)
    requires
        pos <= end <= tokens@.len(),
    ensures
        match r {
            Some(res) => spec_table_2(up@, tokens@, pos as int, end as int) == Some(result_view(res)),
            None => spec_table_2(up@, tokens@, pos as int, end as int) is None,
        },
{
    if str_eq(up, "CLR") {
        return Some(match do_type2(tokens, pos, end) {
            Ok((o, p)) => Ok((Element::Inst(Instruction::CLR(o)), p)),
            Err(e) => Err(e),
        });
    }
    if str_eq(up, "CMPA") {
        return Some(match do_type1::<u8>(tokens, pos, end) {
            Ok((o, p)) => Ok((Element::Inst(Instruction::CMPA(o)), p)),
            Err(e) => Err(e),
        });
    }
    if str_eq(up, "CMPB") {
        return Some(match do_type1::<u8>(tokens, pos, end) {
            Ok((o, p)) => Ok((Element::Inst(Instruction::CMPB(o)), p)),
            Err(e) => Err(e),
        });
    }
    if str_eq(up, "CMPD") {
        return Some(match do_type1::<u16>(tokens, pos, end) {
            Ok((o, p)) => Ok((Element::Inst(Instruction::CMPD(o)), p)),
            Err(e) => Err(e),
        });
    }
    if str_eq(up, "CMPS") {
        return Some(match do_type1::<u16>(tokens, pos, end) {
            Ok((o, p)) => Ok((Element::Inst(Instruction::CMPS(o)), p)),
            Err(e) => Err(e),
        });
    }
    if str_eq(up, "CMPU") {
        return Some(match do_type1::<u16>(tokens, pos, end) {
            Ok((o, p)) => Ok((Element::Inst(Instruction::CMPU(o)), p)),
            Err(e) => Err(e),
        });
    }
    if str_eq(up, "CMPX") {
        return Some(match do_type1::<u16>(tokens, pos, end) {
            Ok((o, p)) => Ok((Element::Inst(Instruction::CMPX(o)), p)),
            Err(e) => Err(e),
        });
    }
    if str_eq(up, "CMPY") {
        return Some(match do_type1::<u16>(tokens, pos, end) {
            Ok((o, p)) => Ok((Element::Inst(Instruction::CMPY(o)), p)),
            Err(e) => Err(e),
        });
    }
    if str_eq(up, "CLV") {
        return Some(Ok((Element::Inst(Instruction::CLV), pos)));
    }
    if str_eq(up, "COMA") {
        return Some(Ok((Element::Inst(Instruction::COMA), pos)));
    }
    if str_eq(up, "COMB") {
        return Some(Ok((Element::Inst(Instruction::COMB), pos)));
    }
    if str_eq(up, "COM") {
        return Some(match do_type2(tokens, pos, end) {
            Ok((o, p)) => Ok((Element::Inst(Instruction::COM(o)), p)),
            Err(e) => Err(e),
        });
    }
    if str_eq(up, "CWAI") {
        return Some(match do_typecc(tokens, pos, end) {
            Ok((o, p)) => Ok((Element::Inst(Instruction::CWAI(o)), p)),
            Err(e) => Err(e),
        });
    }
    if str_eq(up, "DAA") {
        return Some(Ok((Element::Inst(Instruction::DAA), pos)));
    }
    if str_eq(up, "DECA") {
        return Some(Ok((Element::Inst(Instruction::DECA), pos)));
    }
    if str_eq(up, "DECB") {
        return Some(Ok((Element::Inst(Instruction::DECB), pos)));
    }
    if str_eq(up, "DEC") {
        return Some(match do_type2(tokens, pos, end) {
            Ok((o, p)) => Ok((Element::Inst(Instruction::DEC(o)), p)),
            Err(e) => Err(e),
        });
    }
    if str_eq(up, "EXG") {
        return Some(match do_typext(tokens, pos, end) {
            Ok((o, p)) => Ok((Element::Inst(Instruction::EXG(o)), p)),
            Err(e) => Err(e),
        });
    }
    if str_eq(up, "INCA") {
        return Some(Ok((Element::Inst(Instruction::INCA), pos)));
    }
    if str_eq(up, "INCB") {
        return Some(Ok((Element::Inst(Instruction::INCB), pos)));
    }
    if str_eq(up, "INC") {
        return Some(match do_type2(tokens, pos, end) {
            Ok((o, p)) => Ok((Element::Inst(Instruction::INC(o)), p)),
            Err(e) => Err(e),
        });
    }
    if str_eq(up, "JMP") {
        return Some(match do_type2(tokens, pos, end) {
            Ok((o, p)) => Ok((Element::Inst(Instruction::JMP(o)), p)),
            Err(e) => Err(e),
        });
    }
    if str_eq(up, "JSR") {
        return Some(match do_type2(tokens, pos, end) {
            Ok((o, p)) => Ok((Element::Inst(Instruction::JSR(o)), p)),
            Err(e) => Err(e),
        });
    }
    if str_eq(up, "LBCC") {
        return Some(match do_typelbr(tokens, pos, end) {
            Ok((o, p)) => Ok((Element::Inst(Instruction::BCC(o)), p)),
            Err(e) => Err(e),
        });
    }
    if str_eq(up, "LBCS") {
        return Some(match do_typelbr(tokens, pos, end) {
            Ok((o, p)) => Ok((Element::Inst(Instruction::BCS(o)), p)),
            Err(e) => Err(e),
        });
    }
    if str_eq(up, "LBEQ") {
        return Some(match do_typelbr(tokens, pos, end) {
            Ok((o, p)) => Ok((Element::Inst(Instruction::BEQ(o)), p)),
            Err(e) => Err(e),
        });
    }
    if str_eq(up, "LBGE") {
        return Some(match do_typelbr(tokens, pos, end) {
            Ok((o, p)) => Ok((Element::Inst(Instruction::BGE(o)), p)),
            Err(e) => Err(e),
        });
    }
    if str_eq(up, "LBGT") {
        return Some(match do_typelbr(tokens, pos, end) {
            Ok((o, p)) => Ok((Element::Inst(Instruction::BGT(o)), p)),
            Err(e) => Err(e),
        });
    }
    if str_eq(up, "LBHI") {
        return Some(match do_typelbr(tokens, pos, end) {
            Ok((o, p)) => Ok((Element::Inst(Instruction::BHI(o)), p)),
            Err(e) => Err(e),
        });
    }
    if str_eq(up, "LBHS") {
        return Some(match do_typelbr(tokens, pos, end) {
            Ok((o, p)) => Ok((Element::Inst(Instruction::BHS(o)), p)),
            Err(e) => Err(e),
        });
    }
    if str_eq(up, "LBLE") {
        return Some(match do_typelbr(tokens, pos, end) {
            Ok((o, p)) => Ok((Element::Inst(Instruction::BLE(o)), p)),
            Err(e) => Err(e),
        });
    }
    if str_eq(up, "LBLO") {
        return Some(match do_typelbr(tokens, pos, end) {
            Ok((o, p)) => Ok((Element::Inst(Instruction::BLO(o)), p)),
            Err(e) => Err(e),
        });
    }
    if str_eq(up, "LBLS") {
        return Some(match do_typelbr(tokens, pos, end) {
            Ok((o, p)) => Ok((Element::Inst(Instruction::BLS(o)), p)),
            Err(e) => Err(e),
        });
    }
    if str_eq(up, "LBLT") {
        return Some(match do_typelbr(tokens, pos, end) {
            Ok((o, p)) => Ok((Element::Inst(Instruction::BLT(o)), p)),
            Err(e) => Err(e),
        });
    }
    if str_eq(up, "LBMI") {
        return Some(match do_typelbr(tokens, pos, end) {
            Ok((o, p)) => Ok((Element::Inst(Instruction::BMI(o)), p)),
            Err(e) => Err(e),
        });
    }
    if str_eq(up, "LBNE") {
        return Some(match do_typelbr(tokens, pos, end) {
            Ok((o, p)) => Ok((Element::Inst(Instruction::BNE(o)), p)),
            Err(e) => Err(e),
        });
    }
    if str_eq(up, "LBPL") {
        return Some(match do_typelbr(tokens, pos, end) {
            Ok((o, p)) => Ok((Element::Inst(Instruction::BPL(o)), p)),
            Err(e) => Err(e),
        });
    }
    if str_eq(up, "LBRA") {
        return Some(match do_typelbr(tokens, pos, end) {
            Ok((o, p)) => Ok((Element::Inst(Instruction::BRA(o)), p)),
            Err(e) => Err(e),
        });
    }
    if str_eq(up, "LBRN") {
        return Some(match do_typelbr(tokens, pos, end) {
            Ok((o, p)) => Ok((Element::Inst(Instruction::BRN(o)), p)),
            Err(e) => Err(e),
        });
    }
    if str_eq(up, "LBSR") {
        return Some(match do_typelbr(tokens, pos, end) {
            Ok((o, p)) => Ok((Element::Inst(Instruction::BSR(o)), p)),
            Err(e) => Err(e),
        });
    }
    if str_eq(up, "LBVC") {
        return Some(match do_typelbr(tokens, pos, end) {
            Ok((o, p)) => Ok((Element::Inst(Instruction::BVC(o)), p)),
            Err(e) => Err(e),
        });
    }
    if str_eq(up, "LBVS") {
        return Some(match do_typelbr(tokens, pos, end) {
            Ok((o, p)) => Ok((Element::Inst(Instruction::BVS(o)), p)),
            Err(e) => Err(e),
        });
    }
    None
}

/// Part 3 of the instruction table.
pub open spec fn spec_table_3(up: Seq<char>, toks: Seq<Token>, pos: int, end: int) -> Option<
    Result<(SpecElement, int), Seq<char>>,
> {
    if up == "LDA"@ {
        Some(lift(spec_do_type1::<u8>(toks, pos, end), |o: Type1<u8>| Instruction::LDA(o)))
    } else if up == "LDB"@ {
        Some(lift(spec_do_type1::<u8>(toks, pos, end), |o: Type1<u8>| Instruction::LDB(o)))
    } else if up == "LDD"@ {
        Some(lift(spec_do_type1::<u16>(toks, pos, end), |o: Type1<u16>| Instruction::LDD(o)))
    } else if up == "LDX"@ {
        Some(lift(spec_do_type1::<u16>(toks, pos, end), |o: Type1<u16>| Instruction::LDX(o)))
    } else if up == "LDY"@ {
        Some(lift(spec_do_type1::<u16>(toks, pos, end), |o: Type1<u16>| Instruction::LDY(o)))
    } else if up == "LDS"@ {
        Some(lift(spec_do_type1::<u16>(toks, pos, end), |o: Type1<u16>| Instruction::LDS(o)))
    } else if up == "LDU"@ {
        Some(lift(spec_do_type1::<u16>(toks, pos, end), |o: Type1<u16>| Instruction::LDU(o)))
    } else if up == "LEAX"@ {
        Some(lift(spec_do_type2(toks, pos, end), |o: Type2| Instruction::LEAX(o)))
    } else if up == "LEAY"@ {
        Some(lift(spec_do_type2(toks, pos, end), |o: Type2| Instruction::LEAY(o)))
    } else if up == "LEAU"@ {
        Some(lift(spec_do_type2(toks, pos, end), |o: Type2| Instruction::LEAU(o)))
    } else if up == "LEAS"@ {
        Some(lift(spec_do_type2(toks, pos, end), |o: Type2| Instruction::LEAS(o)))
    } else if up == "LSLA"@ {
        Some(Ok((SpecElement::Inst(Instruction::LSLA), pos)))
    } else if up == "LSLB"@ {
        Some(Ok((SpecElement::Inst(Instruction::LSLB), pos)))
    } else if up == "LSL"@ {
        Some(lift(spec_do_type2(toks, pos, end), |o: Type2| Instruction::LSL(o)))
    } else if up == "LSRA"@ {
        Some(Ok((SpecElement::Inst(Instruction::LSRA), pos)))
    } else if up == "LSRB"@ {
        Some(Ok((SpecElement::Inst(Instruction::LSRB), pos)))
    } else if up == "LSR"@ {
        Some(lift(spec_do_type2(toks, pos, end), |o: Type2| Instruction::LSR(o)))
    } else if up == "MUL"@ {
        Some(Ok((SpecElement::Inst(Instruction::MUL), pos)))
    } else if up == "NEGA"@ {
        Some(Ok((SpecElement::Inst(Instruction::NEGA), pos)))
    } else if up == "NEGB"@ {
        Some(Ok((SpecElement::Inst(Instruction::NEGB), pos)))
    } else if up == "NEG"@ {
        Some(lift(spec_do_type2(toks, pos, end), |o: Type2| Instruction::NEG(o)))
    } else if up == "NOP"@ {
        Some(Ok((SpecElement::Inst(Instruction::NOP), pos)))
    } else if up == "ORA"@ {
        Some(lift(spec_do_type1::<u8>(toks, pos, end), |o: Type1<u8>| Instruction::ORA(o)))
    } else if up == "ORB"@ {
        Some(lift(spec_do_type1::<u8>(toks, pos, end), |o: Type1<u8>| Instruction::ORB(o)))
    } else if up == "ORCC"@ {
        Some(lift(spec_do_typecc(toks, pos, end), |o: Typecc| Instruction::ORCC(o)))
    } else if up == "PSHS"@ {
        Some(lift(spec_do_typepspl(Stack::S, toks, pos, end), |o: Typepspl| Instruction::PSHS(o)))
    } else if up == "PSHU"@ {
        Some(lift(spec_do_typepspl(Stack::U, toks, pos, end), |o: Typepspl| Instruction::PSHU(o)))
    } else if up == "PULS"@ {
        Some(lift(spec_do_typepspl(Stack::S, toks, pos, end), |o: Typepspl| Instruction::PULS(o)))
    } else if up == "PULU"@ {
        Some(lift(spec_do_typepspl(Stack::U, toks, pos, end), |o: Typepspl| Instruction::PULU(o)))
    } else if up == "ROLA"@ {
        Some(Ok((SpecElement::Inst(Instruction::ROLA), pos)))
    } else if up == "ROLB"@ {
        Some(Ok((SpecElement::Inst(Instruction::ROLB), pos)))
    } else if up == "ROL"@ {
        Some(lift(spec_do_type2(toks, pos, end), |o: Type2| Instruction::ROL(o)))
    } else if up == "RORA"@ {
        Some(Ok((SpecElement::Inst(Instruction::RORA), pos)))
    } else if up == "RORB"@ {
        Some(Ok((SpecElement::Inst(Instruction::RORB), pos)))
    } else if up == "ROR"@ {
        Some(lift(spec_do_type2(toks, pos, end), |o: Type2| Instruction::ROR(o)))
    } else if up == "RTI"@ {
        Some(Ok((SpecElement::Inst(Instruction::RTI), pos)))
    } else if up == "RTS"@ {
        Some(Ok((SpecElement::Inst(Instruction::RTS), pos)))
    } else if up == "SBCA"@ {
        Some(lift(spec_do_type1::<u8>(toks, pos, end), |o: Type1<u8>| Instruction::SBCA(o)))
    } else if up == "SBCB"@ {
        Some(lift(spec_do_type1::<u8>(toks, pos, end), |o: Type1<u8>| Instruction::SBCB(o)))
    } else if up == "SBCC"@ {
        Some(lift(spec_do_typesbr(toks, pos, end), |o: Typebr| Instruction::BCC(o)))
    } else if up == "SBCS"@ {
        Some(lift(spec_do_typesbr(toks, pos, end), |o: Typebr| Instruction::BCS(o)))
    } else if up == "SBEQ"@ {
        Some(lift(spec_do_typesbr(toks, pos, end), |o: Typebr| Instruction::BEQ(o)))
    } else {
        None
    }
}

fn table_3(up: &str, tokens: &[Token], pos: usize, end: usize) -> (r: Option<Result<(Element, usize), String>>)
    requires
        pos <= end <= tokens@.len(),
    ensures
        match r {
            Some(res) => spec_table_3(up@, tokens@, pos as int, end as int) == Some(result_view(res)),
            None => spec_table_3(up@, tokens@, pos as int, end as int) is None,
        },
{
    if str_eq(up, "LDA") {
        return Some(match do_type1::<u8>(tokens, pos, end) {
            Ok((o, p)) => Ok((Element::Inst(Instruction::LDA(o)), p)),
            Err(e) => Err(e),
        });
    }
    if str_eq(up, "LDB") {
        return Some(match do_type1::<u8>(tokens, pos, end) {
            Ok((o, p)) => Ok((Element::Inst(Instruction::LDB(o)), p)),
            Err(e) => Err(e),
        });
    }
    if str_eq(up, "LDD") {
        return Some(match do_type1::<u16>(tokens, pos, end) {
            Ok((o, p)) => Ok((Element::Inst(Instruction::LDD(o)), p)),
            Err(e) => Err(e),
        });
    }
    if str_eq(up, "LDX") {
        return Some(match do_type1::<u16>(tokens, pos, end) {
            Ok((o, p)) => Ok((Element::Inst(Instruction::LDX(o)), p)),
            Err(e) => Err(e),
        });
    }
    if str_eq(up, "LDY") {
        return Some(match do_type1::<u16>(tokens, pos, end) {
            Ok((o, p)) => Ok((Element::Inst(Instruction::LDY(o)), p)),
            Err(e) => Err(e),
        });
    }
    if str_eq(up, "LDS") {
        return Some(match do_type1::<u16>(tokens, pos, end) {
            Ok((o, p)) => Ok((Element::Inst(Instruction::LDS(o)), p)),
            Err(e) => Err(e),
        });
    }
    if str_eq(up, "LDU") {
        return Some(match do_type1::<u16>(tokens, pos, end) {
            Ok((o, p)) => Ok((Element::Inst(Instruction::LDU(o)), p)),
            Err(e) => Err(e),
        });
    }
    if str_eq(up, "LEAX") {
        return Some(match do_type2(tokens, pos, end) {
            Ok((o, p)) => Ok((Element::Inst(Instruction::LEAX(o)), p)),
            Err(e) => Err(e),
        });
    }
    if str_eq(up, "LEAY") {
        return Some(match do_type2(tokens, pos, end) {
            Ok((o, p)) => Ok((Element::Inst(Instruction::LEAY(o)), p)),
            Err(e) => Err(e),
        });
    }
    if str_eq(up, "LEAU") {
        return Some(match do_type2(tokens, pos, end) {
            Ok((o, p)) => Ok((Element::Inst(Instruction::LEAU(o)), p)),
            Err(e) => Err(e),
        });
    }
    if str_eq(up, "LEAS") {
        return Some(match do_type2(tokens, pos, end) {
            Ok((o, p)) => Ok((Element::Inst(Instruction::LEAS(o)), p)),
            Err(e) => Err(e),
        });
    }
    if str_eq(up, "LSLA") {
        return Some(Ok((Element::Inst(Instruction::LSLA), pos)));
    }
    if str_eq(up, "LSLB") {
        return Some(Ok((Element::Inst(Instruction::LSLB), pos)));
    }
    if str_eq(up, "LSL") {
        return Some(match do_type2(tokens, pos, end) {
            Ok((o, p)) => Ok((Element::Inst(Instruction::LSL(o)), p)),
            Err(e) => Err(e),
        });
    }
    if str_eq(up, "LSRA") {
        return Some(Ok((Element::Inst(Instruction::LSRA), pos)));
    }
    if str_eq(up, "LSRB") {
        return Some(Ok((Element::Inst(Instruction::LSRB), pos)));
    }
    if str_eq(up, "LSR") {
        return Some(match do_type2(tokens, pos, end) {
            Ok((o, p)) => Ok((Element::Inst(Instruction::LSR(o)), p)),
            Err(e) => Err(e),
        });
    }
    if str_eq(up, "MUL") {
        return Some(Ok((Element::Inst(Instruction::MUL), pos)));
    }
    if str_eq(up, "NEGA") {
        return Some(Ok((Element::Inst(Instruction::NEGA), pos)));
    }
    if str_eq(up, "NEGB") {
        return Some(Ok((Element::Inst(Instruction::NEGB), pos)));
    }
    if str_eq(up, "NEG") {
        return Some(match do_type2(tokens, pos, end) {
            Ok((o, p)) => Ok((Element::Inst(Instruction::NEG(o)), p)),
            Err(e) => Err(e),
        });
    }
    if str_eq(up, "NOP") {
        return Some(Ok((Element::Inst(Instruction::NOP), pos)));
    }
    if str_eq(up, "ORA") {
        return Some(match do_type1::<u8>(tokens, pos, end) {
            Ok((o, p)) => Ok((Element::Inst(Instruction::ORA(o)), p)),
            Err(e) => Err(e),
        });
    }
    if str_eq(up, "ORB") {
        return Some(match do_type1::<u8>(tokens, pos, end) {
            Ok((o, p)) => Ok((Element::Inst(Instruction::ORB(o)), p)),
            Err(e) => Err(e),
        });
    }
    if str_eq(up, "ORCC") {
        return Some(match do_typecc(tokens, pos, end) {
            Ok((o, p)) => Ok((Element::Inst(Instruction::ORCC(o)), p)),
            Err(e) => Err(e),
        });
    }
    if str_eq(up, "PSHS") {
        return Some(match do_typepspl(Stack::S, tokens, pos, end) {
            Ok((o, p)) => Ok((Element::Inst(Instruction::PSHS(o)), p)),
            Err(e) => Err(e),
        });
    }
    if str_eq(up, "PSHU") {
        return Some(match do_typepspl(Stack::U, tokens, pos, end) {
            Ok((o, p)) => Ok((Element::Inst(Instruction::PSHU(o)), p)),
            Err(e) => Err(e),
        });
    }
    if str_eq(up, "PULS") {
        return Some(match do_typepspl(Stack::S, tokens, pos, end) {
            Ok((o, p)) => Ok((Element::Inst(Instruction::PULS(o)), p)),
            Err(e) => Err(e),
        });
    }
    if str_eq(up, "PULU") {
        return Some(match do_typepspl(Stack::U, tokens, pos, end) {
            Ok((o, p)) => Ok((Element::Inst(Instruction::PULU(o)), p)),
            Err(e) => Err(e),
        });
    }
    if str_eq(up, "ROLA") {
        return Some(Ok((Element::Inst(Instruction::ROLA), pos)));
    }
    if str_eq(up, "ROLB") {
        return Some(Ok((Element::Inst(Instruction::ROLB), pos)));
    }
    if str_eq(up, "ROL") {
        return Some(match do_type2(tokens, pos, end) {
            Ok((o, p)) => Ok((Element::Inst(Instruction::ROL(o)), p)),
            Err(e) => Err(e),
        });
    }
    if str_eq(up, "RORA") {
        return Some(Ok((Element::Inst(Instruction::RORA), pos)));
    }
    if str_eq(up, "RORB") {
        return Some(Ok((Element::Inst(Instruction::RORB), pos)));
    }
    if str_eq(up, "ROR") {
        return Some(match do_type2(tokens, pos, end) {
            Ok((o, p)) => Ok((Element::Inst(Instruction::ROR(o)), p)),
            Err(e) => Err(e),
        });
    }
    if str_eq(up, "RTI") {
        return Some(Ok((Element::Inst(Instruction::RTI), pos)));
    }
    if str_eq(up, "RTS") {
        return Some(Ok((Element::Inst(Instruction::RTS), pos)));
    }
    if str_eq(up, "SBCA") {
        return Some(match do_type1::<u8>(tokens, pos, end) {
            Ok((o, p)) => Ok((Element::Inst(Instruction::SBCA(o)), p)),
            Err(e) => Err(e),
        });
    }
    if str_eq(up, "SBCB") {
        return Some(match do_type1::<u8>(tokens, pos, end) {
            Ok((o, p)) => Ok((Element::Inst(Instruction::SBCB(o)), p)),
            Err(e) => Err(e),
        });
    }
    if str_eq(up, "SBCC") {
        return Some(match do_typesbr(tokens, pos, end) {
            Ok((o, p)) => Ok((Element::Inst(Instruction::BCC(o)), p)),
            Err(e) => Err(e),
        });
    }
    if str_eq(up, "SBCS") {
        return Some(match do_typesbr(tokens, pos, end) {
            Ok((o, p)) => Ok((Element::Inst(Instruction::BCS(o)), p)),
            Err(e) => Err(e),
        });
    }
    if str_eq(up, "SBEQ") {
        return Some(match do_typesbr(tokens, pos, end) {
            Ok((o, p)) => Ok((Element::Inst(Instruction::BEQ(o)), p)),
            Err(e) => Err(e),
        });
    }
    None
}

/// Part 4 of the instruction table.
pub open spec fn spec_table_4(up: Seq<char>, toks: Seq<Token>, pos: int, end: int) -> Option<
    Result<(SpecElement, int), Seq<char>>,
> {
    if up == "SBGE"@ {
        Some(lift(spec_do_typesbr(toks, pos, end), |o: Typebr| Instruction::BGE(o)))
    } else if up == "SBGT"@ {
        Some(lift(spec_do_typesbr(toks, pos, end), |o: Typebr| Instruction::BGT(o)))
    } else if up == "SBHI"@ {
        Some(lift(spec_do_typesbr(toks, pos, end), |o: Typebr| Instruction::BHI(o)))
    } else if up == "SBHS"@ {
        Some(lift(spec_do_typesbr(toks, pos, end), |o: Typebr| Instruction::BHS(o)))
    } else if up == "SBLE"@ {
        Some(lift(spec_do_typesbr(toks, pos, end), |o: Typebr| Instruction::BLE(o)))
    } else if up == "SLO"@ {
        Some(lift(spec_do_typesbr(toks, pos, end), |o: Typebr| Instruction::BLO(o)))
    } else if up == "SLS"@ {
        Some(lift(spec_do_typesbr(toks, pos, end), |o: Typebr| Instruction::BLS(o)))
    } else if up == "SLT"@ {
        Some(lift(spec_do_typesbr(toks, pos, end), |o: Typebr| Instruction::BLT(o)))
    } else if up == "SBMI"@ {
        Some(lift(spec_do_typesbr(toks, pos, end), |o: Typebr| Instruction::BMI(o)))
    } else if up == "SBNE"@ {
        Some(lift(spec_do_typesbr(toks, pos, end), |o: Typebr| Instruction::BNE(o)))
    } else if up == "SBPL"@ {
        Some(lift(spec_do_typesbr(toks, pos, end), |o: Typebr| Instruction::BPL(o)))
    } else if up == "SBRA"@ {
        Some(lift(spec_do_typesbr(toks, pos, end), |o: Typebr| Instruction::BRA(o)))
    } else if up == "SBRN"@ {
        Some(lift(spec_do_typesbr(toks, pos, end), |o: Typebr| Instruction::BRN(o)))
    } else if up == "SBSR"@ {
        Some(lift(spec_do_typesbr(toks, pos, end), |o: Typebr| Instruction::BSR(o)))
    } else if up == "SBVC"@ {
        Some(lift(spec_do_typesbr(toks, pos, end), |o: Typebr| Instruction::BVC(o)))
    } else if up == "SBVS"@ {
        Some(lift(spec_do_typesbr(toks, pos, end), |o: Typebr| Instruction::BVS(o)))
    } else if up == "SEC"@ {
        Some(Ok((SpecElement::Inst(Instruction::SEC), pos)))
    } else if up == "SEF"@ {
        Some(Ok((SpecElement::Inst(Instruction::SEF), pos)))
    } else if up == "SEI"@ {
        Some(Ok((SpecElement::Inst(Instruction::SEI), pos)))
    } else if up == "SEIF"@ {
        Some(Ok((SpecElement::Inst(Instruction::SEIF), pos)))
    } else if up == "SEV"@ {
        Some(Ok((SpecElement::Inst(Instruction::SEV), pos)))
    } else if up == "SEX"@ {
        Some(Ok((SpecElement::Inst(Instruction::SEX), pos)))
    } else if up == "STA"@ {
        Some(lift(spec_do_type2(toks, pos, end), |o: Type2| Instruction::STA(o)))
    } else if up == "STB"@ {
        Some(lift(spec_do_type2(toks, pos, end), |o: Type2| Instruction::STB(o)))
    } else if up == "STD"@ {
        Some(lift(spec_do_type2(toks, pos, end), |o: Type2| Instruction::STD(o)))
    } else if up == "STX"@ {
        Some(lift(spec_do_type2(toks, pos, end), |o: Type2| Instruction::STX(o)))
    } else if up == "STY"@ {
        Some(lift(spec_do_type2(toks, pos, end), |o: Type2| Instruction::STY(o)))
    } else if up == "STU"@ {
        Some(lift(spec_do_type2(toks, pos, end), |o: Type2| Instruction::STU(o)))
    } else if up == "STS"@ {
        Some(lift(spec_do_type2(toks, pos, end), |o: Type2| Instruction::STS(o)))
    } else if up == "SUBA"@ {
        Some(lift(spec_do_type1::<u8>(toks, pos, end), |o: Type1<u8>| Instruction::SUBA(o)))
    } else if up == "SUBB"@ {
        Some(lift(spec_do_type1::<u8>(toks, pos, end), |o: Type1<u8>| Instruction::SUBB(o)))
    } else if up == "SUBD"@ {
        Some(lift(spec_do_type1::<u16>(toks, pos, end), |o: Type1<u16>| Instruction::SUBD(o)))
    } else if up == "SWI"@ {
        Some(Ok((SpecElement::Inst(Instruction::SWI), pos)))
    } else if up == "SWI2"@ {
        Some(Ok((SpecElement::Inst(Instruction::SWI2), pos)))
    } else if up == "SWI3"@ {
        Some(Ok((SpecElement::Inst(Instruction::SWI3), pos)))
    } else if up == "SYNC"@ {
        Some(Ok((SpecElement::Inst(Instruction::SYNC), pos)))
    } else if up == "TFR"@ {
        Some(lift(spec_do_typext(toks, pos, end), |o: Typext| Instruction::TFR(o)))
    } else if up == "TSTA"@ {
        Some(Ok((SpecElement::Inst(Instruction::TSTA), pos)))
    } else if up == "TSTB"@ {
        Some(Ok((SpecElement::Inst(Instruction::TSTB), pos)))
    } else if up == "TST"@ {
        Some(lift(spec_do_type2(toks, pos, end), |o: Type2| Instruction::TST(o)))
    } else {
        None
    }
}

fn table_4(up: &str, tokens: &[Token], pos: usize, end: usize) -> (r: Option<Result<(Element, usize), String>>)
    requires
        pos <= end <= tokens@.len(),
    ensures
        match r {
            Some(res) => spec_table_4(up@, tokens@, pos as int, end as int) == Some(result_view(res)),
            None => spec_table_4(up@, tokens@, pos as int, end as int) is None,
        },
{
    if str_eq(up, "SBGE") {
        return Some(match do_typesbr(tokens, pos, end) {
            Ok((o, p)) => Ok((Element::Inst(Instruction::BGE(o)), p)),
            Err(e) => Err(e),
        });
    }
    if str_eq(up, "SBGT") {
        return Some(match do_typesbr(tokens, pos, end) {
            Ok((o, p)) => Ok((Element::Inst(Instruction::BGT(o)), p)),
            Err(e) => Err(e),
        });
    }
    if str_eq(up, "SBHI") {
        return Some(match do_typesbr(tokens, pos, end) {
            Ok((o, p)) => Ok((Element::Inst(Instruction::BHI(o)), p)),
            Err(e) => Err(e),
        });
    }
    if str_eq(up, "SBHS") {
        return Some(match do_typesbr(tokens, pos, end) {
            Ok((o, p)) => Ok((Element::Inst(Instruction::BHS(o)), p)),
            Err(e) => Err(e),
        });
    }
    if str_eq(up, "SBLE") {
        return Some(match do_typesbr(tokens, pos, end) {
            Ok((o, p)) => Ok((Element::Inst(Instruction::BLE(o)), p)),
            Err(e) => Err(e),
        });
    }
    if str_eq(up, "SLO") {
        return Some(match do_typesbr(tokens, pos, end) {
            Ok((o, p)) => Ok((Element::Inst(Instruction::BLO(o)), p)),
            Err(e) => Err(e),
        });
    }
    if str_eq(up, "SLS") {
        return Some(match do_typesbr(tokens, pos, end) {
            Ok((o, p)) => Ok((Element::Inst(Instruction::BLS(o)), p)),
            Err(e) => Err(e),
        });
    }
    if str_eq(up, "SLT") {
        return Some(match do_typesbr(tokens, pos, end) {
            Ok((o, p)) => Ok((Element::Inst(Instruction::BLT(o)), p)),
            Err(e) => Err(e),
        });
    }
    if str_eq(up, "SBMI") {
        return Some(match do_typesbr(tokens, pos, end) {
            Ok((o, p)) => Ok((Element::Inst(Instruction::BMI(o)), p)),
            Err(e) => Err(e),
        });
    }
    if str_eq(up, "SBNE") {
        return Some(match do_typesbr(tokens, pos, end) {
            Ok((o, p)) => Ok((Element::Inst(Instruction::BNE(o)), p)),
            Err(e) => Err(e),
        });
    }
    if str_eq(up, "SBPL") {
        return Some(match do_typesbr(tokens, pos, end) {
            Ok((o, p)) => Ok((Element::Inst(Instruction::BPL(o)), p)),
            Err(e) => Err(e),
        });
    }
    if str_eq(up, "SBRA") {
        return Some(match do_typesbr(tokens, pos, end) {
            Ok((o, p)) => Ok((Element::Inst(Instruction::BRA(o)), p)),
            Err(e) => Err(e),
        });
    }
    if str_eq(up, "SBRN") {
        return Some(match do_typesbr(tokens, pos, end) {
            Ok((o, p)) => Ok((Element::Inst(Instruction::BRN(o)), p)),
            Err(e) => Err(e),
        });
    }
    if str_eq(up, "SBSR") {
        return Some(match do_typesbr(tokens, pos, end) {
            Ok((o, p)) => Ok((Element::Inst(Instruction::BSR(o)), p)),
            Err(e) => Err(e),
        });
    }
    if str_eq(up, "SBVC") {
        return Some(match do_typesbr(tokens, pos, end) {
            Ok((o, p)) => Ok((Element::Inst(Instruction::BVC(o)), p)),
            Err(e) => Err(e),
        });
    }
    if str_eq(up, "SBVS") {
        return Some(match do_typesbr(tokens, pos, end) {
            Ok((o, p)) => Ok((Element::Inst(Instruction::BVS(o)), p)),
            Err(e) => Err(e),
        });
    }
    if str_eq(up, "SEC") {
        return Some(Ok((Element::Inst(Instruction::SEC), pos)));
    }
    if str_eq(up, "SEF") {
        return Some(Ok((Element::Inst(Instruction::SEF), pos)));
    }
    if str_eq(up, "SEI") {
        return Some(Ok((Element::Inst(Instruction::SEI), pos)));
    }
    if str_eq(up, "SEIF") {
        return Some(Ok((Element::Inst(Instruction::SEIF), pos)));
    }
    if str_eq(up, "SEV") {
        return Some(Ok((Element::Inst(Instruction::SEV), pos)));
    }
    if str_eq(up, "SEX") {
        return Some(Ok((Element::Inst(Instruction::SEX), pos)));
    }
    if str_eq(up, "STA") {
        return Some(match do_type2(tokens, pos, end) {
            Ok((o, p)) => Ok((Element::Inst(Instruction::STA(o)), p)),
            Err(e) => Err(e),
        });
    }
    if str_eq(up, "STB") {
        return Some(match do_type2(tokens, pos, end) {
            Ok((o, p)) => Ok((Element::Inst(Instruction::STB(o)), p)),
            Err(e) => Err(e),
        });
    }
    if str_eq(up, "STD") {
        return Some(match do_type2(tokens, pos, end) {
            Ok((o, p)) => Ok((Element::Inst(Instruction::STD(o)), p)),
            Err(e) => Err(e),
        });
    }
    if str_eq(up, "STX") {
        return Some(match do_type2(tokens, pos, end) {
            Ok((o, p)) => Ok((Element::Inst(Instruction::STX(o)), p)),
            Err(e) => Err(e),
        });
    }
    if str_eq(up, "STY") {
        return Some(match do_type2(tokens, pos, end) {
            Ok((o, p)) => Ok((Element::Inst(Instruction::STY(o)), p)),
            Err(e) => Err(e),
        });
    }
    if str_eq(up, "STU") {
        return Some(match do_type2(tokens, pos, end) {
            Ok((o, p)) => Ok((Element::Inst(Instruction::STU(o)), p)),
            Err(e) => Err(e),
        });
    }
    if str_eq(up, "STS") {
        return Some(match do_type2(tokens, pos, end) {
            Ok((o, p)) => Ok((Element::Inst(Instruction::STS(o)), p)),
            Err(e) => Err(e),
        });
    }
    if str_eq(up, "SUBA") {
        return Some(match do_type1::<u8>(tokens, pos, end) {
            Ok((o, p)) => Ok((Element::Inst(Instruction::SUBA(o)), p)),
            Err(e) => Err(e),
        });
    }
    if str_eq(up, "SUBB") {
        return Some(match do_type1::<u8>(tokens, pos, end) {
            Ok((o, p)) => Ok((Element::Inst(Instruction::SUBB(o)), p)),
            Err(e) => Err(e),
        });
    }
    if str_eq(up, "SUBD") {
        return Some(match do_type1::<u16>(tokens, pos, end) {
            Ok((o, p)) => Ok((Element::Inst(Instruction::SUBD(o)), p)),
            Err(e) => Err(e),
        });
    }
    if str_eq(up, "SWI") {
        return Some(Ok((Element::Inst(Instruction::SWI), pos)));
    }
    if str_eq(up, "SWI2") {
        return Some(Ok((Element::Inst(Instruction::SWI2), pos)));
    }
    if str_eq(up, "SWI3") {
        return Some(Ok((Element::Inst(Instruction::SWI3), pos)));
    }
    if str_eq(up, "SYNC") {
        return Some(Ok((Element::Inst(Instruction::SYNC), pos)));
    }
    if str_eq(up, "TFR") {
        return Some(match do_typext(tokens, pos, end) {
            Ok((o, p)) => Ok((Element::Inst(Instruction::TFR(o)), p)),
            Err(e) => Err(e),
        });
    }
    if str_eq(up, "TSTA") {
        return Some(Ok((Element::Inst(Instruction::TSTA), pos)));
    }
    if str_eq(up, "TSTB") {
        return Some(Ok((Element::Inst(Instruction::TSTB), pos)));
    }
    if str_eq(up, "TST") {
        return Some(match do_type2(tokens, pos, end) {
            Ok((o, p)) => Ok((Element::Inst(Instruction::TST(o)), p)),
            Err(e) => Err(e),
        });
    }
    None
}


/// What an upper-case mnemonic and the tokens after it (from `pos` on)
/// stand for, with the position after its operands.
pub open spec fn spec_recognise_mnemonic(up: Seq<char>, toks: Seq<Token>, pos: int, end: int) -> Result<
    (SpecElement, int),
    Seq<char>,
> {
    if let Some(r) = spec_directive(up, toks, pos, end) {
        r
    } else if let Some(r) = spec_table_1(up, toks, pos, end) {
        r
    } else if let Some(r) = spec_table_2(up, toks, pos, end) {
        r
    } else if let Some(r) = spec_table_3(up, toks, pos, end) {
        r
    } else if let Some(r) = spec_table_4(up, toks, pos, end) {
        r
    } else {
        Err("unknown mnemonic"@)
    }
}

/// Recognises an upper-case mnemonic and its operands, which start at
/// `pos`; gives the element and the position after the operands.
pub fn recognise_mnemonic(up: &str, tokens: &[Token], pos: usize, end: usize) -> (r: Result<(Element, usize), String>)
    requires
        pos <= end <= tokens@.len(),
    ensures
        result_view(r) == spec_recognise_mnemonic(up@, tokens@, pos as int, end as int),
{
    if let Some(r) = directive(up, tokens, pos, end) {
        return r;
    }
    if let Some(r) = table_1(up, tokens, pos, end) {
        return r;
    }
    if let Some(r) = table_2(up, tokens, pos, end) {
        return r;
    }
    if let Some(r) = table_3(up, tokens, pos, end) {
        return r;
    }
    if let Some(r) = table_4(up, tokens, pos, end) {
        return r;
    }
    fail("unknown mnemonic")
}

/// Whether the tokens from `pos` up to `p` write an immediate-or-memory
/// operand: `#` and the value, or a memory operand.
pub open spec fn writes_type1<T: IntoBytes>(o: Type1<T>, toks: Seq<Token>, pos: int, p: int) -> bool {
    match o {
        Type1::IMM(v) => p == pos + 2 && toks[pos] is Hash && (toks[pos + 1] matches Token::Unsigned(n)
            && T::spec_try_from_u16(n) == Some(v)),
        Type1::DIR(a) => marked_memory(toks, pos, Type2::DIR(a), p),
        Type1::EXT(a) => marked_memory(toks, pos, Type2::EXT(a), p),
        Type1::IND(_) => false,
    }
}

/// Whether the tokens from `pos` up to `p` write a condition code mask:
/// `#` and the mask.
pub open spec fn writes_mask(o: Typecc, toks: Seq<Token>, pos: int, p: int) -> bool {
    p == pos + 2 && toks[pos] is Hash && toks[pos + 1] == Token::Unsigned(o.mask as u16)
}

/// Whether the tokens from `pos` up to `p` write a TFR/EXG register pair:
/// a name of the source, a comma, a name of the destination.
pub open spec fn writes_pair(o: Typext, toks: Seq<Token>, pos: int, p: int) -> bool {
    &&& p == pos + 3
    &&& toks[pos] is Name && toks[pos + 1] is Comma && toks[pos + 2] is Name
    &&& match o {
        Typext::BYTE(a, b) => names_tfr8(toks[pos]->Name_0@, a) && names_tfr8(toks[pos + 2]->Name_0@, b),
        Typext::WORD(a, b) => names_tfr16(toks[pos]->Name_0@, a) && names_tfr16(toks[pos + 2]->Name_0@, b),
    }
}

/// Whether the token at `pos` writes a branch target, which ends at `p`:
/// a short offset as a number up to 127, a long one as a larger number, a
/// label as its name.
pub open spec fn writes_target(t: Typebr, toks: Seq<Token>, pos: int, p: int) -> bool {
    &&& p == pos + 1
    &&& match t {
        Typebr::SHORT(s) => s >= 0 && toks[pos] == Token::Unsigned(s as u16),
        Typebr::LONG(l) => l > 127 && toks[pos] == Token::Unsigned(l as u16),
        Typebr::UNRESOLVED(label) => toks[pos] == Token::Name(label),
    }
}

/// Whether the tokens from `pos` up to `p` write the operand of an
/// instruction in the assembler's syntax; false for the operands that have
/// no written form here (indexed operands, register lists) and for the
/// long and short branch variants, which the assembler reads as the plain
/// branches.
pub open spec fn writes_operand(i: Instruction, toks: Seq<Token>, pos: int, p: int) -> bool {
    match i {
        Instruction::ABX => p == pos,
        Instruction::ADCA(o) => writes_type1(o, toks, pos, p),
        Instruction::ADCB(o) => writes_type1(o, toks, pos, p),
        Instruction::ADDA(o) => writes_type1(o, toks, pos, p),
        Instruction::ADDB(o) => writes_type1(o, toks, pos, p),
        Instruction::ADDD(o) => writes_type1(o, toks, pos, p),
        Instruction::ANDA(o) => writes_type1(o, toks, pos, p),
        Instruction::ANDB(o) => writes_type1(o, toks, pos, p),
        Instruction::ANDCC(o) => writes_mask(o, toks, pos, p),
        Instruction::ASLA => p == pos,
        Instruction::ASLB => p == pos,
        Instruction::ASL(o) => marked_memory(toks, pos, o, p),
        Instruction::ASRA => p == pos,
        Instruction::ASRB => p == pos,
        Instruction::ASR(o) => marked_memory(toks, pos, o, p),
        Instruction::BCC(t) => writes_target(t, toks, pos, p),
        Instruction::BCS(t) => writes_target(t, toks, pos, p),
        Instruction::BEQ(t) => writes_target(t, toks, pos, p),
        Instruction::BGE(t) => writes_target(t, toks, pos, p),
        Instruction::BGT(t) => writes_target(t, toks, pos, p),
        Instruction::BHI(t) => writes_target(t, toks, pos, p),
        Instruction::BHS(t) => writes_target(t, toks, pos, p),
        Instruction::BITA(o) => writes_type1(o, toks, pos, p),
        Instruction::BITB(o) => writes_type1(o, toks, pos, p),
        Instruction::BLE(t) => writes_target(t, toks, pos, p),
        Instruction::BLO(t) => writes_target(t, toks, pos, p),
        Instruction::BLS(t) => writes_target(t, toks, pos, p),
        Instruction::BLT(t) => writes_target(t, toks, pos, p),
        Instruction::BMI(t) => writes_target(t, toks, pos, p),
        Instruction::BNE(t) => writes_target(t, toks, pos, p),
        Instruction::BPL(t) => writes_target(t, toks, pos, p),
        Instruction::BRA(t) => writes_target(t, toks, pos, p),
        Instruction::BRN(t) => writes_target(t, toks, pos, p),
        Instruction::BSR(t) => writes_target(t, toks, pos, p),
        Instruction::BVC(t) => writes_target(t, toks, pos, p),
        Instruction::BVS(t) => writes_target(t, toks, pos, p),
        Instruction::CLC => p == pos,
        Instruction::CLF => p == pos,
        Instruction::CLI => p == pos,
        Instruction::CLIF => p == pos,
        Instruction::CLRA => p == pos,
        Instruction::CLRB => p == pos,
        Instruction::CLR(o) => marked_memory(toks, pos, o, p),
        Instruction::CLV => p == pos,
        Instruction::CMPA(o) => writes_type1(o, toks, pos, p),
        Instruction::CMPB(o) => writes_type1(o, toks, pos, p),
        Instruction::CMPD(o) => writes_type1(o, toks, pos, p),
        Instruction::CMPS(o) => writes_type1(o, toks, pos, p),
        Instruction::CMPU(o) => writes_type1(o, toks, pos, p),
        Instruction::CMPX(o) => writes_type1(o, toks, pos, p),
        Instruction::CMPY(o) => writes_type1(o, toks, pos, p),
        Instruction::COMA => p == pos,
        Instruction::COMB => p == pos,
        Instruction::COM(o) => marked_memory(toks, pos, o, p),
        Instruction::CWAI(o) => writes_mask(o, toks, pos, p),
        Instruction::DAA => p == pos,
        Instruction::DECA => p == pos,
        Instruction::DECB => p == pos,
        Instruction::DEC(o) => marked_memory(toks, pos, o, p),
        Instruction::EORA(o) => writes_type1(o, toks, pos, p),
        Instruction::EORB(o) => writes_type1(o, toks, pos, p),
        Instruction::EXG(o) => writes_pair(o, toks, pos, p),
        Instruction::INCA => p == pos,
        Instruction::INCB => p == pos,
        Instruction::INC(o) => marked_memory(toks, pos, o, p),
        Instruction::JMP(o) => marked_memory(toks, pos, o, p),
        Instruction::JSR(o) => marked_memory(toks, pos, o, p),
        Instruction::LBCC(_) => false,
        Instruction::LBCS(_) => false,
        Instruction::LBEQ(_) => false,
        Instruction::LBGE(_) => false,
        Instruction::LBGT(_) => false,
        Instruction::LBHI(_) => false,
        Instruction::LBHS(_) => false,
        Instruction::LBLE(_) => false,
        Instruction::LBLO(_) => false,
        Instruction::LBLS(_) => false,
        Instruction::LBLT(_) => false,
        Instruction::LBMI(_) => false,
        Instruction::LBNE(_) => false,
        Instruction::LBPL(_) => false,
        Instruction::LBRA(_) => false,
        Instruction::LBRN(_) => false,
        Instruction::LBSR(_) => false,
        Instruction::LBVC(_) => false,
        Instruction::LBVS(_) => false,
        Instruction::LDA(o) => writes_type1(o, toks, pos, p),
        Instruction::LDB(o) => writes_type1(o, toks, pos, p),
        Instruction::LDD(o) => writes_type1(o, toks, pos, p),
        Instruction::LDS(o) => writes_type1(o, toks, pos, p),
        Instruction::LDU(o) => writes_type1(o, toks, pos, p),
        Instruction::LDX(o) => writes_type1(o, toks, pos, p),
        Instruction::LDY(o) => writes_type1(o, toks, pos, p),
        Instruction::LEAS(o) => marked_memory(toks, pos, o, p),
        Instruction::LEAU(o) => marked_memory(toks, pos, o, p),
        Instruction::LEAX(o) => marked_memory(toks, pos, o, p),
        Instruction::LEAY(o) => marked_memory(toks, pos, o, p),
        Instruction::LSLA => p == pos,
        Instruction::LSLB => p == pos,
        Instruction::LSL(o) => marked_memory(toks, pos, o, p),
        Instruction::LSRA => p == pos,
        Instruction::LSRB => p == pos,
        Instruction::LSR(o) => marked_memory(toks, pos, o, p),
        Instruction::MUL => p == pos,
        Instruction::NEGA => p == pos,
        Instruction::NEGB => p == pos,
        Instruction::NEG(o) => marked_memory(toks, pos, o, p),
        Instruction::NOP => p == pos,
        Instruction::ORA(o) => writes_type1(o, toks, pos, p),
        Instruction::ORB(o) => writes_type1(o, toks, pos, p),
        Instruction::ORCC(o) => writes_mask(o, toks, pos, p),
        Instruction::PSHU(_) => false,
        Instruction::PSHS(_) => false,
        Instruction::PULU(_) => false,
        Instruction::PULS(_) => false,
        Instruction::ROLA => p == pos,
        Instruction::ROLB => p == pos,
        Instruction::ROL(o) => marked_memory(toks, pos, o, p),
        Instruction::RORA => p == pos,
        Instruction::RORB => p == pos,
        Instruction::ROR(o) => marked_memory(toks, pos, o, p),
        Instruction::RTI => p == pos,
        Instruction::RTS => p == pos,
        Instruction::SBCA(o) => writes_type1(o, toks, pos, p),
        Instruction::SBCB(o) => writes_type1(o, toks, pos, p),
        Instruction::SBCC(_) => false,
        Instruction::SBCS(_) => false,
        Instruction::SBEQ(_) => false,
        Instruction::SBLT(_) => false,
        Instruction::SBLE(_) => false,
        Instruction::SBGT(_) => false,
        Instruction::SBGE(_) => false,
        Instruction::SBHI(_) => false,
        Instruction::SBHS(_) => false,
        Instruction::SBLO(_) => false,
        Instruction::SBLS(_) => false,
        Instruction::SBMI(_) => false,
        Instruction::SBNE(_) => false,
        Instruction::SBPL(_) => false,
        Instruction::SBRA(_) => false,
        Instruction::SBRN(_) => false,
        Instruction::SBSR(_) => false,
        Instruction::SBVC(_) => false,
        Instruction::SBVS(_) => false,
        Instruction::SEC => p == pos,
        Instruction::SEF => p == pos,
        Instruction::SEI => p == pos,
        Instruction::SEIF => p == pos,
        Instruction::SEV => p == pos,
        Instruction::SEX => p == pos,
        Instruction::STA(o) => marked_memory(toks, pos, o, p),
        Instruction::STB(o) => marked_memory(toks, pos, o, p),
        Instruction::STD(o) => marked_memory(toks, pos, o, p),
        Instruction::STS(o) => marked_memory(toks, pos, o, p),
        Instruction::STU(o) => marked_memory(toks, pos, o, p),
        Instruction::STX(o) => marked_memory(toks, pos, o, p),
        Instruction::STY(o) => marked_memory(toks, pos, o, p),
        Instruction::SUBA(o) => writes_type1(o, toks, pos, p),
        Instruction::SUBB(o) => writes_type1(o, toks, pos, p),
        Instruction::SUBD(o) => writes_type1(o, toks, pos, p),
        Instruction::SWI => p == pos,
        Instruction::SWI2 => p == pos,
        Instruction::SWI3 => p == pos,
        Instruction::SYNC => p == pos,
        Instruction::TFR(o) => writes_pair(o, toks, pos, p),
        Instruction::TSTA => p == pos,
        Instruction::TSTB => p == pos,
        Instruction::TST(o) => marked_memory(toks, pos, o, p),
    }
}

/// The target of a branch instruction.
pub open spec fn branch_operand(i: Instruction) -> Option<Typebr> {
    match i {
        Instruction::BCC(t) => Some(t),
        Instruction::BCS(t) => Some(t),
        Instruction::BEQ(t) => Some(t),
        Instruction::BGE(t) => Some(t),
        Instruction::BGT(t) => Some(t),
        Instruction::BHI(t) => Some(t),
        Instruction::BHS(t) => Some(t),
        Instruction::BLE(t) => Some(t),
        Instruction::BLO(t) => Some(t),
        Instruction::BLS(t) => Some(t),
        Instruction::BLT(t) => Some(t),
        Instruction::BMI(t) => Some(t),
        Instruction::BNE(t) => Some(t),
        Instruction::BPL(t) => Some(t),
        Instruction::BRA(t) => Some(t),
        Instruction::BRN(t) => Some(t),
        Instruction::BSR(t) => Some(t),
        Instruction::BVC(t) => Some(t),
        Instruction::BVS(t) => Some(t),
        _ => None,
    }
}

/// Whether a branch target, with the position `p` after it, is the one
/// written at `pos`: the number as an offset, or the name as a label.
pub open spec fn written_target(toks: Seq<Token>, pos: int, t: Typebr, p: int) -> bool {
    &&& p == pos + 1
    &&& match t {
        Typebr::SHORT(s) => toks[pos] matches Token::Unsigned(n) && s as int == n as int,
        Typebr::LONG(l) => toks[pos] matches Token::Unsigned(n) && l as int == n as int,
        Typebr::UNRESOLVED(label) => toks[pos] == Token::Name(label),
    }
}

/// The instruction name that an upper-case mnemonic stands for. A mnemonic
/// names itself, but for the long and short spellings of the branches:
/// `LBxx`, `SBxx` (not `SBCA` and `SBCB`, subtract with carry) and the
/// short forms `SLO`, `SLS` and `SLT` stand for the branch `Bxx`.
pub open spec fn named_instruction(up: Seq<char>) -> Seq<char> {
    if up.len() == 4 && up[0] == 'L' && up[1] == 'B' {
        seq!['B', up[2], up[3]]
    } else if up.len() == 4 && up[0] == 'S' && up[1] == 'B' && !(up[2] == 'C' && (up[3] == 'A'
        || up[3] == 'B')) {
        seq!['B', up[2], up[3]]
    } else if up.len() == 3 && up[0] == 'S' && up[1] == 'L' {
        seq!['B', 'L', up[2]]
    } else {
        up
    }
}

proof fn lemma_table_1_names(up: Seq<char>, toks: Seq<Token>, pos: int, end: int)
    ensures
        spec_table_1(up, toks, pos, end) matches Some(Ok((SpecElement::Inst(i), p))) ==> {
            &&& i.name() == named_instruction(up)
            &&& branch_operand(i) matches Some(t) ==> written_target(toks, pos, t, p)
        },
{
    law_branch_target(toks, pos, end);
    if up == "ABX"@ {
        reveal_strlit("ABX");
    } else if up == "ADCA"@ {
        reveal_strlit("ADCA");
    } else if up == "ADCB"@ {
        reveal_strlit("ADCB");
    } else if up == "ADDA"@ {
        reveal_strlit("ADDA");
    } else if up == "ADDB"@ {
        reveal_strlit("ADDB");
    } else if up == "ADDD"@ {
        reveal_strlit("ADDD");
    } else if up == "ANDA"@ {
        reveal_strlit("ANDA");
    } else if up == "ANDB"@ {
        reveal_strlit("ANDB");
    } else if up == "ANDCC"@ {
        reveal_strlit("ANDCC");
    } else if up == "ASLA"@ {
        reveal_strlit("ASLA");
    } else if up == "ASLB"@ {
        reveal_strlit("ASLB");
    } else if up == "ASL"@ {
        reveal_strlit("ASL");
    } else if up == "ASRA"@ {
        reveal_strlit("ASRA");
    } else if up == "ASRB"@ {
        reveal_strlit("ASRB");
    } else if up == "ASR"@ {
        reveal_strlit("ASR");
    } else if up == "BITA"@ {
        reveal_strlit("BITA");
    } else if up == "BITB"@ {
        reveal_strlit("BITB");
    } else if up == "BCC"@ {
        reveal_strlit("BCC");
    } else if up == "BCS"@ {
        reveal_strlit("BCS");
    } else if up == "BEQ"@ {
        reveal_strlit("BEQ");
    } else if up == "BGE"@ {
        reveal_strlit("BGE");
    } else if up == "BGT"@ {
        reveal_strlit("BGT");
    } else if up == "BHI"@ {
        reveal_strlit("BHI");
    } else if up == "BHS"@ {
        reveal_strlit("BHS");
    } else if up == "BLE"@ {
        reveal_strlit("BLE");
    } else if up == "BLO"@ {
        reveal_strlit("BLO");
    } else if up == "BLS"@ {
        reveal_strlit("BLS");
    } else if up == "BLT"@ {
        reveal_strlit("BLT");
    } else if up == "BMI"@ {
        reveal_strlit("BMI");
    } else if up == "BNE"@ {
        reveal_strlit("BNE");
    } else if up == "BPL"@ {
        reveal_strlit("BPL");
    } else if up == "BRA"@ {
        reveal_strlit("BRA");
    } else if up == "BRN"@ {
        reveal_strlit("BRN");
    } else if up == "BSR"@ {
        reveal_strlit("BSR");
    } else if up == "BVC"@ {
        reveal_strlit("BVC");
    } else if up == "BVS"@ {
        reveal_strlit("BVS");
    } else if up == "CLC"@ {
        reveal_strlit("CLC");
    } else if up == "CLF"@ {
        reveal_strlit("CLF");
    } else if up == "CLI"@ {
        reveal_strlit("CLI");
    } else if up == "CLIF"@ {
        reveal_strlit("CLIF");
    } else if up == "CLRA"@ {
        reveal_strlit("CLRA");
    } else if up == "CLRB"@ {
        reveal_strlit("CLRB");
    }
}

proof fn lemma_table_2_names(up: Seq<char>, toks: Seq<Token>, pos: int, end: int)
    ensures
        spec_table_2(up, toks, pos, end) matches Some(Ok((SpecElement::Inst(i), p))) ==> {
            &&& i.name() == named_instruction(up)
            &&& branch_operand(i) matches Some(t) ==> written_target(toks, pos, t, p)
        },
{
    law_branch_target(toks, pos, end);
    if up == "CLR"@ {
        reveal_strlit("CLR");
    } else if up == "CMPA"@ {
        reveal_strlit("CMPA");
    } else if up == "CMPB"@ {
        reveal_strlit("CMPB");
    } else if up == "CMPD"@ {
        reveal_strlit("CMPD");
    } else if up == "CMPS"@ {
        reveal_strlit("CMPS");
    } else if up == "CMPU"@ {
        reveal_strlit("CMPU");
    } else if up == "CMPX"@ {
        reveal_strlit("CMPX");
    } else if up == "CMPY"@ {
        reveal_strlit("CMPY");
    } else if up == "CLV"@ {
        reveal_strlit("CLV");
    } else if up == "COMA"@ {
        reveal_strlit("COMA");
    } else if up == "COMB"@ {
        reveal_strlit("COMB");
    } else if up == "COM"@ {
        reveal_strlit("COM");
    } else if up == "CWAI"@ {
        reveal_strlit("CWAI");
    } else if up == "DAA"@ {
        reveal_strlit("DAA");
    } else if up == "DECA"@ {
        reveal_strlit("DECA");
    } else if up == "DECB"@ {
        reveal_strlit("DECB");
    } else if up == "DEC"@ {
        reveal_strlit("DEC");
    } else if up == "EXG"@ {
        reveal_strlit("EXG");
    } else if up == "INCA"@ {
        reveal_strlit("INCA");
    } else if up == "INCB"@ {
        reveal_strlit("INCB");
    } else if up == "INC"@ {
        reveal_strlit("INC");
    } else if up == "JMP"@ {
        reveal_strlit("JMP");
    } else if up == "JSR"@ {
        reveal_strlit("JSR");
    } else if up == "LBCC"@ {
        reveal_strlit("LBCC");
    } else if up == "LBCS"@ {
        reveal_strlit("LBCS");
    } else if up == "LBEQ"@ {
        reveal_strlit("LBEQ");
    } else if up == "LBGE"@ {
        reveal_strlit("LBGE");
    } else if up == "LBGT"@ {
        reveal_strlit("LBGT");
    } else if up == "LBHI"@ {
        reveal_strlit("LBHI");
    } else if up == "LBHS"@ {
        reveal_strlit("LBHS");
    } else if up == "LBLE"@ {
        reveal_strlit("LBLE");
    } else if up == "LBLO"@ {
        reveal_strlit("LBLO");
    } else if up == "LBLS"@ {
        reveal_strlit("LBLS");
    } else if up == "LBLT"@ {
        reveal_strlit("LBLT");
    } else if up == "LBMI"@ {
        reveal_strlit("LBMI");
    } else if up == "LBNE"@ {
        reveal_strlit("LBNE");
    } else if up == "LBPL"@ {
        reveal_strlit("LBPL");
    } else if up == "LBRA"@ {
        reveal_strlit("LBRA");
    } else if up == "LBRN"@ {
        reveal_strlit("LBRN");
    } else if up == "LBSR"@ {
        reveal_strlit("LBSR");
    } else if up == "LBVC"@ {
        reveal_strlit("LBVC");
    } else if up == "LBVS"@ {
        reveal_strlit("LBVS");
    }
}

proof fn lemma_table_3_names(up: Seq<char>, toks: Seq<Token>, pos: int, end: int)
    ensures
        spec_table_3(up, toks, pos, end) matches Some(Ok((SpecElement::Inst(i), p))) ==> {
            &&& i.name() == named_instruction(up)
            &&& branch_operand(i) matches Some(t) ==> written_target(toks, pos, t, p)
        },
{
    law_branch_target(toks, pos, end);
    if up == "LDA"@ {
        reveal_strlit("LDA");
    } else if up == "LDB"@ {
        reveal_strlit("LDB");
    } else if up == "LDD"@ {
        reveal_strlit("LDD");
    } else if up == "LDX"@ {
        reveal_strlit("LDX");
    } else if up == "LDY"@ {
        reveal_strlit("LDY");
    } else if up == "LDS"@ {
        reveal_strlit("LDS");
    } else if up == "LDU"@ {
        reveal_strlit("LDU");
    } else if up == "LEAX"@ {
        reveal_strlit("LEAX");
    } else if up == "LEAY"@ {
        reveal_strlit("LEAY");
    } else if up == "LEAU"@ {
        reveal_strlit("LEAU");
    } else if up == "LEAS"@ {
        reveal_strlit("LEAS");
    } else if up == "LSLA"@ {
        reveal_strlit("LSLA");
    } else if up == "LSLB"@ {
        reveal_strlit("LSLB");
    } else if up == "LSL"@ {
        reveal_strlit("LSL");
    } else if up == "LSRA"@ {
        reveal_strlit("LSRA");
    } else if up == "LSRB"@ {
        reveal_strlit("LSRB");
    } else if up == "LSR"@ {
        reveal_strlit("LSR");
    } else if up == "MUL"@ {
        reveal_strlit("MUL");
    } else if up == "NEGA"@ {
        reveal_strlit("NEGA");
    } else if up == "NEGB"@ {
        reveal_strlit("NEGB");
    } else if up == "NEG"@ {
        reveal_strlit("NEG");
    } else if up == "NOP"@ {
        reveal_strlit("NOP");
    } else if up == "ORA"@ {
        reveal_strlit("ORA");
    } else if up == "ORB"@ {
        reveal_strlit("ORB");
    } else if up == "ORCC"@ {
        reveal_strlit("ORCC");
    } else if up == "PSHS"@ {
        reveal_strlit("PSHS");
    } else if up == "PSHU"@ {
        reveal_strlit("PSHU");
    } else if up == "PULS"@ {
        reveal_strlit("PULS");
    } else if up == "PULU"@ {
        reveal_strlit("PULU");
    } else if up == "ROLA"@ {
        reveal_strlit("ROLA");
    } else if up == "ROLB"@ {
        reveal_strlit("ROLB");
    } else if up == "ROL"@ {
        reveal_strlit("ROL");
    } else if up == "RORA"@ {
        reveal_strlit("RORA");
    } else if up == "RORB"@ {
        reveal_strlit("RORB");
    } else if up == "ROR"@ {
        reveal_strlit("ROR");
    } else if up == "RTI"@ {
        reveal_strlit("RTI");
    } else if up == "RTS"@ {
        reveal_strlit("RTS");
    } else if up == "SBCA"@ {
        reveal_strlit("SBCA");
    } else if up == "SBCB"@ {
        reveal_strlit("SBCB");
    } else if up == "SBCC"@ {
        reveal_strlit("SBCC");
    } else if up == "SBCS"@ {
        reveal_strlit("SBCS");
    } else if up == "SBEQ"@ {
        reveal_strlit("SBEQ");
    }
}

proof fn lemma_table_4_names(up: Seq<char>, toks: Seq<Token>, pos: int, end: int)
    ensures
        spec_table_4(up, toks, pos, end) matches Some(Ok((SpecElement::Inst(i), p))) ==> {
            &&& i.name() == named_instruction(up)
            &&& branch_operand(i) matches Some(t) ==> written_target(toks, pos, t, p)
        },
{
    law_branch_target(toks, pos, end);
    if up == "SBGE"@ {
        reveal_strlit("SBGE");
    } else if up == "SBGT"@ {
        reveal_strlit("SBGT");
    } else if up == "SBHI"@ {
        reveal_strlit("SBHI");
    } else if up == "SBHS"@ {
        reveal_strlit("SBHS");
    } else if up == "SBLE"@ {
        reveal_strlit("SBLE");
    } else if up == "SLO"@ {
        reveal_strlit("SLO");
    } else if up == "SLS"@ {
        reveal_strlit("SLS");
    } else if up == "SLT"@ {
        reveal_strlit("SLT");
    } else if up == "SBMI"@ {
        reveal_strlit("SBMI");
    } else if up == "SBNE"@ {
        reveal_strlit("SBNE");
    } else if up == "SBPL"@ {
        reveal_strlit("SBPL");
    } else if up == "SBRA"@ {
        reveal_strlit("SBRA");
    } else if up == "SBRN"@ {
        reveal_strlit("SBRN");
    } else if up == "SBSR"@ {
        reveal_strlit("SBSR");
    } else if up == "SBVC"@ {
        reveal_strlit("SBVC");
    } else if up == "SBVS"@ {
        reveal_strlit("SBVS");
    } else if up == "SEC"@ {
        reveal_strlit("SEC");
    } else if up == "SEF"@ {
        reveal_strlit("SEF");
    } else if up == "SEI"@ {
        reveal_strlit("SEI");
    } else if up == "SEIF"@ {
        reveal_strlit("SEIF");
    } else if up == "SEV"@ {
        reveal_strlit("SEV");
    } else if up == "SEX"@ {
        reveal_strlit("SEX");
    } else if up == "STA"@ {
        reveal_strlit("STA");
    } else if up == "STB"@ {
        reveal_strlit("STB");
    } else if up == "STD"@ {
        reveal_strlit("STD");
    } else if up == "STX"@ {
        reveal_strlit("STX");
    } else if up == "STY"@ {
        reveal_strlit("STY");
    } else if up == "STU"@ {
        reveal_strlit("STU");
    } else if up == "STS"@ {
        reveal_strlit("STS");
    } else if up == "SUBA"@ {
        reveal_strlit("SUBA");
    } else if up == "SUBB"@ {
        reveal_strlit("SUBB");
    } else if up == "SUBD"@ {
        reveal_strlit("SUBD");
    } else if up == "SWI"@ {
        reveal_strlit("SWI");
    } else if up == "SWI2"@ {
        reveal_strlit("SWI2");
    } else if up == "SWI3"@ {
        reveal_strlit("SWI3");
    } else if up == "SYNC"@ {
        reveal_strlit("SYNC");
    } else if up == "TFR"@ {
        reveal_strlit("TFR");
    } else if up == "TSTA"@ {
        reveal_strlit("TSTA");
    } else if up == "TSTB"@ {
        reveal_strlit("TSTB");
    } else if up == "TST"@ {
        reveal_strlit("TST");
    }
}

/// Each mnemonic is recognised as the instruction of that name: where an
/// upper-case mnemonic gives an instruction, the instruction's name is the
/// one that the mnemonic stands for (so `BNE` gives `BNE`, never another
/// branch), and a branch's target is the one written after the mnemonic.
pub proof fn law_mnemonic_names(up: Seq<char>, toks: Seq<Token>, pos: int, end: int)
    ensures
        spec_recognise_mnemonic(up, toks, pos, end) matches Ok((SpecElement::Inst(i), p)) ==> {
            &&& i.name() == named_instruction(up)
            &&& branch_operand(i) matches Some(t) ==> written_target(toks, pos, t, p)
        },
{
    lemma_table_1_names(up, toks, pos, end);
    lemma_table_2_names(up, toks, pos, end);
    lemma_table_3_names(up, toks, pos, end);
    lemma_table_4_names(up, toks, pos, end);
}

/// The instruction of a line is the one its mnemonic, in either case,
/// names: where the statement whose mnemonic stands at `m` gives an
/// instruction, its name is the one that the upper-cased mnemonic stands
/// for, and a branch's target is the token after the mnemonic.
pub proof fn law_line_mnemonic(toks: Seq<Token>, m: int, end: int)
    requires
        0 <= m < end <= toks.len(),
        toks[m] is Name,
    ensures
        spec_statement(toks, m, end) matches Ok(Some(SpecElement::Inst(i))) ==> {
            &&& i.name() == named_instruction(upper_case(toks[m]->Name_0@))
            &&& branch_operand(i) matches Some(t) ==> written_target(toks, m + 1, t, m + 2)
        },
{
    law_mnemonic_names(upper_case(toks[m]->Name_0@), toks, m + 1, end);
}

proof fn lemma_reads_0(i: Instruction, toks: Seq<Token>, pos: int, end: int, p: int)
    requires
        i is ABX || i is ADCA || i is ADCB || i is ADDA || i is ADDB || i is ADDD || i is ANDA || i is ANDB,
        0 <= pos,
        p <= end,
        writes_operand(i, toks, pos, p),
    ensures
        spec_recognise_mnemonic(i.name(), toks, pos, end) == Ok::<(SpecElement, int), Seq<char>>((SpecElement::Inst(i), p)),
{
    reveal_strlit("ORG");
    reveal_strlit("EXEC");
    reveal_strlit("EQU");
    reveal_strlit("DB");
    reveal_strlit("DW");
    reveal_strlit("DS");
    reveal_strlit("ABX");
    reveal_strlit("ADCA");
    reveal_strlit("ADCB");
    reveal_strlit("ADDA");
    reveal_strlit("ADDB");
    reveal_strlit("ADDD");
    reveal_strlit("ANDA");
    reveal_strlit("ANDB");
    assert(seq!['A', 'B', 'X'].len() == 3 && seq!['A', 'B', 'X'][0] == 'A' && seq!['A', 'B', 'X'][1] == 'B' && seq!['A', 'B', 'X'][2] == 'X');
    assert(seq!['A', 'D', 'C', 'A'].len() == 4 && seq!['A', 'D', 'C', 'A'][0] == 'A' && seq!['A', 'D', 'C', 'A'][1] == 'D' && seq!['A', 'D', 'C', 'A'][2] == 'C' && seq!['A', 'D', 'C', 'A'][3] == 'A');
    assert(seq!['A', 'D', 'C', 'B'].len() == 4 && seq!['A', 'D', 'C', 'B'][0] == 'A' && seq!['A', 'D', 'C', 'B'][1] == 'D' && seq!['A', 'D', 'C', 'B'][2] == 'C' && seq!['A', 'D', 'C', 'B'][3] == 'B');
    assert(seq!['A', 'D', 'D', 'A'].len() == 4 && seq!['A', 'D', 'D', 'A'][0] == 'A' && seq!['A', 'D', 'D', 'A'][1] == 'D' && seq!['A', 'D', 'D', 'A'][2] == 'D' && seq!['A', 'D', 'D', 'A'][3] == 'A');
    assert(seq!['A', 'D', 'D', 'B'].len() == 4 && seq!['A', 'D', 'D', 'B'][0] == 'A' && seq!['A', 'D', 'D', 'B'][1] == 'D' && seq!['A', 'D', 'D', 'B'][2] == 'D' && seq!['A', 'D', 'D', 'B'][3] == 'B');
    assert(seq!['A', 'D', 'D', 'D'].len() == 4 && seq!['A', 'D', 'D', 'D'][0] == 'A' && seq!['A', 'D', 'D', 'D'][1] == 'D' && seq!['A', 'D', 'D', 'D'][2] == 'D' && seq!['A', 'D', 'D', 'D'][3] == 'D');
    assert(seq!['A', 'N', 'D', 'A'].len() == 4 && seq!['A', 'N', 'D', 'A'][0] == 'A' && seq!['A', 'N', 'D', 'A'][1] == 'N' && seq!['A', 'N', 'D', 'A'][2] == 'D' && seq!['A', 'N', 'D', 'A'][3] == 'A');
    assert(seq!['A', 'N', 'D', 'B'].len() == 4 && seq!['A', 'N', 'D', 'B'][0] == 'A' && seq!['A', 'N', 'D', 'B'][1] == 'N' && seq!['A', 'N', 'D', 'B'][2] == 'D' && seq!['A', 'N', 'D', 'B'][3] == 'B');
    match i {
        Instruction::ABX => {
            assert(i.name() =~= "ABX"@);
        },
        Instruction::ADCA(_) => {
            assert(i.name() =~= "ADCA"@);
        },
        Instruction::ADCB(_) => {
            assert(i.name() =~= "ADCB"@);
        },
        Instruction::ADDA(_) => {
            assert(i.name() =~= "ADDA"@);
        },
        Instruction::ADDB(_) => {
            assert(i.name() =~= "ADDB"@);
        },
        Instruction::ADDD(_) => {
            assert(i.name() =~= "ADDD"@);
        },
        Instruction::ANDA(_) => {
            assert(i.name() =~= "ANDA"@);
        },
        Instruction::ANDB(_) => {
            assert(i.name() =~= "ANDB"@);
        },
        _ => {},
    }
}

proof fn lemma_reads_1(i: Instruction, toks: Seq<Token>, pos: int, end: int, p: int)
    requires
        i is ANDCC || i is ASLA || i is ASLB || i is ASL || i is ASRA || i is ASRB || i is ASR || i is BITA,
        0 <= pos,
        p <= end,
        writes_operand(i, toks, pos, p),
    ensures
        spec_recognise_mnemonic(i.name(), toks, pos, end) == Ok::<(SpecElement, int), Seq<char>>((SpecElement::Inst(i), p)),
{
    reveal_strlit("ORG");
    reveal_strlit("EXEC");
    reveal_strlit("EQU");
    reveal_strlit("DB");
    reveal_strlit("DW");
    reveal_strlit("DS");
    reveal_strlit("ABX");
    reveal_strlit("ADCA");
    reveal_strlit("ADCB");
    reveal_strlit("ADDA");
    reveal_strlit("ADDB");
    reveal_strlit("ADDD");
    reveal_strlit("ANDA");
    reveal_strlit("ANDB");
    reveal_strlit("ANDCC");
    reveal_strlit("ASLA");
    reveal_strlit("ASLB");
    reveal_strlit("ASL");
    reveal_strlit("ASRA");
    reveal_strlit("ASRB");
    reveal_strlit("ASR");
    reveal_strlit("BITA");
    assert(seq!['A', 'N', 'D', 'C', 'C'].len() == 5 && seq!['A', 'N', 'D', 'C', 'C'][0] == 'A' && seq!['A', 'N', 'D', 'C', 'C'][1] == 'N' && seq!['A', 'N', 'D', 'C', 'C'][2] == 'D' && seq!['A', 'N', 'D', 'C', 'C'][3] == 'C' && seq!['A', 'N', 'D', 'C', 'C'][4] == 'C');
    assert(seq!['A', 'S', 'L', 'A'].len() == 4 && seq!['A', 'S', 'L', 'A'][0] == 'A' && seq!['A', 'S', 'L', 'A'][1] == 'S' && seq!['A', 'S', 'L', 'A'][2] == 'L' && seq!['A', 'S', 'L', 'A'][3] == 'A');
    assert(seq!['A', 'S', 'L', 'B'].len() == 4 && seq!['A', 'S', 'L', 'B'][0] == 'A' && seq!['A', 'S', 'L', 'B'][1] == 'S' && seq!['A', 'S', 'L', 'B'][2] == 'L' && seq!['A', 'S', 'L', 'B'][3] == 'B');
    assert(seq!['A', 'S', 'L'].len() == 3 && seq!['A', 'S', 'L'][0] == 'A' && seq!['A', 'S', 'L'][1] == 'S' && seq!['A', 'S', 'L'][2] == 'L');
    assert(seq!['A', 'S', 'R', 'A'].len() == 4 && seq!['A', 'S', 'R', 'A'][0] == 'A' && seq!['A', 'S', 'R', 'A'][1] == 'S' && seq!['A', 'S', 'R', 'A'][2] == 'R' && seq!['A', 'S', 'R', 'A'][3] == 'A');
    assert(seq!['A', 'S', 'R', 'B'].len() == 4 && seq!['A', 'S', 'R', 'B'][0] == 'A' && seq!['A', 'S', 'R', 'B'][1] == 'S' && seq!['A', 'S', 'R', 'B'][2] == 'R' && seq!['A', 'S', 'R', 'B'][3] == 'B');
    assert(seq!['A', 'S', 'R'].len() == 3 && seq!['A', 'S', 'R'][0] == 'A' && seq!['A', 'S', 'R'][1] == 'S' && seq!['A', 'S', 'R'][2] == 'R');
    assert(seq!['B', 'I', 'T', 'A'].len() == 4 && seq!['B', 'I', 'T', 'A'][0] == 'B' && seq!['B', 'I', 'T', 'A'][1] == 'I' && seq!['B', 'I', 'T', 'A'][2] == 'T' && seq!['B', 'I', 'T', 'A'][3] == 'A');
    match i {
        Instruction::ANDCC(_) => {
            assert(i.name() =~= "ANDCC"@);
        },
        Instruction::ASLA => {
            assert(i.name() =~= "ASLA"@);
        },
        Instruction::ASLB => {
            assert(i.name() =~= "ASLB"@);
        },
        Instruction::ASL(_) => {
            assert(i.name() =~= "ASL"@);
        },
        Instruction::ASRA => {
            assert(i.name() =~= "ASRA"@);
        },
        Instruction::ASRB => {
            assert(i.name() =~= "ASRB"@);
        },
        Instruction::ASR(_) => {
            assert(i.name() =~= "ASR"@);
        },
        Instruction::BITA(_) => {
            assert(i.name() =~= "BITA"@);
        },
        _ => {},
    }
}

proof fn lemma_reads_2(i: Instruction, toks: Seq<Token>, pos: int, end: int, p: int)
    requires
        i is BITB || i is BCC || i is BCS || i is BEQ || i is BGE || i is BGT || i is BHI || i is BHS,
        0 <= pos,
        p <= end,
        writes_operand(i, toks, pos, p),
    ensures
        spec_recognise_mnemonic(i.name(), toks, pos, end) == Ok::<(SpecElement, int), Seq<char>>((SpecElement::Inst(i), p)),
{
    reveal_strlit("ORG");
    reveal_strlit("EXEC");
    reveal_strlit("EQU");
    reveal_strlit("DB");
    reveal_strlit("DW");
    reveal_strlit("DS");
    reveal_strlit("ABX");
    reveal_strlit("ADCA");
    reveal_strlit("ADCB");
    reveal_strlit("ADDA");
    reveal_strlit("ADDB");
    reveal_strlit("ADDD");
    reveal_strlit("ANDA");
    reveal_strlit("ANDB");
    reveal_strlit("ANDCC");
    reveal_strlit("ASLA");
    reveal_strlit("ASLB");
    reveal_strlit("ASL");
    reveal_strlit("ASRA");
    reveal_strlit("ASRB");
    reveal_strlit("ASR");
    reveal_strlit("BITA");
    reveal_strlit("BITB");
    reveal_strlit("BCC");
    reveal_strlit("BCS");
    reveal_strlit("BEQ");
    reveal_strlit("BGE");
    reveal_strlit("BGT");
    reveal_strlit("BHI");
    reveal_strlit("BHS");
    assert(seq!['B', 'I', 'T', 'B'].len() == 4 && seq!['B', 'I', 'T', 'B'][0] == 'B' && seq!['B', 'I', 'T', 'B'][1] == 'I' && seq!['B', 'I', 'T', 'B'][2] == 'T' && seq!['B', 'I', 'T', 'B'][3] == 'B');
    assert(seq!['B', 'C', 'C'].len() == 3 && seq!['B', 'C', 'C'][0] == 'B' && seq!['B', 'C', 'C'][1] == 'C' && seq!['B', 'C', 'C'][2] == 'C');
    assert(seq!['B', 'C', 'S'].len() == 3 && seq!['B', 'C', 'S'][0] == 'B' && seq!['B', 'C', 'S'][1] == 'C' && seq!['B', 'C', 'S'][2] == 'S');
    assert(seq!['B', 'E', 'Q'].len() == 3 && seq!['B', 'E', 'Q'][0] == 'B' && seq!['B', 'E', 'Q'][1] == 'E' && seq!['B', 'E', 'Q'][2] == 'Q');
    assert(seq!['B', 'G', 'E'].len() == 3 && seq!['B', 'G', 'E'][0] == 'B' && seq!['B', 'G', 'E'][1] == 'G' && seq!['B', 'G', 'E'][2] == 'E');
    assert(seq!['B', 'G', 'T'].len() == 3 && seq!['B', 'G', 'T'][0] == 'B' && seq!['B', 'G', 'T'][1] == 'G' && seq!['B', 'G', 'T'][2] == 'T');
    assert(seq!['B', 'H', 'I'].len() == 3 && seq!['B', 'H', 'I'][0] == 'B' && seq!['B', 'H', 'I'][1] == 'H' && seq!['B', 'H', 'I'][2] == 'I');
    assert(seq!['B', 'H', 'S'].len() == 3 && seq!['B', 'H', 'S'][0] == 'B' && seq!['B', 'H', 'S'][1] == 'H' && seq!['B', 'H', 'S'][2] == 'S');
    match i {
        Instruction::BITB(_) => {
            assert(i.name() =~= "BITB"@);
        },
        Instruction::BCC(_) => {
            assert(i.name() =~= "BCC"@);
        },
        Instruction::BCS(_) => {
            assert(i.name() =~= "BCS"@);
        },
        Instruction::BEQ(_) => {
            assert(i.name() =~= "BEQ"@);
        },
        Instruction::BGE(_) => {
            assert(i.name() =~= "BGE"@);
        },
        Instruction::BGT(_) => {
            assert(i.name() =~= "BGT"@);
        },
        Instruction::BHI(_) => {
            assert(i.name() =~= "BHI"@);
        },
        Instruction::BHS(_) => {
            assert(i.name() =~= "BHS"@);
        },
        _ => {},
    }
}

proof fn lemma_reads_3(i: Instruction, toks: Seq<Token>, pos: int, end: int, p: int)
    requires
        i is BLE || i is BLO || i is BLS || i is BLT || i is BMI || i is BNE || i is BPL || i is BRA,
        0 <= pos,
        p <= end,
        writes_operand(i, toks, pos, p),
    ensures
        spec_recognise_mnemonic(i.name(), toks, pos, end) == Ok::<(SpecElement, int), Seq<char>>((SpecElement::Inst(i), p)),
{
    reveal_strlit("ORG");
    reveal_strlit("EXEC");
    reveal_strlit("EQU");
    reveal_strlit("DB");
    reveal_strlit("DW");
    reveal_strlit("DS");
    reveal_strlit("ABX");
    reveal_strlit("ADCA");
    reveal_strlit("ADCB");
    reveal_strlit("ADDA");
    reveal_strlit("ADDB");
    reveal_strlit("ADDD");
    reveal_strlit("ANDA");
    reveal_strlit("ANDB");
    reveal_strlit("ANDCC");
    reveal_strlit("ASLA");
    reveal_strlit("ASLB");
    reveal_strlit("ASL");
    reveal_strlit("ASRA");
    reveal_strlit("ASRB");
    reveal_strlit("ASR");
    reveal_strlit("BITA");
    reveal_strlit("BITB");
    reveal_strlit("BCC");
    reveal_strlit("BCS");
    reveal_strlit("BEQ");
    reveal_strlit("BGE");
    reveal_strlit("BGT");
    reveal_strlit("BHI");
    reveal_strlit("BHS");
    reveal_strlit("BLE");
    reveal_strlit("BLO");
    reveal_strlit("BLS");
    reveal_strlit("BLT");
    reveal_strlit("BMI");
    reveal_strlit("BNE");
    reveal_strlit("BPL");
    reveal_strlit("BRA");
    assert(seq!['B', 'L', 'E'].len() == 3 && seq!['B', 'L', 'E'][0] == 'B' && seq!['B', 'L', 'E'][1] == 'L' && seq!['B', 'L', 'E'][2] == 'E');
    assert(seq!['B', 'L', 'O'].len() == 3 && seq!['B', 'L', 'O'][0] == 'B' && seq!['B', 'L', 'O'][1] == 'L' && seq!['B', 'L', 'O'][2] == 'O');
    assert(seq!['B', 'L', 'S'].len() == 3 && seq!['B', 'L', 'S'][0] == 'B' && seq!['B', 'L', 'S'][1] == 'L' && seq!['B', 'L', 'S'][2] == 'S');
    assert(seq!['B', 'L', 'T'].len() == 3 && seq!['B', 'L', 'T'][0] == 'B' && seq!['B', 'L', 'T'][1] == 'L' && seq!['B', 'L', 'T'][2] == 'T');
    assert(seq!['B', 'M', 'I'].len() == 3 && seq!['B', 'M', 'I'][0] == 'B' && seq!['B', 'M', 'I'][1] == 'M' && seq!['B', 'M', 'I'][2] == 'I');
    assert(seq!['B', 'N', 'E'].len() == 3 && seq!['B', 'N', 'E'][0] == 'B' && seq!['B', 'N', 'E'][1] == 'N' && seq!['B', 'N', 'E'][2] == 'E');
    assert(seq!['B', 'P', 'L'].len() == 3 && seq!['B', 'P', 'L'][0] == 'B' && seq!['B', 'P', 'L'][1] == 'P' && seq!['B', 'P', 'L'][2] == 'L');
    assert(seq!['B', 'R', 'A'].len() == 3 && seq!['B', 'R', 'A'][0] == 'B' && seq!['B', 'R', 'A'][1] == 'R' && seq!['B', 'R', 'A'][2] == 'A');
    match i {
        Instruction::BLE(_) => {
            assert(i.name() =~= "BLE"@);
        },
        Instruction::BLO(_) => {
            assert(i.name() =~= "BLO"@);
        },
        Instruction::BLS(_) => {
            assert(i.name() =~= "BLS"@);
        },
        Instruction::BLT(_) => {
            assert(i.name() =~= "BLT"@);
        },
        Instruction::BMI(_) => {
            assert(i.name() =~= "BMI"@);
        },
        Instruction::BNE(_) => {
            assert(i.name() =~= "BNE"@);
        },
        Instruction::BPL(_) => {
            assert(i.name() =~= "BPL"@);
        },
        Instruction::BRA(_) => {
            assert(i.name() =~= "BRA"@);
        },
        _ => {},
    }
}

proof fn lemma_reads_4(i: Instruction, toks: Seq<Token>, pos: int, end: int, p: int)
    requires
        i is BRN || i is BSR || i is BVC || i is BVS || i is CLC || i is CLF || i is CLI || i is CLIF,
        0 <= pos,
        p <= end,
        writes_operand(i, toks, pos, p),
    ensures
        spec_recognise_mnemonic(i.name(), toks, pos, end) == Ok::<(SpecElement, int), Seq<char>>((SpecElement::Inst(i), p)),
{
    reveal_strlit("ORG");
    reveal_strlit("EXEC");
    reveal_strlit("EQU");
    reveal_strlit("DB");
    reveal_strlit("DW");
    reveal_strlit("DS");
    reveal_strlit("ABX");
    reveal_strlit("ADCA");
    reveal_strlit("ADCB");
    reveal_strlit("ADDA");
    reveal_strlit("ADDB");
    reveal_strlit("ADDD");
    reveal_strlit("ANDA");
    reveal_strlit("ANDB");
    reveal_strlit("ANDCC");
    reveal_strlit("ASLA");
    reveal_strlit("ASLB");
    reveal_strlit("ASL");
    reveal_strlit("ASRA");
    reveal_strlit("ASRB");
    reveal_strlit("ASR");
    reveal_strlit("BITA");
    reveal_strlit("BITB");
    reveal_strlit("BCC");
    reveal_strlit("BCS");
    reveal_strlit("BEQ");
    reveal_strlit("BGE");
    reveal_strlit("BGT");
    reveal_strlit("BHI");
    reveal_strlit("BHS");
    reveal_strlit("BLE");
    reveal_strlit("BLO");
    reveal_strlit("BLS");
    reveal_strlit("BLT");
    reveal_strlit("BMI");
    reveal_strlit("BNE");
    reveal_strlit("BPL");
    reveal_strlit("BRA");
    reveal_strlit("BRN");
    reveal_strlit("BSR");
    reveal_strlit("BVC");
    reveal_strlit("BVS");
    reveal_strlit("CLC");
    reveal_strlit("CLF");
    reveal_strlit("CLI");
    reveal_strlit("CLIF");
    assert(seq!['B', 'R', 'N'].len() == 3 && seq!['B', 'R', 'N'][0] == 'B' && seq!['B', 'R', 'N'][1] == 'R' && seq!['B', 'R', 'N'][2] == 'N');
    assert(seq!['B', 'S', 'R'].len() == 3 && seq!['B', 'S', 'R'][0] == 'B' && seq!['B', 'S', 'R'][1] == 'S' && seq!['B', 'S', 'R'][2] == 'R');
    assert(seq!['B', 'V', 'C'].len() == 3 && seq!['B', 'V', 'C'][0] == 'B' && seq!['B', 'V', 'C'][1] == 'V' && seq!['B', 'V', 'C'][2] == 'C');
    assert(seq!['B', 'V', 'S'].len() == 3 && seq!['B', 'V', 'S'][0] == 'B' && seq!['B', 'V', 'S'][1] == 'V' && seq!['B', 'V', 'S'][2] == 'S');
    assert(seq!['C', 'L', 'C'].len() == 3 && seq!['C', 'L', 'C'][0] == 'C' && seq!['C', 'L', 'C'][1] == 'L' && seq!['C', 'L', 'C'][2] == 'C');
    assert(seq!['C', 'L', 'F'].len() == 3 && seq!['C', 'L', 'F'][0] == 'C' && seq!['C', 'L', 'F'][1] == 'L' && seq!['C', 'L', 'F'][2] == 'F');
    assert(seq!['C', 'L', 'I'].len() == 3 && seq!['C', 'L', 'I'][0] == 'C' && seq!['C', 'L', 'I'][1] == 'L' && seq!['C', 'L', 'I'][2] == 'I');
    assert(seq!['C', 'L', 'I', 'F'].len() == 4 && seq!['C', 'L', 'I', 'F'][0] == 'C' && seq!['C', 'L', 'I', 'F'][1] == 'L' && seq!['C', 'L', 'I', 'F'][2] == 'I' && seq!['C', 'L', 'I', 'F'][3] == 'F');
    match i {
        Instruction::BRN(_) => {
            assert(i.name() =~= "BRN"@);
        },
        Instruction::BSR(_) => {
            assert(i.name() =~= "BSR"@);
        },
        Instruction::BVC(_) => {
            assert(i.name() =~= "BVC"@);
        },
        Instruction::BVS(_) => {
            assert(i.name() =~= "BVS"@);
        },
        Instruction::CLC => {
            assert(i.name() =~= "CLC"@);
        },
        Instruction::CLF => {
            assert(i.name() =~= "CLF"@);
        },
        Instruction::CLI => {
            assert(i.name() =~= "CLI"@);
        },
        Instruction::CLIF => {
            assert(i.name() =~= "CLIF"@);
        },
        _ => {},
    }
}

proof fn lemma_reads_5(i: Instruction, toks: Seq<Token>, pos: int, end: int, p: int)
    requires
        i is CLRA || i is CLRB || i is CLR || i is CMPA || i is CMPB || i is CMPD || i is CMPS || i is CMPU,
        0 <= pos,
        p <= end,
        writes_operand(i, toks, pos, p),
    ensures
        spec_recognise_mnemonic(i.name(), toks, pos, end) == Ok::<(SpecElement, int), Seq<char>>((SpecElement::Inst(i), p)),
{
    reveal_strlit("ORG");
    reveal_strlit("EXEC");
    reveal_strlit("EQU");
    reveal_strlit("DB");
    reveal_strlit("DW");
    reveal_strlit("DS");
    reveal_strlit("ABX");
    reveal_strlit("ADCA");
    reveal_strlit("ADCB");
    reveal_strlit("ADDA");
    reveal_strlit("ADDB");
    reveal_strlit("ADDD");
    reveal_strlit("ANDA");
    reveal_strlit("ANDB");
    reveal_strlit("ANDCC");
    reveal_strlit("ASLA");
    reveal_strlit("ASLB");
    reveal_strlit("ASL");
    reveal_strlit("ASRA");
    reveal_strlit("ASRB");
    reveal_strlit("ASR");
    reveal_strlit("BITA");
    reveal_strlit("BITB");
    reveal_strlit("BCC");
    reveal_strlit("BCS");
    reveal_strlit("BEQ");
    reveal_strlit("BGE");
    reveal_strlit("BGT");
    reveal_strlit("BHI");
    reveal_strlit("BHS");
    reveal_strlit("BLE");
    reveal_strlit("BLO");
    reveal_strlit("BLS");
    reveal_strlit("BLT");
    reveal_strlit("BMI");
    reveal_strlit("BNE");
    reveal_strlit("BPL");
    reveal_strlit("BRA");
    reveal_strlit("BRN");
    reveal_strlit("BSR");
    reveal_strlit("BVC");
    reveal_strlit("BVS");
    reveal_strlit("CLC");
    reveal_strlit("CLF");
    reveal_strlit("CLI");
    reveal_strlit("CLIF");
    reveal_strlit("CLRA");
    reveal_strlit("CLRB");
    reveal_strlit("CLR");
    reveal_strlit("CMPA");
    reveal_strlit("CMPB");
    reveal_strlit("CMPD");
    reveal_strlit("CMPS");
    reveal_strlit("CMPU");
    assert(seq!['C', 'L', 'R', 'A'].len() == 4 && seq!['C', 'L', 'R', 'A'][0] == 'C' && seq!['C', 'L', 'R', 'A'][1] == 'L' && seq!['C', 'L', 'R', 'A'][2] == 'R' && seq!['C', 'L', 'R', 'A'][3] == 'A');
    assert(seq!['C', 'L', 'R', 'B'].len() == 4 && seq!['C', 'L', 'R', 'B'][0] == 'C' && seq!['C', 'L', 'R', 'B'][1] == 'L' && seq!['C', 'L', 'R', 'B'][2] == 'R' && seq!['C', 'L', 'R', 'B'][3] == 'B');
    assert(seq!['C', 'L', 'R'].len() == 3 && seq!['C', 'L', 'R'][0] == 'C' && seq!['C', 'L', 'R'][1] == 'L' && seq!['C', 'L', 'R'][2] == 'R');
    assert(seq!['C', 'M', 'P', 'A'].len() == 4 && seq!['C', 'M', 'P', 'A'][0] == 'C' && seq!['C', 'M', 'P', 'A'][1] == 'M' && seq!['C', 'M', 'P', 'A'][2] == 'P' && seq!['C', 'M', 'P', 'A'][3] == 'A');
    assert(seq!['C', 'M', 'P', 'B'].len() == 4 && seq!['C', 'M', 'P', 'B'][0] == 'C' && seq!['C', 'M', 'P', 'B'][1] == 'M' && seq!['C', 'M', 'P', 'B'][2] == 'P' && seq!['C', 'M', 'P', 'B'][3] == 'B');
    assert(seq!['C', 'M', 'P', 'D'].len() == 4 && seq!['C', 'M', 'P', 'D'][0] == 'C' && seq!['C', 'M', 'P', 'D'][1] == 'M' && seq!['C', 'M', 'P', 'D'][2] == 'P' && seq!['C', 'M', 'P', 'D'][3] == 'D');
    assert(seq!['C', 'M', 'P', 'S'].len() == 4 && seq!['C', 'M', 'P', 'S'][0] == 'C' && seq!['C', 'M', 'P', 'S'][1] == 'M' && seq!['C', 'M', 'P', 'S'][2] == 'P' && seq!['C', 'M', 'P', 'S'][3] == 'S');
    assert(seq!['C', 'M', 'P', 'U'].len() == 4 && seq!['C', 'M', 'P', 'U'][0] == 'C' && seq!['C', 'M', 'P', 'U'][1] == 'M' && seq!['C', 'M', 'P', 'U'][2] == 'P' && seq!['C', 'M', 'P', 'U'][3] == 'U');
    match i {
        Instruction::CLRA => {
            assert(i.name() =~= "CLRA"@);
        },
        Instruction::CLRB => {
            assert(i.name() =~= "CLRB"@);
        },
        Instruction::CLR(_) => {
            assert(i.name() =~= "CLR"@);
        },
        Instruction::CMPA(_) => {
            assert(i.name() =~= "CMPA"@);
        },
        Instruction::CMPB(_) => {
            assert(i.name() =~= "CMPB"@);
        },
        Instruction::CMPD(_) => {
            assert(i.name() =~= "CMPD"@);
        },
        Instruction::CMPS(_) => {
            assert(i.name() =~= "CMPS"@);
        },
        Instruction::CMPU(_) => {
            assert(i.name() =~= "CMPU"@);
        },
        _ => {},
    }
}

proof fn lemma_reads_6(i: Instruction, toks: Seq<Token>, pos: int, end: int, p: int)
    requires
        i is CMPX || i is CMPY || i is CLV || i is COMA || i is COMB || i is COM || i is CWAI || i is DAA,
        0 <= pos,
        p <= end,
        writes_operand(i, toks, pos, p),
    ensures
        spec_recognise_mnemonic(i.name(), toks, pos, end) == Ok::<(SpecElement, int), Seq<char>>((SpecElement::Inst(i), p)),
{
    reveal_strlit("ORG");
    reveal_strlit("EXEC");
    reveal_strlit("EQU");
    reveal_strlit("DB");
    reveal_strlit("DW");
    reveal_strlit("DS");
    reveal_strlit("ABX");
    reveal_strlit("ADCA");
    reveal_strlit("ADCB");
    reveal_strlit("ADDA");
    reveal_strlit("ADDB");
    reveal_strlit("ADDD");
    reveal_strlit("ANDA");
    reveal_strlit("ANDB");
    reveal_strlit("ANDCC");
    reveal_strlit("ASLA");
    reveal_strlit("ASLB");
    reveal_strlit("ASL");
    reveal_strlit("ASRA");
    reveal_strlit("ASRB");
    reveal_strlit("ASR");
    reveal_strlit("BITA");
    reveal_strlit("BITB");
    reveal_strlit("BCC");
    reveal_strlit("BCS");
    reveal_strlit("BEQ");
    reveal_strlit("BGE");
    reveal_strlit("BGT");
    reveal_strlit("BHI");
    reveal_strlit("BHS");
    reveal_strlit("BLE");
    reveal_strlit("BLO");
    reveal_strlit("BLS");
    reveal_strlit("BLT");
    reveal_strlit("BMI");
    reveal_strlit("BNE");
    reveal_strlit("BPL");
    reveal_strlit("BRA");
    reveal_strlit("BRN");
    reveal_strlit("BSR");
    reveal_strlit("BVC");
    reveal_strlit("BVS");
    reveal_strlit("CLC");
    reveal_strlit("CLF");
    reveal_strlit("CLI");
    reveal_strlit("CLIF");
    reveal_strlit("CLRA");
    reveal_strlit("CLRB");
    reveal_strlit("CLR");
    reveal_strlit("CMPA");
    reveal_strlit("CMPB");
    reveal_strlit("CMPD");
    reveal_strlit("CMPS");
    reveal_strlit("CMPU");
    reveal_strlit("CMPX");
    reveal_strlit("CMPY");
    reveal_strlit("CLV");
    reveal_strlit("COMA");
    reveal_strlit("COMB");
    reveal_strlit("COM");
    reveal_strlit("CWAI");
    reveal_strlit("DAA");
    assert(seq!['C', 'M', 'P', 'X'].len() == 4 && seq!['C', 'M', 'P', 'X'][0] == 'C' && seq!['C', 'M', 'P', 'X'][1] == 'M' && seq!['C', 'M', 'P', 'X'][2] == 'P' && seq!['C', 'M', 'P', 'X'][3] == 'X');
    assert(seq!['C', 'M', 'P', 'Y'].len() == 4 && seq!['C', 'M', 'P', 'Y'][0] == 'C' && seq!['C', 'M', 'P', 'Y'][1] == 'M' && seq!['C', 'M', 'P', 'Y'][2] == 'P' && seq!['C', 'M', 'P', 'Y'][3] == 'Y');
    assert(seq!['C', 'L', 'V'].len() == 3 && seq!['C', 'L', 'V'][0] == 'C' && seq!['C', 'L', 'V'][1] == 'L' && seq!['C', 'L', 'V'][2] == 'V');
    assert(seq!['C', 'O', 'M', 'A'].len() == 4 && seq!['C', 'O', 'M', 'A'][0] == 'C' && seq!['C', 'O', 'M', 'A'][1] == 'O' && seq!['C', 'O', 'M', 'A'][2] == 'M' && seq!['C', 'O', 'M', 'A'][3] == 'A');
    assert(seq!['C', 'O', 'M', 'B'].len() == 4 && seq!['C', 'O', 'M', 'B'][0] == 'C' && seq!['C', 'O', 'M', 'B'][1] == 'O' && seq!['C', 'O', 'M', 'B'][2] == 'M' && seq!['C', 'O', 'M', 'B'][3] == 'B');
    assert(seq!['C', 'O', 'M'].len() == 3 && seq!['C', 'O', 'M'][0] == 'C' && seq!['C', 'O', 'M'][1] == 'O' && seq!['C', 'O', 'M'][2] == 'M');
    assert(seq!['C', 'W', 'A', 'I'].len() == 4 && seq!['C', 'W', 'A', 'I'][0] == 'C' && seq!['C', 'W', 'A', 'I'][1] == 'W' && seq!['C', 'W', 'A', 'I'][2] == 'A' && seq!['C', 'W', 'A', 'I'][3] == 'I');
    assert(seq!['D', 'A', 'A'].len() == 3 && seq!['D', 'A', 'A'][0] == 'D' && seq!['D', 'A', 'A'][1] == 'A' && seq!['D', 'A', 'A'][2] == 'A');
    match i {
        Instruction::CMPX(_) => {
            assert(i.name() =~= "CMPX"@);
        },
        Instruction::CMPY(_) => {
            assert(i.name() =~= "CMPY"@);
        },
        Instruction::CLV => {
            assert(i.name() =~= "CLV"@);
        },
        Instruction::COMA => {
            assert(i.name() =~= "COMA"@);
        },
        Instruction::COMB => {
            assert(i.name() =~= "COMB"@);
        },
        Instruction::COM(_) => {
            assert(i.name() =~= "COM"@);
        },
        Instruction::CWAI(_) => {
            assert(i.name() =~= "CWAI"@);
        },
        Instruction::DAA => {
            assert(i.name() =~= "DAA"@);
        },
        _ => {},
    }
}

proof fn lemma_reads_7(i: Instruction, toks: Seq<Token>, pos: int, end: int, p: int)
    requires
        i is DECA || i is DECB || i is DEC || i is EXG || i is INCA || i is INCB || i is INC || i is JMP,
        0 <= pos,
        p <= end,
        writes_operand(i, toks, pos, p),
    ensures
        spec_recognise_mnemonic(i.name(), toks, pos, end) == Ok::<(SpecElement, int), Seq<char>>((SpecElement::Inst(i), p)),
{
    reveal_strlit("ORG");
    reveal_strlit("EXEC");
    reveal_strlit("EQU");
    reveal_strlit("DB");
    reveal_strlit("DW");
    reveal_strlit("DS");
    reveal_strlit("ABX");
    reveal_strlit("ADCA");
    reveal_strlit("ADCB");
    reveal_strlit("ADDA");
    reveal_strlit("ADDB");
    reveal_strlit("ADDD");
    reveal_strlit("ANDA");
    reveal_strlit("ANDB");
    reveal_strlit("ANDCC");
    reveal_strlit("ASLA");
    reveal_strlit("ASLB");
    reveal_strlit("ASL");
    reveal_strlit("ASRA");
    reveal_strlit("ASRB");
    reveal_strlit("ASR");
    reveal_strlit("BITA");
    reveal_strlit("BITB");
    reveal_strlit("BCC");
    reveal_strlit("BCS");
    reveal_strlit("BEQ");
    reveal_strlit("BGE");
    reveal_strlit("BGT");
    reveal_strlit("BHI");
    reveal_strlit("BHS");
    reveal_strlit("BLE");
    reveal_strlit("BLO");
    reveal_strlit("BLS");
    reveal_strlit("BLT");
    reveal_strlit("BMI");
    reveal_strlit("BNE");
    reveal_strlit("BPL");
    reveal_strlit("BRA");
    reveal_strlit("BRN");
    reveal_strlit("BSR");
    reveal_strlit("BVC");
    reveal_strlit("BVS");
    reveal_strlit("CLC");
    reveal_strlit("CLF");
    reveal_strlit("CLI");
    reveal_strlit("CLIF");
    reveal_strlit("CLRA");
    reveal_strlit("CLRB");
    reveal_strlit("CLR");
    reveal_strlit("CMPA");
    reveal_strlit("CMPB");
    reveal_strlit("CMPD");
    reveal_strlit("CMPS");
    reveal_strlit("CMPU");
    reveal_strlit("CMPX");
    reveal_strlit("CMPY");
    reveal_strlit("CLV");
    reveal_strlit("COMA");
    reveal_strlit("COMB");
    reveal_strlit("COM");
    reveal_strlit("CWAI");
    reveal_strlit("DAA");
    reveal_strlit("DECA");
    reveal_strlit("DECB");
    reveal_strlit("DEC");
    reveal_strlit("EXG");
    reveal_strlit("INCA");
    reveal_strlit("INCB");
    reveal_strlit("INC");
    reveal_strlit("JMP");
    assert(seq!['D', 'E', 'C', 'A'].len() == 4 && seq!['D', 'E', 'C', 'A'][0] == 'D' && seq!['D', 'E', 'C', 'A'][1] == 'E' && seq!['D', 'E', 'C', 'A'][2] == 'C' && seq!['D', 'E', 'C', 'A'][3] == 'A');
    assert(seq!['D', 'E', 'C', 'B'].len() == 4 && seq!['D', 'E', 'C', 'B'][0] == 'D' && seq!['D', 'E', 'C', 'B'][1] == 'E' && seq!['D', 'E', 'C', 'B'][2] == 'C' && seq!['D', 'E', 'C', 'B'][3] == 'B');
    assert(seq!['D', 'E', 'C'].len() == 3 && seq!['D', 'E', 'C'][0] == 'D' && seq!['D', 'E', 'C'][1] == 'E' && seq!['D', 'E', 'C'][2] == 'C');
    assert(seq!['E', 'X', 'G'].len() == 3 && seq!['E', 'X', 'G'][0] == 'E' && seq!['E', 'X', 'G'][1] == 'X' && seq!['E', 'X', 'G'][2] == 'G');
    assert(seq!['I', 'N', 'C', 'A'].len() == 4 && seq!['I', 'N', 'C', 'A'][0] == 'I' && seq!['I', 'N', 'C', 'A'][1] == 'N' && seq!['I', 'N', 'C', 'A'][2] == 'C' && seq!['I', 'N', 'C', 'A'][3] == 'A');
    assert(seq!['I', 'N', 'C', 'B'].len() == 4 && seq!['I', 'N', 'C', 'B'][0] == 'I' && seq!['I', 'N', 'C', 'B'][1] == 'N' && seq!['I', 'N', 'C', 'B'][2] == 'C' && seq!['I', 'N', 'C', 'B'][3] == 'B');
    assert(seq!['I', 'N', 'C'].len() == 3 && seq!['I', 'N', 'C'][0] == 'I' && seq!['I', 'N', 'C'][1] == 'N' && seq!['I', 'N', 'C'][2] == 'C');
    assert(seq!['J', 'M', 'P'].len() == 3 && seq!['J', 'M', 'P'][0] == 'J' && seq!['J', 'M', 'P'][1] == 'M' && seq!['J', 'M', 'P'][2] == 'P');
    if toks[pos] is Name && toks[pos + 2] is Name {
        lemma_tfr_reads(toks[pos]->Name_0@);
        lemma_tfr_reads(toks[pos + 2]->Name_0@);
    }
    match i {
        Instruction::DECA => {
            assert(i.name() =~= "DECA"@);
        },
        Instruction::DECB => {
            assert(i.name() =~= "DECB"@);
        },
        Instruction::DEC(_) => {
            assert(i.name() =~= "DEC"@);
        },
        Instruction::EXG(_) => {
            assert(i.name() =~= "EXG"@);
        },
        Instruction::INCA => {
            assert(i.name() =~= "INCA"@);
        },
        Instruction::INCB => {
            assert(i.name() =~= "INCB"@);
        },
        Instruction::INC(_) => {
            assert(i.name() =~= "INC"@);
        },
        Instruction::JMP(_) => {
            assert(i.name() =~= "JMP"@);
        },
        _ => {},
    }
}

proof fn lemma_reads_8(i: Instruction, toks: Seq<Token>, pos: int, end: int, p: int)
    requires
        i is JSR || i is LDA || i is LDB || i is LDD || i is LDX || i is LDY || i is LDS || i is LDU,
        0 <= pos,
        p <= end,
        writes_operand(i, toks, pos, p),
    ensures
        spec_recognise_mnemonic(i.name(), toks, pos, end) == Ok::<(SpecElement, int), Seq<char>>((SpecElement::Inst(i), p)),
{
    reveal_strlit("ORG");
    reveal_strlit("EXEC");
    reveal_strlit("EQU");
    reveal_strlit("DB");
    reveal_strlit("DW");
    reveal_strlit("DS");
    reveal_strlit("ABX");
    reveal_strlit("ADCA");
    reveal_strlit("ADCB");
    reveal_strlit("ADDA");
    reveal_strlit("ADDB");
    reveal_strlit("ADDD");
    reveal_strlit("ANDA");
    reveal_strlit("ANDB");
    reveal_strlit("ANDCC");
    reveal_strlit("ASLA");
    reveal_strlit("ASLB");
    reveal_strlit("ASL");
    reveal_strlit("ASRA");
    reveal_strlit("ASRB");
    reveal_strlit("ASR");
    reveal_strlit("BITA");
    reveal_strlit("BITB");
    reveal_strlit("BCC");
    reveal_strlit("BCS");
    reveal_strlit("BEQ");
    reveal_strlit("BGE");
    reveal_strlit("BGT");
    reveal_strlit("BHI");
    reveal_strlit("BHS");
    reveal_strlit("BLE");
    reveal_strlit("BLO");
    reveal_strlit("BLS");
    reveal_strlit("BLT");
    reveal_strlit("BMI");
    reveal_strlit("BNE");
    reveal_strlit("BPL");
    reveal_strlit("BRA");
    reveal_strlit("BRN");
    reveal_strlit("BSR");
    reveal_strlit("BVC");
    reveal_strlit("BVS");
    reveal_strlit("CLC");
    reveal_strlit("CLF");
    reveal_strlit("CLI");
    reveal_strlit("CLIF");
    reveal_strlit("CLRA");
    reveal_strlit("CLRB");
    reveal_strlit("CLR");
    reveal_strlit("CMPA");
    reveal_strlit("CMPB");
    reveal_strlit("CMPD");
    reveal_strlit("CMPS");
    reveal_strlit("CMPU");
    reveal_strlit("CMPX");
    reveal_strlit("CMPY");
    reveal_strlit("CLV");
    reveal_strlit("COMA");
    reveal_strlit("COMB");
    reveal_strlit("COM");
    reveal_strlit("CWAI");
    reveal_strlit("DAA");
    reveal_strlit("DECA");
    reveal_strlit("DECB");
    reveal_strlit("DEC");
    reveal_strlit("EXG");
    reveal_strlit("INCA");
    reveal_strlit("INCB");
    reveal_strlit("INC");
    reveal_strlit("JMP");
    reveal_strlit("JSR");
    reveal_strlit("LBCC");
    reveal_strlit("LBCS");
    reveal_strlit("LBEQ");
    reveal_strlit("LBGE");
    reveal_strlit("LBGT");
    reveal_strlit("LBHI");
    reveal_strlit("LBHS");
    reveal_strlit("LBLE");
    reveal_strlit("LBLO");
    reveal_strlit("LBLS");
    reveal_strlit("LBLT");
    reveal_strlit("LBMI");
    reveal_strlit("LBNE");
    reveal_strlit("LBPL");
    reveal_strlit("LBRA");
    reveal_strlit("LBRN");
    reveal_strlit("LBSR");
    reveal_strlit("LBVC");
    reveal_strlit("LBVS");
    reveal_strlit("LDA");
    reveal_strlit("LDB");
    reveal_strlit("LDD");
    reveal_strlit("LDX");
    reveal_strlit("LDY");
    reveal_strlit("LDS");
    reveal_strlit("LDU");
    assert(seq!['J', 'S', 'R'].len() == 3 && seq!['J', 'S', 'R'][0] == 'J' && seq!['J', 'S', 'R'][1] == 'S' && seq!['J', 'S', 'R'][2] == 'R');
    assert(seq!['L', 'D', 'A'].len() == 3 && seq!['L', 'D', 'A'][0] == 'L' && seq!['L', 'D', 'A'][1] == 'D' && seq!['L', 'D', 'A'][2] == 'A');
    assert(seq!['L', 'D', 'B'].len() == 3 && seq!['L', 'D', 'B'][0] == 'L' && seq!['L', 'D', 'B'][1] == 'D' && seq!['L', 'D', 'B'][2] == 'B');
    assert(seq!['L', 'D', 'D'].len() == 3 && seq!['L', 'D', 'D'][0] == 'L' && seq!['L', 'D', 'D'][1] == 'D' && seq!['L', 'D', 'D'][2] == 'D');
    assert(seq!['L', 'D', 'X'].len() == 3 && seq!['L', 'D', 'X'][0] == 'L' && seq!['L', 'D', 'X'][1] == 'D' && seq!['L', 'D', 'X'][2] == 'X');
    assert(seq!['L', 'D', 'Y'].len() == 3 && seq!['L', 'D', 'Y'][0] == 'L' && seq!['L', 'D', 'Y'][1] == 'D' && seq!['L', 'D', 'Y'][2] == 'Y');
    assert(seq!['L', 'D', 'S'].len() == 3 && seq!['L', 'D', 'S'][0] == 'L' && seq!['L', 'D', 'S'][1] == 'D' && seq!['L', 'D', 'S'][2] == 'S');
    assert(seq!['L', 'D', 'U'].len() == 3 && seq!['L', 'D', 'U'][0] == 'L' && seq!['L', 'D', 'U'][1] == 'D' && seq!['L', 'D', 'U'][2] == 'U');
    match i {
        Instruction::JSR(_) => {
            assert(i.name() =~= "JSR"@);
        },
        Instruction::LDA(_) => {
            assert(i.name() =~= "LDA"@);
        },
        Instruction::LDB(_) => {
            assert(i.name() =~= "LDB"@);
        },
        Instruction::LDD(_) => {
            assert(i.name() =~= "LDD"@);
        },
        Instruction::LDX(_) => {
            assert(i.name() =~= "LDX"@);
        },
        Instruction::LDY(_) => {
            assert(i.name() =~= "LDY"@);
        },
        Instruction::LDS(_) => {
            assert(i.name() =~= "LDS"@);
        },
        Instruction::LDU(_) => {
            assert(i.name() =~= "LDU"@);
        },
        _ => {},
    }
}

proof fn lemma_reads_9(i: Instruction, toks: Seq<Token>, pos: int, end: int, p: int)
    requires
        i is LEAX || i is LEAY || i is LEAU || i is LEAS || i is LSLA || i is LSLB || i is LSL || i is LSRA,
        0 <= pos,
        p <= end,
        writes_operand(i, toks, pos, p),
    ensures
        spec_recognise_mnemonic(i.name(), toks, pos, end) == Ok::<(SpecElement, int), Seq<char>>((SpecElement::Inst(i), p)),
{
    reveal_strlit("ORG");
    reveal_strlit("EXEC");
    reveal_strlit("EQU");
    reveal_strlit("DB");
    reveal_strlit("DW");
    reveal_strlit("DS");
    reveal_strlit("ABX");
    reveal_strlit("ADCA");
    reveal_strlit("ADCB");
    reveal_strlit("ADDA");
    reveal_strlit("ADDB");
    reveal_strlit("ADDD");
    reveal_strlit("ANDA");
    reveal_strlit("ANDB");
    reveal_strlit("ANDCC");
    reveal_strlit("ASLA");
    reveal_strlit("ASLB");
    reveal_strlit("ASL");
    reveal_strlit("ASRA");
    reveal_strlit("ASRB");
    reveal_strlit("ASR");
    reveal_strlit("BITA");
    reveal_strlit("BITB");
    reveal_strlit("BCC");
    reveal_strlit("BCS");
    reveal_strlit("BEQ");
    reveal_strlit("BGE");
    reveal_strlit("BGT");
    reveal_strlit("BHI");
    reveal_strlit("BHS");
    reveal_strlit("BLE");
    reveal_strlit("BLO");
    reveal_strlit("BLS");
    reveal_strlit("BLT");
    reveal_strlit("BMI");
    reveal_strlit("BNE");
    reveal_strlit("BPL");
    reveal_strlit("BRA");
    reveal_strlit("BRN");
    reveal_strlit("BSR");
    reveal_strlit("BVC");
    reveal_strlit("BVS");
    reveal_strlit("CLC");
    reveal_strlit("CLF");
    reveal_strlit("CLI");
    reveal_strlit("CLIF");
    reveal_strlit("CLRA");
    reveal_strlit("CLRB");
    reveal_strlit("CLR");
    reveal_strlit("CMPA");
    reveal_strlit("CMPB");
    reveal_strlit("CMPD");
    reveal_strlit("CMPS");
    reveal_strlit("CMPU");
    reveal_strlit("CMPX");
    reveal_strlit("CMPY");
    reveal_strlit("CLV");
    reveal_strlit("COMA");
    reveal_strlit("COMB");
    reveal_strlit("COM");
    reveal_strlit("CWAI");
    reveal_strlit("DAA");
    reveal_strlit("DECA");
    reveal_strlit("DECB");
    reveal_strlit("DEC");
    reveal_strlit("EXG");
    reveal_strlit("INCA");
    reveal_strlit("INCB");
    reveal_strlit("INC");
    reveal_strlit("JMP");
    reveal_strlit("JSR");
    reveal_strlit("LBCC");
    reveal_strlit("LBCS");
    reveal_strlit("LBEQ");
    reveal_strlit("LBGE");
    reveal_strlit("LBGT");
    reveal_strlit("LBHI");
    reveal_strlit("LBHS");
    reveal_strlit("LBLE");
    reveal_strlit("LBLO");
    reveal_strlit("LBLS");
    reveal_strlit("LBLT");
    reveal_strlit("LBMI");
    reveal_strlit("LBNE");
    reveal_strlit("LBPL");
    reveal_strlit("LBRA");
    reveal_strlit("LBRN");
    reveal_strlit("LBSR");
    reveal_strlit("LBVC");
    reveal_strlit("LBVS");
    reveal_strlit("LDA");
    reveal_strlit("LDB");
    reveal_strlit("LDD");
    reveal_strlit("LDX");
    reveal_strlit("LDY");
    reveal_strlit("LDS");
    reveal_strlit("LDU");
    reveal_strlit("LEAX");
    reveal_strlit("LEAY");
    reveal_strlit("LEAU");
    reveal_strlit("LEAS");
    reveal_strlit("LSLA");
    reveal_strlit("LSLB");
    reveal_strlit("LSL");
    reveal_strlit("LSRA");
    assert(seq!['L', 'E', 'A', 'X'].len() == 4 && seq!['L', 'E', 'A', 'X'][0] == 'L' && seq!['L', 'E', 'A', 'X'][1] == 'E' && seq!['L', 'E', 'A', 'X'][2] == 'A' && seq!['L', 'E', 'A', 'X'][3] == 'X');
    assert(seq!['L', 'E', 'A', 'Y'].len() == 4 && seq!['L', 'E', 'A', 'Y'][0] == 'L' && seq!['L', 'E', 'A', 'Y'][1] == 'E' && seq!['L', 'E', 'A', 'Y'][2] == 'A' && seq!['L', 'E', 'A', 'Y'][3] == 'Y');
    assert(seq!['L', 'E', 'A', 'U'].len() == 4 && seq!['L', 'E', 'A', 'U'][0] == 'L' && seq!['L', 'E', 'A', 'U'][1] == 'E' && seq!['L', 'E', 'A', 'U'][2] == 'A' && seq!['L', 'E', 'A', 'U'][3] == 'U');
    assert(seq!['L', 'E', 'A', 'S'].len() == 4 && seq!['L', 'E', 'A', 'S'][0] == 'L' && seq!['L', 'E', 'A', 'S'][1] == 'E' && seq!['L', 'E', 'A', 'S'][2] == 'A' && seq!['L', 'E', 'A', 'S'][3] == 'S');
    assert(seq!['L', 'S', 'L', 'A'].len() == 4 && seq!['L', 'S', 'L', 'A'][0] == 'L' && seq!['L', 'S', 'L', 'A'][1] == 'S' && seq!['L', 'S', 'L', 'A'][2] == 'L' && seq!['L', 'S', 'L', 'A'][3] == 'A');
    assert(seq!['L', 'S', 'L', 'B'].len() == 4 && seq!['L', 'S', 'L', 'B'][0] == 'L' && seq!['L', 'S', 'L', 'B'][1] == 'S' && seq!['L', 'S', 'L', 'B'][2] == 'L' && seq!['L', 'S', 'L', 'B'][3] == 'B');
    assert(seq!['L', 'S', 'L'].len() == 3 && seq!['L', 'S', 'L'][0] == 'L' && seq!['L', 'S', 'L'][1] == 'S' && seq!['L', 'S', 'L'][2] == 'L');
    assert(seq!['L', 'S', 'R', 'A'].len() == 4 && seq!['L', 'S', 'R', 'A'][0] == 'L' && seq!['L', 'S', 'R', 'A'][1] == 'S' && seq!['L', 'S', 'R', 'A'][2] == 'R' && seq!['L', 'S', 'R', 'A'][3] == 'A');
    match i {
        Instruction::LEAX(_) => {
            assert(i.name() =~= "LEAX"@);
        },
        Instruction::LEAY(_) => {
            assert(i.name() =~= "LEAY"@);
        },
        Instruction::LEAU(_) => {
            assert(i.name() =~= "LEAU"@);
        },
        Instruction::LEAS(_) => {
            assert(i.name() =~= "LEAS"@);
        },
        Instruction::LSLA => {
            assert(i.name() =~= "LSLA"@);
        },
        Instruction::LSLB => {
            assert(i.name() =~= "LSLB"@);
        },
        Instruction::LSL(_) => {
            assert(i.name() =~= "LSL"@);
        },
        Instruction::LSRA => {
            assert(i.name() =~= "LSRA"@);
        },
        _ => {},
    }
}

proof fn lemma_reads_10(i: Instruction, toks: Seq<Token>, pos: int, end: int, p: int)
    requires
        i is LSRB || i is LSR || i is MUL || i is NEGA || i is NEGB || i is NEG || i is NOP || i is ORA,
        0 <= pos,
        p <= end,
        writes_operand(i, toks, pos, p),
    ensures
        spec_recognise_mnemonic(i.name(), toks, pos, end) == Ok::<(SpecElement, int), Seq<char>>((SpecElement::Inst(i), p)),
{
    reveal_strlit("ORG");
    reveal_strlit("EXEC");
    reveal_strlit("EQU");
    reveal_strlit("DB");
    reveal_strlit("DW");
    reveal_strlit("DS");
    reveal_strlit("ABX");
    reveal_strlit("ADCA");
    reveal_strlit("ADCB");
    reveal_strlit("ADDA");
    reveal_strlit("ADDB");
    reveal_strlit("ADDD");
    reveal_strlit("ANDA");
    reveal_strlit("ANDB");
    reveal_strlit("ANDCC");
    reveal_strlit("ASLA");
    reveal_strlit("ASLB");
    reveal_strlit("ASL");
    reveal_strlit("ASRA");
    reveal_strlit("ASRB");
    reveal_strlit("ASR");
    reveal_strlit("BITA");
    reveal_strlit("BITB");
    reveal_strlit("BCC");
    reveal_strlit("BCS");
    reveal_strlit("BEQ");
    reveal_strlit("BGE");
    reveal_strlit("BGT");
    reveal_strlit("BHI");
    reveal_strlit("BHS");
    reveal_strlit("BLE");
    reveal_strlit("BLO");
    reveal_strlit("BLS");
    reveal_strlit("BLT");
    reveal_strlit("BMI");
    reveal_strlit("BNE");
    reveal_strlit("BPL");
    reveal_strlit("BRA");
    reveal_strlit("BRN");
    reveal_strlit("BSR");
    reveal_strlit("BVC");
    reveal_strlit("BVS");
    reveal_strlit("CLC");
    reveal_strlit("CLF");
    reveal_strlit("CLI");
    reveal_strlit("CLIF");
    reveal_strlit("CLRA");
    reveal_strlit("CLRB");
    reveal_strlit("CLR");
    reveal_strlit("CMPA");
    reveal_strlit("CMPB");
    reveal_strlit("CMPD");
    reveal_strlit("CMPS");
    reveal_strlit("CMPU");
    reveal_strlit("CMPX");
    reveal_strlit("CMPY");
    reveal_strlit("CLV");
    reveal_strlit("COMA");
    reveal_strlit("COMB");
    reveal_strlit("COM");
    reveal_strlit("CWAI");
    reveal_strlit("DAA");
    reveal_strlit("DECA");
    reveal_strlit("DECB");
    reveal_strlit("DEC");
    reveal_strlit("EXG");
    reveal_strlit("INCA");
    reveal_strlit("INCB");
    reveal_strlit("INC");
    reveal_strlit("JMP");
    reveal_strlit("JSR");
    reveal_strlit("LBCC");
    reveal_strlit("LBCS");
    reveal_strlit("LBEQ");
    reveal_strlit("LBGE");
    reveal_strlit("LBGT");
    reveal_strlit("LBHI");
    reveal_strlit("LBHS");
    reveal_strlit("LBLE");
    reveal_strlit("LBLO");
    reveal_strlit("LBLS");
    reveal_strlit("LBLT");
    reveal_strlit("LBMI");
    reveal_strlit("LBNE");
    reveal_strlit("LBPL");
    reveal_strlit("LBRA");
    reveal_strlit("LBRN");
    reveal_strlit("LBSR");
    reveal_strlit("LBVC");
    reveal_strlit("LBVS");
    reveal_strlit("LDA");
    reveal_strlit("LDB");
    reveal_strlit("LDD");
    reveal_strlit("LDX");
    reveal_strlit("LDY");
    reveal_strlit("LDS");
    reveal_strlit("LDU");
    reveal_strlit("LEAX");
    reveal_strlit("LEAY");
    reveal_strlit("LEAU");
    reveal_strlit("LEAS");
    reveal_strlit("LSLA");
    reveal_strlit("LSLB");
    reveal_strlit("LSL");
    reveal_strlit("LSRA");
    reveal_strlit("LSRB");
    reveal_strlit("LSR");
    reveal_strlit("MUL");
    reveal_strlit("NEGA");
    reveal_strlit("NEGB");
    reveal_strlit("NEG");
    reveal_strlit("NOP");
    reveal_strlit("ORA");
    assert(seq!['L', 'S', 'R', 'B'].len() == 4 && seq!['L', 'S', 'R', 'B'][0] == 'L' && seq!['L', 'S', 'R', 'B'][1] == 'S' && seq!['L', 'S', 'R', 'B'][2] == 'R' && seq!['L', 'S', 'R', 'B'][3] == 'B');
    assert(seq!['L', 'S', 'R'].len() == 3 && seq!['L', 'S', 'R'][0] == 'L' && seq!['L', 'S', 'R'][1] == 'S' && seq!['L', 'S', 'R'][2] == 'R');
    assert(seq!['M', 'U', 'L'].len() == 3 && seq!['M', 'U', 'L'][0] == 'M' && seq!['M', 'U', 'L'][1] == 'U' && seq!['M', 'U', 'L'][2] == 'L');
    assert(seq!['N', 'E', 'G', 'A'].len() == 4 && seq!['N', 'E', 'G', 'A'][0] == 'N' && seq!['N', 'E', 'G', 'A'][1] == 'E' && seq!['N', 'E', 'G', 'A'][2] == 'G' && seq!['N', 'E', 'G', 'A'][3] == 'A');
    assert(seq!['N', 'E', 'G', 'B'].len() == 4 && seq!['N', 'E', 'G', 'B'][0] == 'N' && seq!['N', 'E', 'G', 'B'][1] == 'E' && seq!['N', 'E', 'G', 'B'][2] == 'G' && seq!['N', 'E', 'G', 'B'][3] == 'B');
    assert(seq!['N', 'E', 'G'].len() == 3 && seq!['N', 'E', 'G'][0] == 'N' && seq!['N', 'E', 'G'][1] == 'E' && seq!['N', 'E', 'G'][2] == 'G');
    assert(seq!['N', 'O', 'P'].len() == 3 && seq!['N', 'O', 'P'][0] == 'N' && seq!['N', 'O', 'P'][1] == 'O' && seq!['N', 'O', 'P'][2] == 'P');
    assert(seq!['O', 'R', 'A'].len() == 3 && seq!['O', 'R', 'A'][0] == 'O' && seq!['O', 'R', 'A'][1] == 'R' && seq!['O', 'R', 'A'][2] == 'A');
    match i {
        Instruction::LSRB => {
            assert(i.name() =~= "LSRB"@);
        },
        Instruction::LSR(_) => {
            assert(i.name() =~= "LSR"@);
        },
        Instruction::MUL => {
            assert(i.name() =~= "MUL"@);
        },
        Instruction::NEGA => {
            assert(i.name() =~= "NEGA"@);
        },
        Instruction::NEGB => {
            assert(i.name() =~= "NEGB"@);
        },
        Instruction::NEG(_) => {
            assert(i.name() =~= "NEG"@);
        },
        Instruction::NOP => {
            assert(i.name() =~= "NOP"@);
        },
        Instruction::ORA(_) => {
            assert(i.name() =~= "ORA"@);
        },
        _ => {},
    }
}

proof fn lemma_reads_11(i: Instruction, toks: Seq<Token>, pos: int, end: int, p: int)
    requires
        i is ORB || i is ORCC || i is ROLA || i is ROLB || i is ROL || i is RORA || i is RORB || i is ROR,
        0 <= pos,
        p <= end,
        writes_operand(i, toks, pos, p),
    ensures
        spec_recognise_mnemonic(i.name(), toks, pos, end) == Ok::<(SpecElement, int), Seq<char>>((SpecElement::Inst(i), p)),
{
    reveal_strlit("ORG");
    reveal_strlit("EXEC");
    reveal_strlit("EQU");
    reveal_strlit("DB");
    reveal_strlit("DW");
    reveal_strlit("DS");
    reveal_strlit("ABX");
    reveal_strlit("ADCA");
    reveal_strlit("ADCB");
    reveal_strlit("ADDA");
    reveal_strlit("ADDB");
    reveal_strlit("ADDD");
    reveal_strlit("ANDA");
    reveal_strlit("ANDB");
    reveal_strlit("ANDCC");
    reveal_strlit("ASLA");
    reveal_strlit("ASLB");
    reveal_strlit("ASL");
    reveal_strlit("ASRA");
    reveal_strlit("ASRB");
    reveal_strlit("ASR");
    reveal_strlit("BITA");
    reveal_strlit("BITB");
    reveal_strlit("BCC");
    reveal_strlit("BCS");
    reveal_strlit("BEQ");
    reveal_strlit("BGE");
    reveal_strlit("BGT");
    reveal_strlit("BHI");
    reveal_strlit("BHS");
    reveal_strlit("BLE");
    reveal_strlit("BLO");
    reveal_strlit("BLS");
    reveal_strlit("BLT");
    reveal_strlit("BMI");
    reveal_strlit("BNE");
    reveal_strlit("BPL");
    reveal_strlit("BRA");
    reveal_strlit("BRN");
    reveal_strlit("BSR");
    reveal_strlit("BVC");
    reveal_strlit("BVS");
    reveal_strlit("CLC");
    reveal_strlit("CLF");
    reveal_strlit("CLI");
    reveal_strlit("CLIF");
    reveal_strlit("CLRA");
    reveal_strlit("CLRB");
    reveal_strlit("CLR");
    reveal_strlit("CMPA");
    reveal_strlit("CMPB");
    reveal_strlit("CMPD");
    reveal_strlit("CMPS");
    reveal_strlit("CMPU");
    reveal_strlit("CMPX");
    reveal_strlit("CMPY");
    reveal_strlit("CLV");
    reveal_strlit("COMA");
    reveal_strlit("COMB");
    reveal_strlit("COM");
    reveal_strlit("CWAI");
    reveal_strlit("DAA");
    reveal_strlit("DECA");
    reveal_strlit("DECB");
    reveal_strlit("DEC");
    reveal_strlit("EXG");
    reveal_strlit("INCA");
    reveal_strlit("INCB");
    reveal_strlit("INC");
    reveal_strlit("JMP");
    reveal_strlit("JSR");
    reveal_strlit("LBCC");
    reveal_strlit("LBCS");
    reveal_strlit("LBEQ");
    reveal_strlit("LBGE");
    reveal_strlit("LBGT");
    reveal_strlit("LBHI");
    reveal_strlit("LBHS");
    reveal_strlit("LBLE");
    reveal_strlit("LBLO");
    reveal_strlit("LBLS");
    reveal_strlit("LBLT");
    reveal_strlit("LBMI");
    reveal_strlit("LBNE");
    reveal_strlit("LBPL");
    reveal_strlit("LBRA");
    reveal_strlit("LBRN");
    reveal_strlit("LBSR");
    reveal_strlit("LBVC");
    reveal_strlit("LBVS");
    reveal_strlit("LDA");
    reveal_strlit("LDB");
    reveal_strlit("LDD");
    reveal_strlit("LDX");
    reveal_strlit("LDY");
    reveal_strlit("LDS");
    reveal_strlit("LDU");
    reveal_strlit("LEAX");
    reveal_strlit("LEAY");
    reveal_strlit("LEAU");
    reveal_strlit("LEAS");
    reveal_strlit("LSLA");
    reveal_strlit("LSLB");
    reveal_strlit("LSL");
    reveal_strlit("LSRA");
    reveal_strlit("LSRB");
    reveal_strlit("LSR");
    reveal_strlit("MUL");
    reveal_strlit("NEGA");
    reveal_strlit("NEGB");
    reveal_strlit("NEG");
    reveal_strlit("NOP");
    reveal_strlit("ORA");
    reveal_strlit("ORB");
    reveal_strlit("ORCC");
    reveal_strlit("PSHS");
    reveal_strlit("PSHU");
    reveal_strlit("PULS");
    reveal_strlit("PULU");
    reveal_strlit("ROLA");
    reveal_strlit("ROLB");
    reveal_strlit("ROL");
    reveal_strlit("RORA");
    reveal_strlit("RORB");
    reveal_strlit("ROR");
    assert(seq!['O', 'R', 'B'].len() == 3 && seq!['O', 'R', 'B'][0] == 'O' && seq!['O', 'R', 'B'][1] == 'R' && seq!['O', 'R', 'B'][2] == 'B');
    assert(seq!['O', 'R', 'C', 'C'].len() == 4 && seq!['O', 'R', 'C', 'C'][0] == 'O' && seq!['O', 'R', 'C', 'C'][1] == 'R' && seq!['O', 'R', 'C', 'C'][2] == 'C' && seq!['O', 'R', 'C', 'C'][3] == 'C');
    assert(seq!['R', 'O', 'L', 'A'].len() == 4 && seq!['R', 'O', 'L', 'A'][0] == 'R' && seq!['R', 'O', 'L', 'A'][1] == 'O' && seq!['R', 'O', 'L', 'A'][2] == 'L' && seq!['R', 'O', 'L', 'A'][3] == 'A');
    assert(seq!['R', 'O', 'L', 'B'].len() == 4 && seq!['R', 'O', 'L', 'B'][0] == 'R' && seq!['R', 'O', 'L', 'B'][1] == 'O' && seq!['R', 'O', 'L', 'B'][2] == 'L' && seq!['R', 'O', 'L', 'B'][3] == 'B');
    assert(seq!['R', 'O', 'L'].len() == 3 && seq!['R', 'O', 'L'][0] == 'R' && seq!['R', 'O', 'L'][1] == 'O' && seq!['R', 'O', 'L'][2] == 'L');
    assert(seq!['R', 'O', 'R', 'A'].len() == 4 && seq!['R', 'O', 'R', 'A'][0] == 'R' && seq!['R', 'O', 'R', 'A'][1] == 'O' && seq!['R', 'O', 'R', 'A'][2] == 'R' && seq!['R', 'O', 'R', 'A'][3] == 'A');
    assert(seq!['R', 'O', 'R', 'B'].len() == 4 && seq!['R', 'O', 'R', 'B'][0] == 'R' && seq!['R', 'O', 'R', 'B'][1] == 'O' && seq!['R', 'O', 'R', 'B'][2] == 'R' && seq!['R', 'O', 'R', 'B'][3] == 'B');
    assert(seq!['R', 'O', 'R'].len() == 3 && seq!['R', 'O', 'R'][0] == 'R' && seq!['R', 'O', 'R'][1] == 'O' && seq!['R', 'O', 'R'][2] == 'R');
    match i {
        Instruction::ORB(_) => {
            assert(i.name() =~= "ORB"@);
        },
        Instruction::ORCC(_) => {
            assert(i.name() =~= "ORCC"@);
        },
        Instruction::ROLA => {
            assert(i.name() =~= "ROLA"@);
        },
        Instruction::ROLB => {
            assert(i.name() =~= "ROLB"@);
        },
        Instruction::ROL(_) => {
            assert(i.name() =~= "ROL"@);
        },
        Instruction::RORA => {
            assert(i.name() =~= "RORA"@);
        },
        Instruction::RORB => {
            assert(i.name() =~= "RORB"@);
        },
        Instruction::ROR(_) => {
            assert(i.name() =~= "ROR"@);
        },
        _ => {},
    }
}

proof fn lemma_reads_12(i: Instruction, toks: Seq<Token>, pos: int, end: int, p: int)
    requires
        i is RTI || i is RTS || i is SBCA || i is SBCB || i is SEC || i is SEF || i is SEI || i is SEIF,
        0 <= pos,
        p <= end,
        writes_operand(i, toks, pos, p),
    ensures
        spec_recognise_mnemonic(i.name(), toks, pos, end) == Ok::<(SpecElement, int), Seq<char>>((SpecElement::Inst(i), p)),
{
    reveal_strlit("ORG");
    reveal_strlit("EXEC");
    reveal_strlit("EQU");
    reveal_strlit("DB");
    reveal_strlit("DW");
    reveal_strlit("DS");
    reveal_strlit("ABX");
    reveal_strlit("ADCA");
    reveal_strlit("ADCB");
    reveal_strlit("ADDA");
    reveal_strlit("ADDB");
    reveal_strlit("ADDD");
    reveal_strlit("ANDA");
    reveal_strlit("ANDB");
    reveal_strlit("ANDCC");
    reveal_strlit("ASLA");
    reveal_strlit("ASLB");
    reveal_strlit("ASL");
    reveal_strlit("ASRA");
    reveal_strlit("ASRB");
    reveal_strlit("ASR");
    reveal_strlit("BITA");
    reveal_strlit("BITB");
    reveal_strlit("BCC");
    reveal_strlit("BCS");
    reveal_strlit("BEQ");
    reveal_strlit("BGE");
    reveal_strlit("BGT");
    reveal_strlit("BHI");
    reveal_strlit("BHS");
    reveal_strlit("BLE");
    reveal_strlit("BLO");
    reveal_strlit("BLS");
    reveal_strlit("BLT");
    reveal_strlit("BMI");
    reveal_strlit("BNE");
    reveal_strlit("BPL");
    reveal_strlit("BRA");
    reveal_strlit("BRN");
    reveal_strlit("BSR");
    reveal_strlit("BVC");
    reveal_strlit("BVS");
    reveal_strlit("CLC");
    reveal_strlit("CLF");
    reveal_strlit("CLI");
    reveal_strlit("CLIF");
    reveal_strlit("CLRA");
    reveal_strlit("CLRB");
    reveal_strlit("CLR");
    reveal_strlit("CMPA");
    reveal_strlit("CMPB");
    reveal_strlit("CMPD");
    reveal_strlit("CMPS");
    reveal_strlit("CMPU");
    reveal_strlit("CMPX");
    reveal_strlit("CMPY");
    reveal_strlit("CLV");
    reveal_strlit("COMA");
    reveal_strlit("COMB");
    reveal_strlit("COM");
    reveal_strlit("CWAI");
    reveal_strlit("DAA");
    reveal_strlit("DECA");
    reveal_strlit("DECB");
    reveal_strlit("DEC");
    reveal_strlit("EXG");
    reveal_strlit("INCA");
    reveal_strlit("INCB");
    reveal_strlit("INC");
    reveal_strlit("JMP");
    reveal_strlit("JSR");
    reveal_strlit("LBCC");
    reveal_strlit("LBCS");
    reveal_strlit("LBEQ");
    reveal_strlit("LBGE");
    reveal_strlit("LBGT");
    reveal_strlit("LBHI");
    reveal_strlit("LBHS");
    reveal_strlit("LBLE");
    reveal_strlit("LBLO");
    reveal_strlit("LBLS");
    reveal_strlit("LBLT");
    reveal_strlit("LBMI");
    reveal_strlit("LBNE");
    reveal_strlit("LBPL");
    reveal_strlit("LBRA");
    reveal_strlit("LBRN");
    reveal_strlit("LBSR");
    reveal_strlit("LBVC");
    reveal_strlit("LBVS");
    reveal_strlit("LDA");
    reveal_strlit("LDB");
    reveal_strlit("LDD");
    reveal_strlit("LDX");
    reveal_strlit("LDY");
    reveal_strlit("LDS");
    reveal_strlit("LDU");
    reveal_strlit("LEAX");
    reveal_strlit("LEAY");
    reveal_strlit("LEAU");
    reveal_strlit("LEAS");
    reveal_strlit("LSLA");
    reveal_strlit("LSLB");
    reveal_strlit("LSL");
    reveal_strlit("LSRA");
    reveal_strlit("LSRB");
    reveal_strlit("LSR");
    reveal_strlit("MUL");
    reveal_strlit("NEGA");
    reveal_strlit("NEGB");
    reveal_strlit("NEG");
    reveal_strlit("NOP");
    reveal_strlit("ORA");
    reveal_strlit("ORB");
    reveal_strlit("ORCC");
    reveal_strlit("PSHS");
    reveal_strlit("PSHU");
    reveal_strlit("PULS");
    reveal_strlit("PULU");
    reveal_strlit("ROLA");
    reveal_strlit("ROLB");
    reveal_strlit("ROL");
    reveal_strlit("RORA");
    reveal_strlit("RORB");
    reveal_strlit("ROR");
    reveal_strlit("RTI");
    reveal_strlit("RTS");
    reveal_strlit("SBCA");
    reveal_strlit("SBCB");
    reveal_strlit("SBCC");
    reveal_strlit("SBCS");
    reveal_strlit("SBEQ");
    reveal_strlit("SBGE");
    reveal_strlit("SBGT");
    reveal_strlit("SBHI");
    reveal_strlit("SBHS");
    reveal_strlit("SBLE");
    reveal_strlit("SLO");
    reveal_strlit("SLS");
    reveal_strlit("SLT");
    reveal_strlit("SBMI");
    reveal_strlit("SBNE");
    reveal_strlit("SBPL");
    reveal_strlit("SBRA");
    reveal_strlit("SBRN");
    reveal_strlit("SBSR");
    reveal_strlit("SBVC");
    reveal_strlit("SBVS");
    reveal_strlit("SEC");
    reveal_strlit("SEF");
    reveal_strlit("SEI");
    reveal_strlit("SEIF");
    assert(seq!['R', 'T', 'I'].len() == 3 && seq!['R', 'T', 'I'][0] == 'R' && seq!['R', 'T', 'I'][1] == 'T' && seq!['R', 'T', 'I'][2] == 'I');
    assert(seq!['R', 'T', 'S'].len() == 3 && seq!['R', 'T', 'S'][0] == 'R' && seq!['R', 'T', 'S'][1] == 'T' && seq!['R', 'T', 'S'][2] == 'S');
    assert(seq!['S', 'B', 'C', 'A'].len() == 4 && seq!['S', 'B', 'C', 'A'][0] == 'S' && seq!['S', 'B', 'C', 'A'][1] == 'B' && seq!['S', 'B', 'C', 'A'][2] == 'C' && seq!['S', 'B', 'C', 'A'][3] == 'A');
    assert(seq!['S', 'B', 'C', 'B'].len() == 4 && seq!['S', 'B', 'C', 'B'][0] == 'S' && seq!['S', 'B', 'C', 'B'][1] == 'B' && seq!['S', 'B', 'C', 'B'][2] == 'C' && seq!['S', 'B', 'C', 'B'][3] == 'B');
    assert(seq!['S', 'E', 'C'].len() == 3 && seq!['S', 'E', 'C'][0] == 'S' && seq!['S', 'E', 'C'][1] == 'E' && seq!['S', 'E', 'C'][2] == 'C');
    assert(seq!['S', 'E', 'F'].len() == 3 && seq!['S', 'E', 'F'][0] == 'S' && seq!['S', 'E', 'F'][1] == 'E' && seq!['S', 'E', 'F'][2] == 'F');
    assert(seq!['S', 'E', 'I'].len() == 3 && seq!['S', 'E', 'I'][0] == 'S' && seq!['S', 'E', 'I'][1] == 'E' && seq!['S', 'E', 'I'][2] == 'I');
    assert(seq!['S', 'E', 'I', 'F'].len() == 4 && seq!['S', 'E', 'I', 'F'][0] == 'S' && seq!['S', 'E', 'I', 'F'][1] == 'E' && seq!['S', 'E', 'I', 'F'][2] == 'I' && seq!['S', 'E', 'I', 'F'][3] == 'F');
    match i {
        Instruction::RTI => {
            assert(i.name() =~= "RTI"@);
        },
        Instruction::RTS => {
            assert(i.name() =~= "RTS"@);
        },
        Instruction::SBCA(_) => {
            assert(i.name() =~= "SBCA"@);
        },
        Instruction::SBCB(_) => {
            assert(i.name() =~= "SBCB"@);
        },
        Instruction::SEC => {
            assert(i.name() =~= "SEC"@);
        },
        Instruction::SEF => {
            assert(i.name() =~= "SEF"@);
        },
        Instruction::SEI => {
            assert(i.name() =~= "SEI"@);
        },
        Instruction::SEIF => {
            assert(i.name() =~= "SEIF"@);
        },
        _ => {},
    }
}

proof fn lemma_reads_13(i: Instruction, toks: Seq<Token>, pos: int, end: int, p: int)
    requires
        i is SEV || i is SEX || i is STA || i is STB || i is STD || i is STX || i is STY || i is STU,
        0 <= pos,
        p <= end,
        writes_operand(i, toks, pos, p),
    ensures
        spec_recognise_mnemonic(i.name(), toks, pos, end) == Ok::<(SpecElement, int), Seq<char>>((SpecElement::Inst(i), p)),
{
    reveal_strlit("ORG");
    reveal_strlit("EXEC");
    reveal_strlit("EQU");
    reveal_strlit("DB");
    reveal_strlit("DW");
    reveal_strlit("DS");
    reveal_strlit("ABX");
    reveal_strlit("ADCA");
    reveal_strlit("ADCB");
    reveal_strlit("ADDA");
    reveal_strlit("ADDB");
    reveal_strlit("ADDD");
    reveal_strlit("ANDA");
    reveal_strlit("ANDB");
    reveal_strlit("ANDCC");
    reveal_strlit("ASLA");
    reveal_strlit("ASLB");
    reveal_strlit("ASL");
    reveal_strlit("ASRA");
    reveal_strlit("ASRB");
    reveal_strlit("ASR");
    reveal_strlit("BITA");
    reveal_strlit("BITB");
    reveal_strlit("BCC");
    reveal_strlit("BCS");
    reveal_strlit("BEQ");
    reveal_strlit("BGE");
    reveal_strlit("BGT");
    reveal_strlit("BHI");
    reveal_strlit("BHS");
    reveal_strlit("BLE");
    reveal_strlit("BLO");
    reveal_strlit("BLS");
    reveal_strlit("BLT");
    reveal_strlit("BMI");
    reveal_strlit("BNE");
    reveal_strlit("BPL");
    reveal_strlit("BRA");
    reveal_strlit("BRN");
    reveal_strlit("BSR");
    reveal_strlit("BVC");
    reveal_strlit("BVS");
    reveal_strlit("CLC");
    reveal_strlit("CLF");
    reveal_strlit("CLI");
    reveal_strlit("CLIF");
    reveal_strlit("CLRA");
    reveal_strlit("CLRB");
    reveal_strlit("CLR");
    reveal_strlit("CMPA");
    reveal_strlit("CMPB");
    reveal_strlit("CMPD");
    reveal_strlit("CMPS");
    reveal_strlit("CMPU");
    reveal_strlit("CMPX");
    reveal_strlit("CMPY");
    reveal_strlit("CLV");
    reveal_strlit("COMA");
    reveal_strlit("COMB");
    reveal_strlit("COM");
    reveal_strlit("CWAI");
    reveal_strlit("DAA");
    reveal_strlit("DECA");
    reveal_strlit("DECB");
    reveal_strlit("DEC");
    reveal_strlit("EXG");
    reveal_strlit("INCA");
    reveal_strlit("INCB");
    reveal_strlit("INC");
    reveal_strlit("JMP");
    reveal_strlit("JSR");
    reveal_strlit("LBCC");
    reveal_strlit("LBCS");
    reveal_strlit("LBEQ");
    reveal_strlit("LBGE");
    reveal_strlit("LBGT");
    reveal_strlit("LBHI");
    reveal_strlit("LBHS");
    reveal_strlit("LBLE");
    reveal_strlit("LBLO");
    reveal_strlit("LBLS");
    reveal_strlit("LBLT");
    reveal_strlit("LBMI");
    reveal_strlit("LBNE");
    reveal_strlit("LBPL");
    reveal_strlit("LBRA");
    reveal_strlit("LBRN");
    reveal_strlit("LBSR");
    reveal_strlit("LBVC");
    reveal_strlit("LBVS");
    reveal_strlit("LDA");
    reveal_strlit("LDB");
    reveal_strlit("LDD");
    reveal_strlit("LDX");
    reveal_strlit("LDY");
    reveal_strlit("LDS");
    reveal_strlit("LDU");
    reveal_strlit("LEAX");
    reveal_strlit("LEAY");
    reveal_strlit("LEAU");
    reveal_strlit("LEAS");
    reveal_strlit("LSLA");
    reveal_strlit("LSLB");
    reveal_strlit("LSL");
    reveal_strlit("LSRA");
    reveal_strlit("LSRB");
    reveal_strlit("LSR");
    reveal_strlit("MUL");
    reveal_strlit("NEGA");
    reveal_strlit("NEGB");
    reveal_strlit("NEG");
    reveal_strlit("NOP");
    reveal_strlit("ORA");
    reveal_strlit("ORB");
    reveal_strlit("ORCC");
    reveal_strlit("PSHS");
    reveal_strlit("PSHU");
    reveal_strlit("PULS");
    reveal_strlit("PULU");
    reveal_strlit("ROLA");
    reveal_strlit("ROLB");
    reveal_strlit("ROL");
    reveal_strlit("RORA");
    reveal_strlit("RORB");
    reveal_strlit("ROR");
    reveal_strlit("RTI");
    reveal_strlit("RTS");
    reveal_strlit("SBCA");
    reveal_strlit("SBCB");
    reveal_strlit("SBCC");
    reveal_strlit("SBCS");
    reveal_strlit("SBEQ");
    reveal_strlit("SBGE");
    reveal_strlit("SBGT");
    reveal_strlit("SBHI");
    reveal_strlit("SBHS");
    reveal_strlit("SBLE");
    reveal_strlit("SLO");
    reveal_strlit("SLS");
    reveal_strlit("SLT");
    reveal_strlit("SBMI");
    reveal_strlit("SBNE");
    reveal_strlit("SBPL");
    reveal_strlit("SBRA");
    reveal_strlit("SBRN");
    reveal_strlit("SBSR");
    reveal_strlit("SBVC");
    reveal_strlit("SBVS");
    reveal_strlit("SEC");
    reveal_strlit("SEF");
    reveal_strlit("SEI");
    reveal_strlit("SEIF");
    reveal_strlit("SEV");
    reveal_strlit("SEX");
    reveal_strlit("STA");
    reveal_strlit("STB");
    reveal_strlit("STD");
    reveal_strlit("STX");
    reveal_strlit("STY");
    reveal_strlit("STU");
    assert(seq!['S', 'E', 'V'].len() == 3 && seq!['S', 'E', 'V'][0] == 'S' && seq!['S', 'E', 'V'][1] == 'E' && seq!['S', 'E', 'V'][2] == 'V');
    assert(seq!['S', 'E', 'X'].len() == 3 && seq!['S', 'E', 'X'][0] == 'S' && seq!['S', 'E', 'X'][1] == 'E' && seq!['S', 'E', 'X'][2] == 'X');
    assert(seq!['S', 'T', 'A'].len() == 3 && seq!['S', 'T', 'A'][0] == 'S' && seq!['S', 'T', 'A'][1] == 'T' && seq!['S', 'T', 'A'][2] == 'A');
    assert(seq!['S', 'T', 'B'].len() == 3 && seq!['S', 'T', 'B'][0] == 'S' && seq!['S', 'T', 'B'][1] == 'T' && seq!['S', 'T', 'B'][2] == 'B');
    assert(seq!['S', 'T', 'D'].len() == 3 && seq!['S', 'T', 'D'][0] == 'S' && seq!['S', 'T', 'D'][1] == 'T' && seq!['S', 'T', 'D'][2] == 'D');
    assert(seq!['S', 'T', 'X'].len() == 3 && seq!['S', 'T', 'X'][0] == 'S' && seq!['S', 'T', 'X'][1] == 'T' && seq!['S', 'T', 'X'][2] == 'X');
    assert(seq!['S', 'T', 'Y'].len() == 3 && seq!['S', 'T', 'Y'][0] == 'S' && seq!['S', 'T', 'Y'][1] == 'T' && seq!['S', 'T', 'Y'][2] == 'Y');
    assert(seq!['S', 'T', 'U'].len() == 3 && seq!['S', 'T', 'U'][0] == 'S' && seq!['S', 'T', 'U'][1] == 'T' && seq!['S', 'T', 'U'][2] == 'U');
    match i {
        Instruction::SEV => {
            assert(i.name() =~= "SEV"@);
        },
        Instruction::SEX => {
            assert(i.name() =~= "SEX"@);
        },
        Instruction::STA(_) => {
            assert(i.name() =~= "STA"@);
        },
        Instruction::STB(_) => {
            assert(i.name() =~= "STB"@);
        },
        Instruction::STD(_) => {
            assert(i.name() =~= "STD"@);
        },
        Instruction::STX(_) => {
            assert(i.name() =~= "STX"@);
        },
        Instruction::STY(_) => {
            assert(i.name() =~= "STY"@);
        },
        Instruction::STU(_) => {
            assert(i.name() =~= "STU"@);
        },
        _ => {},
    }
}

proof fn lemma_reads_14(i: Instruction, toks: Seq<Token>, pos: int, end: int, p: int)
    requires
        i is STS || i is SUBA || i is SUBB || i is SUBD || i is SWI || i is SWI2 || i is SWI3 || i is SYNC,
        0 <= pos,
        p <= end,
        writes_operand(i, toks, pos, p),
    ensures
        spec_recognise_mnemonic(i.name(), toks, pos, end) == Ok::<(SpecElement, int), Seq<char>>((SpecElement::Inst(i), p)),
{
    reveal_strlit("ORG");
    reveal_strlit("EXEC");
    reveal_strlit("EQU");
    reveal_strlit("DB");
    reveal_strlit("DW");
    reveal_strlit("DS");
    reveal_strlit("ABX");
    reveal_strlit("ADCA");
    reveal_strlit("ADCB");
    reveal_strlit("ADDA");
    reveal_strlit("ADDB");
    reveal_strlit("ADDD");
    reveal_strlit("ANDA");
    reveal_strlit("ANDB");
    reveal_strlit("ANDCC");
    reveal_strlit("ASLA");
    reveal_strlit("ASLB");
    reveal_strlit("ASL");
    reveal_strlit("ASRA");
    reveal_strlit("ASRB");
    reveal_strlit("ASR");
    reveal_strlit("BITA");
    reveal_strlit("BITB");
    reveal_strlit("BCC");
    reveal_strlit("BCS");
    reveal_strlit("BEQ");
    reveal_strlit("BGE");
    reveal_strlit("BGT");
    reveal_strlit("BHI");
    reveal_strlit("BHS");
    reveal_strlit("BLE");
    reveal_strlit("BLO");
    reveal_strlit("BLS");
    reveal_strlit("BLT");
    reveal_strlit("BMI");
    reveal_strlit("BNE");
    reveal_strlit("BPL");
    reveal_strlit("BRA");
    reveal_strlit("BRN");
    reveal_strlit("BSR");
    reveal_strlit("BVC");
    reveal_strlit("BVS");
    reveal_strlit("CLC");
    reveal_strlit("CLF");
    reveal_strlit("CLI");
    reveal_strlit("CLIF");
    reveal_strlit("CLRA");
    reveal_strlit("CLRB");
    reveal_strlit("CLR");
    reveal_strlit("CMPA");
    reveal_strlit("CMPB");
    reveal_strlit("CMPD");
    reveal_strlit("CMPS");
    reveal_strlit("CMPU");
    reveal_strlit("CMPX");
    reveal_strlit("CMPY");
    reveal_strlit("CLV");
    reveal_strlit("COMA");
    reveal_strlit("COMB");
    reveal_strlit("COM");
    reveal_strlit("CWAI");
    reveal_strlit("DAA");
    reveal_strlit("DECA");
    reveal_strlit("DECB");
    reveal_strlit("DEC");
    reveal_strlit("EXG");
    reveal_strlit("INCA");
    reveal_strlit("INCB");
    reveal_strlit("INC");
    reveal_strlit("JMP");
    reveal_strlit("JSR");
    reveal_strlit("LBCC");
    reveal_strlit("LBCS");
    reveal_strlit("LBEQ");
    reveal_strlit("LBGE");
    reveal_strlit("LBGT");
    reveal_strlit("LBHI");
    reveal_strlit("LBHS");
    reveal_strlit("LBLE");
    reveal_strlit("LBLO");
    reveal_strlit("LBLS");
    reveal_strlit("LBLT");
    reveal_strlit("LBMI");
    reveal_strlit("LBNE");
    reveal_strlit("LBPL");
    reveal_strlit("LBRA");
    reveal_strlit("LBRN");
    reveal_strlit("LBSR");
    reveal_strlit("LBVC");
    reveal_strlit("LBVS");
    reveal_strlit("LDA");
    reveal_strlit("LDB");
    reveal_strlit("LDD");
    reveal_strlit("LDX");
    reveal_strlit("LDY");
    reveal_strlit("LDS");
    reveal_strlit("LDU");
    reveal_strlit("LEAX");
    reveal_strlit("LEAY");
    reveal_strlit("LEAU");
    reveal_strlit("LEAS");
    reveal_strlit("LSLA");
    reveal_strlit("LSLB");
    reveal_strlit("LSL");
    reveal_strlit("LSRA");
    reveal_strlit("LSRB");
    reveal_strlit("LSR");
    reveal_strlit("MUL");
    reveal_strlit("NEGA");
    reveal_strlit("NEGB");
    reveal_strlit("NEG");
    reveal_strlit("NOP");
    reveal_strlit("ORA");
    reveal_strlit("ORB");
    reveal_strlit("ORCC");
    reveal_strlit("PSHS");
    reveal_strlit("PSHU");
    reveal_strlit("PULS");
    reveal_strlit("PULU");
    reveal_strlit("ROLA");
    reveal_strlit("ROLB");
    reveal_strlit("ROL");
    reveal_strlit("RORA");
    reveal_strlit("RORB");
    reveal_strlit("ROR");
    reveal_strlit("RTI");
    reveal_strlit("RTS");
    reveal_strlit("SBCA");
    reveal_strlit("SBCB");
    reveal_strlit("SBCC");
    reveal_strlit("SBCS");
    reveal_strlit("SBEQ");
    reveal_strlit("SBGE");
    reveal_strlit("SBGT");
    reveal_strlit("SBHI");
    reveal_strlit("SBHS");
    reveal_strlit("SBLE");
    reveal_strlit("SLO");
    reveal_strlit("SLS");
    reveal_strlit("SLT");
    reveal_strlit("SBMI");
    reveal_strlit("SBNE");
    reveal_strlit("SBPL");
    reveal_strlit("SBRA");
    reveal_strlit("SBRN");
    reveal_strlit("SBSR");
    reveal_strlit("SBVC");
    reveal_strlit("SBVS");
    reveal_strlit("SEC");
    reveal_strlit("SEF");
    reveal_strlit("SEI");
    reveal_strlit("SEIF");
    reveal_strlit("SEV");
    reveal_strlit("SEX");
    reveal_strlit("STA");
    reveal_strlit("STB");
    reveal_strlit("STD");
    reveal_strlit("STX");
    reveal_strlit("STY");
    reveal_strlit("STU");
    reveal_strlit("STS");
    reveal_strlit("SUBA");
    reveal_strlit("SUBB");
    reveal_strlit("SUBD");
    reveal_strlit("SWI");
    reveal_strlit("SWI2");
    reveal_strlit("SWI3");
    reveal_strlit("SYNC");
    assert(seq!['S', 'T', 'S'].len() == 3 && seq!['S', 'T', 'S'][0] == 'S' && seq!['S', 'T', 'S'][1] == 'T' && seq!['S', 'T', 'S'][2] == 'S');
    assert(seq!['S', 'U', 'B', 'A'].len() == 4 && seq!['S', 'U', 'B', 'A'][0] == 'S' && seq!['S', 'U', 'B', 'A'][1] == 'U' && seq!['S', 'U', 'B', 'A'][2] == 'B' && seq!['S', 'U', 'B', 'A'][3] == 'A');
    assert(seq!['S', 'U', 'B', 'B'].len() == 4 && seq!['S', 'U', 'B', 'B'][0] == 'S' && seq!['S', 'U', 'B', 'B'][1] == 'U' && seq!['S', 'U', 'B', 'B'][2] == 'B' && seq!['S', 'U', 'B', 'B'][3] == 'B');
    assert(seq!['S', 'U', 'B', 'D'].len() == 4 && seq!['S', 'U', 'B', 'D'][0] == 'S' && seq!['S', 'U', 'B', 'D'][1] == 'U' && seq!['S', 'U', 'B', 'D'][2] == 'B' && seq!['S', 'U', 'B', 'D'][3] == 'D');
    assert(seq!['S', 'W', 'I'].len() == 3 && seq!['S', 'W', 'I'][0] == 'S' && seq!['S', 'W', 'I'][1] == 'W' && seq!['S', 'W', 'I'][2] == 'I');
    assert(seq!['S', 'W', 'I', '2'].len() == 4 && seq!['S', 'W', 'I', '2'][0] == 'S' && seq!['S', 'W', 'I', '2'][1] == 'W' && seq!['S', 'W', 'I', '2'][2] == 'I' && seq!['S', 'W', 'I', '2'][3] == '2');
    assert(seq!['S', 'W', 'I', '3'].len() == 4 && seq!['S', 'W', 'I', '3'][0] == 'S' && seq!['S', 'W', 'I', '3'][1] == 'W' && seq!['S', 'W', 'I', '3'][2] == 'I' && seq!['S', 'W', 'I', '3'][3] == '3');
    assert(seq!['S', 'Y', 'N', 'C'].len() == 4 && seq!['S', 'Y', 'N', 'C'][0] == 'S' && seq!['S', 'Y', 'N', 'C'][1] == 'Y' && seq!['S', 'Y', 'N', 'C'][2] == 'N' && seq!['S', 'Y', 'N', 'C'][3] == 'C');
    match i {
        Instruction::STS(_) => {
            assert(i.name() =~= "STS"@);
        },
        Instruction::SUBA(_) => {
            assert(i.name() =~= "SUBA"@);
        },
        Instruction::SUBB(_) => {
            assert(i.name() =~= "SUBB"@);
        },
        Instruction::SUBD(_) => {
            assert(i.name() =~= "SUBD"@);
        },
        Instruction::SWI => {
            assert(i.name() =~= "SWI"@);
        },
        Instruction::SWI2 => {
            assert(i.name() =~= "SWI2"@);
        },
        Instruction::SWI3 => {
            assert(i.name() =~= "SWI3"@);
        },
        Instruction::SYNC => {
            assert(i.name() =~= "SYNC"@);
        },
        _ => {},
    }
}

proof fn lemma_reads_15(i: Instruction, toks: Seq<Token>, pos: int, end: int, p: int)
    requires
        i is TFR || i is TSTA || i is TSTB || i is TST,
        0 <= pos,
        p <= end,
        writes_operand(i, toks, pos, p),
    ensures
        spec_recognise_mnemonic(i.name(), toks, pos, end) == Ok::<(SpecElement, int), Seq<char>>((SpecElement::Inst(i), p)),
{
    reveal_strlit("ORG");
    reveal_strlit("EXEC");
    reveal_strlit("EQU");
    reveal_strlit("DB");
    reveal_strlit("DW");
    reveal_strlit("DS");
    reveal_strlit("ABX");
    reveal_strlit("ADCA");
    reveal_strlit("ADCB");
    reveal_strlit("ADDA");
    reveal_strlit("ADDB");
    reveal_strlit("ADDD");
    reveal_strlit("ANDA");
    reveal_strlit("ANDB");
    reveal_strlit("ANDCC");
    reveal_strlit("ASLA");
    reveal_strlit("ASLB");
    reveal_strlit("ASL");
    reveal_strlit("ASRA");
    reveal_strlit("ASRB");
    reveal_strlit("ASR");
    reveal_strlit("BITA");
    reveal_strlit("BITB");
    reveal_strlit("BCC");
    reveal_strlit("BCS");
    reveal_strlit("BEQ");
    reveal_strlit("BGE");
    reveal_strlit("BGT");
    reveal_strlit("BHI");
    reveal_strlit("BHS");
    reveal_strlit("BLE");
    reveal_strlit("BLO");
    reveal_strlit("BLS");
    reveal_strlit("BLT");
    reveal_strlit("BMI");
    reveal_strlit("BNE");
    reveal_strlit("BPL");
    reveal_strlit("BRA");
    reveal_strlit("BRN");
    reveal_strlit("BSR");
    reveal_strlit("BVC");
    reveal_strlit("BVS");
    reveal_strlit("CLC");
    reveal_strlit("CLF");
    reveal_strlit("CLI");
    reveal_strlit("CLIF");
    reveal_strlit("CLRA");
    reveal_strlit("CLRB");
    reveal_strlit("CLR");
    reveal_strlit("CMPA");
    reveal_strlit("CMPB");
    reveal_strlit("CMPD");
    reveal_strlit("CMPS");
    reveal_strlit("CMPU");
    reveal_strlit("CMPX");
    reveal_strlit("CMPY");
    reveal_strlit("CLV");
    reveal_strlit("COMA");
    reveal_strlit("COMB");
    reveal_strlit("COM");
    reveal_strlit("CWAI");
    reveal_strlit("DAA");
    reveal_strlit("DECA");
    reveal_strlit("DECB");
    reveal_strlit("DEC");
    reveal_strlit("EXG");
    reveal_strlit("INCA");
    reveal_strlit("INCB");
    reveal_strlit("INC");
    reveal_strlit("JMP");
    reveal_strlit("JSR");
    reveal_strlit("LBCC");
    reveal_strlit("LBCS");
    reveal_strlit("LBEQ");
    reveal_strlit("LBGE");
    reveal_strlit("LBGT");
    reveal_strlit("LBHI");
    reveal_strlit("LBHS");
    reveal_strlit("LBLE");
    reveal_strlit("LBLO");
    reveal_strlit("LBLS");
    reveal_strlit("LBLT");
    reveal_strlit("LBMI");
    reveal_strlit("LBNE");
    reveal_strlit("LBPL");
    reveal_strlit("LBRA");
    reveal_strlit("LBRN");
    reveal_strlit("LBSR");
    reveal_strlit("LBVC");
    reveal_strlit("LBVS");
    reveal_strlit("LDA");
    reveal_strlit("LDB");
    reveal_strlit("LDD");
    reveal_strlit("LDX");
    reveal_strlit("LDY");
    reveal_strlit("LDS");
    reveal_strlit("LDU");
    reveal_strlit("LEAX");
    reveal_strlit("LEAY");
    reveal_strlit("LEAU");
    reveal_strlit("LEAS");
    reveal_strlit("LSLA");
    reveal_strlit("LSLB");
    reveal_strlit("LSL");
    reveal_strlit("LSRA");
    reveal_strlit("LSRB");
    reveal_strlit("LSR");
    reveal_strlit("MUL");
    reveal_strlit("NEGA");
    reveal_strlit("NEGB");
    reveal_strlit("NEG");
    reveal_strlit("NOP");
    reveal_strlit("ORA");
    reveal_strlit("ORB");
    reveal_strlit("ORCC");
    reveal_strlit("PSHS");
    reveal_strlit("PSHU");
    reveal_strlit("PULS");
    reveal_strlit("PULU");
    reveal_strlit("ROLA");
    reveal_strlit("ROLB");
    reveal_strlit("ROL");
    reveal_strlit("RORA");
    reveal_strlit("RORB");
    reveal_strlit("ROR");
    reveal_strlit("RTI");
    reveal_strlit("RTS");
    reveal_strlit("SBCA");
    reveal_strlit("SBCB");
    reveal_strlit("SBCC");
    reveal_strlit("SBCS");
    reveal_strlit("SBEQ");
    reveal_strlit("SBGE");
    reveal_strlit("SBGT");
    reveal_strlit("SBHI");
    reveal_strlit("SBHS");
    reveal_strlit("SBLE");
    reveal_strlit("SLO");
    reveal_strlit("SLS");
    reveal_strlit("SLT");
    reveal_strlit("SBMI");
    reveal_strlit("SBNE");
    reveal_strlit("SBPL");
    reveal_strlit("SBRA");
    reveal_strlit("SBRN");
    reveal_strlit("SBSR");
    reveal_strlit("SBVC");
    reveal_strlit("SBVS");
    reveal_strlit("SEC");
    reveal_strlit("SEF");
    reveal_strlit("SEI");
    reveal_strlit("SEIF");
    reveal_strlit("SEV");
    reveal_strlit("SEX");
    reveal_strlit("STA");
    reveal_strlit("STB");
    reveal_strlit("STD");
    reveal_strlit("STX");
    reveal_strlit("STY");
    reveal_strlit("STU");
    reveal_strlit("STS");
    reveal_strlit("SUBA");
    reveal_strlit("SUBB");
    reveal_strlit("SUBD");
    reveal_strlit("SWI");
    reveal_strlit("SWI2");
    reveal_strlit("SWI3");
    reveal_strlit("SYNC");
    reveal_strlit("TFR");
    reveal_strlit("TSTA");
    reveal_strlit("TSTB");
    reveal_strlit("TST");
    assert(seq!['T', 'F', 'R'].len() == 3 && seq!['T', 'F', 'R'][0] == 'T' && seq!['T', 'F', 'R'][1] == 'F' && seq!['T', 'F', 'R'][2] == 'R');
    assert(seq!['T', 'S', 'T', 'A'].len() == 4 && seq!['T', 'S', 'T', 'A'][0] == 'T' && seq!['T', 'S', 'T', 'A'][1] == 'S' && seq!['T', 'S', 'T', 'A'][2] == 'T' && seq!['T', 'S', 'T', 'A'][3] == 'A');
    assert(seq!['T', 'S', 'T', 'B'].len() == 4 && seq!['T', 'S', 'T', 'B'][0] == 'T' && seq!['T', 'S', 'T', 'B'][1] == 'S' && seq!['T', 'S', 'T', 'B'][2] == 'T' && seq!['T', 'S', 'T', 'B'][3] == 'B');
    assert(seq!['T', 'S', 'T'].len() == 3 && seq!['T', 'S', 'T'][0] == 'T' && seq!['T', 'S', 'T'][1] == 'S' && seq!['T', 'S', 'T'][2] == 'T');
    if toks[pos] is Name && toks[pos + 2] is Name {
        lemma_tfr_reads(toks[pos]->Name_0@);
        lemma_tfr_reads(toks[pos + 2]->Name_0@);
    }
    match i {
        Instruction::TFR(_) => {
            assert(i.name() =~= "TFR"@);
        },
        Instruction::TSTA => {
            assert(i.name() =~= "TSTA"@);
        },
        Instruction::TSTB => {
            assert(i.name() =~= "TSTB"@);
        },
        Instruction::TST(_) => {
            assert(i.name() =~= "TST"@);
        },
        _ => {},
    }
}

/// An instruction written in the assembler's syntax is read back: its
/// mnemonic (the instruction's name) followed by tokens that write its
/// operand is recognised as that very instruction, with the position after
/// the operand. The long and short branch variants, which the assembler
/// reads as the plain branches, and the operands without a written form
/// here (indexed operands and register lists) are left out, and so are
/// EORA and EORB, which the mnemonic table does not list.
pub proof fn law_written_instruction_read_back(i: Instruction, toks: Seq<Token>, pos: int, end: int, p: int)
    requires
        !(i is EORA || i is EORB),
        0 <= pos,
        p <= end,
        writes_operand(i, toks, pos, p),
    ensures
        spec_recognise_mnemonic(i.name(), toks, pos, end) == Ok::<(SpecElement, int), Seq<char>>((SpecElement::Inst(i), p)),
{
    if i is ABX || i is ADCA || i is ADCB || i is ADDA || i is ADDB || i is ADDD || i is ANDA || i is ANDB {
        lemma_reads_0(i, toks, pos, end, p);
    } else if i is ANDCC || i is ASLA || i is ASLB || i is ASL || i is ASRA || i is ASRB || i is ASR || i is BITA {
        lemma_reads_1(i, toks, pos, end, p);
    } else if i is BITB || i is BCC || i is BCS || i is BEQ || i is BGE || i is BGT || i is BHI || i is BHS {
        lemma_reads_2(i, toks, pos, end, p);
    } else if i is BLE || i is BLO || i is BLS || i is BLT || i is BMI || i is BNE || i is BPL || i is BRA {
        lemma_reads_3(i, toks, pos, end, p);
    } else if i is BRN || i is BSR || i is BVC || i is BVS || i is CLC || i is CLF || i is CLI || i is CLIF {
        lemma_reads_4(i, toks, pos, end, p);
    } else if i is CLRA || i is CLRB || i is CLR || i is CMPA || i is CMPB || i is CMPD || i is CMPS || i is CMPU {
        lemma_reads_5(i, toks, pos, end, p);
    } else if i is CMPX || i is CMPY || i is CLV || i is COMA || i is COMB || i is COM || i is CWAI || i is DAA {
        lemma_reads_6(i, toks, pos, end, p);
    } else if i is DECA || i is DECB || i is DEC || i is EXG || i is INCA || i is INCB || i is INC || i is JMP {
        lemma_reads_7(i, toks, pos, end, p);
    } else if i is JSR || i is LDA || i is LDB || i is LDD || i is LDX || i is LDY || i is LDS || i is LDU {
        lemma_reads_8(i, toks, pos, end, p);
    } else if i is LEAX || i is LEAY || i is LEAU || i is LEAS || i is LSLA || i is LSLB || i is LSL || i is LSRA {
        lemma_reads_9(i, toks, pos, end, p);
    } else if i is LSRB || i is LSR || i is MUL || i is NEGA || i is NEGB || i is NEG || i is NOP || i is ORA {
        lemma_reads_10(i, toks, pos, end, p);
    } else if i is ORB || i is ORCC || i is ROLA || i is ROLB || i is ROL || i is RORA || i is RORB || i is ROR {
        lemma_reads_11(i, toks, pos, end, p);
    } else if i is RTI || i is RTS || i is SBCA || i is SBCB || i is SEC || i is SEF || i is SEI || i is SEIF {
        lemma_reads_12(i, toks, pos, end, p);
    } else if i is SEV || i is SEX || i is STA || i is STB || i is STD || i is STX || i is STY || i is STU {
        lemma_reads_13(i, toks, pos, end, p);
    } else if i is STS || i is SUBA || i is SUBB || i is SUBD || i is SWI || i is SWI2 || i is SWI3 || i is SYNC {
        lemma_reads_14(i, toks, pos, end, p);
    } else if i is TFR || i is TSTA || i is TSTB || i is TST {
        lemma_reads_15(i, toks, pos, end, p);
    }
}

// ---------------------------------------------------------------------------
// Lines.

/// The label that a line (its tokens before `end`) defines: a name at the
/// start followed by a colon.
pub open spec fn line_label(toks: Seq<Token>, end: int) -> Option<Seq<char>> {
    if 2 <= end && end <= toks.len() {
        match (toks[0], toks[1]) {
            (Token::Name(n), Token::Colon) => Some(n@),
            _ => None,
        }
    } else {
        None
    }
}

/// The statement of a line, whose mnemonic stands at `m`: nothing, or an
/// element followed by at most a comment.
pub open spec fn spec_statement(toks: Seq<Token>, m: int, end: int) -> Result<Option<SpecElement>, Seq<char>> {
    match token_at(toks, m, end) {
        None => Ok(None),
        Some(Token::Name(mnemonic)) => match spec_recognise_mnemonic(upper_case(mnemonic@), toks, m + 1, end) {
            Ok((e, p)) => match token_at(toks, p, end) {
                None => Ok(Some(e)),
                Some(Token::Comment(_)) => Ok(Some(e)),
                Some(_) => Err("Unexpected token(s) at end of line"@),
            },
            Err(msg) => Err(msg),
        },
        Some(_) => Err("Unexpected token"@),
    }
}

/// What the tokens of a line before `end` hold: nothing (an empty,
/// blank or comment-only line, or a label alone), an element, or an error.
/// A line starts with a label, or with `Empty` where it has none.
pub open spec fn spec_recognise(toks: Seq<Token>, end: int) -> Result<Option<SpecElement>, Seq<char>> {
    match token_at(toks, 0, end) {
        None => Ok(None),
        Some(Token::Comment(_)) => Ok(None),
        Some(Token::Empty) => match token_at(toks, 1, end) {
            None => Ok(None),
            Some(Token::Comment(_)) => Ok(None),
            Some(Token::Colon) => Err("Unexpected : at start of line"@),
            Some(_) => spec_statement(toks, 1, end),
        },
        Some(Token::Name(_)) => match token_at(toks, 1, end) {
            None => Err("Unexpected end of line"@),
            Some(Token::Colon) => spec_statement(toks, 2, end),
            Some(_) => spec_statement(toks, 1, end),
        },
        Some(_) => Err("Unexpected token"@),
    }
}

/// A source line that writes an instruction is read back as it: after an
/// optional label and colon (or the white space that stands for none), the
/// instruction's name in either case and its written operand, up to the
/// end of the line, give that very instruction. Left out as in
/// `law_written_instruction_read_back`.
pub proof fn law_line_read_back(i: Instruction, toks: Seq<Token>, m: int, end: int)
    requires
        !(i is EORA || i is EORB),
        (m == 1 && toks[0] is Empty) || (m == 2 && toks[0] is Name && toks[1] is Colon),
        m < end <= toks.len(),
        toks[m] is Name,
        upper_case(toks[m]->Name_0@) == i.name(),
        writes_operand(i, toks, m + 1, end),
    ensures
        spec_recognise(toks, end) == Ok::<Option<SpecElement>, Seq<char>>(Some(SpecElement::Inst(i))),
{
    law_written_instruction_read_back(i, toks, m + 1, end, end);
}

/// Where the tokens of a line end once a trailing comment is set aside.
pub open spec fn body_end(toks: Seq<Token>) -> int {
    if toks.len() > 0 && toks.last() is Comment {
        toks.len() - 1
    } else {
        toks.len() as int
    }
}

/// The trailing comment of a line, if it has one.
pub open spec fn trailing_comment(toks: Seq<Token>) -> Option<String> {
    if toks.len() > 0 {
        match toks.last() {
            Token::Comment(c) => Some(c),
            _ => None,
        }
    } else {
        None
    }
}

/// The element of a line that holds nothing or something.
pub open spec fn line_element(e: Option<SpecElement>) -> SpecElement {
    match e {
        Some(x) => x,
        None => SpecElement::Directive(Directive::BLANK),
    }
}

/// Recognises source lines, one at a time, and records the labels they
/// define at the current program counter.
#[derive(Debug)]
pub struct Recogniser {
    pc: u16,
    labels: Namelist,
}

impl Recogniser {
    /// The program counter.
    pub closed spec fn pc(self) -> u16 {
        self.pc
    }

    /// The labels defined so far, with their addresses.
    pub closed spec fn labels(self) -> Map<Seq<char>, u16> {
        self.labels@
    }

    /// A recogniser at address 0 with no labels.
    pub fn new() -> (r: Self)
        ensures
            r.pc() == 0,
            r.labels() == Map::<Seq<char>, u16>::empty(),
    {
        Recogniser { pc: 0, labels: Namelist::new() }
    }

    /// Binds a label to an address.
    fn insert(&mut self, label: String, address: u16)
        ensures
            final(self).pc() == old(self).pc(),
            final(self).labels() == old(self).labels().insert(label@, address),
    {
        self.labels.insert(label, address);
    }

    /// The address of a label defined so far.
    pub fn get(&self, label: &str) -> (r: Option<&u16>)
        ensures
            r is Some == self.labels().contains_key(label@),
            r matches Some(a) ==> *a == self.labels()[label@],
    {
        self.labels.get(label)
    }

    /// Recognises the statement of a line, whose mnemonic stands at `m`.
    fn statement(tokens: &[Token], m: usize, end: usize) -> (r: Result<Option<Element>, String>)
        requires
            m <= end <= tokens@.len(),
        ensures
            match r {
                Ok(None) => spec_statement(tokens@, m as int, end as int) == Ok::<Option<SpecElement>, Seq<char>>(None),
                Ok(Some(e)) => spec_statement(tokens@, m as int, end as int) == Ok::<Option<SpecElement>, Seq<char>>(Some(e@)),
                Err(msg) => spec_statement(tokens@, m as int, end as int) == Err::<Option<SpecElement>, Seq<char>>(msg@),
            },
    {
        if m >= end {
            return Ok(None);
        }
        match &tokens[m] {
            Token::Name(mnemonic) => {
                let up = to_uppercase(mnemonic.as_str());
                match recognise_mnemonic(up.as_str(), tokens, m + 1, end) {
                    Ok((e, p)) => {
                        if p < end {
                            match &tokens[p] {
                                Token::Comment(_) => {},
                                _ => {
                                    return fail("Unexpected token(s) at end of line");
                                },
                            }
                        }
                        Ok(Some(e))
                    },
                    Err(msg) => Err(msg),
                }
            },
            _ => fail("Unexpected token"),
        }
    }

    /// Recognises the tokens of a line before `end`, binding the label that
    /// the line defines.
    pub fn recognise(&mut self, tokens: &[Token], end: usize) -> (r: Result<Option<Element>, String>)
        requires
            end <= tokens@.len(),
        ensures
            final(self).pc() == old(self).pc(),
            final(self).labels() == match line_label(tokens@, end as int) {
                Some(l) => old(self).labels().insert(l, old(self).pc()),
                None => old(self).labels(),
            },
            match r {
                Ok(None) => spec_recognise(tokens@, end as int) == Ok::<Option<SpecElement>, Seq<char>>(None),
                Ok(Some(e)) => spec_recognise(tokens@, end as int) == Ok::<Option<SpecElement>, Seq<char>>(Some(e@)),
                Err(msg) => spec_recognise(tokens@, end as int) == Err::<Option<SpecElement>, Seq<char>>(msg@),
            },
    {
        if end == 0 {
            return Ok(None);
        }
        match &tokens[0] {
            Token::Comment(_) => {
                return Ok(None);
            },
            Token::Empty | Token::Name(_) => {},
            _ => {
                return fail("Unexpected token");
            },
        }
        if end == 1 {
            if let Token::Empty = &tokens[0] {
                return Ok(None);
            }
            return fail("Unexpected end of line");
        }
        match &tokens[1] {
            Token::Comment(_) => {
                if let Token::Empty = &tokens[0] {
                    return Ok(None);
                }
                Self::statement(tokens, 1, end)
            },
            Token::Colon => {
                if let Token::Name(name) = &tokens[0] {
                    let pc = self.pc;
                    self.insert(name.clone(), pc);
                    Self::statement(tokens, 2, end)
                } else {
                    fail("Unexpected : at start of line")
                }
            },
            _ => Self::statement(tokens, 1, end),
        }
    }

    /// Recognises the tokens of one source line. A trailing comment is set
    /// aside as the line's comment; a line that holds nothing gives `BLANK`.
    /// A label at the start of the line is bound to the program counter,
    /// also where the rest of the line is in error.
    pub fn recognise_line(&mut self, tokens: &[Token]) -> (r: Result<Line, String>)
        ensures
            final(self).pc() == old(self).pc(),
            final(self).labels() == match line_label(tokens@, body_end(tokens@)) {
                Some(l) => old(self).labels().insert(l, old(self).pc()),
                None => old(self).labels(),
            },
            match r {
                Ok(line) => {
                    &&& line.comment == trailing_comment(tokens@)
                    &&& spec_recognise(tokens@, body_end(tokens@)) matches Ok(e)
                    &&& line.element@ == line_element(e)
                },
                Err(msg) => spec_recognise(tokens@, body_end(tokens@)) == Err::<Option<SpecElement>, Seq<char>>(msg@),
            },
    {
        let n = tokens.len();
        let (comment, end) = if n > 0 {
            match &tokens[n - 1] {
                Token::Comment(comment_string) => (Some(comment_string.clone()), n - 1),
                _ => (None, n),
            }
        } else {
            (None, n)
        };
        match self.recognise(tokens, end) {
            Ok(None) => Ok(Line { element: Element::Directive(Directive::BLANK), comment }),
            Ok(Some(element)) => Ok(Line { element, comment }),
            Err(e) => Err(e),
        }
    }
}

} // verus!
