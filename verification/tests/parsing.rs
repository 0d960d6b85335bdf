//! Tokenizing and operand parsing.

use asm51::errors::AsmError;
use asm51::instruction::{other_op, Instruction, Mnemonic, OpType};
use asm51::line::{get_lines, Line};

#[test]
fn tokenizer_splits_label_mnemonic_operands() {
    let lines = get_lines(String::from("START: MOV A,#10h ; load"));
    assert_eq!(lines.len(), 1);
    assert_eq!(lines[0].num, 1);
    assert_eq!(lines[0].label.as_deref(), Some("START"));
    assert_eq!(lines[0].mnu.as_deref(), Some("MOV"));
    assert_eq!(lines[0].ops, vec![String::from("A"), String::from("#10h")]);
}

#[test]
fn tokenizer_numbers_lines_from_one() {
    let lines = get_lines(String::from("NOP\r\nNOP\n\nEND"));
    assert_eq!(lines.len(), 4);
    assert_eq!(lines[0].num, 1);
    assert_eq!(lines[3].num, 4);
    assert_eq!(lines[1].mnu.as_deref(), Some("NOP"));
    assert_eq!(lines[2].mnu, None);
}

#[test]
fn tokenizer_strips_comments_and_whitespace() {
    let lines = get_lines(String::from("\t NOP \t; all of this goes"));
    assert_eq!(lines[0].label, None);
    assert_eq!(lines[0].mnu.as_deref(), Some("NOP"));
    assert!(lines[0].ops.is_empty());
}

#[test]
fn register_keywords_parse_case_insensitively() {
    let line = Line::new(
        1,
        None,
        Some(String::from("mov")),
        vec![String::from("a"), String::from("R5")],
    );
    let ins = Instruction::from_line(line, 0).unwrap();
    assert_eq!(ins.ops, vec![OpType::A, OpType::R5]);
    assert_eq!(ins.mnemonic, Some(Mnemonic::Mov));
}

#[test]
fn bare_b_is_a_reference_to_the_b_register() {
    let line = Line::new(1, None, Some(String::from("push")), vec![String::from("b")]);
    let ins = Instruction::from_line(line, 0).unwrap();
    assert_eq!(ins.ops, vec![OpType::Label(String::from("B"))]);
}

#[test]
fn indirect_and_pointer_keywords_parse() {
    let line = Line::new(
        1,
        None,
        Some(String::from("movc")),
        vec![String::from("@A+DPTR"), String::from("@a+pc"), String::from("@DPTR")],
    );
    let ins = Instruction::from_line(line, 0).unwrap();
    assert_eq!(ins.ops, vec![OpType::AtADptr, OpType::AtAPc, OpType::AtDptr]);
}

#[test]
fn immediates_parse_hex_and_decimal() {
    assert_eq!(other_op(String::from("#10h"), 1).unwrap(), OpType::Data(0x10));
    assert_eq!(other_op(String::from("#255"), 1).unwrap(), OpType::Data(255));
    assert_eq!(other_op(String::from("#256"), 1).unwrap(), OpType::Data16(256));
    assert_eq!(other_op(String::from("#1234h"), 1).unwrap(), OpType::Data16(0x1234));
    assert_eq!(
        other_op(String::from("#65536"), 1).unwrap_err(),
        AsmError::InvalidData { line: 1 },
    );
    assert_eq!(
        other_op(String::from("#zz"), 1).unwrap_err(),
        AsmError::InvalidData { line: 1 },
    );
}

#[test]
fn addresses_parse_in_all_three_notations() {
    assert_eq!(other_op(String::from("7fh"), 1).unwrap(), OpType::Addr(0x7F));
    assert_eq!(other_op(String::from("1234h"), 1).unwrap(), OpType::Addr16(0x1234));
    assert_eq!(other_op(String::from("0x2F"), 1).unwrap(), OpType::Addr(0x2F));
    assert_eq!(other_op(String::from("0x1234"), 1).unwrap(), OpType::Addr16(0x1234));
    assert_eq!(other_op(String::from("42"), 1).unwrap(), OpType::Addr(42));
    assert_eq!(other_op(String::from("300"), 1).unwrap(), OpType::Addr16(300));
    assert_eq!(
        other_op(String::from("99999"), 1).unwrap_err(),
        AsmError::InvalidAddress { line: 1 },
    );
    assert_eq!(
        other_op(String::from("zzh"), 1).unwrap_err(),
        AsmError::InvalidAddress { line: 1 },
    );
}

#[test]
fn anything_else_is_a_label_reference() {
    assert_eq!(
        other_op(String::from("loop2"), 1).unwrap(),
        OpType::Label(String::from("loop2")),
    );
    assert_eq!(
        other_op(String::from("start.1F"), 1).unwrap(),
        OpType::Label(String::from("start.1F")),
    );
}

#[test]
fn end_keyword_clears_the_mnemonic() {
    let line = Line::new(3, None, Some(String::from("End")), vec![]);
    let ins = Instruction::from_line(line, 5).unwrap();
    assert_eq!(ins.mnemonic, None);
    assert_eq!(ins.offset, 5);
    assert_eq!(ins.num, 3);
    assert_eq!(ins.len(), 0);
}

#[test]
fn lengths_follow_the_documented_rules() {
    let mk = |mnemonic: Mnemonic, ops: Vec<OpType>| Instruction {
        offset: 0,
        num: 1,
        label: None,
        mnemonic: Some(mnemonic),
        ops,
    };
    assert_eq!(mk(Mnemonic::Nop, vec![]).len(), 1);
    assert_eq!(mk(Mnemonic::Org, vec![OpType::Addr(0)]).len(), 0);
    assert_eq!(mk(Mnemonic::Cseg, vec![]).len(), 0);
    assert_eq!(mk(Mnemonic::Dseg, vec![]).len(), 0);
    assert_eq!(mk(Mnemonic::Ljmp, vec![OpType::Addr16(0)]).len(), 3);
    assert_eq!(mk(Mnemonic::Lcall, vec![OpType::Addr16(0)]).len(), 3);
    assert_eq!(
        mk(Mnemonic::Cjne, vec![OpType::A, OpType::Data(1), OpType::Addr16(9)]).len(),
        3,
    );
    assert_eq!(mk(Mnemonic::Mov, vec![OpType::A, OpType::Data(1)]).len(), 2);
    assert_eq!(mk(Mnemonic::Mov, vec![OpType::Dptr, OpType::Data16(0x1234)]).len(), 3);
    assert_eq!(mk(Mnemonic::Mov, vec![OpType::Dptr, OpType::Data(0x12)]).len(), 3);
    assert_eq!(mk(Mnemonic::Db, vec![OpType::Label(String::from("\"abc\""))]).len(), 4);
    assert_eq!(mk(Mnemonic::Ds, vec![OpType::Addr(7)]).len(), 7);
    assert_eq!(mk(Mnemonic::Sjmp, vec![OpType::Label(String::from("x"))]).len(), 2);
}

#[test]
fn length_matches_encoding_when_encoding_succeeds() {
    let cases = vec![
        Instruction {
            offset: 0,
            num: 1,
            label: None,
            mnemonic: Some(Mnemonic::Mov),
            ops: vec![OpType::Dptr, OpType::Data16(0x1234)],
        },
        Instruction {
            offset: 0,
            num: 1,
            label: None,
            mnemonic: Some(Mnemonic::Cjne),
            ops: vec![OpType::A, OpType::Data(1), OpType::Addr16(0x20)],
        },
        Instruction {
            offset: 0,
            num: 1,
            label: None,
            mnemonic: Some(Mnemonic::Ds),
            ops: vec![OpType::Addr(9)],
        },
        Instruction {
            offset: 0,
            num: 1,
            label: None,
            mnemonic: Some(Mnemonic::Db),
            ops: vec![OpType::Label(String::from("\"abc\""))],
        },
        Instruction { offset: 0, num: 1, label: None, mnemonic: None, ops: vec![] },
    ];
    for ins in cases {
        let bytes = ins.to_hex().unwrap();
        assert_eq!(bytes.len() as i32, ins.len());
    }
}

#[test]
fn short_jmp_window_and_displacement() {
    let at = |offset: u16| Instruction {
        offset,
        num: 1,
        label: None,
        mnemonic: Some(Mnemonic::Sjmp),
        ops: vec![OpType::Addr16(0)],
    };
    // backward to 0x00 from offset 0x10 (next instruction at 0x12)
    assert_eq!(at(0x10).short_jmp(0x00).unwrap(), 0xEE);
    // forward from 0 to 0x40
    assert_eq!(at(0).short_jmp(0x40).unwrap(), 0x3E);
    // at the edge of the window: target + 0x7F == offset + len
    assert_eq!(at(0x7D).short_jmp(0x00).unwrap(), 0x81);
    // one past the edge
    assert_eq!(
        at(0x7E).short_jmp(0x00).unwrap_err(),
        AsmError::AddressOutOfRange { line: 1 },
    );
}

#[test]
fn origin_directives_carry_their_address() {
    let mk = |mnemonic: Mnemonic, ops: Vec<OpType>| Instruction {
        offset: 0,
        num: 1,
        label: None,
        mnemonic: Some(mnemonic),
        ops,
    };
    let org = mk(Mnemonic::Org, vec![OpType::Addr16(0x100)]);
    assert!(org.origin_ok());
    assert_eq!(org.is_new_section(), Some(0x100));
    let cseg = mk(Mnemonic::Cseg, vec![OpType::Label(String::from("at")), OpType::Addr(0x20)]);
    assert!(cseg.origin_ok());
    assert_eq!(cseg.is_new_section(), Some(0x20));
    let bare = mk(Mnemonic::Org, vec![]);
    assert!(bare.origin_ok());
    assert_eq!(bare.is_new_section(), None);
    let nop = mk(Mnemonic::Nop, vec![]);
    assert!(nop.origin_ok());
    assert_eq!(nop.is_new_section(), None);
    let bad = mk(Mnemonic::Dseg, vec![OpType::A]);
    assert!(!bad.origin_ok());
}
