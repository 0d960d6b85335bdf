//! End-to-end scenarios through the whole assembler pipeline.

use asm51::errors::AsmError;
use asm51::instruction::{Instruction, Mnemonic, OpType};
use asm51::labels::builtin_sfr_table;
use asm51::line::get_lines;
use asm51::output::{assemble, flat_binary, intel_hex_lines};
use asm51::section::get_sections;

#[test]
fn assembles_mov_and_nop_to_flat_binary() {
    let recs = assemble(String::from("ORG 0\nMOV A,#10h\nNOP\nEND")).unwrap();
    let bin = flat_binary(recs);
    assert_eq!(bin, vec![0x74, 0x10, 0x00]);
}

#[test]
fn label_resolves_to_its_own_address() {
    // FOO is defined at address 0; the SJMP at offset 1 (length 2) branches
    // back to it with displacement (0 + 0x100 - 3) mod 0x100.
    let recs = assemble(String::from("FOO: NOP\nSJMP FOO\nEND")).unwrap();
    let bin = flat_binary(recs);
    assert_eq!(bin, vec![0x00, 0x80, 0xFD]);
}

#[test]
fn unknown_label_yields_one_diagnostic_and_no_output() {
    let errs = assemble(String::from("SJMP BAR")).unwrap_err();
    assert_eq!(errs.len(), 1);
    match &errs[0] {
        AsmError::UnresolvedLabel { line, name } => {
            assert_eq!(*line, 1);
            assert_eq!(name.as_str(), "BAR");
        },
        other => panic!("expected an unresolved label, got {:?}", other),
    }
}

#[test]
fn two_origins_make_two_sections_with_offsets_restarting() {
    let lines = get_lines(String::from("ORG 0\nNOP\nNOP\nORG 100h\nNOP\nEND"));
    let sections = get_sections(lines).unwrap();
    // the initial (empty) section, then one per ORG
    assert_eq!(sections.len(), 3);
    assert_eq!(sections[0].instructions.len(), 0);
    assert_eq!(sections[1].offset, 0);
    assert_eq!(sections[2].offset, 0x100);
    // each ORG sits at offset 0 of its own section and the offsets restart
    assert_eq!(sections[1].instructions[0].offset, 0);
    assert_eq!(sections[1].instructions[1].offset, 0);
    assert_eq!(sections[1].instructions[2].offset, 1);
    assert_eq!(sections[2].instructions[0].offset, 0);
    assert_eq!(sections[2].instructions[1].offset, 0);
}

#[test]
fn two_origins_make_two_records() {
    let recs = assemble(String::from("ORG 0\nNOP\nNOP\nORG 100h\nNOP\nEND")).unwrap();
    // the leading empty section contributes an empty record
    assert_eq!(recs.len(), 3);
    assert_eq!(recs[1].offset, 0);
    assert_eq!(recs[1].data, vec![0x00, 0x00]);
    assert_eq!(recs[2].offset, 0x100);
    assert_eq!(recs[2].data, vec![0x00]);
}

#[test]
fn builtin_register_names_resolve() {
    // LJMP ACC: the built-in name ACC resolves to address 0x00E0.
    let recs = assemble(String::from("LJMP ACC\nEND")).unwrap();
    let bin = flat_binary(recs);
    assert_eq!(bin, vec![0x02, 0x00, 0xE0]);
}

#[test]
fn builtin_table_holds_the_standard_registers() {
    let t = builtin_sfr_table();
    let find = |name: &str| -> u16 {
        t.iter().find(|p| p.0 == name).map(|p| p.1).unwrap()
    };
    assert_eq!(find("P0"), 0x80);
    assert_eq!(find("ACC"), 0xE0);
    assert_eq!(find("PSW"), 0xD0);
    assert_eq!(find("SP"), 0x81);
    assert_eq!(find("DPL"), 0x82);
    assert_eq!(find("DPH"), 0x83);
    assert_eq!(find("B"), 0xF0);
    assert_eq!(t.len(), 97);
}

#[test]
fn label_names_are_case_insensitive() {
    let recs = assemble(String::from("FOO: NOP\nSJMP foo\nEND")).unwrap();
    let bin = flat_binary(recs);
    assert_eq!(bin, vec![0x00, 0x80, 0xFD]);
}

#[test]
fn label_table_entries_are_lower_cased() {
    let lines = get_lines(String::from("FOO: NOP\nEND"));
    let sections = get_sections(lines).unwrap();
    let table = sections[0].build_label_table();
    assert_eq!(table.len(), 1);
    assert_eq!(table[0].0, "foo");
    assert_eq!(table[0].1, 0);
}

#[test]
fn label_with_hex_addend() {
    // FOO resolves to 0; FOO.10 adds 0x10, so LJMP targets 0x0010.
    let recs = assemble(String::from("FOO: NOP\nLJMP FOO.10\nEND")).unwrap();
    let bin = flat_binary(recs);
    assert_eq!(bin, vec![0x00, 0x02, 0x00, 0x10]);
}

#[test]
fn branch_out_of_range_is_reported() {
    // A backward branch to address 0 from an instruction ending past 0x7F.
    let src = String::from("FOO: NOP\nORG 0\nDS f0h\nSJMP FOO\nEND");
    let errs = assemble(src).unwrap_err();
    assert!(errs.iter().any(|e| matches!(e, AsmError::AddressOutOfRange { .. })));
}

#[test]
fn db_emits_string_bytes_and_terminator() {
    // quotes stripped, zero byte appended; the length is exactly the
    // emitted byte count
    let recs = assemble(String::from("DB \"AB\"\nNOP\nEND")).unwrap();
    let bin = flat_binary(recs);
    assert_eq!(bin, vec![0x41, 0x42, 0x00, 0x00]);
}

#[test]
fn ds_fills_with_the_reserved_byte() {
    let recs = assemble(String::from("DS 3\nNOP\nEND")).unwrap();
    let bin = flat_binary(recs);
    assert_eq!(bin, vec![0x10, 0x10, 0x10, 0x00]);
}

#[test]
fn unknown_mnemonic_is_collected() {
    let errs = assemble(String::from("FROB A\nEND")).unwrap_err();
    assert_eq!(errs.len(), 1);
    match &errs[0] {
        AsmError::UnknownMnemonic { line, name } => {
            assert_eq!(*line, 1);
            assert_eq!(name.as_str(), "FROB");
        },
        other => panic!("expected an unknown mnemonic, got {:?}", other),
    }
}

#[test]
fn arity_errors_are_reported() {
    let errs = assemble(String::from("MOV A\nEND")).unwrap_err();
    assert!(matches!(errs[0], AsmError::TooFewOperands { line: 1, mnemonic: Mnemonic::Mov }));
    let errs = assemble(String::from("NOP A\nEND")).unwrap_err();
    assert!(matches!(errs[0], AsmError::TooManyOperands { line: 1, mnemonic: Mnemonic::Nop }));
}

#[test]
fn invalid_operand_combination_is_reported() {
    let errs = assemble(String::from("MOVC A,@R0\nEND")).unwrap_err();
    assert!(matches!(errs[0], AsmError::InvalidOperands { line: 1, mnemonic: Mnemonic::Movc, .. }));
}

#[test]
fn invalid_literals_are_reported() {
    let errs = assemble(String::from("MOV A,#10000h\nEND")).unwrap_err();
    assert!(matches!(errs[0], AsmError::InvalidData { line: 1 }));
    let errs = assemble(String::from("MOV A,fffffh\nEND")).unwrap_err();
    assert!(matches!(errs[0], AsmError::InvalidAddress { line: 1 }));
}

#[test]
fn origin_label_operands_are_data_not_references() {
    // the label-then-address origin form: the leading name is never looked
    // up in the symbol table
    let recs = assemble(String::from("NOP\nORG SEG2 40h\nNOP\nEND")).unwrap();
    assert_eq!(recs.len(), 2);
    assert_eq!(recs[1].offset, 0x40);
    let recs = assemble(String::from("DSEG AT 30h\nNOP\nEND")).unwrap();
    assert_eq!(recs.len(), 2);
    assert_eq!(recs[1].offset, 0x30);
}

#[test]
fn malformed_origin_is_reported_and_skipped() {
    let errs = assemble(String::from("ORG @R0\nEND")).unwrap_err();
    assert!(matches!(errs[0], AsmError::InvalidOrigin { line: 1 }));
}

#[test]
fn comments_and_blank_lines_are_ignored() {
    let recs = assemble(String::from("; a comment\n\n  NOP ; trailing\nEND")).unwrap();
    let bin = flat_binary(recs);
    assert_eq!(bin, vec![0x00]);
}

#[test]
fn errors_on_every_bad_line_are_all_collected() {
    let errs = assemble(String::from("FROB\nBLORT\nNOP\nEND")).unwrap_err();
    assert_eq!(errs.len(), 2);
}

#[test]
fn hex_output_of_a_small_program() {
    let recs = assemble(String::from("ORG 0\nMOV A,#10h\nNOP\nEND")).unwrap();
    let lines = intel_hex_lines(&recs);
    let text: Vec<String> =
        lines.iter().map(|l| String::from_utf8(l.clone()).unwrap()).collect();
    assert_eq!(text, vec![":0300000074100079", ":00000001FF"]);
}

#[test]
fn fix_label_leaves_non_references_alone() {
    let mut i = Instruction {
        offset: 0,
        num: 1,
        label: None,
        mnemonic: Some(Mnemonic::Mov),
        ops: vec![OpType::A, OpType::Data(0x12)],
    };
    let table: Vec<(String, u16)> = vec![(String::from("x"), 7)];
    i.fix_label(&table).unwrap();
    assert_eq!(i.ops, vec![OpType::A, OpType::Data(0x12)]);
}

#[test]
fn fix_label_rewrites_references() {
    let mut i = Instruction {
        offset: 0,
        num: 1,
        label: None,
        mnemonic: Some(Mnemonic::Ljmp),
        ops: vec![OpType::Label(String::from("X"))],
    };
    let table: Vec<(String, u16)> = vec![(String::from("x"), 0x1234)];
    i.fix_label(&table).unwrap();
    assert_eq!(i.ops, vec![OpType::Addr16(0x1234)]);
}

#[test]
fn empty_source_assembles_to_nothing() {
    let recs = assemble(String::new()).unwrap();
    let bin = flat_binary(recs);
    assert!(bin.is_empty());
}

#[test]
fn end_alone_assembles_to_nothing() {
    let recs = assemble(String::from("END")).unwrap();
    let bin = flat_binary(recs);
    assert!(bin.is_empty());
}

#[test]
fn ds_of_zero_reserves_nothing() {
    let recs = assemble(String::from("DS 0\nNOP\nEND")).unwrap();
    let bin = flat_binary(recs);
    assert_eq!(bin, vec![0x00]);
}

#[test]
fn duplicate_labels_resolve_to_the_first_definition() {
    let recs = assemble(String::from("FOO: NOP\nFOO: NOP\nSJMP FOO\nEND")).unwrap();
    let bin = flat_binary(recs);
    assert_eq!(bin, vec![0x00, 0x00, 0x80, 0xFC]);
}

#[test]
fn source_labels_shadow_builtin_names() {
    let recs = assemble(String::from("ACC: NOP\nLJMP ACC\nEND")).unwrap();
    let bin = flat_binary(recs);
    assert_eq!(bin, vec![0x00, 0x02, 0x00, 0x00]);
}
