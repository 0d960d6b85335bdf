//! The golden opcode table: every (mnemonic, operand-combination) entry
//! of the encoder, checked against its documented byte sequence.

use asm51::instruction::{Instruction, Mnemonic, OpType};

fn ins(mnemonic: Mnemonic, ops: Vec<OpType>) -> Instruction {
    Instruction { offset: 0, num: 1, label: None, mnemonic: Some(mnemonic), ops }
}

#[test]
fn encode_clr_table() {
    assert_eq!(ins(Mnemonic::Clr, vec![OpType::A]).to_hex().unwrap(), vec![0xE4]);
    assert_eq!(ins(Mnemonic::Clr, vec![OpType::Addr(0x12)]).to_hex().unwrap(), vec![0xC2, 0x12]);
    assert_eq!(ins(Mnemonic::Clr, vec![OpType::C]).to_hex().unwrap(), vec![0xC3]);
}

#[test]
fn encode_setb_table() {
    assert_eq!(ins(Mnemonic::Setb, vec![OpType::Addr(0x12)]).to_hex().unwrap(), vec![0xD2, 0x12]);
    assert_eq!(ins(Mnemonic::Setb, vec![OpType::C]).to_hex().unwrap(), vec![0xD3]);
}

#[test]
fn encode_cpl_table() {
    assert_eq!(ins(Mnemonic::Cpl, vec![OpType::Addr(0x12)]).to_hex().unwrap(), vec![0xB2, 0x12]);
    assert_eq!(ins(Mnemonic::Cpl, vec![OpType::C]).to_hex().unwrap(), vec![0xB3]);
    assert_eq!(ins(Mnemonic::Cpl, vec![OpType::A]).to_hex().unwrap(), vec![0xF4]);
}

#[test]
fn encode_cjne_table() {
    assert_eq!(ins(Mnemonic::Cjne, vec![OpType::A, OpType::Data(0x12), OpType::Addr16(0x40)]).to_hex().unwrap(), vec![0xB4, 0x12, 0x3D]);
    assert_eq!(ins(Mnemonic::Cjne, vec![OpType::A, OpType::Addr(0x12), OpType::Addr16(0x40)]).to_hex().unwrap(), vec![0xB5, 0x12, 0x3D]);
    assert_eq!(ins(Mnemonic::Cjne, vec![OpType::AtR0, OpType::Data(0x12), OpType::Addr16(0x40)]).to_hex().unwrap(), vec![0xB6, 0x12, 0x3D]);
    assert_eq!(ins(Mnemonic::Cjne, vec![OpType::AtR1, OpType::Data(0x12), OpType::Addr16(0x40)]).to_hex().unwrap(), vec![0xB7, 0x12, 0x3D]);
    assert_eq!(ins(Mnemonic::Cjne, vec![OpType::R0, OpType::Data(0x12), OpType::Addr16(0x40)]).to_hex().unwrap(), vec![0xB8, 0x12, 0x3D]);
    assert_eq!(ins(Mnemonic::Cjne, vec![OpType::R1, OpType::Data(0x12), OpType::Addr16(0x40)]).to_hex().unwrap(), vec![0xB9, 0x12, 0x3D]);
    assert_eq!(ins(Mnemonic::Cjne, vec![OpType::R2, OpType::Data(0x12), OpType::Addr16(0x40)]).to_hex().unwrap(), vec![0xBA, 0x12, 0x3D]);
    assert_eq!(ins(Mnemonic::Cjne, vec![OpType::R3, OpType::Data(0x12), OpType::Addr16(0x40)]).to_hex().unwrap(), vec![0xBB, 0x12, 0x3D]);
    assert_eq!(ins(Mnemonic::Cjne, vec![OpType::R4, OpType::Data(0x12), OpType::Addr16(0x40)]).to_hex().unwrap(), vec![0xBC, 0x12, 0x3D]);
    assert_eq!(ins(Mnemonic::Cjne, vec![OpType::R5, OpType::Data(0x12), OpType::Addr16(0x40)]).to_hex().unwrap(), vec![0xBD, 0x12, 0x3D]);
    assert_eq!(ins(Mnemonic::Cjne, vec![OpType::R6, OpType::Data(0x12), OpType::Addr16(0x40)]).to_hex().unwrap(), vec![0xBE, 0x12, 0x3D]);
    assert_eq!(ins(Mnemonic::Cjne, vec![OpType::R7, OpType::Data(0x12), OpType::Addr16(0x40)]).to_hex().unwrap(), vec![0xBF, 0x12, 0x3D]);
}

#[test]
fn encode_djnz_table() {
    assert_eq!(ins(Mnemonic::Djnz, vec![OpType::R0, OpType::Addr16(0x40)]).to_hex().unwrap(), vec![0xD8, 0x3E]);
    assert_eq!(ins(Mnemonic::Djnz, vec![OpType::R1, OpType::Addr16(0x40)]).to_hex().unwrap(), vec![0xD9, 0x3E]);
    assert_eq!(ins(Mnemonic::Djnz, vec![OpType::R2, OpType::Addr16(0x40)]).to_hex().unwrap(), vec![0xDA, 0x3E]);
    assert_eq!(ins(Mnemonic::Djnz, vec![OpType::R3, OpType::Addr16(0x40)]).to_hex().unwrap(), vec![0xDB, 0x3E]);
    assert_eq!(ins(Mnemonic::Djnz, vec![OpType::R4, OpType::Addr16(0x40)]).to_hex().unwrap(), vec![0xDC, 0x3E]);
    assert_eq!(ins(Mnemonic::Djnz, vec![OpType::R5, OpType::Addr16(0x40)]).to_hex().unwrap(), vec![0xDD, 0x3E]);
    assert_eq!(ins(Mnemonic::Djnz, vec![OpType::R6, OpType::Addr16(0x40)]).to_hex().unwrap(), vec![0xDE, 0x3E]);
    assert_eq!(ins(Mnemonic::Djnz, vec![OpType::R7, OpType::Addr16(0x40)]).to_hex().unwrap(), vec![0xDF, 0x3E]);
    assert_eq!(ins(Mnemonic::Djnz, vec![OpType::Addr(0x12), OpType::Addr16(0x40)]).to_hex().unwrap(), vec![0xD5, 0x12, 0x3D]);
}

#[test]
fn encode_inc_table() {
    assert_eq!(ins(Mnemonic::Inc, vec![OpType::A]).to_hex().unwrap(), vec![0x04]);
    assert_eq!(ins(Mnemonic::Inc, vec![OpType::Addr(0x12)]).to_hex().unwrap(), vec![0x05, 0x12]);
    assert_eq!(ins(Mnemonic::Inc, vec![OpType::AtR0]).to_hex().unwrap(), vec![0x06]);
    assert_eq!(ins(Mnemonic::Inc, vec![OpType::AtR1]).to_hex().unwrap(), vec![0x07]);
    assert_eq!(ins(Mnemonic::Inc, vec![OpType::R0]).to_hex().unwrap(), vec![0x08]);
    assert_eq!(ins(Mnemonic::Inc, vec![OpType::R1]).to_hex().unwrap(), vec![0x09]);
    assert_eq!(ins(Mnemonic::Inc, vec![OpType::R2]).to_hex().unwrap(), vec![0x0A]);
    assert_eq!(ins(Mnemonic::Inc, vec![OpType::R3]).to_hex().unwrap(), vec![0x0B]);
    assert_eq!(ins(Mnemonic::Inc, vec![OpType::R4]).to_hex().unwrap(), vec![0x0C]);
    assert_eq!(ins(Mnemonic::Inc, vec![OpType::R5]).to_hex().unwrap(), vec![0x0D]);
    assert_eq!(ins(Mnemonic::Inc, vec![OpType::R6]).to_hex().unwrap(), vec![0x0E]);
    assert_eq!(ins(Mnemonic::Inc, vec![OpType::R7]).to_hex().unwrap(), vec![0x0F]);
    assert_eq!(ins(Mnemonic::Inc, vec![OpType::Dptr]).to_hex().unwrap(), vec![0xA3]);
}

#[test]
fn encode_dec_table() {
    assert_eq!(ins(Mnemonic::Dec, vec![OpType::A]).to_hex().unwrap(), vec![0x14]);
    assert_eq!(ins(Mnemonic::Dec, vec![OpType::Addr(0x12)]).to_hex().unwrap(), vec![0x15, 0x12]);
    assert_eq!(ins(Mnemonic::Dec, vec![OpType::AtR0]).to_hex().unwrap(), vec![0x16]);
    assert_eq!(ins(Mnemonic::Dec, vec![OpType::AtR1]).to_hex().unwrap(), vec![0x17]);
    assert_eq!(ins(Mnemonic::Dec, vec![OpType::R0]).to_hex().unwrap(), vec![0x18]);
    assert_eq!(ins(Mnemonic::Dec, vec![OpType::R1]).to_hex().unwrap(), vec![0x19]);
    assert_eq!(ins(Mnemonic::Dec, vec![OpType::R2]).to_hex().unwrap(), vec![0x1A]);
    assert_eq!(ins(Mnemonic::Dec, vec![OpType::R3]).to_hex().unwrap(), vec![0x1B]);
    assert_eq!(ins(Mnemonic::Dec, vec![OpType::R4]).to_hex().unwrap(), vec![0x1C]);
    assert_eq!(ins(Mnemonic::Dec, vec![OpType::R5]).to_hex().unwrap(), vec![0x1D]);
    assert_eq!(ins(Mnemonic::Dec, vec![OpType::R6]).to_hex().unwrap(), vec![0x1E]);
    assert_eq!(ins(Mnemonic::Dec, vec![OpType::R7]).to_hex().unwrap(), vec![0x1F]);
}

#[test]
fn encode_pop_table() {
    assert_eq!(ins(Mnemonic::Pop, vec![OpType::Addr(0x12)]).to_hex().unwrap(), vec![0xD0, 0x12]);
}

#[test]
fn encode_push_table() {
    assert_eq!(ins(Mnemonic::Push, vec![OpType::Addr(0x12)]).to_hex().unwrap(), vec![0xC0, 0x12]);
}

#[test]
fn encode_add_table() {
    assert_eq!(ins(Mnemonic::Add, vec![OpType::A, OpType::Data(0x12)]).to_hex().unwrap(), vec![0x24, 0x12]);
    assert_eq!(ins(Mnemonic::Add, vec![OpType::A, OpType::Addr(0x12)]).to_hex().unwrap(), vec![0x25, 0x12]);
    assert_eq!(ins(Mnemonic::Add, vec![OpType::A, OpType::AtR0]).to_hex().unwrap(), vec![0x26]);
    assert_eq!(ins(Mnemonic::Add, vec![OpType::A, OpType::AtR1]).to_hex().unwrap(), vec![0x27]);
    assert_eq!(ins(Mnemonic::Add, vec![OpType::A, OpType::R0]).to_hex().unwrap(), vec![0x28]);
    assert_eq!(ins(Mnemonic::Add, vec![OpType::A, OpType::R1]).to_hex().unwrap(), vec![0x29]);
    assert_eq!(ins(Mnemonic::Add, vec![OpType::A, OpType::R2]).to_hex().unwrap(), vec![0x2A]);
    assert_eq!(ins(Mnemonic::Add, vec![OpType::A, OpType::R3]).to_hex().unwrap(), vec![0x2B]);
    assert_eq!(ins(Mnemonic::Add, vec![OpType::A, OpType::R4]).to_hex().unwrap(), vec![0x2C]);
    assert_eq!(ins(Mnemonic::Add, vec![OpType::A, OpType::R5]).to_hex().unwrap(), vec![0x2D]);
    assert_eq!(ins(Mnemonic::Add, vec![OpType::A, OpType::R6]).to_hex().unwrap(), vec![0x2E]);
    assert_eq!(ins(Mnemonic::Add, vec![OpType::A, OpType::R7]).to_hex().unwrap(), vec![0x2F]);
}

#[test]
fn encode_addc_table() {
    assert_eq!(ins(Mnemonic::Addc, vec![OpType::A, OpType::Data(0x12)]).to_hex().unwrap(), vec![0x34, 0x12]);
    assert_eq!(ins(Mnemonic::Addc, vec![OpType::A, OpType::Addr(0x12)]).to_hex().unwrap(), vec![0x35, 0x12]);
    assert_eq!(ins(Mnemonic::Addc, vec![OpType::A, OpType::AtR0]).to_hex().unwrap(), vec![0x36]);
    assert_eq!(ins(Mnemonic::Addc, vec![OpType::A, OpType::AtR1]).to_hex().unwrap(), vec![0x37]);
    assert_eq!(ins(Mnemonic::Addc, vec![OpType::A, OpType::R0]).to_hex().unwrap(), vec![0x38]);
    assert_eq!(ins(Mnemonic::Addc, vec![OpType::A, OpType::R1]).to_hex().unwrap(), vec![0x39]);
    assert_eq!(ins(Mnemonic::Addc, vec![OpType::A, OpType::R2]).to_hex().unwrap(), vec![0x3A]);
    assert_eq!(ins(Mnemonic::Addc, vec![OpType::A, OpType::R3]).to_hex().unwrap(), vec![0x3B]);
    assert_eq!(ins(Mnemonic::Addc, vec![OpType::A, OpType::R4]).to_hex().unwrap(), vec![0x3C]);
    assert_eq!(ins(Mnemonic::Addc, vec![OpType::A, OpType::R5]).to_hex().unwrap(), vec![0x3D]);
    assert_eq!(ins(Mnemonic::Addc, vec![OpType::A, OpType::R6]).to_hex().unwrap(), vec![0x3E]);
    assert_eq!(ins(Mnemonic::Addc, vec![OpType::A, OpType::R7]).to_hex().unwrap(), vec![0x3F]);
}

#[test]
fn encode_orl_table() {
    assert_eq!(ins(Mnemonic::Orl, vec![OpType::Addr(0x34), OpType::A]).to_hex().unwrap(), vec![0x42, 0x34]);
    assert_eq!(ins(Mnemonic::Orl, vec![OpType::Addr(0x34), OpType::Data(0x12)]).to_hex().unwrap(), vec![0x43, 0x34, 0x12]);
    assert_eq!(ins(Mnemonic::Orl, vec![OpType::A, OpType::Data(0x12)]).to_hex().unwrap(), vec![0x44, 0x12]);
    assert_eq!(ins(Mnemonic::Orl, vec![OpType::A, OpType::Addr(0x12)]).to_hex().unwrap(), vec![0x45, 0x12]);
    assert_eq!(ins(Mnemonic::Orl, vec![OpType::A, OpType::AtR0]).to_hex().unwrap(), vec![0x46]);
    assert_eq!(ins(Mnemonic::Orl, vec![OpType::A, OpType::AtR1]).to_hex().unwrap(), vec![0x47]);
    assert_eq!(ins(Mnemonic::Orl, vec![OpType::A, OpType::R0]).to_hex().unwrap(), vec![0x48]);
    assert_eq!(ins(Mnemonic::Orl, vec![OpType::A, OpType::R1]).to_hex().unwrap(), vec![0x49]);
    assert_eq!(ins(Mnemonic::Orl, vec![OpType::A, OpType::R2]).to_hex().unwrap(), vec![0x4A]);
    assert_eq!(ins(Mnemonic::Orl, vec![OpType::A, OpType::R3]).to_hex().unwrap(), vec![0x4B]);
    assert_eq!(ins(Mnemonic::Orl, vec![OpType::A, OpType::R4]).to_hex().unwrap(), vec![0x4C]);
    assert_eq!(ins(Mnemonic::Orl, vec![OpType::A, OpType::R5]).to_hex().unwrap(), vec![0x4D]);
    assert_eq!(ins(Mnemonic::Orl, vec![OpType::A, OpType::R6]).to_hex().unwrap(), vec![0x4E]);
    assert_eq!(ins(Mnemonic::Orl, vec![OpType::A, OpType::R7]).to_hex().unwrap(), vec![0x4F]);
    assert_eq!(ins(Mnemonic::Orl, vec![OpType::C, OpType::Addr(0x12)]).to_hex().unwrap(), vec![0x72, 0x12]);
}

#[test]
fn encode_anl_table() {
    assert_eq!(ins(Mnemonic::Anl, vec![OpType::Addr(0x34), OpType::A]).to_hex().unwrap(), vec![0x52, 0x34]);
    assert_eq!(ins(Mnemonic::Anl, vec![OpType::Addr(0x34), OpType::Data(0x12)]).to_hex().unwrap(), vec![0x53, 0x34, 0x12]);
    assert_eq!(ins(Mnemonic::Anl, vec![OpType::A, OpType::Data(0x12)]).to_hex().unwrap(), vec![0x54, 0x12]);
    assert_eq!(ins(Mnemonic::Anl, vec![OpType::A, OpType::Addr(0x12)]).to_hex().unwrap(), vec![0x55, 0x12]);
    assert_eq!(ins(Mnemonic::Anl, vec![OpType::A, OpType::AtR0]).to_hex().unwrap(), vec![0x56]);
    assert_eq!(ins(Mnemonic::Anl, vec![OpType::A, OpType::AtR1]).to_hex().unwrap(), vec![0x57]);
    assert_eq!(ins(Mnemonic::Anl, vec![OpType::A, OpType::R0]).to_hex().unwrap(), vec![0x58]);
    assert_eq!(ins(Mnemonic::Anl, vec![OpType::A, OpType::R1]).to_hex().unwrap(), vec![0x59]);
    assert_eq!(ins(Mnemonic::Anl, vec![OpType::A, OpType::R2]).to_hex().unwrap(), vec![0x5A]);
    assert_eq!(ins(Mnemonic::Anl, vec![OpType::A, OpType::R3]).to_hex().unwrap(), vec![0x5B]);
    assert_eq!(ins(Mnemonic::Anl, vec![OpType::A, OpType::R4]).to_hex().unwrap(), vec![0x5C]);
    assert_eq!(ins(Mnemonic::Anl, vec![OpType::A, OpType::R5]).to_hex().unwrap(), vec![0x5D]);
    assert_eq!(ins(Mnemonic::Anl, vec![OpType::A, OpType::R6]).to_hex().unwrap(), vec![0x5E]);
    assert_eq!(ins(Mnemonic::Anl, vec![OpType::A, OpType::R7]).to_hex().unwrap(), vec![0x5F]);
    assert_eq!(ins(Mnemonic::Anl, vec![OpType::C, OpType::Addr(0x12)]).to_hex().unwrap(), vec![0x82, 0x12]);
}

#[test]
fn encode_subb_table() {
    assert_eq!(ins(Mnemonic::Subb, vec![OpType::A, OpType::Data(0x12)]).to_hex().unwrap(), vec![0x94, 0x12]);
    assert_eq!(ins(Mnemonic::Subb, vec![OpType::A, OpType::Addr(0x12)]).to_hex().unwrap(), vec![0x95, 0x12]);
    assert_eq!(ins(Mnemonic::Subb, vec![OpType::A, OpType::AtR0]).to_hex().unwrap(), vec![0x96]);
    assert_eq!(ins(Mnemonic::Subb, vec![OpType::A, OpType::AtR1]).to_hex().unwrap(), vec![0x97]);
    assert_eq!(ins(Mnemonic::Subb, vec![OpType::A, OpType::R0]).to_hex().unwrap(), vec![0x98]);
    assert_eq!(ins(Mnemonic::Subb, vec![OpType::A, OpType::R1]).to_hex().unwrap(), vec![0x99]);
    assert_eq!(ins(Mnemonic::Subb, vec![OpType::A, OpType::R2]).to_hex().unwrap(), vec![0x9A]);
    assert_eq!(ins(Mnemonic::Subb, vec![OpType::A, OpType::R3]).to_hex().unwrap(), vec![0x9B]);
    assert_eq!(ins(Mnemonic::Subb, vec![OpType::A, OpType::R4]).to_hex().unwrap(), vec![0x9C]);
    assert_eq!(ins(Mnemonic::Subb, vec![OpType::A, OpType::R5]).to_hex().unwrap(), vec![0x9D]);
    assert_eq!(ins(Mnemonic::Subb, vec![OpType::A, OpType::R6]).to_hex().unwrap(), vec![0x9E]);
    assert_eq!(ins(Mnemonic::Subb, vec![OpType::A, OpType::R7]).to_hex().unwrap(), vec![0x9F]);
}

#[test]
fn encode_xch_table() {
    assert_eq!(ins(Mnemonic::Xch, vec![OpType::A, OpType::Addr(0x12)]).to_hex().unwrap(), vec![0xC5, 0x12]);
    assert_eq!(ins(Mnemonic::Xch, vec![OpType::A, OpType::AtR0]).to_hex().unwrap(), vec![0xC6]);
    assert_eq!(ins(Mnemonic::Xch, vec![OpType::A, OpType::AtR1]).to_hex().unwrap(), vec![0xC7]);
    assert_eq!(ins(Mnemonic::Xch, vec![OpType::A, OpType::R0]).to_hex().unwrap(), vec![0xC8]);
    assert_eq!(ins(Mnemonic::Xch, vec![OpType::A, OpType::R1]).to_hex().unwrap(), vec![0xC9]);
    assert_eq!(ins(Mnemonic::Xch, vec![OpType::A, OpType::R2]).to_hex().unwrap(), vec![0xCA]);
    assert_eq!(ins(Mnemonic::Xch, vec![OpType::A, OpType::R3]).to_hex().unwrap(), vec![0xCB]);
    assert_eq!(ins(Mnemonic::Xch, vec![OpType::A, OpType::R4]).to_hex().unwrap(), vec![0xCC]);
    assert_eq!(ins(Mnemonic::Xch, vec![OpType::A, OpType::R5]).to_hex().unwrap(), vec![0xCD]);
    assert_eq!(ins(Mnemonic::Xch, vec![OpType::A, OpType::R6]).to_hex().unwrap(), vec![0xCE]);
    assert_eq!(ins(Mnemonic::Xch, vec![OpType::A, OpType::R7]).to_hex().unwrap(), vec![0xCF]);
}

#[test]
fn encode_xrl_table() {
    assert_eq!(ins(Mnemonic::Xrl, vec![OpType::Addr(0x12), OpType::A]).to_hex().unwrap(), vec![0x62, 0x12]);
    assert_eq!(ins(Mnemonic::Xrl, vec![OpType::Addr(0x34), OpType::Data(0x12)]).to_hex().unwrap(), vec![0x63, 0x34, 0x12]);
    assert_eq!(ins(Mnemonic::Xrl, vec![OpType::A, OpType::Data(0x12)]).to_hex().unwrap(), vec![0x64, 0x12]);
    assert_eq!(ins(Mnemonic::Xrl, vec![OpType::A, OpType::Addr(0x12)]).to_hex().unwrap(), vec![0x65, 0x12]);
    assert_eq!(ins(Mnemonic::Xrl, vec![OpType::A, OpType::AtR0]).to_hex().unwrap(), vec![0x66]);
    assert_eq!(ins(Mnemonic::Xrl, vec![OpType::A, OpType::AtR1]).to_hex().unwrap(), vec![0x67]);
    assert_eq!(ins(Mnemonic::Xrl, vec![OpType::A, OpType::R0]).to_hex().unwrap(), vec![0x68]);
    assert_eq!(ins(Mnemonic::Xrl, vec![OpType::A, OpType::R1]).to_hex().unwrap(), vec![0x69]);
    assert_eq!(ins(Mnemonic::Xrl, vec![OpType::A, OpType::R2]).to_hex().unwrap(), vec![0x6A]);
    assert_eq!(ins(Mnemonic::Xrl, vec![OpType::A, OpType::R3]).to_hex().unwrap(), vec![0x6B]);
    assert_eq!(ins(Mnemonic::Xrl, vec![OpType::A, OpType::R4]).to_hex().unwrap(), vec![0x6C]);
    assert_eq!(ins(Mnemonic::Xrl, vec![OpType::A, OpType::R5]).to_hex().unwrap(), vec![0x6D]);
    assert_eq!(ins(Mnemonic::Xrl, vec![OpType::A, OpType::R6]).to_hex().unwrap(), vec![0x6E]);
    assert_eq!(ins(Mnemonic::Xrl, vec![OpType::A, OpType::R7]).to_hex().unwrap(), vec![0x6F]);
}

#[test]
fn encode_movx_table() {
    assert_eq!(ins(Mnemonic::Movx, vec![OpType::A, OpType::AtDptr]).to_hex().unwrap(), vec![0xE0]);
    assert_eq!(ins(Mnemonic::Movx, vec![OpType::A, OpType::AtR0]).to_hex().unwrap(), vec![0xE2]);
    assert_eq!(ins(Mnemonic::Movx, vec![OpType::A, OpType::AtR1]).to_hex().unwrap(), vec![0xE3]);
    assert_eq!(ins(Mnemonic::Movx, vec![OpType::AtDptr, OpType::A]).to_hex().unwrap(), vec![0xF0]);
    assert_eq!(ins(Mnemonic::Movx, vec![OpType::AtR0, OpType::A]).to_hex().unwrap(), vec![0xF2]);
    assert_eq!(ins(Mnemonic::Movx, vec![OpType::AtR1, OpType::A]).to_hex().unwrap(), vec![0xF3]);
}

#[test]
fn encode_movc_table() {
    assert_eq!(ins(Mnemonic::Movc, vec![OpType::A, OpType::AtAPc]).to_hex().unwrap(), vec![0x83]);
    assert_eq!(ins(Mnemonic::Movc, vec![OpType::A, OpType::AtADptr]).to_hex().unwrap(), vec![0x93]);
}

#[test]
fn encode_ret_table() {
    assert_eq!(ins(Mnemonic::Ret, vec![]).to_hex().unwrap(), vec![0x22]);
}

#[test]
fn encode_nop_table() {
    assert_eq!(ins(Mnemonic::Nop, vec![]).to_hex().unwrap(), vec![0x00]);
}

#[test]
fn encode_reti_table() {
    assert_eq!(ins(Mnemonic::Reti, vec![]).to_hex().unwrap(), vec![0x32]);
}

#[test]
fn encode_jb_table() {
    assert_eq!(ins(Mnemonic::Jb, vec![OpType::Addr(0x34), OpType::Addr16(0x40)]).to_hex().unwrap(), vec![0x20, 0x34, 0x3D]);
}

#[test]
fn encode_jnb_table() {
    assert_eq!(ins(Mnemonic::Jnb, vec![OpType::Addr(0x34), OpType::Addr16(0x40)]).to_hex().unwrap(), vec![0x30, 0x34, 0x3D]);
}

#[test]
fn encode_jbc_table() {
    assert_eq!(ins(Mnemonic::Jbc, vec![OpType::Addr(0x34), OpType::Addr16(0x40)]).to_hex().unwrap(), vec![0x10, 0x34, 0x3D]);
}

#[test]
fn encode_xchd_table() {
    assert_eq!(ins(Mnemonic::Xchd, vec![OpType::A, OpType::AtR0]).to_hex().unwrap(), vec![0xD6]);
    assert_eq!(ins(Mnemonic::Xchd, vec![OpType::A, OpType::AtR1]).to_hex().unwrap(), vec![0xD7]);
}

#[test]
fn encode_ajmp_table() {
    assert_eq!(ins(Mnemonic::Ajmp, vec![OpType::Addr16(0x1234)]).to_hex().unwrap(), vec![0x01, 0x34]);
}

#[test]
fn encode_acall_table() {
    assert_eq!(ins(Mnemonic::Acall, vec![OpType::Addr16(0x1234)]).to_hex().unwrap(), vec![0x11, 0x34]);
}

#[test]
fn encode_ljmp_table() {
    assert_eq!(ins(Mnemonic::Ljmp, vec![OpType::Addr16(0x1234)]).to_hex().unwrap(), vec![0x02, 0x12, 0x34]);
}

#[test]
fn encode_lcall_table() {
    assert_eq!(ins(Mnemonic::Lcall, vec![OpType::Addr16(0x1234)]).to_hex().unwrap(), vec![0x12, 0x12, 0x34]);
}

#[test]
fn encode_sjmp_table() {
    assert_eq!(ins(Mnemonic::Sjmp, vec![OpType::Addr16(0x40)]).to_hex().unwrap(), vec![0x80, 0x3E]);
}

#[test]
fn encode_rr_table() {
    assert_eq!(ins(Mnemonic::Rr, vec![OpType::A]).to_hex().unwrap(), vec![0x03]);
}

#[test]
fn encode_rrc_table() {
    assert_eq!(ins(Mnemonic::Rrc, vec![OpType::A]).to_hex().unwrap(), vec![0x13]);
}

#[test]
fn encode_rl_table() {
    assert_eq!(ins(Mnemonic::Rl, vec![OpType::A]).to_hex().unwrap(), vec![0x23]);
}

#[test]
fn encode_rlc_table() {
    assert_eq!(ins(Mnemonic::Rlc, vec![OpType::A]).to_hex().unwrap(), vec![0x33]);
}

#[test]
fn encode_swap_table() {
    assert_eq!(ins(Mnemonic::Swap, vec![OpType::A]).to_hex().unwrap(), vec![0xC4]);
}

#[test]
fn encode_da_table() {
    assert_eq!(ins(Mnemonic::Da, vec![OpType::A]).to_hex().unwrap(), vec![0xD4]);
}

#[test]
fn encode_jc_table() {
    assert_eq!(ins(Mnemonic::Jc, vec![OpType::Addr16(0x40)]).to_hex().unwrap(), vec![0x40, 0x3E]);
}

#[test]
fn encode_jnc_table() {
    assert_eq!(ins(Mnemonic::Jnc, vec![OpType::Addr16(0x40)]).to_hex().unwrap(), vec![0x50, 0x3E]);
}

#[test]
fn encode_jz_table() {
    assert_eq!(ins(Mnemonic::Jz, vec![OpType::Addr16(0x40)]).to_hex().unwrap(), vec![0x60, 0x3E]);
}

#[test]
fn encode_jnz_table() {
    assert_eq!(ins(Mnemonic::Jnz, vec![OpType::Addr16(0x40)]).to_hex().unwrap(), vec![0x70, 0x3E]);
}

#[test]
fn encode_jmp_table() {
    assert_eq!(ins(Mnemonic::Jmp, vec![OpType::AtADptr]).to_hex().unwrap(), vec![0x73]);
}

#[test]
fn encode_mul_table() {
    assert_eq!(ins(Mnemonic::Mul, vec![OpType::AB]).to_hex().unwrap(), vec![0xA4]);
}

#[test]
fn encode_div_table() {
    assert_eq!(ins(Mnemonic::Div, vec![OpType::AB]).to_hex().unwrap(), vec![0x84]);
}

#[test]
fn encode_mov_table() {
    assert_eq!(ins(Mnemonic::Mov, vec![OpType::Addr(0x12), OpType::A]).to_hex().unwrap(), vec![0xF5, 0x12]);
    assert_eq!(ins(Mnemonic::Mov, vec![OpType::AtR0, OpType::A]).to_hex().unwrap(), vec![0xF6]);
    assert_eq!(ins(Mnemonic::Mov, vec![OpType::AtR1, OpType::A]).to_hex().unwrap(), vec![0xF7]);
    assert_eq!(ins(Mnemonic::Mov, vec![OpType::R0, OpType::A]).to_hex().unwrap(), vec![0xF8]);
    assert_eq!(ins(Mnemonic::Mov, vec![OpType::R1, OpType::A]).to_hex().unwrap(), vec![0xF9]);
    assert_eq!(ins(Mnemonic::Mov, vec![OpType::R2, OpType::A]).to_hex().unwrap(), vec![0xFA]);
    assert_eq!(ins(Mnemonic::Mov, vec![OpType::R3, OpType::A]).to_hex().unwrap(), vec![0xFB]);
    assert_eq!(ins(Mnemonic::Mov, vec![OpType::R4, OpType::A]).to_hex().unwrap(), vec![0xFC]);
    assert_eq!(ins(Mnemonic::Mov, vec![OpType::R5, OpType::A]).to_hex().unwrap(), vec![0xFD]);
    assert_eq!(ins(Mnemonic::Mov, vec![OpType::R6, OpType::A]).to_hex().unwrap(), vec![0xFE]);
    assert_eq!(ins(Mnemonic::Mov, vec![OpType::R7, OpType::A]).to_hex().unwrap(), vec![0xFF]);
    assert_eq!(ins(Mnemonic::Mov, vec![OpType::A, OpType::Data(0x12)]).to_hex().unwrap(), vec![0x74, 0x12]);
    assert_eq!(ins(Mnemonic::Mov, vec![OpType::Addr(0x34), OpType::Data(0x12)]).to_hex().unwrap(), vec![0x75, 0x34, 0x12]);
    assert_eq!(ins(Mnemonic::Mov, vec![OpType::AtR0, OpType::Data(0x12)]).to_hex().unwrap(), vec![0x76, 0x12]);
    assert_eq!(ins(Mnemonic::Mov, vec![OpType::AtR1, OpType::Data(0x12)]).to_hex().unwrap(), vec![0x77, 0x12]);
    assert_eq!(ins(Mnemonic::Mov, vec![OpType::R0, OpType::Data(0x12)]).to_hex().unwrap(), vec![0x78, 0x12]);
    assert_eq!(ins(Mnemonic::Mov, vec![OpType::R1, OpType::Data(0x12)]).to_hex().unwrap(), vec![0x79, 0x12]);
    assert_eq!(ins(Mnemonic::Mov, vec![OpType::R2, OpType::Data(0x12)]).to_hex().unwrap(), vec![0x7A, 0x12]);
    assert_eq!(ins(Mnemonic::Mov, vec![OpType::R3, OpType::Data(0x12)]).to_hex().unwrap(), vec![0x7B, 0x12]);
    assert_eq!(ins(Mnemonic::Mov, vec![OpType::R4, OpType::Data(0x12)]).to_hex().unwrap(), vec![0x7C, 0x12]);
    assert_eq!(ins(Mnemonic::Mov, vec![OpType::R5, OpType::Data(0x12)]).to_hex().unwrap(), vec![0x7D, 0x12]);
    assert_eq!(ins(Mnemonic::Mov, vec![OpType::R6, OpType::Data(0x12)]).to_hex().unwrap(), vec![0x7E, 0x12]);
    assert_eq!(ins(Mnemonic::Mov, vec![OpType::R7, OpType::Data(0x12)]).to_hex().unwrap(), vec![0x7F, 0x12]);
    assert_eq!(ins(Mnemonic::Mov, vec![OpType::Addr(0x12), OpType::AB]).to_hex().unwrap(), vec![0x84, 0x12]);
    assert_eq!(ins(Mnemonic::Mov, vec![OpType::Addr(0x12), OpType::Addr(0x34)]).to_hex().unwrap(), vec![0x85, 0x34, 0x12]);
    assert_eq!(ins(Mnemonic::Mov, vec![OpType::Addr(0x12), OpType::AtR0]).to_hex().unwrap(), vec![0x86, 0x12]);
    assert_eq!(ins(Mnemonic::Mov, vec![OpType::Addr(0x12), OpType::AtR1]).to_hex().unwrap(), vec![0x87, 0x12]);
    assert_eq!(ins(Mnemonic::Mov, vec![OpType::Addr(0x12), OpType::R0]).to_hex().unwrap(), vec![0x88, 0x12]);
    assert_eq!(ins(Mnemonic::Mov, vec![OpType::Addr(0x12), OpType::R1]).to_hex().unwrap(), vec![0x89, 0x12]);
    assert_eq!(ins(Mnemonic::Mov, vec![OpType::Addr(0x12), OpType::R2]).to_hex().unwrap(), vec![0x8A, 0x12]);
    assert_eq!(ins(Mnemonic::Mov, vec![OpType::Addr(0x12), OpType::R3]).to_hex().unwrap(), vec![0x8B, 0x12]);
    assert_eq!(ins(Mnemonic::Mov, vec![OpType::Addr(0x12), OpType::R4]).to_hex().unwrap(), vec![0x8C, 0x12]);
    assert_eq!(ins(Mnemonic::Mov, vec![OpType::Addr(0x12), OpType::R5]).to_hex().unwrap(), vec![0x8D, 0x12]);
    assert_eq!(ins(Mnemonic::Mov, vec![OpType::Addr(0x12), OpType::R6]).to_hex().unwrap(), vec![0x8E, 0x12]);
    assert_eq!(ins(Mnemonic::Mov, vec![OpType::Addr(0x12), OpType::R7]).to_hex().unwrap(), vec![0x8F, 0x12]);
    assert_eq!(ins(Mnemonic::Mov, vec![OpType::A, OpType::Addr(0x12)]).to_hex().unwrap(), vec![0xE5, 0x12]);
    assert_eq!(ins(Mnemonic::Mov, vec![OpType::A, OpType::AtR0]).to_hex().unwrap(), vec![0xE6]);
    assert_eq!(ins(Mnemonic::Mov, vec![OpType::A, OpType::AtR1]).to_hex().unwrap(), vec![0xE7]);
    assert_eq!(ins(Mnemonic::Mov, vec![OpType::A, OpType::R0]).to_hex().unwrap(), vec![0xE8]);
    assert_eq!(ins(Mnemonic::Mov, vec![OpType::A, OpType::R1]).to_hex().unwrap(), vec![0xE9]);
    assert_eq!(ins(Mnemonic::Mov, vec![OpType::A, OpType::R2]).to_hex().unwrap(), vec![0xEA]);
    assert_eq!(ins(Mnemonic::Mov, vec![OpType::A, OpType::R3]).to_hex().unwrap(), vec![0xEB]);
    assert_eq!(ins(Mnemonic::Mov, vec![OpType::A, OpType::R4]).to_hex().unwrap(), vec![0xEC]);
    assert_eq!(ins(Mnemonic::Mov, vec![OpType::A, OpType::R5]).to_hex().unwrap(), vec![0xED]);
    assert_eq!(ins(Mnemonic::Mov, vec![OpType::A, OpType::R6]).to_hex().unwrap(), vec![0xEE]);
    assert_eq!(ins(Mnemonic::Mov, vec![OpType::A, OpType::R7]).to_hex().unwrap(), vec![0xEF]);
    assert_eq!(ins(Mnemonic::Mov, vec![OpType::Dptr, OpType::Data16(0x1234)]).to_hex().unwrap(), vec![0x90, 0x12, 0x34]);
    assert_eq!(ins(Mnemonic::Mov, vec![OpType::Dptr, OpType::Data(0x12)]).to_hex().unwrap(), vec![0x90, 0x00, 0x12]);
    assert_eq!(ins(Mnemonic::Mov, vec![OpType::Addr(0x12), OpType::C]).to_hex().unwrap(), vec![0x92, 0x12]);
    assert_eq!(ins(Mnemonic::Mov, vec![OpType::C, OpType::Addr(0x12)]).to_hex().unwrap(), vec![0xA2, 0x12]);
    assert_eq!(ins(Mnemonic::Mov, vec![OpType::AtR0, OpType::Addr(0x12)]).to_hex().unwrap(), vec![0xA6, 0x12]);
    assert_eq!(ins(Mnemonic::Mov, vec![OpType::AtR1, OpType::Addr(0x12)]).to_hex().unwrap(), vec![0xA7, 0x12]);
    assert_eq!(ins(Mnemonic::Mov, vec![OpType::R0, OpType::Addr(0x12)]).to_hex().unwrap(), vec![0xA8, 0x12]);
    assert_eq!(ins(Mnemonic::Mov, vec![OpType::R1, OpType::Addr(0x12)]).to_hex().unwrap(), vec![0xA9, 0x12]);
    assert_eq!(ins(Mnemonic::Mov, vec![OpType::R2, OpType::Addr(0x12)]).to_hex().unwrap(), vec![0xAA, 0x12]);
    assert_eq!(ins(Mnemonic::Mov, vec![OpType::R3, OpType::Addr(0x12)]).to_hex().unwrap(), vec![0xAB, 0x12]);
    assert_eq!(ins(Mnemonic::Mov, vec![OpType::R4, OpType::Addr(0x12)]).to_hex().unwrap(), vec![0xAC, 0x12]);
    assert_eq!(ins(Mnemonic::Mov, vec![OpType::R5, OpType::Addr(0x12)]).to_hex().unwrap(), vec![0xAD, 0x12]);
    assert_eq!(ins(Mnemonic::Mov, vec![OpType::R6, OpType::Addr(0x12)]).to_hex().unwrap(), vec![0xAE, 0x12]);
    assert_eq!(ins(Mnemonic::Mov, vec![OpType::R7, OpType::Addr(0x12)]).to_hex().unwrap(), vec![0xAF, 0x12]);
}

