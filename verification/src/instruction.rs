//! Parsed instructions and the 8051 opcode table.
//!
//! An [`Instruction`] is one source line after parsing: an optional label
//! definition, an optional mnemonic, and a list of typed operands. Encoding
//! ([`Instruction::to_hex`]) maps the mnemonic and operand types through the
//! fixed opcode table to the exact machine-code byte sequence; the table is
//! written out once as spec functions (`spec_encode` and the per-mnemonic
//! functions it dispatches to) and the executable encoders are proved against
//! it.

use vstd::prelude::*;
use vstd::string::StrSliceExecFns;
use vstd::string::StringExecFns;
use crate::errors::ErrView;
use crate::errors::AsmError;
use crate::line::Line;
use crate::text;

verus! {

/// One operand, typed by addressing mode.
#[derive(Debug, PartialEq, Eq)]
pub enum OpType {
    /// The accumulator.
    A,
    R0,
    R1,
    R2,
    R3,
    R4,
    R5,
    R6,
    R7,
    /// 8-bit immediate.
    Data(u8),
    /// 16-bit immediate (only the 16-bit data-pointer load uses it).
    Data16(u16),
    /// 8-bit direct address.
    Addr(u8),
    /// 16-bit absolute address (a branch/call target after label resolution).
    Addr16(u16),
    /// Indirect through R0.
    AtR0,
    /// Indirect through R1.
    AtR1,
    /// The carry flag.
    C,
    /// An unresolved label reference (name plus optional `.XX` hex addend).
    Label(String),
    /// The data pointer register.
    Dptr,
    /// Indirect through the data pointer.
    AtDptr,
    /// The accumulator/B register pair.
    AB,
    /// Indirect through A plus the data pointer.
    AtADptr,
    /// Indirect through A plus the program counter.
    AtAPc,
}

/// An instruction keyword or directive.
#[derive(Debug, Clone, Copy, PartialEq, Eq)]
pub enum Mnemonic {
    Div,
    Jmp,
    Setb,
    Da,
    Xchd,
    Push,
    Pop,
    Swap,
    Mul,
    Cpl,
    Db,
    Cseg,
    Dseg,
    Org,
    Nop,
    Ajmp,
    Ljmp,
    Rr,
    Inc,
    Jbc,
    Acall,
    Lcall,
    Rrc,
    Dec,
    Jb,
    Ret,
    Rl,
    Add,
    Jnb,
    Reti,
    Rlc,
    Addc,
    Jc,
    Orl,
    Jnc,
    Anl,
    Jz,
    Xrl,
    Jnz,
    Mov,
    Subb,
    Cjne,
    Xch,
    Djnz,
    Movx,
    Clr,
    Sjmp,
    Ds,
    Movc,
}

/// One source line after parsing: a byte offset within its section, the
/// source line number, an optional label definition, an optional mnemonic
/// (absent for blank lines and `END`), and the operand list.
#[derive(Debug, Clone)]
pub struct Instruction {
    pub offset: u16,
    pub num: u64,
    pub label: Option<String>,
    pub mnemonic: Option<Mnemonic>,
    pub ops: Vec<OpType>,
}

/// Byte length contributed by the first operand in the generic length rule:
/// one byte per 8-bit value or address (a still-unresolved label counts as
/// the 16-bit address it will become, truncated to the low byte for the
/// absolute jumps that take one), two bytes for a 16-bit immediate.
pub open spec fn op0_len(op: OpView) -> int {
    match op {
        OpView::Data(_) => 1,
        OpView::Addr(_) => 1,
        OpView::Addr16(_) => 1,
        OpView::Label(_) => 1,
        OpView::Data16(_) => 2,
        _ => 0,
    }
}

/// Byte length contributed by the second operand. `mov_dptr` is true exactly
/// for `MOV DPTR, #imm8`, whose 8-bit immediate is widened to two bytes.
pub open spec fn op1_len(op: OpView, mov_dptr: bool) -> int {
    match op {
        OpView::Addr16(_) => 1,
        OpView::Addr(_) => 1,
        OpView::Data(_) => if mov_dptr { 2 } else { 1 },
        OpView::Label(_) => 1,
        OpView::Data16(_) => 2,
        _ => 0,
    }
}

/// The byte length of a `DB` directive: the count of bytes its encoding
/// emits — the quoted literal's bytes with the two quote characters dropped
/// and one terminator byte appended, one less than the literal's byte count.
/// Length and encoding must never disagree, since the section builder
/// assigns offsets from the length. The value is clamped so it stays
/// representable; the encoder rejects a literal that long, so the clamp is
/// never what an encodable `DB` measures.
pub open spec fn db_len(s: Seq<char>) -> int {
    let n = vstd::utf8::encode_utf8(s).len() as int;
    if n < 1 {
        0
    } else if n - 1 > 0x7FFF_FFFF {
        0x7FFF_FFFF
    } else {
        n - 1
    }
}

impl Instruction {
    /// The encoded length in bytes, without encoding. The section builder
    /// assigns offsets from this value, so it must agree with what `to_hex`
    /// produces; see `lemma_len_encode_consistent`.
    pub fn len(&self) -> (r: i32)
        ensures
            r == self@.spec_len(),
            0 <= r <= 0x7FFF_FFFF,
    {
        match self.mnemonic {
            None => 0,
            Some(m) => {
                match m {
                    Mnemonic::Org | Mnemonic::Cseg | Mnemonic::Dseg => {
                        return 0;
                    },
                    Mnemonic::Db => {
                        if self.ops.len() >= 1 && self.ops.len() <= 2 {
                            if let OpType::Label(l) = &self.ops[0] {
                                let bytes = l.as_str().as_bytes_vec();
                                let n = bytes.len();
                                if n == 0 {
                                    return 0;
                                }
                                if n - 1 > 0x7FFF_FFFF {
                                    return 0x7FFF_FFFF;
                                }
                                return (n - 1) as i32;
                            }
                        }
                    },
                    Mnemonic::Ds => {
                        if self.ops.len() == 1 {
                            if let OpType::Addr(d) = &self.ops[0] {
                                return *d as i32;
                            }
                        }
                    },
                    Mnemonic::Lcall | Mnemonic::Ljmp | Mnemonic::Cjne => {
                        return 3;
                    },
                    _ => {},
                }
                let mov_dptr = matches!(m, Mnemonic::Mov) && self.ops.len() > 0 && matches!(
                    &self.ops[0],
                    OpType::Dptr,
                );
                let mut len: i32 = 1;
                if self.ops.len() > 0 {
                    len += match &self.ops[0] {
                        OpType::Data(_) => 1,
                        OpType::Addr(_) => 1,
                        OpType::Addr16(_) => 1,
                        OpType::Label(_) => 1,
                        OpType::Data16(_) => 2,
                        _ => 0,
                    };
                }
                if self.ops.len() > 1 {
                    len += match &self.ops[1] {
                        OpType::Addr16(_) => 1,
                        OpType::Addr(_) => 1,
                        OpType::Data(_) => if mov_dptr {
                            2
                        } else {
                            1
                        },
                        OpType::Label(_) => 1,
                        OpType::Data16(_) => 2,
                        _ => 0,
                    };
                }
                len
            },
        }
    }

    /// The byte offset of this instruction within its section.
    pub fn offset(&self) -> (r: u16)
        ensures
            r == self.offset,
    {
        self.offset
    }

    /// Relative displacement for the short branches: `(addr + 0x100 -
    /// (offset + len)) mod 0x100`, rejected when the target is out of the
    /// backward window.
    pub fn short_jmp(&self, addr: u16) -> (r: Result<u8, AsmError>)
        ensures
            match r {
                Ok(d) => self@.spec_short_jmp(addr) == Ok::<u8, ErrView>(d),
                Err(e) => self@.spec_short_jmp(addr) matches Err(ev) && e@ == ev,
            },
    {
        let len = self.len();
        let next: u64 = self.offset as u64 + len as u64;
        if (addr as u64) + 0x7F < next {
            return Err(AsmError::AddressOutOfRange { line: self.num });
        }
        Ok(((addr as u64 + 0x100 - next) % 0x100) as u8)
    }

}

/// The executable encoders return `Vec<u8>`; the table is stated over
/// `Seq<u8>`. This is the pointwise correspondence between the two results.
pub open spec fn encode_result_matches(
    r: Result<Vec<u8>, AsmError>,
    s: Result<Seq<u8>, ErrView>,
) -> bool {
    match r {
        Ok(v) => s is Ok && v@ =~= s->Ok_0,
        Err(e) => s is Err && e@ == s->Err_0,
    }
}

impl Instruction {
    fn cjne(&self) -> (r: Result<Vec<u8>, AsmError>)
        ensures
            encode_result_matches(r, self@.spec_cjne()),
    {
        if self.ops.len() < 3 {
            return Err(AsmError::TooFewOperands { line: self.num, mnemonic: Mnemonic::Cjne });
        }
        if self.ops.len() > 3 {
            return Err(AsmError::TooManyOperands { line: self.num, mnemonic: Mnemonic::Cjne });
        }
        match (&self.ops[0], &self.ops[1], &self.ops[2]) {
            (OpType::A, OpType::Data(d), OpType::Addr16(a)) => {
                let j = self.short_jmp(*a)?;
                Ok(vec![0xB4, *d, j])
            },
            (OpType::A, OpType::Addr(d), OpType::Addr16(a)) => {
                let j = self.short_jmp(*a)?;
                Ok(vec![0xB5, *d, j])
            },
            (OpType::AtR0, OpType::Data(d), OpType::Addr16(a)) => {
                let j = self.short_jmp(*a)?;
                Ok(vec![0xB6, *d, j])
            },
            (OpType::AtR1, OpType::Data(d), OpType::Addr16(a)) => {
                let j = self.short_jmp(*a)?;
                Ok(vec![0xB7, *d, j])
            },
            (OpType::R0, OpType::Data(d), OpType::Addr16(a)) => {
                let j = self.short_jmp(*a)?;
                Ok(vec![0xB8, *d, j])
            },
            (OpType::R1, OpType::Data(d), OpType::Addr16(a)) => {
                let j = self.short_jmp(*a)?;
                Ok(vec![0xB9, *d, j])
            },
            (OpType::R2, OpType::Data(d), OpType::Addr16(a)) => {
                let j = self.short_jmp(*a)?;
                Ok(vec![0xBA, *d, j])
            },
            (OpType::R3, OpType::Data(d), OpType::Addr16(a)) => {
                let j = self.short_jmp(*a)?;
                Ok(vec![0xBB, *d, j])
            },
            (OpType::R4, OpType::Data(d), OpType::Addr16(a)) => {
                let j = self.short_jmp(*a)?;
                Ok(vec![0xBC, *d, j])
            },
            (OpType::R5, OpType::Data(d), OpType::Addr16(a)) => {
                let j = self.short_jmp(*a)?;
                Ok(vec![0xBD, *d, j])
            },
            (OpType::R6, OpType::Data(d), OpType::Addr16(a)) => {
                let j = self.short_jmp(*a)?;
                Ok(vec![0xBE, *d, j])
            },
            (OpType::R7, OpType::Data(d), OpType::Addr16(a)) => {
                let j = self.short_jmp(*a)?;
                Ok(vec![0xBF, *d, j])
            },
            _ => Err(AsmError::InvalidOperands { line: self.num, mnemonic: Mnemonic::Cjne, ops: clone_ops(&self.ops) }),
        }
    }

    fn ret(&self) -> (r: Result<Vec<u8>, AsmError>)
        ensures
            encode_result_matches(r, self@.spec_ret()),
    {
        if self.ops.len() > 0 {
            return Err(AsmError::TooManyOperands { line: self.num, mnemonic: Mnemonic::Ret });
        }
        Ok(vec![0x22])
    }

    fn nop(&self) -> (r: Result<Vec<u8>, AsmError>)
        ensures
            encode_result_matches(r, self@.spec_nop()),
    {
        if self.ops.len() > 0 {
            return Err(AsmError::TooManyOperands { line: self.num, mnemonic: Mnemonic::Nop });
        }
        Ok(vec![0x00])
    }

    fn reti(&self) -> (r: Result<Vec<u8>, AsmError>)
        ensures
            encode_result_matches(r, self@.spec_reti()),
    {
        if self.ops.len() > 0 {
            return Err(AsmError::TooManyOperands { line: self.num, mnemonic: Mnemonic::Reti });
        }
        Ok(vec![0x32])
    }

    fn clr(&self) -> (r: Result<Vec<u8>, AsmError>)
        ensures
            encode_result_matches(r, self@.spec_clr()),
    {
        if self.ops.len() < 1 {
            return Err(AsmError::TooFewOperands { line: self.num, mnemonic: Mnemonic::Clr });
        }
        if self.ops.len() > 1 {
            return Err(AsmError::TooManyOperands { line: self.num, mnemonic: Mnemonic::Clr });
        }
        match &self.ops[0] {
            OpType::A => Ok(vec![0xE4u8]),
            OpType::Addr(d) => Ok(vec![0xC2u8, *d]),
            OpType::C => Ok(vec![0xC3u8]),
            _ => Err(AsmError::InvalidOperands { line: self.num, mnemonic: Mnemonic::Clr, ops: clone_ops(&self.ops) }),
        }
    }

    fn setb(&self) -> (r: Result<Vec<u8>, AsmError>)
        ensures
            encode_result_matches(r, self@.spec_setb()),
    {
        if self.ops.len() < 1 {
            return Err(AsmError::TooFewOperands { line: self.num, mnemonic: Mnemonic::Setb });
        }
        if self.ops.len() > 1 {
            return Err(AsmError::TooManyOperands { line: self.num, mnemonic: Mnemonic::Setb });
        }
        match &self.ops[0] {
            OpType::Addr(d) => Ok(vec![0xD2u8, *d]),
            OpType::C => Ok(vec![0xD3u8]),
            _ => Err(AsmError::InvalidOperands { line: self.num, mnemonic: Mnemonic::Setb, ops: clone_ops(&self.ops) }),
        }
    }

    fn cpl(&self) -> (r: Result<Vec<u8>, AsmError>)
        ensures
            encode_result_matches(r, self@.spec_cpl()),
    {
        if self.ops.len() < 1 {
            return Err(AsmError::TooFewOperands { line: self.num, mnemonic: Mnemonic::Cpl });
        }
        if self.ops.len() > 1 {
            return Err(AsmError::TooManyOperands { line: self.num, mnemonic: Mnemonic::Cpl });
        }
        match &self.ops[0] {
            OpType::Addr(d) => Ok(vec![0xB2u8, *d]),
            OpType::C => Ok(vec![0xB3u8]),
            OpType::A => Ok(vec![0xF4u8]),
            _ => Err(AsmError::InvalidOperands { line: self.num, mnemonic: Mnemonic::Cpl, ops: clone_ops(&self.ops) }),
        }
    }

    fn djnz(&self) -> (r: Result<Vec<u8>, AsmError>)
        ensures
            encode_result_matches(r, self@.spec_djnz()),
    {
        if self.ops.len() < 2 {
            return Err(AsmError::TooFewOperands { line: self.num, mnemonic: Mnemonic::Djnz });
        }
        if self.ops.len() > 2 {
            return Err(AsmError::TooManyOperands { line: self.num, mnemonic: Mnemonic::Djnz });
        }
        match (&self.ops[0], &self.ops[1]) {
            (OpType::R0, OpType::Addr16(d)) => {
                let j = self.short_jmp(*d)?;
                Ok(vec![0xD8, j])
            },
            (OpType::R1, OpType::Addr16(d)) => {
                let j = self.short_jmp(*d)?;
                Ok(vec![0xD9, j])
            },
            (OpType::R2, OpType::Addr16(d)) => {
                let j = self.short_jmp(*d)?;
                Ok(vec![0xDA, j])
            },
            (OpType::R3, OpType::Addr16(d)) => {
                let j = self.short_jmp(*d)?;
                Ok(vec![0xDB, j])
            },
            (OpType::R4, OpType::Addr16(d)) => {
                let j = self.short_jmp(*d)?;
                Ok(vec![0xDC, j])
            },
            (OpType::R5, OpType::Addr16(d)) => {
                let j = self.short_jmp(*d)?;
                Ok(vec![0xDD, j])
            },
            (OpType::R6, OpType::Addr16(d)) => {
                let j = self.short_jmp(*d)?;
                Ok(vec![0xDE, j])
            },
            (OpType::R7, OpType::Addr16(d)) => {
                let j = self.short_jmp(*d)?;
                Ok(vec![0xDF, j])
            },
            (OpType::Addr(d), OpType::Addr16(a)) => {
                let j = self.short_jmp(*a)?;
                Ok(vec![0xD5, *d, j])
            },
            _ => Err(AsmError::InvalidOperands { line: self.num, mnemonic: Mnemonic::Djnz, ops: clone_ops(&self.ops) }),
        }
    }

    fn inc(&self) -> (r: Result<Vec<u8>, AsmError>)
        ensures
            encode_result_matches(r, self@.spec_inc()),
    {
        if self.ops.len() < 1 {
            return Err(AsmError::TooFewOperands { line: self.num, mnemonic: Mnemonic::Inc });
        }
        if self.ops.len() > 1 {
            return Err(AsmError::TooManyOperands { line: self.num, mnemonic: Mnemonic::Inc });
        }
        match &self.ops[0] {
            OpType::A => Ok(vec![0x04u8]),
            OpType::Addr(d) => Ok(vec![0x05u8, *d]),
            OpType::AtR0 => Ok(vec![0x06u8]),
            OpType::AtR1 => Ok(vec![0x07u8]),
            OpType::R0 => Ok(vec![0x08u8]),
            OpType::R1 => Ok(vec![0x09u8]),
            OpType::R2 => Ok(vec![0x0Au8]),
            OpType::R3 => Ok(vec![0x0Bu8]),
            OpType::R4 => Ok(vec![0x0Cu8]),
            OpType::R5 => Ok(vec![0x0Du8]),
            OpType::R6 => Ok(vec![0x0Eu8]),
            OpType::R7 => Ok(vec![0x0Fu8]),
            OpType::Dptr => Ok(vec![0xA3u8]),
            _ => Err(AsmError::InvalidOperands { line: self.num, mnemonic: Mnemonic::Inc, ops: clone_ops(&self.ops) }),
        }
    }

    fn dec(&self) -> (r: Result<Vec<u8>, AsmError>)
        ensures
            encode_result_matches(r, self@.spec_dec()),
    {
        if self.ops.len() < 1 {
            return Err(AsmError::TooFewOperands { line: self.num, mnemonic: Mnemonic::Dec });
        }
        if self.ops.len() > 1 {
            return Err(AsmError::TooManyOperands { line: self.num, mnemonic: Mnemonic::Dec });
        }
        match &self.ops[0] {
            OpType::A => Ok(vec![0x14u8]),
            OpType::Addr(d) => Ok(vec![0x15u8, *d]),
            OpType::AtR0 => Ok(vec![0x16u8]),
            OpType::AtR1 => Ok(vec![0x17u8]),
            OpType::R0 => Ok(vec![0x18u8]),
            OpType::R1 => Ok(vec![0x19u8]),
            OpType::R2 => Ok(vec![0x1Au8]),
            OpType::R3 => Ok(vec![0x1Bu8]),
            OpType::R4 => Ok(vec![0x1Cu8]),
            OpType::R5 => Ok(vec![0x1Du8]),
            OpType::R6 => Ok(vec![0x1Eu8]),
            OpType::R7 => Ok(vec![0x1Fu8]),
            _ => Err(AsmError::InvalidOperands { line: self.num, mnemonic: Mnemonic::Dec, ops: clone_ops(&self.ops) }),
        }
    }

    fn pop(&self) -> (r: Result<Vec<u8>, AsmError>)
        ensures
            encode_result_matches(r, self@.spec_pop()),
    {
        if self.ops.len() < 1 {
            return Err(AsmError::TooFewOperands { line: self.num, mnemonic: Mnemonic::Pop });
        }
        if self.ops.len() > 1 {
            return Err(AsmError::TooManyOperands { line: self.num, mnemonic: Mnemonic::Pop });
        }
        match &self.ops[0] {
            OpType::Addr(d) => Ok(vec![0xD0u8, *d]),
            _ => Err(AsmError::InvalidOperands { line: self.num, mnemonic: Mnemonic::Pop, ops: clone_ops(&self.ops) }),
        }
    }

    fn push(&self) -> (r: Result<Vec<u8>, AsmError>)
        ensures
            encode_result_matches(r, self@.spec_push()),
    {
        if self.ops.len() < 1 {
            return Err(AsmError::TooFewOperands { line: self.num, mnemonic: Mnemonic::Push });
        }
        if self.ops.len() > 1 {
            return Err(AsmError::TooManyOperands { line: self.num, mnemonic: Mnemonic::Push });
        }
        match &self.ops[0] {
            OpType::Addr(d) => Ok(vec![0xC0u8, *d]),
            _ => Err(AsmError::InvalidOperands { line: self.num, mnemonic: Mnemonic::Push, ops: clone_ops(&self.ops) }),
        }
    }

    fn add(&self) -> (r: Result<Vec<u8>, AsmError>)
        ensures
            encode_result_matches(r, self@.spec_add()),
    {
        if self.ops.len() < 2 {
            return Err(AsmError::TooFewOperands { line: self.num, mnemonic: Mnemonic::Add });
        }
        if self.ops.len() > 2 {
            return Err(AsmError::TooManyOperands { line: self.num, mnemonic: Mnemonic::Add });
        }
        match (&self.ops[0], &self.ops[1]) {
            (OpType::A, OpType::Data(d)) => Ok(vec![0x24u8, *d]),
            (OpType::A, OpType::Addr(d)) => Ok(vec![0x25u8, *d]),
            (OpType::A, OpType::AtR0) => Ok(vec![0x26u8]),
            (OpType::A, OpType::AtR1) => Ok(vec![0x27u8]),
            (OpType::A, OpType::R0) => Ok(vec![0x28u8]),
            (OpType::A, OpType::R1) => Ok(vec![0x29u8]),
            (OpType::A, OpType::R2) => Ok(vec![0x2Au8]),
            (OpType::A, OpType::R3) => Ok(vec![0x2Bu8]),
            (OpType::A, OpType::R4) => Ok(vec![0x2Cu8]),
            (OpType::A, OpType::R5) => Ok(vec![0x2Du8]),
            (OpType::A, OpType::R6) => Ok(vec![0x2Eu8]),
            (OpType::A, OpType::R7) => Ok(vec![0x2Fu8]),
            _ => Err(AsmError::InvalidOperands { line: self.num, mnemonic: Mnemonic::Add, ops: clone_ops(&self.ops) }),
        }
    }

    fn addc(&self) -> (r: Result<Vec<u8>, AsmError>)
        ensures
            encode_result_matches(r, self@.spec_addc()),
    {
        if self.ops.len() < 2 {
            return Err(AsmError::TooFewOperands { line: self.num, mnemonic: Mnemonic::Addc });
        }
        if self.ops.len() > 2 {
            return Err(AsmError::TooManyOperands { line: self.num, mnemonic: Mnemonic::Addc });
        }
        match (&self.ops[0], &self.ops[1]) {
            (OpType::A, OpType::Data(d)) => Ok(vec![0x34u8, *d]),
            (OpType::A, OpType::Addr(d)) => Ok(vec![0x35u8, *d]),
            (OpType::A, OpType::AtR0) => Ok(vec![0x36u8]),
            (OpType::A, OpType::AtR1) => Ok(vec![0x37u8]),
            (OpType::A, OpType::R0) => Ok(vec![0x38u8]),
            (OpType::A, OpType::R1) => Ok(vec![0x39u8]),
            (OpType::A, OpType::R2) => Ok(vec![0x3Au8]),
            (OpType::A, OpType::R3) => Ok(vec![0x3Bu8]),
            (OpType::A, OpType::R4) => Ok(vec![0x3Cu8]),
            (OpType::A, OpType::R5) => Ok(vec![0x3Du8]),
            (OpType::A, OpType::R6) => Ok(vec![0x3Eu8]),
            (OpType::A, OpType::R7) => Ok(vec![0x3Fu8]),
            _ => Err(AsmError::InvalidOperands { line: self.num, mnemonic: Mnemonic::Addc, ops: clone_ops(&self.ops) }),
        }
    }

    fn orl(&self) -> (r: Result<Vec<u8>, AsmError>)
        ensures
            encode_result_matches(r, self@.spec_orl()),
    {
        if self.ops.len() < 2 {
            return Err(AsmError::TooFewOperands { line: self.num, mnemonic: Mnemonic::Orl });
        }
        if self.ops.len() > 2 {
            return Err(AsmError::TooManyOperands { line: self.num, mnemonic: Mnemonic::Orl });
        }
        match (&self.ops[0], &self.ops[1]) {
            (OpType::Addr(a), OpType::A) => Ok(vec![0x42u8, *a]),
            (OpType::Addr(a), OpType::Data(d)) => Ok(vec![0x43u8, *a, *d]),
            (OpType::A, OpType::Data(d)) => Ok(vec![0x44u8, *d]),
            (OpType::A, OpType::Addr(d)) => Ok(vec![0x45u8, *d]),
            (OpType::A, OpType::AtR0) => Ok(vec![0x46u8]),
            (OpType::A, OpType::AtR1) => Ok(vec![0x47u8]),
            (OpType::A, OpType::R0) => Ok(vec![0x48u8]),
            (OpType::A, OpType::R1) => Ok(vec![0x49u8]),
            (OpType::A, OpType::R2) => Ok(vec![0x4Au8]),
            (OpType::A, OpType::R3) => Ok(vec![0x4Bu8]),
            (OpType::A, OpType::R4) => Ok(vec![0x4Cu8]),
            (OpType::A, OpType::R5) => Ok(vec![0x4Du8]),
            (OpType::A, OpType::R6) => Ok(vec![0x4Eu8]),
            (OpType::A, OpType::R7) => Ok(vec![0x4Fu8]),
            (OpType::C, OpType::Addr(d)) => Ok(vec![0x72u8, *d]),
            _ => Err(AsmError::InvalidOperands { line: self.num, mnemonic: Mnemonic::Orl, ops: clone_ops(&self.ops) }),
        }
    }

    fn anl(&self) -> (r: Result<Vec<u8>, AsmError>)
        ensures
            encode_result_matches(r, self@.spec_anl()),
    {
        if self.ops.len() < 2 {
            return Err(AsmError::TooFewOperands { line: self.num, mnemonic: Mnemonic::Anl });
        }
        if self.ops.len() > 2 {
            return Err(AsmError::TooManyOperands { line: self.num, mnemonic: Mnemonic::Anl });
        }
        match (&self.ops[0], &self.ops[1]) {
            (OpType::Addr(a), OpType::A) => Ok(vec![0x52u8, *a]),
            (OpType::Addr(a), OpType::Data(d)) => Ok(vec![0x53u8, *a, *d]),
            (OpType::A, OpType::Data(d)) => Ok(vec![0x54u8, *d]),
            (OpType::A, OpType::Addr(d)) => Ok(vec![0x55u8, *d]),
            (OpType::A, OpType::AtR0) => Ok(vec![0x56u8]),
            (OpType::A, OpType::AtR1) => Ok(vec![0x57u8]),
            (OpType::A, OpType::R0) => Ok(vec![0x58u8]),
            (OpType::A, OpType::R1) => Ok(vec![0x59u8]),
            (OpType::A, OpType::R2) => Ok(vec![0x5Au8]),
            (OpType::A, OpType::R3) => Ok(vec![0x5Bu8]),
            (OpType::A, OpType::R4) => Ok(vec![0x5Cu8]),
            (OpType::A, OpType::R5) => Ok(vec![0x5Du8]),
            (OpType::A, OpType::R6) => Ok(vec![0x5Eu8]),
            (OpType::A, OpType::R7) => Ok(vec![0x5Fu8]),
            (OpType::C, OpType::Addr(d)) => Ok(vec![0x82u8, *d]),
            _ => Err(AsmError::InvalidOperands { line: self.num, mnemonic: Mnemonic::Anl, ops: clone_ops(&self.ops) }),
        }
    }

    fn subb(&self) -> (r: Result<Vec<u8>, AsmError>)
        ensures
            encode_result_matches(r, self@.spec_subb()),
    {
        if self.ops.len() < 2 {
            return Err(AsmError::TooFewOperands { line: self.num, mnemonic: Mnemonic::Subb });
        }
        if self.ops.len() > 2 {
            return Err(AsmError::TooManyOperands { line: self.num, mnemonic: Mnemonic::Subb });
        }
        match (&self.ops[0], &self.ops[1]) {
            (OpType::A, OpType::Data(d)) => Ok(vec![0x94u8, *d]),
            (OpType::A, OpType::Addr(d)) => Ok(vec![0x95u8, *d]),
            (OpType::A, OpType::AtR0) => Ok(vec![0x96u8]),
            (OpType::A, OpType::AtR1) => Ok(vec![0x97u8]),
            (OpType::A, OpType::R0) => Ok(vec![0x98u8]),
            (OpType::A, OpType::R1) => Ok(vec![0x99u8]),
            (OpType::A, OpType::R2) => Ok(vec![0x9Au8]),
            (OpType::A, OpType::R3) => Ok(vec![0x9Bu8]),
            (OpType::A, OpType::R4) => Ok(vec![0x9Cu8]),
            (OpType::A, OpType::R5) => Ok(vec![0x9Du8]),
            (OpType::A, OpType::R6) => Ok(vec![0x9Eu8]),
            (OpType::A, OpType::R7) => Ok(vec![0x9Fu8]),
            _ => Err(AsmError::InvalidOperands { line: self.num, mnemonic: Mnemonic::Subb, ops: clone_ops(&self.ops) }),
        }
    }

    fn xch(&self) -> (r: Result<Vec<u8>, AsmError>)
        ensures
            encode_result_matches(r, self@.spec_xch()),
    {
        if self.ops.len() < 2 {
            return Err(AsmError::TooFewOperands { line: self.num, mnemonic: Mnemonic::Xch });
        }
        if self.ops.len() > 2 {
            return Err(AsmError::TooManyOperands { line: self.num, mnemonic: Mnemonic::Xch });
        }
        match (&self.ops[0], &self.ops[1]) {
            (OpType::A, OpType::Addr(d)) => Ok(vec![0xC5u8, *d]),
            (OpType::A, OpType::AtR0) => Ok(vec![0xC6u8]),
            (OpType::A, OpType::AtR1) => Ok(vec![0xC7u8]),
            (OpType::A, OpType::R0) => Ok(vec![0xC8u8]),
            (OpType::A, OpType::R1) => Ok(vec![0xC9u8]),
            (OpType::A, OpType::R2) => Ok(vec![0xCAu8]),
            (OpType::A, OpType::R3) => Ok(vec![0xCBu8]),
            (OpType::A, OpType::R4) => Ok(vec![0xCCu8]),
            (OpType::A, OpType::R5) => Ok(vec![0xCDu8]),
            (OpType::A, OpType::R6) => Ok(vec![0xCEu8]),
            (OpType::A, OpType::R7) => Ok(vec![0xCFu8]),
            _ => Err(AsmError::InvalidOperands { line: self.num, mnemonic: Mnemonic::Xch, ops: clone_ops(&self.ops) }),
        }
    }

    fn xrl(&self) -> (r: Result<Vec<u8>, AsmError>)
        ensures
            encode_result_matches(r, self@.spec_xrl()),
    {
        if self.ops.len() < 2 {
            return Err(AsmError::TooFewOperands { line: self.num, mnemonic: Mnemonic::Xrl });
        }
        if self.ops.len() > 2 {
            return Err(AsmError::TooManyOperands { line: self.num, mnemonic: Mnemonic::Xrl });
        }
        match (&self.ops[0], &self.ops[1]) {
            (OpType::Addr(d), OpType::A) => Ok(vec![0x62u8, *d]),
            (OpType::Addr(a), OpType::Data(d)) => Ok(vec![0x63u8, *a, *d]),
            (OpType::A, OpType::Data(d)) => Ok(vec![0x64u8, *d]),
            (OpType::A, OpType::Addr(d)) => Ok(vec![0x65u8, *d]),
            (OpType::A, OpType::AtR0) => Ok(vec![0x66u8]),
            (OpType::A, OpType::AtR1) => Ok(vec![0x67u8]),
            (OpType::A, OpType::R0) => Ok(vec![0x68u8]),
            (OpType::A, OpType::R1) => Ok(vec![0x69u8]),
            (OpType::A, OpType::R2) => Ok(vec![0x6Au8]),
            (OpType::A, OpType::R3) => Ok(vec![0x6Bu8]),
            (OpType::A, OpType::R4) => Ok(vec![0x6Cu8]),
            (OpType::A, OpType::R5) => Ok(vec![0x6Du8]),
            (OpType::A, OpType::R6) => Ok(vec![0x6Eu8]),
            (OpType::A, OpType::R7) => Ok(vec![0x6Fu8]),
            _ => Err(AsmError::InvalidOperands { line: self.num, mnemonic: Mnemonic::Xrl, ops: clone_ops(&self.ops) }),
        }
    }

    fn movx(&self) -> (r: Result<Vec<u8>, AsmError>)
        ensures
            encode_result_matches(r, self@.spec_movx()),
    {
        if self.ops.len() < 2 {
            return Err(AsmError::TooFewOperands { line: self.num, mnemonic: Mnemonic::Movx });
        }
        if self.ops.len() > 2 {
            return Err(AsmError::TooManyOperands { line: self.num, mnemonic: Mnemonic::Movx });
        }
        match (&self.ops[0], &self.ops[1]) {
            (OpType::A, OpType::AtDptr) => Ok(vec![0xE0u8]),
            (OpType::A, OpType::AtR0) => Ok(vec![0xE2u8]),
            (OpType::A, OpType::AtR1) => Ok(vec![0xE3u8]),
            (OpType::AtDptr, OpType::A) => Ok(vec![0xF0u8]),
            (OpType::AtR0, OpType::A) => Ok(vec![0xF2u8]),
            (OpType::AtR1, OpType::A) => Ok(vec![0xF3u8]),
            _ => Err(AsmError::InvalidOperands { line: self.num, mnemonic: Mnemonic::Movx, ops: clone_ops(&self.ops) }),
        }
    }

    fn movc(&self) -> (r: Result<Vec<u8>, AsmError>)
        ensures
            encode_result_matches(r, self@.spec_movc()),
    {
        if self.ops.len() < 2 {
            return Err(AsmError::TooFewOperands { line: self.num, mnemonic: Mnemonic::Movc });
        }
        if self.ops.len() > 2 {
            return Err(AsmError::TooManyOperands { line: self.num, mnemonic: Mnemonic::Movc });
        }
        match (&self.ops[0], &self.ops[1]) {
            (OpType::A, OpType::AtAPc) => Ok(vec![0x83u8]),
            (OpType::A, OpType::AtADptr) => Ok(vec![0x93u8]),
            _ => Err(AsmError::InvalidOperands { line: self.num, mnemonic: Mnemonic::Movc, ops: clone_ops(&self.ops) }),
        }
    }

    fn jb(&self) -> (r: Result<Vec<u8>, AsmError>)
        ensures
            encode_result_matches(r, self@.spec_jb()),
    {
        if self.ops.len() < 2 {
            return Err(AsmError::TooFewOperands { line: self.num, mnemonic: Mnemonic::Jb });
        }
        if self.ops.len() > 2 {
            return Err(AsmError::TooManyOperands { line: self.num, mnemonic: Mnemonic::Jb });
        }
        match (&self.ops[0], &self.ops[1]) {
            (OpType::Addr(a), OpType::Addr16(d)) => {
                let j = self.short_jmp(*d)?;
                Ok(vec![0x20, *a, j])
            },
            _ => Err(AsmError::InvalidOperands { line: self.num, mnemonic: Mnemonic::Jb, ops: clone_ops(&self.ops) }),
        }
    }

    fn jnb(&self) -> (r: Result<Vec<u8>, AsmError>)
        ensures
            encode_result_matches(r, self@.spec_jnb()),
    {
        if self.ops.len() < 2 {
            return Err(AsmError::TooFewOperands { line: self.num, mnemonic: Mnemonic::Jnb });
        }
        if self.ops.len() > 2 {
            return Err(AsmError::TooManyOperands { line: self.num, mnemonic: Mnemonic::Jnb });
        }
        match (&self.ops[0], &self.ops[1]) {
            (OpType::Addr(a), OpType::Addr16(d)) => {
                let j = self.short_jmp(*d)?;
                Ok(vec![0x30, *a, j])
            },
            _ => Err(AsmError::InvalidOperands { line: self.num, mnemonic: Mnemonic::Jnb, ops: clone_ops(&self.ops) }),
        }
    }

    fn jbc(&self) -> (r: Result<Vec<u8>, AsmError>)
        ensures
            encode_result_matches(r, self@.spec_jbc()),
    {
        if self.ops.len() < 2 {
            return Err(AsmError::TooFewOperands { line: self.num, mnemonic: Mnemonic::Jbc });
        }
        if self.ops.len() > 2 {
            return Err(AsmError::TooManyOperands { line: self.num, mnemonic: Mnemonic::Jbc });
        }
        match (&self.ops[0], &self.ops[1]) {
            (OpType::Addr(a), OpType::Addr16(d)) => {
                let j = self.short_jmp(*d)?;
                Ok(vec![0x10, *a, j])
            },
            _ => Err(AsmError::InvalidOperands { line: self.num, mnemonic: Mnemonic::Jbc, ops: clone_ops(&self.ops) }),
        }
    }

    fn xchd(&self) -> (r: Result<Vec<u8>, AsmError>)
        ensures
            encode_result_matches(r, self@.spec_xchd()),
    {
        if self.ops.len() < 2 {
            return Err(AsmError::TooFewOperands { line: self.num, mnemonic: Mnemonic::Xchd });
        }
        if self.ops.len() > 2 {
            return Err(AsmError::TooManyOperands { line: self.num, mnemonic: Mnemonic::Xchd });
        }
        match (&self.ops[0], &self.ops[1]) {
            (OpType::A, OpType::AtR0) => Ok(vec![0xD6u8]),
            (OpType::A, OpType::AtR1) => Ok(vec![0xD7u8]),
            _ => Err(AsmError::InvalidOperands { line: self.num, mnemonic: Mnemonic::Xchd, ops: clone_ops(&self.ops) }),
        }
    }

    fn ajmp(&self) -> (r: Result<Vec<u8>, AsmError>)
        ensures
            encode_result_matches(r, self@.spec_ajmp()),
    {
        if self.ops.len() < 1 {
            return Err(AsmError::TooFewOperands { line: self.num, mnemonic: Mnemonic::Ajmp });
        }
        if self.ops.len() > 1 {
            return Err(AsmError::TooManyOperands { line: self.num, mnemonic: Mnemonic::Ajmp });
        }
        match &self.ops[0] {
            OpType::Addr16(d) => Ok(vec![0x01u8, (*d as u8)]),
            _ => Err(AsmError::InvalidOperands { line: self.num, mnemonic: Mnemonic::Ajmp, ops: clone_ops(&self.ops) }),
        }
    }

    fn acall(&self) -> (r: Result<Vec<u8>, AsmError>)
        ensures
            encode_result_matches(r, self@.spec_acall()),
    {
        if self.ops.len() < 1 {
            return Err(AsmError::TooFewOperands { line: self.num, mnemonic: Mnemonic::Acall });
        }
        if self.ops.len() > 1 {
            return Err(AsmError::TooManyOperands { line: self.num, mnemonic: Mnemonic::Acall });
        }
        match &self.ops[0] {
            OpType::Addr16(d) => Ok(vec![0x11u8, (*d as u8)]),
            _ => Err(AsmError::InvalidOperands { line: self.num, mnemonic: Mnemonic::Acall, ops: clone_ops(&self.ops) }),
        }
    }

    fn ljmp(&self) -> (r: Result<Vec<u8>, AsmError>)
        ensures
            encode_result_matches(r, self@.spec_ljmp()),
    {
        if self.ops.len() < 1 {
            return Err(AsmError::TooFewOperands { line: self.num, mnemonic: Mnemonic::Ljmp });
        }
        if self.ops.len() > 1 {
            return Err(AsmError::TooManyOperands { line: self.num, mnemonic: Mnemonic::Ljmp });
        }
        match &self.ops[0] {
            OpType::Addr16(d) => Ok(vec![0x02u8, ((*d / 0x100) as u8), ((*d % 0x100) as u8)]),
            _ => Err(AsmError::InvalidOperands { line: self.num, mnemonic: Mnemonic::Ljmp, ops: clone_ops(&self.ops) }),
        }
    }

    fn lcall(&self) -> (r: Result<Vec<u8>, AsmError>)
        ensures
            encode_result_matches(r, self@.spec_lcall()),
    {
        if self.ops.len() < 1 {
            return Err(AsmError::TooFewOperands { line: self.num, mnemonic: Mnemonic::Lcall });
        }
        if self.ops.len() > 1 {
            return Err(AsmError::TooManyOperands { line: self.num, mnemonic: Mnemonic::Lcall });
        }
        match &self.ops[0] {
            OpType::Addr16(d) => Ok(vec![0x12u8, ((*d / 0x100) as u8), ((*d % 0x100) as u8)]),
            _ => Err(AsmError::InvalidOperands { line: self.num, mnemonic: Mnemonic::Lcall, ops: clone_ops(&self.ops) }),
        }
    }

    fn sjmp(&self) -> (r: Result<Vec<u8>, AsmError>)
        ensures
            encode_result_matches(r, self@.spec_sjmp()),
    {
        if self.ops.len() < 1 {
            return Err(AsmError::TooFewOperands { line: self.num, mnemonic: Mnemonic::Sjmp });
        }
        if self.ops.len() > 1 {
            return Err(AsmError::TooManyOperands { line: self.num, mnemonic: Mnemonic::Sjmp });
        }
        match &self.ops[0] {
            OpType::Addr16(d) => {
                let j = self.short_jmp(*d)?;
                Ok(vec![0x80, j])
            },
            _ => Err(AsmError::InvalidOperands { line: self.num, mnemonic: Mnemonic::Sjmp, ops: clone_ops(&self.ops) }),
        }
    }

    fn rr(&self) -> (r: Result<Vec<u8>, AsmError>)
        ensures
            encode_result_matches(r, self@.spec_rr()),
    {
        if self.ops.len() < 1 {
            return Err(AsmError::TooFewOperands { line: self.num, mnemonic: Mnemonic::Rr });
        }
        if self.ops.len() > 1 {
            return Err(AsmError::TooManyOperands { line: self.num, mnemonic: Mnemonic::Rr });
        }
        match &self.ops[0] {
            OpType::A => Ok(vec![0x03u8]),
            _ => Err(AsmError::InvalidOperands { line: self.num, mnemonic: Mnemonic::Rr, ops: clone_ops(&self.ops) }),
        }
    }

    fn rrc(&self) -> (r: Result<Vec<u8>, AsmError>)
        ensures
            encode_result_matches(r, self@.spec_rrc()),
    {
        if self.ops.len() < 1 {
            return Err(AsmError::TooFewOperands { line: self.num, mnemonic: Mnemonic::Rrc });
        }
        if self.ops.len() > 1 {
            return Err(AsmError::TooManyOperands { line: self.num, mnemonic: Mnemonic::Rrc });
        }
        match &self.ops[0] {
            OpType::A => Ok(vec![0x13u8]),
            _ => Err(AsmError::InvalidOperands { line: self.num, mnemonic: Mnemonic::Rrc, ops: clone_ops(&self.ops) }),
        }
    }

    fn rl(&self) -> (r: Result<Vec<u8>, AsmError>)
        ensures
            encode_result_matches(r, self@.spec_rl()),
    {
        if self.ops.len() < 1 {
            return Err(AsmError::TooFewOperands { line: self.num, mnemonic: Mnemonic::Rl });
        }
        if self.ops.len() > 1 {
            return Err(AsmError::TooManyOperands { line: self.num, mnemonic: Mnemonic::Rl });
        }
        match &self.ops[0] {
            OpType::A => Ok(vec![0x23u8]),
            _ => Err(AsmError::InvalidOperands { line: self.num, mnemonic: Mnemonic::Rl, ops: clone_ops(&self.ops) }),
        }
    }

    fn rlc(&self) -> (r: Result<Vec<u8>, AsmError>)
        ensures
            encode_result_matches(r, self@.spec_rlc()),
    {
        if self.ops.len() < 1 {
            return Err(AsmError::TooFewOperands { line: self.num, mnemonic: Mnemonic::Rlc });
        }
        if self.ops.len() > 1 {
            return Err(AsmError::TooManyOperands { line: self.num, mnemonic: Mnemonic::Rlc });
        }
        match &self.ops[0] {
            OpType::A => Ok(vec![0x33u8]),
            _ => Err(AsmError::InvalidOperands { line: self.num, mnemonic: Mnemonic::Rlc, ops: clone_ops(&self.ops) }),
        }
    }

    fn swap(&self) -> (r: Result<Vec<u8>, AsmError>)
        ensures
            encode_result_matches(r, self@.spec_swap()),
    {
        if self.ops.len() < 1 {
            return Err(AsmError::TooFewOperands { line: self.num, mnemonic: Mnemonic::Swap });
        }
        if self.ops.len() > 1 {
            return Err(AsmError::TooManyOperands { line: self.num, mnemonic: Mnemonic::Swap });
        }
        match &self.ops[0] {
            OpType::A => Ok(vec![0xC4u8]),
            _ => Err(AsmError::InvalidOperands { line: self.num, mnemonic: Mnemonic::Swap, ops: clone_ops(&self.ops) }),
        }
    }

    fn da(&self) -> (r: Result<Vec<u8>, AsmError>)
        ensures
            encode_result_matches(r, self@.spec_da()),
    {
        if self.ops.len() < 1 {
            return Err(AsmError::TooFewOperands { line: self.num, mnemonic: Mnemonic::Da });
        }
        if self.ops.len() > 1 {
            return Err(AsmError::TooManyOperands { line: self.num, mnemonic: Mnemonic::Da });
        }
        match &self.ops[0] {
            OpType::A => Ok(vec![0xD4u8]),
            _ => Err(AsmError::InvalidOperands { line: self.num, mnemonic: Mnemonic::Da, ops: clone_ops(&self.ops) }),
        }
    }

    fn jc(&self) -> (r: Result<Vec<u8>, AsmError>)
        ensures
            encode_result_matches(r, self@.spec_jc()),
    {
        if self.ops.len() < 1 {
            return Err(AsmError::TooFewOperands { line: self.num, mnemonic: Mnemonic::Jc });
        }
        if self.ops.len() > 1 {
            return Err(AsmError::TooManyOperands { line: self.num, mnemonic: Mnemonic::Jc });
        }
        match &self.ops[0] {
            OpType::Addr16(d) => {
                let j = self.short_jmp(*d)?;
                Ok(vec![0x40, j])
            },
            _ => Err(AsmError::InvalidOperands { line: self.num, mnemonic: Mnemonic::Jc, ops: clone_ops(&self.ops) }),
        }
    }

    fn jnc(&self) -> (r: Result<Vec<u8>, AsmError>)
        ensures
            encode_result_matches(r, self@.spec_jnc()),
    {
        if self.ops.len() < 1 {
            return Err(AsmError::TooFewOperands { line: self.num, mnemonic: Mnemonic::Jnc });
        }
        if self.ops.len() > 1 {
            return Err(AsmError::TooManyOperands { line: self.num, mnemonic: Mnemonic::Jnc });
        }
        match &self.ops[0] {
            OpType::Addr16(d) => {
                let j = self.short_jmp(*d)?;
                Ok(vec![0x50, j])
            },
            _ => Err(AsmError::InvalidOperands { line: self.num, mnemonic: Mnemonic::Jnc, ops: clone_ops(&self.ops) }),
        }
    }

    fn jz(&self) -> (r: Result<Vec<u8>, AsmError>)
        ensures
            encode_result_matches(r, self@.spec_jz()),
    {
        if self.ops.len() < 1 {
            return Err(AsmError::TooFewOperands { line: self.num, mnemonic: Mnemonic::Jz });
        }
        if self.ops.len() > 1 {
            return Err(AsmError::TooManyOperands { line: self.num, mnemonic: Mnemonic::Jz });
        }
        match &self.ops[0] {
            OpType::Addr16(d) => {
                let j = self.short_jmp(*d)?;
                Ok(vec![0x60, j])
            },
            _ => Err(AsmError::InvalidOperands { line: self.num, mnemonic: Mnemonic::Jz, ops: clone_ops(&self.ops) }),
        }
    }

    fn jnz(&self) -> (r: Result<Vec<u8>, AsmError>)
        ensures
            encode_result_matches(r, self@.spec_jnz()),
    {
        if self.ops.len() < 1 {
            return Err(AsmError::TooFewOperands { line: self.num, mnemonic: Mnemonic::Jnz });
        }
        if self.ops.len() > 1 {
            return Err(AsmError::TooManyOperands { line: self.num, mnemonic: Mnemonic::Jnz });
        }
        match &self.ops[0] {
            OpType::Addr16(d) => {
                let j = self.short_jmp(*d)?;
                Ok(vec![0x70, j])
            },
            _ => Err(AsmError::InvalidOperands { line: self.num, mnemonic: Mnemonic::Jnz, ops: clone_ops(&self.ops) }),
        }
    }

    fn jmp(&self) -> (r: Result<Vec<u8>, AsmError>)
        ensures
            encode_result_matches(r, self@.spec_jmp()),
    {
        if self.ops.len() < 1 {
            return Err(AsmError::TooFewOperands { line: self.num, mnemonic: Mnemonic::Jmp });
        }
        if self.ops.len() > 1 {
            return Err(AsmError::TooManyOperands { line: self.num, mnemonic: Mnemonic::Jmp });
        }
        match &self.ops[0] {
            OpType::AtADptr => Ok(vec![0x73u8]),
            _ => Err(AsmError::InvalidOperands { line: self.num, mnemonic: Mnemonic::Jmp, ops: clone_ops(&self.ops) }),
        }
    }

    fn mul(&self) -> (r: Result<Vec<u8>, AsmError>)
        ensures
            encode_result_matches(r, self@.spec_mul()),
    {
        if self.ops.len() < 1 {
            return Err(AsmError::TooFewOperands { line: self.num, mnemonic: Mnemonic::Mul });
        }
        if self.ops.len() > 1 {
            return Err(AsmError::TooManyOperands { line: self.num, mnemonic: Mnemonic::Mul });
        }
        match &self.ops[0] {
            OpType::AB => Ok(vec![0xA4u8]),
            _ => Err(AsmError::InvalidOperands { line: self.num, mnemonic: Mnemonic::Mul, ops: clone_ops(&self.ops) }),
        }
    }

    fn div(&self) -> (r: Result<Vec<u8>, AsmError>)
        ensures
            encode_result_matches(r, self@.spec_div()),
    {
        if self.ops.len() < 1 {
            return Err(AsmError::TooFewOperands { line: self.num, mnemonic: Mnemonic::Div });
        }
        if self.ops.len() > 1 {
            return Err(AsmError::TooManyOperands { line: self.num, mnemonic: Mnemonic::Div });
        }
        match &self.ops[0] {
            OpType::AB => Ok(vec![0x84u8]),
            _ => Err(AsmError::InvalidOperands { line: self.num, mnemonic: Mnemonic::Div, ops: clone_ops(&self.ops) }),
        }
    }

    fn mov(&self) -> (r: Result<Vec<u8>, AsmError>)
        ensures
            encode_result_matches(r, self@.spec_mov()),
    {
        if self.ops.len() < 2 {
            return Err(AsmError::TooFewOperands { line: self.num, mnemonic: Mnemonic::Mov });
        }
        if self.ops.len() > 2 {
            return Err(AsmError::TooManyOperands { line: self.num, mnemonic: Mnemonic::Mov });
        }
        match (&self.ops[0], &self.ops[1]) {
            (OpType::Addr(d), OpType::A) => Ok(vec![0xF5u8, *d]),
            (OpType::AtR0, OpType::A) => Ok(vec![0xF6u8]),
            (OpType::AtR1, OpType::A) => Ok(vec![0xF7u8]),
            (OpType::R0, OpType::A) => Ok(vec![0xF8u8]),
            (OpType::R1, OpType::A) => Ok(vec![0xF9u8]),
            (OpType::R2, OpType::A) => Ok(vec![0xFAu8]),
            (OpType::R3, OpType::A) => Ok(vec![0xFBu8]),
            (OpType::R4, OpType::A) => Ok(vec![0xFCu8]),
            (OpType::R5, OpType::A) => Ok(vec![0xFDu8]),
            (OpType::R6, OpType::A) => Ok(vec![0xFEu8]),
            (OpType::R7, OpType::A) => Ok(vec![0xFFu8]),
            (OpType::A, OpType::Data(d)) => Ok(vec![0x74u8, *d]),
            (OpType::Addr(a), OpType::Data(d)) => Ok(vec![0x75u8, *a, *d]),
            (OpType::AtR0, OpType::Data(d)) => Ok(vec![0x76u8, *d]),
            (OpType::AtR1, OpType::Data(d)) => Ok(vec![0x77u8, *d]),
            (OpType::R0, OpType::Data(d)) => Ok(vec![0x78u8, *d]),
            (OpType::R1, OpType::Data(d)) => Ok(vec![0x79u8, *d]),
            (OpType::R2, OpType::Data(d)) => Ok(vec![0x7Au8, *d]),
            (OpType::R3, OpType::Data(d)) => Ok(vec![0x7Bu8, *d]),
            (OpType::R4, OpType::Data(d)) => Ok(vec![0x7Cu8, *d]),
            (OpType::R5, OpType::Data(d)) => Ok(vec![0x7Du8, *d]),
            (OpType::R6, OpType::Data(d)) => Ok(vec![0x7Eu8, *d]),
            (OpType::R7, OpType::Data(d)) => Ok(vec![0x7Fu8, *d]),
            (OpType::Addr(d), OpType::AB) => Ok(vec![0x84u8, *d]),
            (OpType::Addr(d), OpType::Addr(a)) => Ok(vec![0x85u8, *a, *d]),
            (OpType::Addr(d), OpType::AtR0) => Ok(vec![0x86u8, *d]),
            (OpType::Addr(d), OpType::AtR1) => Ok(vec![0x87u8, *d]),
            (OpType::Addr(d), OpType::R0) => Ok(vec![0x88u8, *d]),
            (OpType::Addr(d), OpType::R1) => Ok(vec![0x89u8, *d]),
            (OpType::Addr(d), OpType::R2) => Ok(vec![0x8Au8, *d]),
            (OpType::Addr(d), OpType::R3) => Ok(vec![0x8Bu8, *d]),
            (OpType::Addr(d), OpType::R4) => Ok(vec![0x8Cu8, *d]),
            (OpType::Addr(d), OpType::R5) => Ok(vec![0x8Du8, *d]),
            (OpType::Addr(d), OpType::R6) => Ok(vec![0x8Eu8, *d]),
            (OpType::Addr(d), OpType::R7) => Ok(vec![0x8Fu8, *d]),
            (OpType::A, OpType::Addr(d)) => Ok(vec![0xE5u8, *d]),
            (OpType::A, OpType::AtR0) => Ok(vec![0xE6u8]),
            (OpType::A, OpType::AtR1) => Ok(vec![0xE7u8]),
            (OpType::A, OpType::R0) => Ok(vec![0xE8u8]),
            (OpType::A, OpType::R1) => Ok(vec![0xE9u8]),
            (OpType::A, OpType::R2) => Ok(vec![0xEAu8]),
            (OpType::A, OpType::R3) => Ok(vec![0xEBu8]),
            (OpType::A, OpType::R4) => Ok(vec![0xECu8]),
            (OpType::A, OpType::R5) => Ok(vec![0xEDu8]),
            (OpType::A, OpType::R6) => Ok(vec![0xEEu8]),
            (OpType::A, OpType::R7) => Ok(vec![0xEFu8]),
            (OpType::Dptr, OpType::Data16(d)) => Ok(vec![0x90u8, ((*d / 0x100) as u8), ((*d % 0x100) as u8)]),
            (OpType::Dptr, OpType::Data(d)) => Ok(vec![0x90u8, 0x00u8, *d]),
            (OpType::Addr(d), OpType::C) => Ok(vec![0x92u8, *d]),
            (OpType::C, OpType::Addr(d)) => Ok(vec![0xA2u8, *d]),
            (OpType::AtR0, OpType::Addr(d)) => Ok(vec![0xA6u8, *d]),
            (OpType::AtR1, OpType::Addr(d)) => Ok(vec![0xA7u8, *d]),
            (OpType::R0, OpType::Addr(d)) => Ok(vec![0xA8u8, *d]),
            (OpType::R1, OpType::Addr(d)) => Ok(vec![0xA9u8, *d]),
            (OpType::R2, OpType::Addr(d)) => Ok(vec![0xAAu8, *d]),
            (OpType::R3, OpType::Addr(d)) => Ok(vec![0xABu8, *d]),
            (OpType::R4, OpType::Addr(d)) => Ok(vec![0xACu8, *d]),
            (OpType::R5, OpType::Addr(d)) => Ok(vec![0xADu8, *d]),
            (OpType::R6, OpType::Addr(d)) => Ok(vec![0xAEu8, *d]),
            (OpType::R7, OpType::Addr(d)) => Ok(vec![0xAFu8, *d]),
            _ => Err(AsmError::InvalidOperands { line: self.num, mnemonic: Mnemonic::Mov, ops: clone_ops(&self.ops) }),
        }
    }


    fn db(&self) -> (r: Result<Vec<u8>, AsmError>)
        ensures
            encode_result_matches(r, self@.spec_db()),
    {
        if self.ops.len() < 1 {
            return Err(AsmError::TooFewOperands { line: self.num, mnemonic: Mnemonic::Db });
        }
        if self.ops.len() > 2 {
            return Err(AsmError::TooManyOperands { line: self.num, mnemonic: Mnemonic::Db });
        }
        match &self.ops[0] {
            OpType::Label(l) => {
                let mut v = l.as_str().as_bytes_vec();
                if v.len() < 2 || v.len() - 1 > 0x7FFF_FFFF {
                    return Err(AsmError::InvalidOperands {
                        line: self.num,
                        mnemonic: Mnemonic::Db,
                        ops: clone_ops(&self.ops),
                    });
                }
                let n = v.len();
                v.remove(n - 1);
                v.remove(0);
                v.push(0);
                proof {
                    assert(v@ =~= vstd::utf8::encode_utf8(l@).subrange(
                        1,
                        vstd::utf8::encode_utf8(l@).len() - 1,
                    ).push(0u8));
                }
                Ok(v)
            },
            _ => Err(AsmError::InvalidOperands { line: self.num, mnemonic: Mnemonic::Db, ops: clone_ops(&self.ops) }),
        }
    }

    fn ds(&self) -> (r: Result<Vec<u8>, AsmError>)
        ensures
            encode_result_matches(r, self@.spec_ds()),
    {
        if self.ops.len() < 1 {
            return Err(AsmError::TooFewOperands { line: self.num, mnemonic: Mnemonic::Ds });
        }
        if self.ops.len() > 1 {
            return Err(AsmError::TooManyOperands { line: self.num, mnemonic: Mnemonic::Ds });
        }
        match &self.ops[0] {
            OpType::Addr(d) => {
                let v = vec![0x10u8; *d as usize];
                proof {
                    assert(v@ =~= Seq::new(*d as nat, |i| 0x10u8));
                }
                Ok(v)
            },
            _ => Err(AsmError::InvalidOperands { line: self.num, mnemonic: Mnemonic::Ds, ops: clone_ops(&self.ops) }),
        }
    }

    /// Encode this instruction into its machine-code byte sequence, exactly
    /// as the opcode table (`spec_encode`) states it.
    pub fn to_hex(&self) -> (r: Result<Vec<u8>, AsmError>)
        ensures
            encode_result_matches(r, self@.spec_encode()),
    {
        match self.mnemonic {
            None => Ok(Vec::new()),
            Some(m) => match m {
                Mnemonic::Div => self.div(),
                Mnemonic::Mov => self.mov(),
                Mnemonic::Movc => self.movc(),
                Mnemonic::Movx => self.movx(),
                Mnemonic::Inc => self.inc(),
                Mnemonic::Dec => self.dec(),
                Mnemonic::Cpl => self.cpl(),
                Mnemonic::Cjne => self.cjne(),
                Mnemonic::Pop => self.pop(),
                Mnemonic::Push => self.push(),
                Mnemonic::Add => self.add(),
                Mnemonic::Addc => self.addc(),
                Mnemonic::Orl => self.orl(),
                Mnemonic::Anl => self.anl(),
                Mnemonic::Subb => self.subb(),
                Mnemonic::Xch => self.xch(),
                Mnemonic::Xrl => self.xrl(),
                Mnemonic::Jb => self.jb(),
                Mnemonic::Ret => self.ret(),
                Mnemonic::Clr => self.clr(),
                Mnemonic::Setb => self.setb(),
                Mnemonic::Nop => self.nop(),
                Mnemonic::Djnz => self.djnz(),
                Mnemonic::Ajmp => self.ajmp(),
                Mnemonic::Ljmp => self.ljmp(),
                Mnemonic::Acall => self.acall(),
                Mnemonic::Lcall => self.lcall(),
                Mnemonic::Rr => self.rr(),
                Mnemonic::Rrc => self.rrc(),
                Mnemonic::Rl => self.rl(),
                Mnemonic::Reti => self.reti(),
                Mnemonic::Rlc => self.rlc(),
                Mnemonic::Jc => self.jc(),
                Mnemonic::Jnc => self.jnc(),
                Mnemonic::Jz => self.jz(),
                Mnemonic::Jnz => self.jnz(),
                Mnemonic::Jmp => self.jmp(),
                Mnemonic::Mul => self.mul(),
                Mnemonic::Swap => self.swap(),
                Mnemonic::Da => self.da(),
                Mnemonic::Jnb => self.jnb(),
                Mnemonic::Jbc => self.jbc(),
                Mnemonic::Xchd => self.xchd(),
                Mnemonic::Org => Ok(Vec::new()),
                Mnemonic::Cseg => Ok(Vec::new()),
                Mnemonic::Dseg => Ok(Vec::new()),
                Mnemonic::Db => self.db(),
                Mnemonic::Ds => self.ds(),
                Mnemonic::Sjmp => self.sjmp(),
            },
        }
    }
}

/// The mathematical abstraction of an operand: a label name is a character
/// sequence. Contracts over parsing and label resolution use this view.
#[allow(missing_docs)]
#[verifier::ext_equal]
pub enum OpView {
    A,
    R0,
    R1,
    R2,
    R3,
    R4,
    R5,
    R6,
    R7,
    Data(u8),
    Data16(u16),
    Addr(u8),
    Addr16(u16),
    AtR0,
    AtR1,
    C,
    Label(Seq<char>),
    Dptr,
    AtDptr,
    AB,
    AtADptr,
    AtAPc,
}

impl View for OpType {
    type V = OpView;

    open spec fn view(&self) -> OpView {
        match self {
            OpType::A => OpView::A,
            OpType::R0 => OpView::R0,
            OpType::R1 => OpView::R1,
            OpType::R2 => OpView::R2,
            OpType::R3 => OpView::R3,
            OpType::R4 => OpView::R4,
            OpType::R5 => OpView::R5,
            OpType::R6 => OpView::R6,
            OpType::R7 => OpView::R7,
            OpType::AtR0 => OpView::AtR0,
            OpType::AtR1 => OpView::AtR1,
            OpType::C => OpView::C,
            OpType::Dptr => OpView::Dptr,
            OpType::AtDptr => OpView::AtDptr,
            OpType::AB => OpView::AB,
            OpType::AtADptr => OpView::AtADptr,
            OpType::AtAPc => OpView::AtAPc,
            OpType::Data(d) => OpView::Data(*d),
            OpType::Data16(d) => OpView::Data16(*d),
            OpType::Addr(d) => OpView::Addr(*d),
            OpType::Addr16(d) => OpView::Addr16(*d),
            OpType::Label(l) => OpView::Label(l@),
        }
    }
}

/// The mnemonic keyword table: the lower-cased token against each keyword.
pub open spec fn spec_mnemonic(t: Seq<char>) -> Option<Mnemonic> {
    let l = text::lower_seq(t);
    if l == "div"@ {
        Some(Mnemonic::Div)
    } else if l == "db"@ {
        Some(Mnemonic::Db)
    } else if l == "mov"@ {
        Some(Mnemonic::Mov)
    } else if l == "sjmp"@ {
        Some(Mnemonic::Sjmp)
    } else if l == "add"@ {
        Some(Mnemonic::Add)
    } else if l == "org"@ {
        Some(Mnemonic::Org)
    } else if l == "cseg"@ {
        Some(Mnemonic::Cseg)
    } else if l == "dseg"@ {
        Some(Mnemonic::Dseg)
    } else if l == "nop"@ {
        Some(Mnemonic::Nop)
    } else if l == "ajmp"@ {
        Some(Mnemonic::Ajmp)
    } else if l == "ljmp"@ {
        Some(Mnemonic::Ljmp)
    } else if l == "rr"@ {
        Some(Mnemonic::Rr)
    } else if l == "inc"@ {
        Some(Mnemonic::Inc)
    } else if l == "jbc"@ {
        Some(Mnemonic::Jbc)
    } else if l == "acall"@ {
        Some(Mnemonic::Acall)
    } else if l == "lcall"@ {
        Some(Mnemonic::Lcall)
    } else if l == "rrc"@ {
        Some(Mnemonic::Rrc)
    } else if l == "dec"@ {
        Some(Mnemonic::Dec)
    } else if l == "jb"@ {
        Some(Mnemonic::Jb)
    } else if l == "ret"@ {
        Some(Mnemonic::Ret)
    } else if l == "rl"@ {
        Some(Mnemonic::Rl)
    } else if l == "jnb"@ {
        Some(Mnemonic::Jnb)
    } else if l == "reti"@ {
        Some(Mnemonic::Reti)
    } else if l == "clr"@ {
        Some(Mnemonic::Clr)
    } else if l == "movx"@ {
        Some(Mnemonic::Movx)
    } else if l == "djnz"@ {
        Some(Mnemonic::Djnz)
    } else if l == "xch"@ {
        Some(Mnemonic::Xch)
    } else if l == "cjne"@ {
        Some(Mnemonic::Cjne)
    } else if l == "subb"@ {
        Some(Mnemonic::Subb)
    } else if l == "jnz"@ {
        Some(Mnemonic::Jnz)
    } else if l == "xrl"@ {
        Some(Mnemonic::Xrl)
    } else if l == "jz"@ {
        Some(Mnemonic::Jz)
    } else if l == "jnc"@ {
        Some(Mnemonic::Jnc)
    } else if l == "orl"@ {
        Some(Mnemonic::Orl)
    } else if l == "jc"@ {
        Some(Mnemonic::Jc)
    } else if l == "addc"@ {
        Some(Mnemonic::Addc)
    } else if l == "rlc"@ {
        Some(Mnemonic::Rlc)
    } else if l == "anl"@ {
        Some(Mnemonic::Anl)
    } else if l == "cpl"@ {
        Some(Mnemonic::Cpl)
    } else if l == "ds"@ {
        Some(Mnemonic::Ds)
    } else if l == "swap"@ {
        Some(Mnemonic::Swap)
    } else if l == "push"@ {
        Some(Mnemonic::Push)
    } else if l == "pop"@ {
        Some(Mnemonic::Pop)
    } else if l == "mul"@ {
        Some(Mnemonic::Mul)
    } else if l == "xchd"@ {
        Some(Mnemonic::Xchd)
    } else if l == "da"@ {
        Some(Mnemonic::Da)
    } else if l == "setb"@ {
        Some(Mnemonic::Setb)
    } else if l == "movc"@ {
        Some(Mnemonic::Movc)
    } else if l == "jmp"@ {
        Some(Mnemonic::Jmp)
    } else {
        None
    }
}

/// Recognize a mnemonic token, case-insensitively.
pub fn parse_mnemonic(t: &str) -> (r: Option<Mnemonic>)
    ensures
        r == spec_mnemonic(t@),
{
    if text::eq_lower(t, "div") {
        Some(Mnemonic::Div)
    } else if text::eq_lower(t, "db") {
        Some(Mnemonic::Db)
    } else if text::eq_lower(t, "mov") {
        Some(Mnemonic::Mov)
    } else if text::eq_lower(t, "sjmp") {
        Some(Mnemonic::Sjmp)
    } else if text::eq_lower(t, "add") {
        Some(Mnemonic::Add)
    } else if text::eq_lower(t, "org") {
        Some(Mnemonic::Org)
    } else if text::eq_lower(t, "cseg") {
        Some(Mnemonic::Cseg)
    } else if text::eq_lower(t, "dseg") {
        Some(Mnemonic::Dseg)
    } else if text::eq_lower(t, "nop") {
        Some(Mnemonic::Nop)
    } else if text::eq_lower(t, "ajmp") {
        Some(Mnemonic::Ajmp)
    } else if text::eq_lower(t, "ljmp") {
        Some(Mnemonic::Ljmp)
    } else if text::eq_lower(t, "rr") {
        Some(Mnemonic::Rr)
    } else if text::eq_lower(t, "inc") {
        Some(Mnemonic::Inc)
    } else if text::eq_lower(t, "jbc") {
        Some(Mnemonic::Jbc)
    } else if text::eq_lower(t, "acall") {
        Some(Mnemonic::Acall)
    } else if text::eq_lower(t, "lcall") {
        Some(Mnemonic::Lcall)
    } else if text::eq_lower(t, "rrc") {
        Some(Mnemonic::Rrc)
    } else if text::eq_lower(t, "dec") {
        Some(Mnemonic::Dec)
    } else if text::eq_lower(t, "jb") {
        Some(Mnemonic::Jb)
    } else if text::eq_lower(t, "ret") {
        Some(Mnemonic::Ret)
    } else if text::eq_lower(t, "rl") {
        Some(Mnemonic::Rl)
    } else if text::eq_lower(t, "jnb") {
        Some(Mnemonic::Jnb)
    } else if text::eq_lower(t, "reti") {
        Some(Mnemonic::Reti)
    } else if text::eq_lower(t, "clr") {
        Some(Mnemonic::Clr)
    } else if text::eq_lower(t, "movx") {
        Some(Mnemonic::Movx)
    } else if text::eq_lower(t, "djnz") {
        Some(Mnemonic::Djnz)
    } else if text::eq_lower(t, "xch") {
        Some(Mnemonic::Xch)
    } else if text::eq_lower(t, "cjne") {
        Some(Mnemonic::Cjne)
    } else if text::eq_lower(t, "subb") {
        Some(Mnemonic::Subb)
    } else if text::eq_lower(t, "jnz") {
        Some(Mnemonic::Jnz)
    } else if text::eq_lower(t, "xrl") {
        Some(Mnemonic::Xrl)
    } else if text::eq_lower(t, "jz") {
        Some(Mnemonic::Jz)
    } else if text::eq_lower(t, "jnc") {
        Some(Mnemonic::Jnc)
    } else if text::eq_lower(t, "orl") {
        Some(Mnemonic::Orl)
    } else if text::eq_lower(t, "jc") {
        Some(Mnemonic::Jc)
    } else if text::eq_lower(t, "addc") {
        Some(Mnemonic::Addc)
    } else if text::eq_lower(t, "rlc") {
        Some(Mnemonic::Rlc)
    } else if text::eq_lower(t, "anl") {
        Some(Mnemonic::Anl)
    } else if text::eq_lower(t, "cpl") {
        Some(Mnemonic::Cpl)
    } else if text::eq_lower(t, "ds") {
        Some(Mnemonic::Ds)
    } else if text::eq_lower(t, "swap") {
        Some(Mnemonic::Swap)
    } else if text::eq_lower(t, "push") {
        Some(Mnemonic::Push)
    } else if text::eq_lower(t, "pop") {
        Some(Mnemonic::Pop)
    } else if text::eq_lower(t, "mul") {
        Some(Mnemonic::Mul)
    } else if text::eq_lower(t, "xchd") {
        Some(Mnemonic::Xchd)
    } else if text::eq_lower(t, "da") {
        Some(Mnemonic::Da)
    } else if text::eq_lower(t, "setb") {
        Some(Mnemonic::Setb)
    } else if text::eq_lower(t, "movc") {
        Some(Mnemonic::Movc)
    } else if text::eq_lower(t, "jmp") {
        Some(Mnemonic::Jmp)
    } else {
        None
    }
}

/// A vector of operands as the contracts see it.
pub open spec fn ops_view(ops: Seq<OpType>) -> Seq<OpView> {
    ops.map_values(|o: OpType| o@)
}

/// Duplicate an operand list, for a diagnostic that carries it.
pub fn clone_ops(ops: &Vec<OpType>) -> (r: Vec<OpType>)
    ensures
        r@ == ops@,
{
    let mut r: Vec<OpType> = Vec::new();
    let mut i: usize = 0;
    while i < ops.len()
        invariant
            0 <= i <= ops@.len(),
            r@ =~= ops@.take(i as int),
        decreases ops@.len() - i,
    {
        r.push(ops[i].clone());
        proof {
            assert(ops@.take(i + 1) =~= ops@.take(i as int).push(ops@[i as int]));
        }
        i += 1;
    }
    proof {
        assert(ops@.take(ops@.len() as int) =~= ops@);
    }
    r
}

/// The mathematical abstraction of an [`Instruction`].
#[verifier::ext_equal]
pub struct InsView {
    pub offset: u16,
    pub num: u64,
    pub label: Option<Seq<char>>,
    pub mnemonic: Option<Mnemonic>,
    pub ops: Seq<OpView>,
}

impl View for Instruction {
    type V = InsView;

    open spec fn view(&self) -> InsView {
        InsView {
            offset: self.offset,
            num: self.num,
            label: match self.label {
                Some(ref l) => Some(l@),
                None => None,
            },
            mnemonic: self.mnemonic,
            ops: ops_view(self.ops@),
        }
    }
}

/// A token that is no register/flag/pointer keyword: an immediate (`#`
/// prefix), a hex address (`h` suffix or `0x` prefix), a decimal address, or
/// failing all of those, a label reference.
pub open spec fn spec_other_op(s: Seq<char>, num: u64) -> Result<OpView, ErrView> {
    if s.len() > 0 && s[0] == '#' {
        let rest = s.subrange(1, s.len() as int);
        if rest.len() > 0 && rest.last() == 'h' {
            match text::spec_parse_u16(rest.drop_last(), 16) {
                Some(v) => if v <= 0xFF {
                    Ok(OpView::Data(v as u8))
                } else {
                    Ok(OpView::Data16(v))
                },
                None => Err(ErrView::InvalidData { line: num }),
            }
        } else {
            match text::spec_parse_u16(rest, 10) {
                Some(v) => if v <= 0xFF {
                    Ok(OpView::Data(v as u8))
                } else {
                    Ok(OpView::Data16(v))
                },
                None => Err(ErrView::InvalidData { line: num }),
            }
        }
    } else if s.len() > 0 && s.last() == 'h' {
        match text::spec_parse_u16(s.drop_last(), 16) {
            Some(v) => if v <= 0xFF {
                Ok(OpView::Addr(v as u8))
            } else {
                Ok(OpView::Addr16(v))
            },
            None => Err(ErrView::InvalidAddress { line: num }),
        }
    } else if s.len() >= 2 && s[0] == '0' && s[1] == 'x' {
        match text::spec_parse_u16(s.subrange(2, s.len() as int), 16) {
            Some(v) => if v <= 0xFF {
                Ok(OpView::Addr(v as u8))
            } else {
                Ok(OpView::Addr16(v))
            },
            None => Err(ErrView::InvalidAddress { line: num }),
        }
    } else if s.len() >= 1 && text::all_digits(s, 10) {
        match text::spec_parse_u16(s, 10) {
            Some(v) => if v <= 0xFF {
                Ok(OpView::Addr(v as u8))
            } else {
                Ok(OpView::Addr16(v))
            },
            None => Err(ErrView::InvalidAddress { line: num }),
        }
    } else {
        Ok(OpView::Label(s))
    }
}

/// Parse a non-keyword operand token: immediates, hex and decimal address
/// literals, and label references, in that priority order.
pub fn other_op(op: String, num: u64) -> (r: Result<OpType, AsmError>)
    ensures
        match r {
            Ok(o) => spec_other_op(op@, num) matches Ok(v) && o@ == v,
            Err(e) => spec_other_op(op@, num) matches Err(ev) && e@ == ev,
        },
{
    let s = op.as_str();
    let n = s.unicode_len();
    if n > 0 && s.get_char(0) == '#' {
        let rest = s.substring_char(1, n);
        proof {
            assert(rest@ =~= op@.subrange(1, op@.len() as int));
        }
        let rn = n - 1;
        let parsed: Option<u16>;
        if rn > 0 && rest.get_char(rn - 1) == 'h' {
            let mid = rest.substring_char(0, rn - 1);
            proof {
                assert(mid@ =~= rest@.drop_last());
            }
            parsed = text::parse_u16(mid, 16);
        } else {
            parsed = text::parse_u16(rest, 10);
        }
        match parsed {
            Some(v) => {
                if v <= 0xFF {
                    Ok(OpType::Data(v as u8))
                } else {
                    Ok(OpType::Data16(v))
                }
            },
            None => Err(AsmError::InvalidData { line: num }),
        }
    } else if n > 0 && s.get_char(n - 1) == 'h' {
        let mid = s.substring_char(0, n - 1);
        proof {
            assert(mid@ =~= op@.drop_last());
        }
        match text::parse_u16(mid, 16) {
            Some(v) => {
                if v <= 0xFF {
                    Ok(OpType::Addr(v as u8))
                } else {
                    Ok(OpType::Addr16(v))
                }
            },
            None => Err(AsmError::InvalidAddress { line: num }),
        }
    } else if n >= 2 && s.get_char(0) == '0' && s.get_char(1) == 'x' {
        let rest = s.substring_char(2, n);
        proof {
            assert(rest@ =~= op@.subrange(2, op@.len() as int));
        }
        match text::parse_u16(rest, 16) {
            Some(v) => {
                if v <= 0xFF {
                    Ok(OpType::Addr(v as u8))
                } else {
                    Ok(OpType::Addr16(v))
                }
            },
            None => Err(AsmError::InvalidAddress { line: num }),
        }
    } else if text::is_all_digits(s, 10) {
        match text::parse_u16(s, 10) {
            Some(v) => {
                if v <= 0xFF {
                    Ok(OpType::Addr(v as u8))
                } else {
                    Ok(OpType::Addr16(v))
                }
            },
            None => Err(AsmError::InvalidAddress { line: num }),
        }
    } else {
        Ok(OpType::Label(op))
    }
}

/// One operand token: first the register/flag/pointer keywords
/// (case-insensitively; bare `b` refers to the special register named `B`),
/// then the literal forms of `spec_other_op`.
pub open spec fn spec_parse_op(t: Seq<char>, num: u64) -> Result<OpView, ErrView> {
    let l = text::lower_seq(t);
    if l == "@r0"@ {
        Ok(OpView::AtR0)
    } else if l == "@r1"@ {
        Ok(OpView::AtR1)
    } else if l == "r1"@ {
        Ok(OpView::R1)
    } else if l == "r2"@ {
        Ok(OpView::R2)
    } else if l == "r3"@ {
        Ok(OpView::R3)
    } else if l == "r4"@ {
        Ok(OpView::R4)
    } else if l == "r5"@ {
        Ok(OpView::R5)
    } else if l == "r6"@ {
        Ok(OpView::R6)
    } else if l == "r7"@ {
        Ok(OpView::R7)
    } else if l == "r0"@ {
        Ok(OpView::R0)
    } else if l == "c"@ {
        Ok(OpView::C)
    } else if l == "a"@ {
        Ok(OpView::A)
    } else if l == "ab"@ {
        Ok(OpView::AB)
    } else if l == "b"@ {
        Ok(OpView::Label("B"@))
    } else if l == "dptr"@ {
        Ok(OpView::Dptr)
    } else if l == "@a+pc"@ {
        Ok(OpView::AtAPc)
    } else if l == "@a+dptr"@ {
        Ok(OpView::AtADptr)
    } else if l == "@dptr"@ {
        Ok(OpView::AtDptr)
    } else {
        spec_other_op(t, num)
    }
}

/// Parse one operand token.
pub fn parse_op(tok: String, num: u64) -> (r: Result<OpType, AsmError>)
    ensures
        match r {
            Ok(o) => spec_parse_op(tok@, num) matches Ok(v) && o@ == v,
            Err(e) => spec_parse_op(tok@, num) matches Err(ev) && e@ == ev,
        },
{
    let s = tok.as_str();
    if text::eq_lower(s, "@r0") {
        Ok(OpType::AtR0)
    } else if text::eq_lower(s, "@r1") {
        Ok(OpType::AtR1)
    } else if text::eq_lower(s, "r1") {
        Ok(OpType::R1)
    } else if text::eq_lower(s, "r2") {
        Ok(OpType::R2)
    } else if text::eq_lower(s, "r3") {
        Ok(OpType::R3)
    } else if text::eq_lower(s, "r4") {
        Ok(OpType::R4)
    } else if text::eq_lower(s, "r5") {
        Ok(OpType::R5)
    } else if text::eq_lower(s, "r6") {
        Ok(OpType::R6)
    } else if text::eq_lower(s, "r7") {
        Ok(OpType::R7)
    } else if text::eq_lower(s, "r0") {
        Ok(OpType::R0)
    } else if text::eq_lower(s, "c") {
        Ok(OpType::C)
    } else if text::eq_lower(s, "a") {
        Ok(OpType::A)
    } else if text::eq_lower(s, "ab") {
        Ok(OpType::AB)
    } else if text::eq_lower(s, "b") {
        Ok(OpType::Label(String::from_str("B")))
    } else if text::eq_lower(s, "dptr") {
        Ok(OpType::Dptr)
    } else if text::eq_lower(s, "@a+pc") {
        Ok(OpType::AtAPc)
    } else if text::eq_lower(s, "@a+dptr") {
        Ok(OpType::AtADptr)
    } else if text::eq_lower(s, "@dptr") {
        Ok(OpType::AtDptr)
    } else {
        other_op(tok, num)
    }
}

/// The operand tokens of a line, parsed left to right; the first failure is
/// the line's error.
pub open spec fn spec_parse_ops(toks: Seq<Seq<char>>, num: u64) -> Result<Seq<OpView>, ErrView>
    decreases toks.len(),
{
    if toks.len() == 0 {
        Ok(Seq::<OpView>::empty())
    } else {
        match spec_parse_ops(toks.drop_last(), num) {
            Err(e) => Err(e),
            Ok(init) => match spec_parse_op(toks.last(), num) {
                Ok(o) => Ok(init.push(o)),
                Err(e) => Err(e),
            },
        }
    }
}

/// A failing token makes the whole operand list fail with its error.
proof fn lemma_parse_ops_err(toks: Seq<Seq<char>>, num: u64, i: int)
    requires
        0 <= i < toks.len(),
        spec_parse_ops(toks.take(i), num) is Ok,
        spec_parse_op(toks[i], num) is Err,
    ensures
        spec_parse_ops(toks, num) == Result::<Seq<OpView>, ErrView>::Err(
            spec_parse_op(toks[i], num)->Err_0,
        ),
    decreases toks.len(),
{
    if toks.len() == i + 1 {
        assert(toks.drop_last() =~= toks.take(i));
        assert(toks.last() == toks[i]);
    } else {
        assert(toks.drop_last().take(i) =~= toks.take(i));
        assert(toks.drop_last()[i] == toks[i]);
        lemma_parse_ops_err(toks.drop_last(), num, i);
    }
}

/// Parsing a whole line: the mnemonic keyword (`end` clears it; an unknown
/// keyword is an error), then each operand token.
/// The mnemonic step of parsing a line: no token or `end` mean no mnemonic,
/// an unrecognized keyword is an error.
pub open spec fn spec_line_mnemonic(l: crate::line::LineView) -> Result<Option<Mnemonic>, ErrView> {
    match l.mnu {
        None => Ok(None),
        Some(m) => {
            if text::lower_seq(m) == "end"@ {
                Ok(None)
            } else {
                match spec_mnemonic(m) {
                    Some(x) => Ok(Some(x)),
                    None => Err(ErrView::UnknownMnemonic { line: l.num, name: m }),
                }
            }
        },
    }
}

pub open spec fn spec_from_line(l: crate::line::LineView, offset: u16) -> Result<
    InsView,
    ErrView,
> {
    match spec_line_mnemonic(l) {
        Err(e) => Err(e),
        Ok(mne) => match spec_parse_ops(l.ops, l.num) {
            Err(e) => Err(e),
            Ok(ops) => Ok(
                InsView { offset, num: l.num, label: l.label, mnemonic: mne, ops },
            ),
        },
    }
}

impl Instruction {
    /// Parse a tokenized line into an instruction at the given running
    /// offset.
    pub fn from_line(line: Line, offset: u16) -> (r: Result<Instruction, AsmError>)
        ensures
            match r {
                Ok(ins) => spec_from_line(line@, offset) matches Ok(v) && ins@ == v,
                Err(e) => spec_from_line(line@, offset) matches Err(ev) && e@ == ev,
            },
    {
        let mne: Option<Mnemonic> = match &line.mnu {
            None => None,
            Some(m) => {
                if text::eq_lower(m.as_str(), "end") {
                    None
                } else {
                    match parse_mnemonic(m.as_str()) {
                        Some(x) => Some(x),
                        None => {
                            return Err(
                                AsmError::UnknownMnemonic { line: line.num, name: m.clone() },
                            );
                        },
                    }
                }
            },
        };
        let mut ops: Vec<OpType> = Vec::new();
        let mut i: usize = 0;
        while i < line.ops.len()
            invariant
                0 <= i <= line.ops@.len(),
                line@.ops.len() == line.ops@.len(),
                spec_line_mnemonic(line@) == Ok::<Option<Mnemonic>, ErrView>(mne),
                spec_parse_ops(line@.ops.take(i as int), line.num) matches Ok(v) && ops_view(
                    ops@,
                ) =~= v,
            decreases line.ops@.len() - i,
        {
            let tok = line.ops[i].clone();
            assert(tok@ == line@.ops[i as int]);
            match parse_op(tok, line.num) {
                Ok(o) => {
                    ops.push(o);
                },
                Err(e) => {
                    proof {
                        lemma_parse_ops_err(line@.ops, line.num, i as int);
                    }
                    return Err(e);
                },
            }
            proof {
                assert(line@.ops.take(i + 1).drop_last() =~= line@.ops.take(i as int));
                assert(line@.ops.take(i + 1).last() == line@.ops[i as int]);
            }
            i += 1;
        }
        proof {
            assert(line@.ops.take(line.ops@.len() as int) =~= line@.ops);
        }
        Ok(Instruction { offset, num: line.num, label: line.label, mnemonic: mne, ops })
    }

    /// Whether this instruction's origin operand, if any, is well shaped.
    pub fn origin_ok(&self) -> (b: bool)
        ensures
            b == self@.spec_origin_shape_ok(),
    {
        let is_origin = match self.mnemonic {
            Some(Mnemonic::Org) | Some(Mnemonic::Cseg) | Some(Mnemonic::Dseg) => true,
            _ => false,
        };
        if !is_origin || self.ops.len() < 1 {
            return true;
        }
        match &self.ops[0] {
            OpType::Addr(_) => true,
            OpType::Addr16(_) => true,
            OpType::Label(_) => self.ops.len() >= 2 && match &self.ops[1] {
                OpType::Addr(_) => true,
                OpType::Addr16(_) => true,
                _ => false,
            },
            _ => false,
        }
    }

    /// The new section's origin address when this instruction is a
    /// well-shaped section-opening directive, `None` otherwise.
    pub fn is_new_section(&self) -> (r: Option<u16>)
        requires
            self@.spec_origin_shape_ok(),
        ensures
            r == self@.spec_new_section(),
    {
        let is_origin = match self.mnemonic {
            Some(Mnemonic::Org) | Some(Mnemonic::Cseg) | Some(Mnemonic::Dseg) => true,
            _ => false,
        };
        if !is_origin || self.ops.len() < 1 {
            return None;
        }
        match &self.ops[0] {
            OpType::Addr(d) => Some(*d as u16),
            OpType::Addr16(d) => Some(*d),
            OpType::Label(_) => match &self.ops[1] {
                OpType::Addr(d) => Some(*d as u16),
                OpType::Addr16(d) => Some(*d),
                _ => None,
            },
            _ => None,
        }
    }
}

impl Clone for OpType {
    /// A clone is the same operand.
    fn clone(&self) -> (r: Self)
        ensures
            r == *self,
    {
        match self {
            OpType::A => OpType::A,
            OpType::R0 => OpType::R0,
            OpType::R1 => OpType::R1,
            OpType::R2 => OpType::R2,
            OpType::R3 => OpType::R3,
            OpType::R4 => OpType::R4,
            OpType::R5 => OpType::R5,
            OpType::R6 => OpType::R6,
            OpType::R7 => OpType::R7,
            OpType::Data(d) => OpType::Data(*d),
            OpType::Data16(d) => OpType::Data16(*d),
            OpType::Addr(d) => OpType::Addr(*d),
            OpType::Addr16(d) => OpType::Addr16(*d),
            OpType::AtR0 => OpType::AtR0,
            OpType::AtR1 => OpType::AtR1,
            OpType::C => OpType::C,
            OpType::Label(l) => OpType::Label(l.clone()),
            OpType::Dptr => OpType::Dptr,
            OpType::AtDptr => OpType::AtDptr,
            OpType::AB => OpType::AB,
            OpType::AtADptr => OpType::AtADptr,
            OpType::AtAPc => OpType::AtAPc,
        }
    }
}

/// A label table as the contracts see it: names as character sequences.
pub open spec fn table_view(t: Seq<(String, u16)>) -> Seq<(Seq<char>, u16)> {
    t.map_values(|p: (String, u16)| (p.0@, p.1))
}

/// First match wins: the address of the first table entry whose name equals
/// `key`, case-insensitively.
pub open spec fn spec_lookup(t: Seq<(Seq<char>, u16)>, key: Seq<char>) -> Option<u16>
    decreases t.len(),
{
    if t.len() == 0 {
        None
    } else if text::lower_seq(t[0].0) == text::lower_seq(key) {
        Some(t[0].1)
    } else {
        spec_lookup(t.drop_first(), key)
    }
}

proof fn lemma_lookup_at(t: Seq<(Seq<char>, u16)>, key: Seq<char>, k: int)
    requires
        0 <= k < t.len(),
        forall|j: int|
            0 <= j < k ==> text::lower_seq(#[trigger] t[j].0) != text::lower_seq(key),
        text::lower_seq(t[k].0) == text::lower_seq(key),
    ensures
        spec_lookup(t, key) == Some(t[k].1),
    decreases k,
{
    if k > 0 {
        lemma_lookup_at(t.drop_first(), key, k - 1);
    }
}

proof fn lemma_lookup_none(t: Seq<(Seq<char>, u16)>, key: Seq<char>)
    requires
        forall|j: int|
            0 <= j < t.len() ==> text::lower_seq(#[trigger] t[j].0) != text::lower_seq(key),
    ensures
        spec_lookup(t, key) is None,
    decreases t.len(),
{
    if t.len() > 0 {
        lemma_lookup_none(t.drop_first(), key);
    }
}

/// Find the first table entry whose name matches `key`, case-insensitively.
fn lookup_label(table: &Vec<(String, u16)>, key: &str) -> (r: Option<u16>)
    ensures
        r == spec_lookup(table_view(table@), key@),
{
    let ghost tv = table_view(table@);
    let n = table.len();
    for k in 0..n
        invariant
            n == table@.len(),
            tv == table_view(table@),
            forall|j: int|
                0 <= j < k ==> text::lower_seq(#[trigger] tv[j].0) != text::lower_seq(key@),
    {
        if text::eq_ignore_case(table[k].0.as_str(), key) {
            proof {
                lemma_lookup_at(tv, key@, k as int);
            }
            return Some(table[k].1);
        }
        assert(text::lower_seq(tv[k as int].0) != text::lower_seq(key@));
    }
    proof {
        lemma_lookup_none(tv, key@);
    }
    None
}

/// Resolve one operand against the label table: a label reference other
/// than the `AT` sentinel becomes the 16-bit address of its key (text up to
/// the first `.`) plus the hex addend after the dot, wrapped to 16 bits; a
/// key with no table entry is an error; every other operand is untouched.
pub open spec fn spec_resolve_op(o: OpView, t: Seq<(Seq<char>, u16)>, num: u64) -> Result<
    OpView,
    ErrView,
> {
    match o {
        OpView::Label(full) => {
            if text::lower_seq(full) == "at"@ {
                Ok(o)
            } else {
                let d = text::first_idx(full, '.');
                let key = full.take(d);
                match spec_lookup(t, key) {
                    None => Err(ErrView::UnresolvedLabel { line: num, name: key }),
                    Some(addr) => {
                        let add: int = if d < full.len() {
                            match text::spec_parse_u16(full.skip(d + 1), 16) {
                                Some(v) => if v <= 0xFF {
                                    v as int
                                } else {
                                    0
                                },
                                None => 0,
                            }
                        } else {
                            0
                        };
                        Ok(OpView::Addr16(((addr + add) % 0x10000) as u16))
                    },
                }
            }
        },
        _ => Ok(o),
    }
}

/// Resolve one operand against the label table.
fn resolve_op(o: &OpType, table: &Vec<(String, u16)>, num: u64) -> (r: Result<OpType, AsmError>)
    ensures
        match r {
            Ok(n) => spec_resolve_op(o@, table_view(table@), num) matches Ok(v) && n@ == v,
            Err(e) => spec_resolve_op(o@, table_view(table@), num) matches Err(ev) && e@ == ev,
        },
{
    match o {
        OpType::Label(full) => {
            proof {
                reveal_strlit("at");
                assert(text::lower_seq("at"@) =~= "at"@);
            }
            if text::eq_ignore_case(full.as_str(), "at") {
                return Ok(OpType::Label(full.clone()));
            }
            let s = full.as_str();
            let n = s.unicode_len();
            let d = text::find_char(s, '.');
            let key = s.substring_char(0, d);
            proof {
                assert(key@ =~= full@.take(d as int));
            }
            match lookup_label(table, key) {
                None => Err(
                    AsmError::UnresolvedLabel { line: num, name: key.to_owned() },
                ),
                Some(addr) => {
                    let add: u16 = if d < n {
                        let rem = s.substring_char(d + 1, n);
                        proof {
                            assert(rem@ =~= full@.skip(d + 1));
                        }
                        match text::parse_u16(rem, 16) {
                            Some(v) => if v <= 0xFF {
                                v
                            } else {
                                0
                            },
                            None => 0,
                        }
                    } else {
                        0
                    };
                    Ok(OpType::Addr16(((addr as u32 + add as u32) % 0x10000) as u16))
                },
            }
        },
        _ => Ok(o.clone()),
    }
}

/// Operand resolution across a whole operand list; the first failure is the
/// instruction's error.
pub open spec fn spec_fix_ops(ops: Seq<OpView>, t: Seq<(Seq<char>, u16)>, num: u64) -> Result<
    Seq<OpView>,
    ErrView,
>
    decreases ops.len(),
{
    if ops.len() == 0 {
        Ok(Seq::<OpView>::empty())
    } else {
        match spec_fix_ops(ops.drop_last(), t, num) {
            Err(e) => Err(e),
            Ok(init) => match spec_resolve_op(ops.last(), t, num) {
                Ok(o) => Ok(init.push(o)),
                Err(e) => Err(e),
            },
        }
    }
}

proof fn lemma_fix_ops_err(ops: Seq<OpView>, t: Seq<(Seq<char>, u16)>, num: u64, i: int)
    requires
        0 <= i < ops.len(),
        spec_fix_ops(ops.take(i), t, num) is Ok,
        spec_resolve_op(ops[i], t, num) is Err,
    ensures
        spec_fix_ops(ops, t, num) == Result::<Seq<OpView>, ErrView>::Err(
            spec_resolve_op(ops[i], t, num)->Err_0,
        ),
    decreases ops.len(),
{
    if ops.len() == i + 1 {
        assert(ops.drop_last() =~= ops.take(i));
        assert(ops.last() == ops[i]);
    } else {
        assert(ops.drop_last().take(i) =~= ops.take(i));
        assert(ops.drop_last()[i] == ops[i]);
        lemma_fix_ops_err(ops.drop_last(), t, num, i);
    }
}

impl Instruction {
    /// Rewrite every label-reference operand into the absolute address it
    /// resolves to. On an unresolved name the instruction is left unchanged
    /// and the error names the failing key.
    pub fn fix_label(&mut self, table: &Vec<(String, u16)>) -> (r: Result<(), AsmError>)
        ensures
            final(self).offset == old(self).offset,
            final(self).num == old(self).num,
            final(self).label == old(self).label,
            final(self).mnemonic == old(self).mnemonic,
            old(self)@.spec_fix_skip() ==> r is Ok && *final(self) == *old(self),
            !old(self)@.spec_fix_skip() ==> match r {
                Ok(_) => spec_fix_ops(old(self)@.ops, table_view(table@), old(self).num) matches
                    Ok(v) && final(self)@.ops =~= v,
                Err(e) => spec_fix_ops(old(self)@.ops, table_view(table@), old(self).num) matches
                    Err(ev) && e@ == ev && *final(self) == *old(self),
            },
    {
        match self.mnemonic {
            None => {
                return Ok(());
            },
            Some(Mnemonic::Cseg) | Some(Mnemonic::Db) | Some(Mnemonic::Org) | Some(
                Mnemonic::Dseg,
            ) => {
                return Ok(());
            },
            _ => {},
        }
        let mut new_ops: Vec<OpType> = Vec::new();
        let n = self.ops.len();
        let ghost tv = table_view(table@);
        for i in 0..n
            invariant
                n == self.ops@.len(),
                tv == table_view(table@),
                self == old(self),
                !old(self)@.spec_fix_skip(),
                spec_fix_ops(self@.ops.take(i as int), tv, self.num) matches Ok(v) && ops_view(
                    new_ops@,
                ) =~= v,
        {
            match resolve_op(&self.ops[i], table, self.num) {
                Ok(o) => {
                    new_ops.push(o);
                },
                Err(e) => {
                    proof {
                        lemma_fix_ops_err(self@.ops, tv, self.num, i as int);
                    }
                    return Err(e);
                },
            }
            proof {
                assert(self@.ops.take(i + 1).drop_last() =~= self@.ops.take(i as int));
                assert(self@.ops.take(i + 1).last() == self@.ops[i as int]);
            }
        }
        proof {
            assert(self@.ops.take(n as int) =~= self@.ops);
        }
        self.ops = new_ops;
        Ok(())
    }
}


impl InsView {
    /// Encoded length in bytes. Directives contribute 0; `DB` the byte
    /// length of its literal; `DS` its operand value; long calls/jumps and
    /// compare-and-jump exactly 3; everything else one opcode byte plus the
    /// bytes of its operands.
    pub open spec fn spec_len(self) -> int {
        match self.mnemonic {
            None => 0,
            Some(m) => {
                if m is Org || m is Cseg || m is Dseg {
                    0
                } else if m is Db && 1 <= self.ops.len() <= 2 && self.ops[0] is Label {
                    db_len(self.ops[0]->Label_0)
                } else if m is Ds && self.ops.len() == 1 && self.ops[0] is Addr {
                    self.ops[0]->Addr_0 as int
                } else if m is Lcall || m is Ljmp || m is Cjne {
                    3
                } else {
                    1 + (if self.ops.len() > 0 {
                        op0_len(self.ops[0])
                    } else {
                        0
                    }) + (if self.ops.len() > 1 {
                        op1_len(self.ops[1], m is Mov && self.ops[0] is Dptr)
                    } else {
                        0
                    })
                }
            },
        }
    }

    /// The signed 8-bit displacement that reaches `addr` from the
    /// instruction following this one, or an error when `addr` lies more
    /// than 128 bytes back.
    pub open spec fn spec_short_jmp(self, addr: u16) -> Result<u8, ErrView> {
        if addr + 0x7F < self.offset + self.spec_len() {
            Err(ErrView::AddressOutOfRange { line: self.num })
        } else {
            Ok(((addr + 0x100 - (self.offset + self.spec_len())) % 0x100) as u8)
        }
    }

    /// The arity check every encoder starts with: an error when the operand
    /// count is outside `min..=max`.
    pub open spec fn spec_arity(self, m: Mnemonic, min: int, max: int) -> Option<ErrView> {
        if self.ops.len() < min {
            Some(ErrView::TooFewOperands { line: self.num, mnemonic: m })
        } else if self.ops.len() > max {
            Some(ErrView::TooManyOperands { line: self.num, mnemonic: m })
        } else {
            None
        }
    }

    /// Opcode byte followed by a relative displacement to `a`.
    pub open spec fn spec_rel1(self, op: u8, a: u16) -> Result<Seq<u8>, ErrView> {
        match self.spec_short_jmp(a) {
            Ok(j) => Ok(seq![op, j]),
            Err(e) => Err(e),
        }
    }

    /// Opcode byte, one middle byte, then a relative displacement to `a`.
    pub open spec fn spec_rel2(self, op: u8, mid: u8, a: u16) -> Result<Seq<u8>, ErrView> {
        match self.spec_short_jmp(a) {
            Ok(j) => Ok(seq![op, mid, j]),
            Err(e) => Err(e),
        }
    }

    /// `CJNE`: compare and jump if not equal.
    pub open spec fn spec_cjne(self) -> Result<Seq<u8>, ErrView> {
        match self.spec_arity(Mnemonic::Cjne, 3, 3) {
            Some(e) => Err(e),
            None => match (self.ops[0], self.ops[1], self.ops[2]) {
                (OpView::A, OpView::Data(d), OpView::Addr16(a)) => self.spec_rel2(0xB4, d, a),
                (OpView::A, OpView::Addr(d), OpView::Addr16(a)) => self.spec_rel2(0xB5, d, a),
                (OpView::AtR0, OpView::Data(d), OpView::Addr16(a)) => self.spec_rel2(0xB6, d, a),
                (OpView::AtR1, OpView::Data(d), OpView::Addr16(a)) => self.spec_rel2(0xB7, d, a),
                (OpView::R0, OpView::Data(d), OpView::Addr16(a)) => self.spec_rel2(0xB8, d, a),
                (OpView::R1, OpView::Data(d), OpView::Addr16(a)) => self.spec_rel2(0xB9, d, a),
                (OpView::R2, OpView::Data(d), OpView::Addr16(a)) => self.spec_rel2(0xBA, d, a),
                (OpView::R3, OpView::Data(d), OpView::Addr16(a)) => self.spec_rel2(0xBB, d, a),
                (OpView::R4, OpView::Data(d), OpView::Addr16(a)) => self.spec_rel2(0xBC, d, a),
                (OpView::R5, OpView::Data(d), OpView::Addr16(a)) => self.spec_rel2(0xBD, d, a),
                (OpView::R6, OpView::Data(d), OpView::Addr16(a)) => self.spec_rel2(0xBE, d, a),
                (OpView::R7, OpView::Data(d), OpView::Addr16(a)) => self.spec_rel2(0xBF, d, a),
                _ => Err(ErrView::InvalidOperands { line: self.num, mnemonic: Mnemonic::Cjne, ops: self.ops }),
            },
        }
    }

    /// `RET`: return from subroutine.
    pub open spec fn spec_ret(self) -> Result<Seq<u8>, ErrView> {
        match self.spec_arity(Mnemonic::Ret, 0, 0) {
            Some(e) => Err(e),
            None => Ok(seq![0x22u8]),
        }
    }

    /// `NOP`: no operation.
    pub open spec fn spec_nop(self) -> Result<Seq<u8>, ErrView> {
        match self.spec_arity(Mnemonic::Nop, 0, 0) {
            Some(e) => Err(e),
            None => Ok(seq![0x00u8]),
        }
    }

    /// `RETI`: return from interrupt.
    pub open spec fn spec_reti(self) -> Result<Seq<u8>, ErrView> {
        match self.spec_arity(Mnemonic::Reti, 0, 0) {
            Some(e) => Err(e),
            None => Ok(seq![0x32u8]),
        }
    }

    /// `CLR`: clear accumulator, bit, or carry.
    pub open spec fn spec_clr(self) -> Result<Seq<u8>, ErrView> {
        match self.spec_arity(Mnemonic::Clr, 1, 1) {
            Some(e) => Err(e),
            None => match self.ops[0] {
                OpView::A => Ok(seq![0xE4u8]),
                OpView::Addr(d) => Ok(seq![0xC2u8, d]),
                OpView::C => Ok(seq![0xC3u8]),
                _ => Err(ErrView::InvalidOperands { line: self.num, mnemonic: Mnemonic::Clr, ops: self.ops }),
            },
        }
    }

    /// `SETB`: set bit or carry.
    pub open spec fn spec_setb(self) -> Result<Seq<u8>, ErrView> {
        match self.spec_arity(Mnemonic::Setb, 1, 1) {
            Some(e) => Err(e),
            None => match self.ops[0] {
                OpView::Addr(d) => Ok(seq![0xD2u8, d]),
                OpView::C => Ok(seq![0xD3u8]),
                _ => Err(ErrView::InvalidOperands { line: self.num, mnemonic: Mnemonic::Setb, ops: self.ops }),
            },
        }
    }

    /// `CPL`: complement bit, carry, or accumulator.
    pub open spec fn spec_cpl(self) -> Result<Seq<u8>, ErrView> {
        match self.spec_arity(Mnemonic::Cpl, 1, 1) {
            Some(e) => Err(e),
            None => match self.ops[0] {
                OpView::Addr(d) => Ok(seq![0xB2u8, d]),
                OpView::C => Ok(seq![0xB3u8]),
                OpView::A => Ok(seq![0xF4u8]),
                _ => Err(ErrView::InvalidOperands { line: self.num, mnemonic: Mnemonic::Cpl, ops: self.ops }),
            },
        }
    }

    /// `DJNZ`: decrement and jump if not zero.
    pub open spec fn spec_djnz(self) -> Result<Seq<u8>, ErrView> {
        match self.spec_arity(Mnemonic::Djnz, 2, 2) {
            Some(e) => Err(e),
            None => match (self.ops[0], self.ops[1]) {
                (OpView::R0, OpView::Addr16(d)) => self.spec_rel1(0xD8, d),
                (OpView::R1, OpView::Addr16(d)) => self.spec_rel1(0xD9, d),
                (OpView::R2, OpView::Addr16(d)) => self.spec_rel1(0xDA, d),
                (OpView::R3, OpView::Addr16(d)) => self.spec_rel1(0xDB, d),
                (OpView::R4, OpView::Addr16(d)) => self.spec_rel1(0xDC, d),
                (OpView::R5, OpView::Addr16(d)) => self.spec_rel1(0xDD, d),
                (OpView::R6, OpView::Addr16(d)) => self.spec_rel1(0xDE, d),
                (OpView::R7, OpView::Addr16(d)) => self.spec_rel1(0xDF, d),
                (OpView::Addr(d), OpView::Addr16(a)) => self.spec_rel2(0xD5, d, a),
                _ => Err(ErrView::InvalidOperands { line: self.num, mnemonic: Mnemonic::Djnz, ops: self.ops }),
            },
        }
    }

    /// `INC`: increment.
    pub open spec fn spec_inc(self) -> Result<Seq<u8>, ErrView> {
        match self.spec_arity(Mnemonic::Inc, 1, 1) {
            Some(e) => Err(e),
            None => match self.ops[0] {
                OpView::A => Ok(seq![0x04u8]),
                OpView::Addr(d) => Ok(seq![0x05u8, d]),
                OpView::AtR0 => Ok(seq![0x06u8]),
                OpView::AtR1 => Ok(seq![0x07u8]),
                OpView::R0 => Ok(seq![0x08u8]),
                OpView::R1 => Ok(seq![0x09u8]),
                OpView::R2 => Ok(seq![0x0Au8]),
                OpView::R3 => Ok(seq![0x0Bu8]),
                OpView::R4 => Ok(seq![0x0Cu8]),
                OpView::R5 => Ok(seq![0x0Du8]),
                OpView::R6 => Ok(seq![0x0Eu8]),
                OpView::R7 => Ok(seq![0x0Fu8]),
                OpView::Dptr => Ok(seq![0xA3u8]),
                _ => Err(ErrView::InvalidOperands { line: self.num, mnemonic: Mnemonic::Inc, ops: self.ops }),
            },
        }
    }

    /// `DEC`: decrement.
    pub open spec fn spec_dec(self) -> Result<Seq<u8>, ErrView> {
        match self.spec_arity(Mnemonic::Dec, 1, 1) {
            Some(e) => Err(e),
            None => match self.ops[0] {
                OpView::A => Ok(seq![0x14u8]),
                OpView::Addr(d) => Ok(seq![0x15u8, d]),
                OpView::AtR0 => Ok(seq![0x16u8]),
                OpView::AtR1 => Ok(seq![0x17u8]),
                OpView::R0 => Ok(seq![0x18u8]),
                OpView::R1 => Ok(seq![0x19u8]),
                OpView::R2 => Ok(seq![0x1Au8]),
                OpView::R3 => Ok(seq![0x1Bu8]),
                OpView::R4 => Ok(seq![0x1Cu8]),
                OpView::R5 => Ok(seq![0x1Du8]),
                OpView::R6 => Ok(seq![0x1Eu8]),
                OpView::R7 => Ok(seq![0x1Fu8]),
                _ => Err(ErrView::InvalidOperands { line: self.num, mnemonic: Mnemonic::Dec, ops: self.ops }),
            },
        }
    }

    /// `POP`: pop from stack to a direct address.
    pub open spec fn spec_pop(self) -> Result<Seq<u8>, ErrView> {
        match self.spec_arity(Mnemonic::Pop, 1, 1) {
            Some(e) => Err(e),
            None => match self.ops[0] {
                OpView::Addr(d) => Ok(seq![0xD0u8, d]),
                _ => Err(ErrView::InvalidOperands { line: self.num, mnemonic: Mnemonic::Pop, ops: self.ops }),
            },
        }
    }

    /// `PUSH`: push a direct address onto the stack.
    pub open spec fn spec_push(self) -> Result<Seq<u8>, ErrView> {
        match self.spec_arity(Mnemonic::Push, 1, 1) {
            Some(e) => Err(e),
            None => match self.ops[0] {
                OpView::Addr(d) => Ok(seq![0xC0u8, d]),
                _ => Err(ErrView::InvalidOperands { line: self.num, mnemonic: Mnemonic::Push, ops: self.ops }),
            },
        }
    }

    /// `ADD`: add to accumulator.
    pub open spec fn spec_add(self) -> Result<Seq<u8>, ErrView> {
        match self.spec_arity(Mnemonic::Add, 2, 2) {
            Some(e) => Err(e),
            None => match (self.ops[0], self.ops[1]) {
                (OpView::A, OpView::Data(d)) => Ok(seq![0x24u8, d]),
                (OpView::A, OpView::Addr(d)) => Ok(seq![0x25u8, d]),
                (OpView::A, OpView::AtR0) => Ok(seq![0x26u8]),
                (OpView::A, OpView::AtR1) => Ok(seq![0x27u8]),
                (OpView::A, OpView::R0) => Ok(seq![0x28u8]),
                (OpView::A, OpView::R1) => Ok(seq![0x29u8]),
                (OpView::A, OpView::R2) => Ok(seq![0x2Au8]),
                (OpView::A, OpView::R3) => Ok(seq![0x2Bu8]),
                (OpView::A, OpView::R4) => Ok(seq![0x2Cu8]),
                (OpView::A, OpView::R5) => Ok(seq![0x2Du8]),
                (OpView::A, OpView::R6) => Ok(seq![0x2Eu8]),
                (OpView::A, OpView::R7) => Ok(seq![0x2Fu8]),
                _ => Err(ErrView::InvalidOperands { line: self.num, mnemonic: Mnemonic::Add, ops: self.ops }),
            },
        }
    }

    /// `ADDC`: add with carry.
    pub open spec fn spec_addc(self) -> Result<Seq<u8>, ErrView> {
        match self.spec_arity(Mnemonic::Addc, 2, 2) {
            Some(e) => Err(e),
            None => match (self.ops[0], self.ops[1]) {
                (OpView::A, OpView::Data(d)) => Ok(seq![0x34u8, d]),
                (OpView::A, OpView::Addr(d)) => Ok(seq![0x35u8, d]),
                (OpView::A, OpView::AtR0) => Ok(seq![0x36u8]),
                (OpView::A, OpView::AtR1) => Ok(seq![0x37u8]),
                (OpView::A, OpView::R0) => Ok(seq![0x38u8]),
                (OpView::A, OpView::R1) => Ok(seq![0x39u8]),
                (OpView::A, OpView::R2) => Ok(seq![0x3Au8]),
                (OpView::A, OpView::R3) => Ok(seq![0x3Bu8]),
                (OpView::A, OpView::R4) => Ok(seq![0x3Cu8]),
                (OpView::A, OpView::R5) => Ok(seq![0x3Du8]),
                (OpView::A, OpView::R6) => Ok(seq![0x3Eu8]),
                (OpView::A, OpView::R7) => Ok(seq![0x3Fu8]),
                _ => Err(ErrView::InvalidOperands { line: self.num, mnemonic: Mnemonic::Addc, ops: self.ops }),
            },
        }
    }

    /// `ORL`: logical OR.
    pub open spec fn spec_orl(self) -> Result<Seq<u8>, ErrView> {
        match self.spec_arity(Mnemonic::Orl, 2, 2) {
            Some(e) => Err(e),
            None => match (self.ops[0], self.ops[1]) {
                (OpView::Addr(a), OpView::A) => Ok(seq![0x42u8, a]),
                (OpView::Addr(a), OpView::Data(d)) => Ok(seq![0x43u8, a, d]),
                (OpView::A, OpView::Data(d)) => Ok(seq![0x44u8, d]),
                (OpView::A, OpView::Addr(d)) => Ok(seq![0x45u8, d]),
                (OpView::A, OpView::AtR0) => Ok(seq![0x46u8]),
                (OpView::A, OpView::AtR1) => Ok(seq![0x47u8]),
                (OpView::A, OpView::R0) => Ok(seq![0x48u8]),
                (OpView::A, OpView::R1) => Ok(seq![0x49u8]),
                (OpView::A, OpView::R2) => Ok(seq![0x4Au8]),
                (OpView::A, OpView::R3) => Ok(seq![0x4Bu8]),
                (OpView::A, OpView::R4) => Ok(seq![0x4Cu8]),
                (OpView::A, OpView::R5) => Ok(seq![0x4Du8]),
                (OpView::A, OpView::R6) => Ok(seq![0x4Eu8]),
                (OpView::A, OpView::R7) => Ok(seq![0x4Fu8]),
                (OpView::C, OpView::Addr(d)) => Ok(seq![0x72u8, d]),
                _ => Err(ErrView::InvalidOperands { line: self.num, mnemonic: Mnemonic::Orl, ops: self.ops }),
            },
        }
    }

    /// `ANL`: logical AND.
    pub open spec fn spec_anl(self) -> Result<Seq<u8>, ErrView> {
        match self.spec_arity(Mnemonic::Anl, 2, 2) {
            Some(e) => Err(e),
            None => match (self.ops[0], self.ops[1]) {
                (OpView::Addr(a), OpView::A) => Ok(seq![0x52u8, a]),
                (OpView::Addr(a), OpView::Data(d)) => Ok(seq![0x53u8, a, d]),
                (OpView::A, OpView::Data(d)) => Ok(seq![0x54u8, d]),
                (OpView::A, OpView::Addr(d)) => Ok(seq![0x55u8, d]),
                (OpView::A, OpView::AtR0) => Ok(seq![0x56u8]),
                (OpView::A, OpView::AtR1) => Ok(seq![0x57u8]),
                (OpView::A, OpView::R0) => Ok(seq![0x58u8]),
                (OpView::A, OpView::R1) => Ok(seq![0x59u8]),
                (OpView::A, OpView::R2) => Ok(seq![0x5Au8]),
                (OpView::A, OpView::R3) => Ok(seq![0x5Bu8]),
                (OpView::A, OpView::R4) => Ok(seq![0x5Cu8]),
                (OpView::A, OpView::R5) => Ok(seq![0x5Du8]),
                (OpView::A, OpView::R6) => Ok(seq![0x5Eu8]),
                (OpView::A, OpView::R7) => Ok(seq![0x5Fu8]),
                (OpView::C, OpView::Addr(d)) => Ok(seq![0x82u8, d]),
                _ => Err(ErrView::InvalidOperands { line: self.num, mnemonic: Mnemonic::Anl, ops: self.ops }),
            },
        }
    }

    /// `SUBB`: subtract with borrow.
    pub open spec fn spec_subb(self) -> Result<Seq<u8>, ErrView> {
        match self.spec_arity(Mnemonic::Subb, 2, 2) {
            Some(e) => Err(e),
            None => match (self.ops[0], self.ops[1]) {
                (OpView::A, OpView::Data(d)) => Ok(seq![0x94u8, d]),
                (OpView::A, OpView::Addr(d)) => Ok(seq![0x95u8, d]),
                (OpView::A, OpView::AtR0) => Ok(seq![0x96u8]),
                (OpView::A, OpView::AtR1) => Ok(seq![0x97u8]),
                (OpView::A, OpView::R0) => Ok(seq![0x98u8]),
                (OpView::A, OpView::R1) => Ok(seq![0x99u8]),
                (OpView::A, OpView::R2) => Ok(seq![0x9Au8]),
                (OpView::A, OpView::R3) => Ok(seq![0x9Bu8]),
                (OpView::A, OpView::R4) => Ok(seq![0x9Cu8]),
                (OpView::A, OpView::R5) => Ok(seq![0x9Du8]),
                (OpView::A, OpView::R6) => Ok(seq![0x9Eu8]),
                (OpView::A, OpView::R7) => Ok(seq![0x9Fu8]),
                _ => Err(ErrView::InvalidOperands { line: self.num, mnemonic: Mnemonic::Subb, ops: self.ops }),
            },
        }
    }

    /// `XCH`: exchange accumulator with operand.
    pub open spec fn spec_xch(self) -> Result<Seq<u8>, ErrView> {
        match self.spec_arity(Mnemonic::Xch, 2, 2) {
            Some(e) => Err(e),
            None => match (self.ops[0], self.ops[1]) {
                (OpView::A, OpView::Addr(d)) => Ok(seq![0xC5u8, d]),
                (OpView::A, OpView::AtR0) => Ok(seq![0xC6u8]),
                (OpView::A, OpView::AtR1) => Ok(seq![0xC7u8]),
                (OpView::A, OpView::R0) => Ok(seq![0xC8u8]),
                (OpView::A, OpView::R1) => Ok(seq![0xC9u8]),
                (OpView::A, OpView::R2) => Ok(seq![0xCAu8]),
                (OpView::A, OpView::R3) => Ok(seq![0xCBu8]),
                (OpView::A, OpView::R4) => Ok(seq![0xCCu8]),
                (OpView::A, OpView::R5) => Ok(seq![0xCDu8]),
                (OpView::A, OpView::R6) => Ok(seq![0xCEu8]),
                (OpView::A, OpView::R7) => Ok(seq![0xCFu8]),
                _ => Err(ErrView::InvalidOperands { line: self.num, mnemonic: Mnemonic::Xch, ops: self.ops }),
            },
        }
    }

    /// `XRL`: logical exclusive OR.
    pub open spec fn spec_xrl(self) -> Result<Seq<u8>, ErrView> {
        match self.spec_arity(Mnemonic::Xrl, 2, 2) {
            Some(e) => Err(e),
            None => match (self.ops[0], self.ops[1]) {
                (OpView::Addr(d), OpView::A) => Ok(seq![0x62u8, d]),
                (OpView::Addr(a), OpView::Data(d)) => Ok(seq![0x63u8, a, d]),
                (OpView::A, OpView::Data(d)) => Ok(seq![0x64u8, d]),
                (OpView::A, OpView::Addr(d)) => Ok(seq![0x65u8, d]),
                (OpView::A, OpView::AtR0) => Ok(seq![0x66u8]),
                (OpView::A, OpView::AtR1) => Ok(seq![0x67u8]),
                (OpView::A, OpView::R0) => Ok(seq![0x68u8]),
                (OpView::A, OpView::R1) => Ok(seq![0x69u8]),
                (OpView::A, OpView::R2) => Ok(seq![0x6Au8]),
                (OpView::A, OpView::R3) => Ok(seq![0x6Bu8]),
                (OpView::A, OpView::R4) => Ok(seq![0x6Cu8]),
                (OpView::A, OpView::R5) => Ok(seq![0x6Du8]),
                (OpView::A, OpView::R6) => Ok(seq![0x6Eu8]),
                (OpView::A, OpView::R7) => Ok(seq![0x6Fu8]),
                _ => Err(ErrView::InvalidOperands { line: self.num, mnemonic: Mnemonic::Xrl, ops: self.ops }),
            },
        }
    }

    /// `MOVX`: move to/from external data memory.
    pub open spec fn spec_movx(self) -> Result<Seq<u8>, ErrView> {
        match self.spec_arity(Mnemonic::Movx, 2, 2) {
            Some(e) => Err(e),
            None => match (self.ops[0], self.ops[1]) {
                (OpView::A, OpView::AtDptr) => Ok(seq![0xE0u8]),
                (OpView::A, OpView::AtR0) => Ok(seq![0xE2u8]),
                (OpView::A, OpView::AtR1) => Ok(seq![0xE3u8]),
                (OpView::AtDptr, OpView::A) => Ok(seq![0xF0u8]),
                (OpView::AtR0, OpView::A) => Ok(seq![0xF2u8]),
                (OpView::AtR1, OpView::A) => Ok(seq![0xF3u8]),
                _ => Err(ErrView::InvalidOperands { line: self.num, mnemonic: Mnemonic::Movx, ops: self.ops }),
            },
        }
    }

    /// `MOVC`: move code byte to accumulator.
    pub open spec fn spec_movc(self) -> Result<Seq<u8>, ErrView> {
        match self.spec_arity(Mnemonic::Movc, 2, 2) {
            Some(e) => Err(e),
            None => match (self.ops[0], self.ops[1]) {
                (OpView::A, OpView::AtAPc) => Ok(seq![0x83u8]),
                (OpView::A, OpView::AtADptr) => Ok(seq![0x93u8]),
                _ => Err(ErrView::InvalidOperands { line: self.num, mnemonic: Mnemonic::Movc, ops: self.ops }),
            },
        }
    }

    /// `JB`: jump if bit set.
    pub open spec fn spec_jb(self) -> Result<Seq<u8>, ErrView> {
        match self.spec_arity(Mnemonic::Jb, 2, 2) {
            Some(e) => Err(e),
            None => match (self.ops[0], self.ops[1]) {
                (OpView::Addr(a), OpView::Addr16(d)) => self.spec_rel2(0x20, a, d),
                _ => Err(ErrView::InvalidOperands { line: self.num, mnemonic: Mnemonic::Jb, ops: self.ops }),
            },
        }
    }

    /// `JNB`: jump if bit clear.
    pub open spec fn spec_jnb(self) -> Result<Seq<u8>, ErrView> {
        match self.spec_arity(Mnemonic::Jnb, 2, 2) {
            Some(e) => Err(e),
            None => match (self.ops[0], self.ops[1]) {
                (OpView::Addr(a), OpView::Addr16(d)) => self.spec_rel2(0x30, a, d),
                _ => Err(ErrView::InvalidOperands { line: self.num, mnemonic: Mnemonic::Jnb, ops: self.ops }),
            },
        }
    }

    /// `JBC`: jump if bit set, then clear it.
    pub open spec fn spec_jbc(self) -> Result<Seq<u8>, ErrView> {
        match self.spec_arity(Mnemonic::Jbc, 2, 2) {
            Some(e) => Err(e),
            None => match (self.ops[0], self.ops[1]) {
                (OpView::Addr(a), OpView::Addr16(d)) => self.spec_rel2(0x10, a, d),
                _ => Err(ErrView::InvalidOperands { line: self.num, mnemonic: Mnemonic::Jbc, ops: self.ops }),
            },
        }
    }

    /// `XCHD`: exchange low nibbles.
    pub open spec fn spec_xchd(self) -> Result<Seq<u8>, ErrView> {
        match self.spec_arity(Mnemonic::Xchd, 2, 2) {
            Some(e) => Err(e),
            None => match (self.ops[0], self.ops[1]) {
                (OpView::A, OpView::AtR0) => Ok(seq![0xD6u8]),
                (OpView::A, OpView::AtR1) => Ok(seq![0xD7u8]),
                _ => Err(ErrView::InvalidOperands { line: self.num, mnemonic: Mnemonic::Xchd, ops: self.ops }),
            },
        }
    }

    /// `AJMP`: absolute jump within the 2K page.
    pub open spec fn spec_ajmp(self) -> Result<Seq<u8>, ErrView> {
        match self.spec_arity(Mnemonic::Ajmp, 1, 1) {
            Some(e) => Err(e),
            None => match self.ops[0] {
                OpView::Addr16(d) => Ok(seq![0x01u8, (d as u8)]),
                _ => Err(ErrView::InvalidOperands { line: self.num, mnemonic: Mnemonic::Ajmp, ops: self.ops }),
            },
        }
    }

    /// `ACALL`: absolute call within the 2K page.
    pub open spec fn spec_acall(self) -> Result<Seq<u8>, ErrView> {
        match self.spec_arity(Mnemonic::Acall, 1, 1) {
            Some(e) => Err(e),
            None => match self.ops[0] {
                OpView::Addr16(d) => Ok(seq![0x11u8, (d as u8)]),
                _ => Err(ErrView::InvalidOperands { line: self.num, mnemonic: Mnemonic::Acall, ops: self.ops }),
            },
        }
    }

    /// `LJMP`: long jump to a 16-bit address.
    pub open spec fn spec_ljmp(self) -> Result<Seq<u8>, ErrView> {
        match self.spec_arity(Mnemonic::Ljmp, 1, 1) {
            Some(e) => Err(e),
            None => match self.ops[0] {
                OpView::Addr16(d) => Ok(seq![0x02u8, ((d / 0x100) as u8), ((d % 0x100) as u8)]),
                _ => Err(ErrView::InvalidOperands { line: self.num, mnemonic: Mnemonic::Ljmp, ops: self.ops }),
            },
        }
    }

    /// `LCALL`: long call to a 16-bit address.
    pub open spec fn spec_lcall(self) -> Result<Seq<u8>, ErrView> {
        match self.spec_arity(Mnemonic::Lcall, 1, 1) {
            Some(e) => Err(e),
            None => match self.ops[0] {
                OpView::Addr16(d) => Ok(seq![0x12u8, ((d / 0x100) as u8), ((d % 0x100) as u8)]),
                _ => Err(ErrView::InvalidOperands { line: self.num, mnemonic: Mnemonic::Lcall, ops: self.ops }),
            },
        }
    }

    /// `SJMP`: short relative jump.
    pub open spec fn spec_sjmp(self) -> Result<Seq<u8>, ErrView> {
        match self.spec_arity(Mnemonic::Sjmp, 1, 1) {
            Some(e) => Err(e),
            None => match self.ops[0] {
                OpView::Addr16(d) => self.spec_rel1(0x80, d),
                _ => Err(ErrView::InvalidOperands { line: self.num, mnemonic: Mnemonic::Sjmp, ops: self.ops }),
            },
        }
    }

    /// `RR`: rotate accumulator right.
    pub open spec fn spec_rr(self) -> Result<Seq<u8>, ErrView> {
        match self.spec_arity(Mnemonic::Rr, 1, 1) {
            Some(e) => Err(e),
            None => match self.ops[0] {
                OpView::A => Ok(seq![0x03u8]),
                _ => Err(ErrView::InvalidOperands { line: self.num, mnemonic: Mnemonic::Rr, ops: self.ops }),
            },
        }
    }

    /// `RRC`: rotate right through carry.
    pub open spec fn spec_rrc(self) -> Result<Seq<u8>, ErrView> {
        match self.spec_arity(Mnemonic::Rrc, 1, 1) {
            Some(e) => Err(e),
            None => match self.ops[0] {
                OpView::A => Ok(seq![0x13u8]),
                _ => Err(ErrView::InvalidOperands { line: self.num, mnemonic: Mnemonic::Rrc, ops: self.ops }),
            },
        }
    }

    /// `RL`: rotate accumulator left.
    pub open spec fn spec_rl(self) -> Result<Seq<u8>, ErrView> {
        match self.spec_arity(Mnemonic::Rl, 1, 1) {
            Some(e) => Err(e),
            None => match self.ops[0] {
                OpView::A => Ok(seq![0x23u8]),
                _ => Err(ErrView::InvalidOperands { line: self.num, mnemonic: Mnemonic::Rl, ops: self.ops }),
            },
        }
    }

    /// `RLC`: rotate left through carry.
    pub open spec fn spec_rlc(self) -> Result<Seq<u8>, ErrView> {
        match self.spec_arity(Mnemonic::Rlc, 1, 1) {
            Some(e) => Err(e),
            None => match self.ops[0] {
                OpView::A => Ok(seq![0x33u8]),
                _ => Err(ErrView::InvalidOperands { line: self.num, mnemonic: Mnemonic::Rlc, ops: self.ops }),
            },
        }
    }

    /// `SWAP`: swap accumulator nibbles.
    pub open spec fn spec_swap(self) -> Result<Seq<u8>, ErrView> {
        match self.spec_arity(Mnemonic::Swap, 1, 1) {
            Some(e) => Err(e),
            None => match self.ops[0] {
                OpView::A => Ok(seq![0xC4u8]),
                _ => Err(ErrView::InvalidOperands { line: self.num, mnemonic: Mnemonic::Swap, ops: self.ops }),
            },
        }
    }

    /// `DA`: decimal adjust accumulator.
    pub open spec fn spec_da(self) -> Result<Seq<u8>, ErrView> {
        match self.spec_arity(Mnemonic::Da, 1, 1) {
            Some(e) => Err(e),
            None => match self.ops[0] {
                OpView::A => Ok(seq![0xD4u8]),
                _ => Err(ErrView::InvalidOperands { line: self.num, mnemonic: Mnemonic::Da, ops: self.ops }),
            },
        }
    }

    /// `JC`: jump if carry set.
    pub open spec fn spec_jc(self) -> Result<Seq<u8>, ErrView> {
        match self.spec_arity(Mnemonic::Jc, 1, 1) {
            Some(e) => Err(e),
            None => match self.ops[0] {
                OpView::Addr16(d) => self.spec_rel1(0x40, d),
                _ => Err(ErrView::InvalidOperands { line: self.num, mnemonic: Mnemonic::Jc, ops: self.ops }),
            },
        }
    }

    /// `JNC`: jump if carry clear.
    pub open spec fn spec_jnc(self) -> Result<Seq<u8>, ErrView> {
        match self.spec_arity(Mnemonic::Jnc, 1, 1) {
            Some(e) => Err(e),
            None => match self.ops[0] {
                OpView::Addr16(d) => self.spec_rel1(0x50, d),
                _ => Err(ErrView::InvalidOperands { line: self.num, mnemonic: Mnemonic::Jnc, ops: self.ops }),
            },
        }
    }

    /// `JZ`: jump if accumulator zero.
    pub open spec fn spec_jz(self) -> Result<Seq<u8>, ErrView> {
        match self.spec_arity(Mnemonic::Jz, 1, 1) {
            Some(e) => Err(e),
            None => match self.ops[0] {
                OpView::Addr16(d) => self.spec_rel1(0x60, d),
                _ => Err(ErrView::InvalidOperands { line: self.num, mnemonic: Mnemonic::Jz, ops: self.ops }),
            },
        }
    }

    /// `JNZ`: jump if accumulator not zero.
    pub open spec fn spec_jnz(self) -> Result<Seq<u8>, ErrView> {
        match self.spec_arity(Mnemonic::Jnz, 1, 1) {
            Some(e) => Err(e),
            None => match self.ops[0] {
                OpView::Addr16(d) => self.spec_rel1(0x70, d),
                _ => Err(ErrView::InvalidOperands { line: self.num, mnemonic: Mnemonic::Jnz, ops: self.ops }),
            },
        }
    }

    /// `JMP`: jump indirect through A plus DPTR.
    pub open spec fn spec_jmp(self) -> Result<Seq<u8>, ErrView> {
        match self.spec_arity(Mnemonic::Jmp, 1, 1) {
            Some(e) => Err(e),
            None => match self.ops[0] {
                OpView::AtADptr => Ok(seq![0x73u8]),
                _ => Err(ErrView::InvalidOperands { line: self.num, mnemonic: Mnemonic::Jmp, ops: self.ops }),
            },
        }
    }

    /// `MUL`: multiply A by B.
    pub open spec fn spec_mul(self) -> Result<Seq<u8>, ErrView> {
        match self.spec_arity(Mnemonic::Mul, 1, 1) {
            Some(e) => Err(e),
            None => match self.ops[0] {
                OpView::AB => Ok(seq![0xA4u8]),
                _ => Err(ErrView::InvalidOperands { line: self.num, mnemonic: Mnemonic::Mul, ops: self.ops }),
            },
        }
    }

    /// `DIV`: divide A by B.
    pub open spec fn spec_div(self) -> Result<Seq<u8>, ErrView> {
        match self.spec_arity(Mnemonic::Div, 1, 1) {
            Some(e) => Err(e),
            None => match self.ops[0] {
                OpView::AB => Ok(seq![0x84u8]),
                _ => Err(ErrView::InvalidOperands { line: self.num, mnemonic: Mnemonic::Div, ops: self.ops }),
            },
        }
    }

    /// `MOV`: move data.
    pub open spec fn spec_mov(self) -> Result<Seq<u8>, ErrView> {
        match self.spec_arity(Mnemonic::Mov, 2, 2) {
            Some(e) => Err(e),
            None => match (self.ops[0], self.ops[1]) {
                (OpView::Addr(d), OpView::A) => Ok(seq![0xF5u8, d]),
                (OpView::AtR0, OpView::A) => Ok(seq![0xF6u8]),
                (OpView::AtR1, OpView::A) => Ok(seq![0xF7u8]),
                (OpView::R0, OpView::A) => Ok(seq![0xF8u8]),
                (OpView::R1, OpView::A) => Ok(seq![0xF9u8]),
                (OpView::R2, OpView::A) => Ok(seq![0xFAu8]),
                (OpView::R3, OpView::A) => Ok(seq![0xFBu8]),
                (OpView::R4, OpView::A) => Ok(seq![0xFCu8]),
                (OpView::R5, OpView::A) => Ok(seq![0xFDu8]),
                (OpView::R6, OpView::A) => Ok(seq![0xFEu8]),
                (OpView::R7, OpView::A) => Ok(seq![0xFFu8]),
                (OpView::A, OpView::Data(d)) => Ok(seq![0x74u8, d]),
                (OpView::Addr(a), OpView::Data(d)) => Ok(seq![0x75u8, a, d]),
                (OpView::AtR0, OpView::Data(d)) => Ok(seq![0x76u8, d]),
                (OpView::AtR1, OpView::Data(d)) => Ok(seq![0x77u8, d]),
                (OpView::R0, OpView::Data(d)) => Ok(seq![0x78u8, d]),
                (OpView::R1, OpView::Data(d)) => Ok(seq![0x79u8, d]),
                (OpView::R2, OpView::Data(d)) => Ok(seq![0x7Au8, d]),
                (OpView::R3, OpView::Data(d)) => Ok(seq![0x7Bu8, d]),
                (OpView::R4, OpView::Data(d)) => Ok(seq![0x7Cu8, d]),
                (OpView::R5, OpView::Data(d)) => Ok(seq![0x7Du8, d]),
                (OpView::R6, OpView::Data(d)) => Ok(seq![0x7Eu8, d]),
                (OpView::R7, OpView::Data(d)) => Ok(seq![0x7Fu8, d]),
                (OpView::Addr(d), OpView::AB) => Ok(seq![0x84u8, d]),
                (OpView::Addr(d), OpView::Addr(a)) => Ok(seq![0x85u8, a, d]),
                (OpView::Addr(d), OpView::AtR0) => Ok(seq![0x86u8, d]),
                (OpView::Addr(d), OpView::AtR1) => Ok(seq![0x87u8, d]),
                (OpView::Addr(d), OpView::R0) => Ok(seq![0x88u8, d]),
                (OpView::Addr(d), OpView::R1) => Ok(seq![0x89u8, d]),
                (OpView::Addr(d), OpView::R2) => Ok(seq![0x8Au8, d]),
                (OpView::Addr(d), OpView::R3) => Ok(seq![0x8Bu8, d]),
                (OpView::Addr(d), OpView::R4) => Ok(seq![0x8Cu8, d]),
                (OpView::Addr(d), OpView::R5) => Ok(seq![0x8Du8, d]),
                (OpView::Addr(d), OpView::R6) => Ok(seq![0x8Eu8, d]),
                (OpView::Addr(d), OpView::R7) => Ok(seq![0x8Fu8, d]),
                (OpView::A, OpView::Addr(d)) => Ok(seq![0xE5u8, d]),
                (OpView::A, OpView::AtR0) => Ok(seq![0xE6u8]),
                (OpView::A, OpView::AtR1) => Ok(seq![0xE7u8]),
                (OpView::A, OpView::R0) => Ok(seq![0xE8u8]),
                (OpView::A, OpView::R1) => Ok(seq![0xE9u8]),
                (OpView::A, OpView::R2) => Ok(seq![0xEAu8]),
                (OpView::A, OpView::R3) => Ok(seq![0xEBu8]),
                (OpView::A, OpView::R4) => Ok(seq![0xECu8]),
                (OpView::A, OpView::R5) => Ok(seq![0xEDu8]),
                (OpView::A, OpView::R6) => Ok(seq![0xEEu8]),
                (OpView::A, OpView::R7) => Ok(seq![0xEFu8]),
                (OpView::Dptr, OpView::Data16(d)) => Ok(seq![0x90u8, ((d / 0x100) as u8), ((d % 0x100) as u8)]),
                (OpView::Dptr, OpView::Data(d)) => Ok(seq![0x90u8, 0x00u8, d]),
                (OpView::Addr(d), OpView::C) => Ok(seq![0x92u8, d]),
                (OpView::C, OpView::Addr(d)) => Ok(seq![0xA2u8, d]),
                (OpView::AtR0, OpView::Addr(d)) => Ok(seq![0xA6u8, d]),
                (OpView::AtR1, OpView::Addr(d)) => Ok(seq![0xA7u8, d]),
                (OpView::R0, OpView::Addr(d)) => Ok(seq![0xA8u8, d]),
                (OpView::R1, OpView::Addr(d)) => Ok(seq![0xA9u8, d]),
                (OpView::R2, OpView::Addr(d)) => Ok(seq![0xAAu8, d]),
                (OpView::R3, OpView::Addr(d)) => Ok(seq![0xABu8, d]),
                (OpView::R4, OpView::Addr(d)) => Ok(seq![0xACu8, d]),
                (OpView::R5, OpView::Addr(d)) => Ok(seq![0xADu8, d]),
                (OpView::R6, OpView::Addr(d)) => Ok(seq![0xAEu8, d]),
                (OpView::R7, OpView::Addr(d)) => Ok(seq![0xAFu8, d]),
                _ => Err(ErrView::InvalidOperands { line: self.num, mnemonic: Mnemonic::Mov, ops: self.ops }),
            },
        }
    }

    /// `DB`: define bytes. The quoted literal's bytes, quotes stripped, with
    /// one zero byte appended.
    pub open spec fn spec_db(self) -> Result<Seq<u8>, ErrView> {
        match self.spec_arity(Mnemonic::Db, 1, 2) {
            Some(e) => Err(e),
            None => match self.ops[0] {
                OpView::Label(l) => {
                    let bytes = vstd::utf8::encode_utf8(l);
                    if bytes.len() < 2 || bytes.len() - 1 > 0x7FFF_FFFF {
                        Err(ErrView::InvalidOperands { line: self.num, mnemonic: Mnemonic::Db, ops: self.ops })
                    } else {
                        Ok(bytes.subrange(1, bytes.len() - 1).push(0u8))
                    }
                },
                _ => Err(ErrView::InvalidOperands { line: self.num, mnemonic: Mnemonic::Db, ops: self.ops }),
            },
        }
    }

    /// `DS`: define space. N bytes of the fixed fill value 0x10.
    pub open spec fn spec_ds(self) -> Result<Seq<u8>, ErrView> {
        match self.spec_arity(Mnemonic::Ds, 1, 1) {
            Some(e) => Err(e),
            None => match self.ops[0] {
                OpView::Addr(d) => Ok(Seq::new(d as nat, |i| 0x10u8)),
                _ => Err(ErrView::InvalidOperands { line: self.num, mnemonic: Mnemonic::Ds, ops: self.ops }),
            },
        }
    }

    /// The full opcode table: dispatch on the mnemonic. Directives and an
    /// absent mnemonic encode to zero bytes.
    pub open spec fn spec_encode(self) -> Result<Seq<u8>, ErrView> {
        match self.mnemonic {
            None => Ok(Seq::<u8>::empty()),
            Some(m) => match m {
                Mnemonic::Div => self.spec_div(),
                Mnemonic::Mov => self.spec_mov(),
                Mnemonic::Movc => self.spec_movc(),
                Mnemonic::Movx => self.spec_movx(),
                Mnemonic::Inc => self.spec_inc(),
                Mnemonic::Dec => self.spec_dec(),
                Mnemonic::Cpl => self.spec_cpl(),
                Mnemonic::Cjne => self.spec_cjne(),
                Mnemonic::Pop => self.spec_pop(),
                Mnemonic::Push => self.spec_push(),
                Mnemonic::Add => self.spec_add(),
                Mnemonic::Addc => self.spec_addc(),
                Mnemonic::Orl => self.spec_orl(),
                Mnemonic::Anl => self.spec_anl(),
                Mnemonic::Subb => self.spec_subb(),
                Mnemonic::Xch => self.spec_xch(),
                Mnemonic::Xrl => self.spec_xrl(),
                Mnemonic::Jb => self.spec_jb(),
                Mnemonic::Ret => self.spec_ret(),
                Mnemonic::Clr => self.spec_clr(),
                Mnemonic::Setb => self.spec_setb(),
                Mnemonic::Nop => self.spec_nop(),
                Mnemonic::Djnz => self.spec_djnz(),
                Mnemonic::Ajmp => self.spec_ajmp(),
                Mnemonic::Ljmp => self.spec_ljmp(),
                Mnemonic::Acall => self.spec_acall(),
                Mnemonic::Lcall => self.spec_lcall(),
                Mnemonic::Rr => self.spec_rr(),
                Mnemonic::Rrc => self.spec_rrc(),
                Mnemonic::Rl => self.spec_rl(),
                Mnemonic::Reti => self.spec_reti(),
                Mnemonic::Rlc => self.spec_rlc(),
                Mnemonic::Jc => self.spec_jc(),
                Mnemonic::Jnc => self.spec_jnc(),
                Mnemonic::Jz => self.spec_jz(),
                Mnemonic::Jnz => self.spec_jnz(),
                Mnemonic::Jmp => self.spec_jmp(),
                Mnemonic::Mul => self.spec_mul(),
                Mnemonic::Swap => self.spec_swap(),
                Mnemonic::Da => self.spec_da(),
                Mnemonic::Jnb => self.spec_jnb(),
                Mnemonic::Jbc => self.spec_jbc(),
                Mnemonic::Xchd => self.spec_xchd(),
                Mnemonic::Org => Ok(Seq::<u8>::empty()),
                Mnemonic::Cseg => Ok(Seq::<u8>::empty()),
                Mnemonic::Dseg => Ok(Seq::<u8>::empty()),
                Mnemonic::Db => self.spec_db(),
                Mnemonic::Ds => self.spec_ds(),
                Mnemonic::Sjmp => self.spec_sjmp(),
            },
        }
    }

    /// True of `ORG`, `CSEG` and `DSEG`, the directives that open a section.
    pub open spec fn spec_is_origin(self) -> bool {
        match self.mnemonic {
            Some(m) => m is Org || m is Cseg || m is Dseg,
            None => false,
        }
    }

    /// An origin directive with operands must carry a plain address, or a
    /// label (the `AT` of `CSEG AT addr`) followed by an address.
    pub open spec fn spec_origin_shape_ok(self) -> bool {
        (self.spec_is_origin() && self.ops.len() >= 1) ==> {
            ||| self.ops[0] is Addr
            ||| self.ops[0] is Addr16
            ||| (self.ops[0] is Label && self.ops.len() >= 2 && (self.ops[1] is Addr
                || self.ops[1] is Addr16))
        }
    }

    /// The origin address a well-shaped section-opening directive carries.
    pub open spec fn spec_new_section(self) -> Option<u16> {
        if !self.spec_is_origin() || self.ops.len() < 1 {
            None
        } else {
            match self.ops[0] {
                OpView::Addr(d) => Some(d as u16),
                OpView::Addr16(d) => Some(d),
                OpView::Label(_) => {
                    if self.ops.len() >= 2 {
                        match self.ops[1] {
                            OpView::Addr(d) => Some(d as u16),
                            OpView::Addr16(d) => Some(d),
                            _ => None,
                        }
                    } else {
                        None
                    }
                },
                _ => None,
            }
        }
    }

    /// Label resolution skips instructions with no mnemonic, the `DB`
    /// directive, and the section-origin directives `ORG`/`CSEG`/`DSEG`:
    /// their label-shaped operands are data, not address references.
    pub open spec fn spec_fix_skip(self) -> bool {
        match self.mnemonic {
            None => true,
            Some(m) => m is Cseg || m is Db || m is Org || m is Dseg,
        }
    }
}

/// Length/encode consistency: whenever encoding succeeds, the byte count of
/// the encoded sequence equals the instruction's length, for every mnemonic.
pub proof fn lemma_len_encode_consistent(v: InsView)
    ensures
        v.spec_encode() matches Ok(b) ==> b.len() == v.spec_len(),
{
    if v.spec_encode() is Ok {
        let b = v.spec_encode()->Ok_0;
        match v.mnemonic {
            None => {},
            Some(m) => {
                if m is Ds {
                    assert(b.len() == v.spec_len());
                } else if m is Db {
                    assert(b.len() == v.spec_len());
                } else {
                    assert(b.len() == v.spec_len());
                }
            },
        }
    }
}

} // verus!
