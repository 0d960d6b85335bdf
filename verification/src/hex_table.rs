//! A byte buffer that section images and output files are laid into.

use vstd::prelude::*;
use crate::instruction::{InsView, Instruction};
use crate::omf::{ContentRecord, Record};
use crate::section::ins_views;

verus! {

broadcast use vstd::std_specs::vec::axiom_spec_len;

/// The size of a section's image: the largest offset-plus-length over its
/// instructions.
pub open spec fn spec_image_size(vs: Seq<InsView>) -> int
    decreases vs.len(),
{
    if vs.len() == 0 {
        0
    } else {
        let m = spec_image_size(vs.drop_last());
        let e = vs.last().offset + vs.last().spec_len();
        if e > m {
            e
        } else {
            m
        }
    }
}

/// The image size covers every instruction of the section.
pub proof fn lemma_image_size_covers(vs: Seq<InsView>, i: int)
    requires
        0 <= i < vs.len(),
    ensures
        vs[i].offset + vs[i].spec_len() <= spec_image_size(vs),
        spec_image_size(vs) >= 0,
    decreases vs.len(),
{
    lemma_image_size_nonneg(vs);
    if i == vs.len() - 1 {
        lemma_image_size_nonneg(vs.drop_last());
    } else {
        lemma_image_size_covers(vs.drop_last(), i);
    }
}

/// An image never has negative size.
pub proof fn lemma_image_size_nonneg(vs: Seq<InsView>)
    ensures
        spec_image_size(vs) >= 0,
    decreases vs.len(),
{
    if vs.len() > 0 {
        lemma_image_size_nonneg(vs.drop_last());
    }
}

/// `buf` with `bytes` written over it starting at `off`.
pub open spec fn write_at(buf: Seq<u8>, off: int, bytes: Seq<u8>) -> Seq<u8> {
    Seq::new(
        buf.len(),
        |i: int|
            if off <= i < off + bytes.len() {
                bytes[i - off]
            } else {
                buf[i]
            },
    )
}

/// A byte buffer sized for one section (or for a whole output file).
pub struct HexTable {
    pub table: Vec<u8>,
}

impl HexTable {
    /// A zero-filled buffer big enough for every instruction's bytes at its
    /// offset.
    pub fn new(ins: &Vec<Instruction>) -> (r: HexTable)
        ensures
            r.table@ == Seq::new(spec_image_size(ins_views(ins@)) as nat, |i: int| 0u8),
    {
        let ghost vs = ins_views(ins@);
        let mut max: i64 = 0;
        let mut i: usize = 0;
        proof {
            assert(vs.take(0) =~= Seq::<InsView>::empty());
        }
        while i < ins.len()
            invariant
                vs == ins_views(ins@),
                0 <= i <= ins@.len(),
                max as int == spec_image_size(vs.take(i as int)),
                0 <= max <= 0x8000_FFFF,
            decreases ins@.len() - i,
        {
            let e: i64 = ins[i].offset() as i64 + ins[i].len() as i64;
            proof {
                assert(vs.take(i + 1).drop_last() =~= vs.take(i as int));
                assert(vs.take(i + 1).last() == vs[i as int]);
                assert(vs[i as int] == ins@[i as int]@);
            }
            if e > max {
                max = e;
            }
            i += 1;
        }
        proof {
            assert(vs.take(ins@.len() as int) =~= vs);
        }
        let table = vec![0u8; max as usize];
        proof {
            assert(table@ =~= Seq::new(spec_image_size(vs) as nat, |i: int| 0u8));
        }
        HexTable { table }
    }

    /// An empty buffer, grown by appending records.
    pub fn new_empty() -> (r: HexTable)
        ensures
            r.table@ == Seq::<u8>::empty(),
    {
        HexTable { table: Vec::new() }
    }

    /// Write `hex` into the buffer starting at `offset`. The bytes must fit;
    /// callers check before writing.
    pub fn update(&mut self, offset: u16, hex: &Vec<u8>)
        requires
            offset + hex@.len() <= old(self).table@.len(),
        ensures
            final(self).table@ == write_at(old(self).table@, offset as int, hex@),
    {
        let total = self.table.len();
        let mut i: usize = 0;
        while i < hex.len()
            invariant
                0 <= i <= hex@.len(),
                offset + hex@.len() <= total,
                total == self.table@.len(),
                self.table@ =~= Seq::new(
                    old(self).table@.len(),
                    |j: int|
                        if offset <= j < offset + i {
                            hex@[j - offset]
                        } else {
                            old(self).table@[j]
                        },
                ),
            decreases hex@.len() - i,
        {
            self.table[offset as usize + i] = hex[i];
            i += 1;
        }
        proof {
            assert(self.table@ =~= write_at(old(self).table@, offset as int, hex@));
        }
    }

    /// Append a record's byte image.
    pub fn append_record<T: Record>(&mut self, record: T)
        ensures
            final(self).table@ == old(self).table@ + record.spec_hex(),
    {
        let mut h = record.hex();
        self.table.append(&mut h);
    }

    /// Append a content record's raw data bytes.
    pub fn append_content(&mut self, record: ContentRecord)
        ensures
            final(self).table@ == old(self).table@ + record.data@,
    {
        let mut d = record.data();
        self.table.append(&mut d);
    }
}

} // verus!
