//! The simple object/module format: a header record, one content record per
//! section, and an end record, each closed by a trailer checksum.
//!
//! The length and offset fields of these records are split with modulo-255
//! arithmetic (`% 0xFF` and `/ 0xFF`), not modulo-256; the end record masks
//! its length with `& 0xFF` instead. The byte layouts here keep those quirks
//! exactly, for bit-compatibility with files already produced in this
//! format.

use vstd::prelude::*;
use vstd::string::StrSliceExecFns;

verus! {

/// The sum of a byte sequence, as a mathematical integer.
pub open spec fn byte_sum(s: Seq<u8>) -> int
    decreases s.len(),
{
    if s.len() == 0 {
        0
    } else {
        byte_sum(s.drop_last()) + s.last()
    }
}

/// The trailer checksum: the byte that makes the record's sum vanish
/// modulo 256.
pub open spec fn spec_checksum(s: Seq<u8>) -> u8 {
    ((256 - byte_sum(s) % 256) % 256) as u8
}

/// Appending the checksum makes the sum vanish: the round-trip property of
/// every checksummed record.
pub proof fn lemma_checksum_zeroes_sum(s: Seq<u8>)
    ensures
        (byte_sum(s) + spec_checksum(s)) % 256 == 0,
        byte_sum(s.push(spec_checksum(s))) % 256 == 0,
{
    let t = s.push(spec_checksum(s));
    assert(t.drop_last() =~= s);
    assert(byte_sum(t) == byte_sum(s) + spec_checksum(s));
    let b = byte_sum(s);
    vstd::arithmetic::div_mod::lemma_add_mod_noop(b, (256 - b % 256) % 256, 256);
    vstd::arithmetic::div_mod::lemma_mod_twice(256 - b % 256, 256);
    vstd::arithmetic::div_mod::lemma_add_mod_noop(b % 256, 256 - b % 256, 256);
    vstd::arithmetic::div_mod::lemma_mod_twice(b, 256);
}

/// The byte sums of a sequence and of any of its prefixes agree modulo
/// nothing: the sum grows one byte at a time.
pub proof fn lemma_byte_sum_take_step(s: Seq<u8>, i: int)
    requires
        0 <= i < s.len(),
    ensures
        byte_sum(s.take(i + 1)) == byte_sum(s.take(i)) + s[i],
{
    assert(s.take(i + 1).drop_last() =~= s.take(i));
    assert(s.take(i + 1).last() == s[i]);
}

/// The two's-complement trailer checksum of a record's bytes.
pub fn checksome(vec: &Vec<u8>) -> (r: u8)
    ensures
        r == spec_checksum(vec@),
        (byte_sum(vec@) + r) % 256 == 0,
{
    let mut sum: u64 = 0;
    let mut i: usize = 0;
    proof {
        assert(vec@.take(0) =~= Seq::<u8>::empty());
    }
    while i < vec.len()
        invariant
            0 <= i <= vec@.len(),
            sum as int == byte_sum(vec@.take(i as int)) % 256,
            sum < 256,
        decreases vec@.len() - i,
    {
        proof {
            lemma_byte_sum_take_step(vec@, i as int);
            vstd::arithmetic::div_mod::lemma_add_mod_noop(
                byte_sum(vec@.take(i as int)),
                vec@[i as int] as int,
                256,
            );
            vstd::arithmetic::div_mod::lemma_mod_twice(
                byte_sum(vec@.take(i as int)) + vec@[i as int],
                256,
            );
        }
        sum = (sum + vec[i] as u64) % 256;
        i += 1;
    }
    proof {
        assert(vec@.take(vec@.len() as int) =~= vec@);
    }
    let mut sum8 = (sum % 256) as u8;
    sum8 ^= 0xFF;
    proof {
        vstd::arithmetic::div_mod::lemma_mod_bound(byte_sum(vec@), 256);
        let b8: u8 = (byte_sum(vec@) % 256) as u8;
        assert(b8 ^ 0xFF == 255 - b8) by (bit_vector);
    }
    if sum8 == 0xFF {
        proof {
            lemma_checksum_zeroes_sum(vec@);
        }
        return 0;
    }
    proof {
        lemma_checksum_zeroes_sum(vec@);
    }
    sum8 + 1
}

/// A record of the object format: its byte image ends in a checksum that
/// zeroes the byte sum.
pub trait Record {
    /// The record's byte image, as the contracts see it.
    spec fn spec_hex(&self) -> Seq<u8>;

    /// The record's declared length field.
    spec fn spec_len(&self) -> u16;

    /// The record's byte image.
    fn hex(&self) -> (r: Vec<u8>)
        ensures
            r@ == self.spec_hex(),
            byte_sum(r@) % 256 == 0,
    ;

    /// The record's declared length field.
    fn len(&self) -> (r: u16)
        ensures
            r == self.spec_len(),
    ;
}

/// The module header: record type 0x02, its length split modulo 255, the
/// name length and name bytes, a fixed 0xFF 0x00 trailer pair, and the
/// checksum.
pub struct HeaderRecord {
    pub name: String,
}

/// The declared length of a header record for this name.
pub open spec fn header_len(name: Seq<char>) -> u16 {
    ((vstd::utf8::encode_utf8(name).len() + 4) % 0x10000) as u16
}

/// A header record's bytes before the checksum.
pub open spec fn header_body(name: Seq<char>) -> Seq<u8> {
    let nb = vstd::utf8::encode_utf8(name);
    let l = header_len(name) as int;
    seq![
        0x02u8,
        (l % 0xFF) as u8,
        ((l / 0xFF) % 0x100) as u8,
        (nb.len() % 0x100) as u8,
    ] + nb + seq![0xFFu8, 0x00u8]
}

/// A header record's full byte image.
pub open spec fn header_hex(name: Seq<char>) -> Seq<u8> {
    header_body(name).push(spec_checksum(header_body(name)))
}

impl HeaderRecord {
    /// A header for the module of the given name.
    pub fn new(name: String) -> (r: HeaderRecord)
        ensures
            r.name == name,
    {
        HeaderRecord { name }
    }

    /// Everything before the checksum byte.
    pub open spec fn spec_body(&self) -> Seq<u8> {
        header_body(self.name@)
    }
}

impl Record for HeaderRecord {
    open spec fn spec_hex(&self) -> Seq<u8> {
        header_hex(self.name@)
    }

    open spec fn spec_len(&self) -> u16 {
        header_len(self.name@)
    }

    fn len(&self) -> (r: u16) {
        let bytes = self.name.as_str().as_bytes_vec();
        (((bytes.len() as u128 + 4) % 0x10000) as u16)
    }

    fn hex(&self) -> (r: Vec<u8>) {
        let mut vec: Vec<u8> = Vec::new();
        vec.push(0x02);
        let l = self.len();
        vec.push((l % 0xFF) as u8);
        vec.push(((l / 0xFF) % 0x100) as u8);
        let name_vec = self.name.as_str().as_bytes_vec();
        vec.push((name_vec.len() % 0x100) as u8);
        let mut i: usize = 0;
        let ghost pre = vec@;
        while i < name_vec.len()
            invariant
                0 <= i <= name_vec@.len(),
                vec@ =~= pre + name_vec@.take(i as int),
            decreases name_vec@.len() - i,
        {
            vec.push(name_vec[i]);
            proof {
                assert(name_vec@.take(i + 1) =~= name_vec@.take(i as int).push(
                    name_vec@[i as int],
                ));
            }
            i += 1;
        }
        vec.push(0xFF);
        vec.push(0x00);
        proof {
            assert(name_vec@.take(name_vec@.len() as int) =~= name_vec@);
            assert(vec@ =~= self.spec_body());
        }
        let chk_some = checksome(&vec);
        vec.push(chk_some);
        proof {
            lemma_checksum_zeroes_sum(self.spec_body());
        }
        vec
    }
}

/// The module trailer: record type 0x04, its length masked with `& 0xFF`
/// and split with `/ 0xFF`, the name, two zero bytes, the register-bank
/// mask, one more zero byte, and the checksum.
pub struct EndRecord {
    pub name: String,
    pub reg_msk: u8,
}

impl EndRecord {
    /// An end record for the module of the given name, with one mask bit per
    /// register bank.
    pub fn new(name: String, bank: (bool, bool, bool, bool)) -> (r: EndRecord)
        ensures
            r.name == name,
            r.reg_msk as int == (if bank.3 {
                8int
            } else {
                0int
            }) + (if bank.2 {
                4int
            } else {
                0int
            }) + (if bank.1 {
                2int
            } else {
                0int
            }) + (if bank.0 {
                1int
            } else {
                0int
            }),
    {
        let reg_msk = (if bank.3 {
            8u8
        } else {
            0u8
        }) + (if bank.2 {
            4u8
        } else {
            0u8
        }) + (if bank.1 {
            2u8
        } else {
            0u8
        }) + (if bank.0 {
            1u8
        } else {
            0u8
        });
        EndRecord { name, reg_msk }
    }

    /// Everything before the checksum byte.
    pub open spec fn spec_body(&self) -> Seq<u8> {
        end_body(self.name@, self.reg_msk)
    }
}

/// The declared length of an end record for this name.
pub open spec fn end_len(name: Seq<char>) -> u16 {
    ((vstd::utf8::encode_utf8(name).len() + 6) % 0x10000) as u16
}

/// An end record's bytes before the checksum.
pub open spec fn end_body(name: Seq<char>, reg_msk: u8) -> Seq<u8> {
    let nb = vstd::utf8::encode_utf8(name);
    let l = end_len(name);
    seq![
        0x04u8,
        (l & 0xFF) as u8,
        ((l as int / 0xFF) % 0x100) as u8,
        (nb.len() % 0x100) as u8,
    ] + nb + seq![0x00u8, 0x00u8, reg_msk, 0x00u8]
}

/// An end record's full byte image.
pub open spec fn end_hex(name: Seq<char>, reg_msk: u8) -> Seq<u8> {
    end_body(name, reg_msk).push(spec_checksum(end_body(name, reg_msk)))
}

impl Record for EndRecord {
    open spec fn spec_hex(&self) -> Seq<u8> {
        end_hex(self.name@, self.reg_msk)
    }

    open spec fn spec_len(&self) -> u16 {
        end_len(self.name@)
    }

    fn len(&self) -> (r: u16) {
        let bytes = self.name.as_str().as_bytes_vec();
        (((bytes.len() as u128 + 6) % 0x10000) as u16)
    }

    fn hex(&self) -> (r: Vec<u8>) {
        let mut vec: Vec<u8> = Vec::new();
        vec.push(0x04);
        let l = self.len();
        vec.push((l & 0xFF) as u8);
        vec.push(((l / 0xFF) % 0x100) as u8);
        let name_vec = self.name.as_str().as_bytes_vec();
        vec.push((name_vec.len() % 0x100) as u8);
        let mut i: usize = 0;
        let ghost pre = vec@;
        while i < name_vec.len()
            invariant
                0 <= i <= name_vec@.len(),
                vec@ =~= pre + name_vec@.take(i as int),
            decreases name_vec@.len() - i,
        {
            vec.push(name_vec[i]);
            proof {
                assert(name_vec@.take(i + 1) =~= name_vec@.take(i as int).push(
                    name_vec@[i as int],
                ));
            }
            i += 1;
        }
        vec.push(0x00);
        vec.push(0x00);
        vec.push(self.reg_msk);
        vec.push(0x00);
        proof {
            assert(name_vec@.take(name_vec@.len() as int) =~= name_vec@);
            assert(vec@ =~= self.spec_body());
        }
        let chk_some = checksome(&vec);
        vec.push(chk_some);
        proof {
            lemma_checksum_zeroes_sum(self.spec_body());
        }
        vec
    }
}

/// One section's bytes: record type 0x06, its length and offset each split
/// modulo 255, the segment id, the data, and the checksum. A record with no
/// data has an empty image.
#[derive(Debug)]
pub struct ContentRecord {
    pub offset: u16,
    pub data: Vec<u8>,
    pub seg_id: u8,
}

impl ContentRecord {
    /// A content record at the given base address.
    pub fn new(offset: u16, data: Vec<u8>, seg_id: u8) -> (r: ContentRecord)
        ensures
            r.offset == offset,
            r.data == data,
            r.seg_id == seg_id,
    {
        ContentRecord { offset, data, seg_id }
    }

    /// The section's raw bytes.
    pub fn data(&self) -> (r: Vec<u8>)
        ensures
            r@ == self.data@,
    {
        let mut r: Vec<u8> = Vec::new();
        let mut i: usize = 0;
        while i < self.data.len()
            invariant
                0 <= i <= self.data@.len(),
                r@ =~= self.data@.take(i as int),
            decreases self.data@.len() - i,
        {
            r.push(self.data[i]);
            proof {
                assert(self.data@.take(i + 1) =~= self.data@.take(i as int).push(
                    self.data@[i as int],
                ));
            }
            i += 1;
        }
        proof {
            assert(self.data@.take(self.data@.len() as int) =~= self.data@);
        }
        r
    }

    /// The section's base address.
    pub fn offset(&self) -> (r: u16)
        ensures
            r == self.offset,
    {
        self.offset
    }

    /// Everything before the checksum byte.
    pub open spec fn spec_body(&self) -> Seq<u8> {
        content_body(self.offset, self.data@, self.seg_id)
    }
}

/// The declared length of a content record holding this data.
pub open spec fn content_len(data: Seq<u8>) -> u16 {
    ((data.len() + 4) % 0x10000) as u16
}

/// A content record's bytes before the checksum.
pub open spec fn content_body(offset: u16, data: Seq<u8>, seg_id: u8) -> Seq<u8> {
    let l = content_len(data) as int;
    seq![
        0x06u8,
        (l % 0xFF) as u8,
        ((l / 0xFF) % 0x100) as u8,
        seg_id,
        (offset as int % 0xFF) as u8,
        ((offset as int / 0xFF) % 0x100) as u8,
    ] + data
}

/// A content record's full byte image; empty when it holds no data.
pub open spec fn content_hex(offset: u16, data: Seq<u8>, seg_id: u8) -> Seq<u8> {
    if data.len() == 0 {
        Seq::<u8>::empty()
    } else {
        content_body(offset, data, seg_id).push(spec_checksum(content_body(offset, data, seg_id)))
    }
}

impl Record for ContentRecord {
    open spec fn spec_hex(&self) -> Seq<u8> {
        content_hex(self.offset, self.data@, self.seg_id)
    }

    open spec fn spec_len(&self) -> u16 {
        content_len(self.data@)
    }

    fn len(&self) -> (r: u16) {
        (((self.data.len() as u128 + 4) % 0x10000) as u16)
    }

    fn hex(&self) -> (r: Vec<u8>) {
        if self.data.len() == 0 {
            let r: Vec<u8> = Vec::new();
            proof {
                assert(r@ =~= Seq::<u8>::empty());
            }
            return r;
        }
        let mut vec: Vec<u8> = Vec::new();
        vec.push(0x06);
        let l = self.len();
        vec.push((l % 0xFF) as u8);
        vec.push(((l / 0xFF) % 0x100) as u8);
        vec.push(self.seg_id);
        vec.push((self.offset % 0xFF) as u8);
        vec.push(((self.offset / 0xFF) % 0x100) as u8);
        let mut i: usize = 0;
        let ghost pre = vec@;
        while i < self.data.len()
            invariant
                0 <= i <= self.data@.len(),
                vec@ =~= pre + self.data@.take(i as int),
            decreases self.data@.len() - i,
        {
            vec.push(self.data[i]);
            proof {
                assert(self.data@.take(i + 1) =~= self.data@.take(i as int).push(
                    self.data@[i as int],
                ));
            }
            i += 1;
        }
        proof {
            assert(self.data@.take(self.data@.len() as int) =~= self.data@);
            assert(vec@ =~= self.spec_body());
        }
        let chk_some = checksome(&vec);
        vec.push(chk_some);
        proof {
            lemma_checksum_zeroes_sum(self.spec_body());
        }
        vec
    }
}

} // verus!
