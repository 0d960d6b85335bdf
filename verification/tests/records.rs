//! The output records: checksums, Intel-HEX rendering, and the
//! object/module format.

use asm51::omf::{checksome, ContentRecord, EndRecord, HeaderRecord, Record};
use asm51::output::{flat_binary, intel_hex_lines, object_image};

#[test]
fn checksum_of_empty_is_zero() {
    assert_eq!(checksome(&vec![]), 0);
}

#[test]
fn checksum_is_twos_complement_of_the_sum() {
    assert_eq!(checksome(&vec![0x01]), 0xFF);
    assert_eq!(checksome(&vec![0x10, 0x20]), 0xD0);
    assert_eq!(checksome(&vec![0xFF, 0x01]), 0x00);
    assert_eq!(checksome(&vec![0x80, 0x80]), 0x00);
}

#[test]
fn checksum_round_trip_zeroes_every_record() {
    // the defining property: adding the checksum to the record's sum
    // vanishes modulo 256
    for bytes in [vec![], vec![0x12], vec![0x03, 0x00, 0x00, 0x00, 0x74, 0x10, 0x00]] {
        let c = checksome(&bytes);
        let total: u64 = bytes.iter().map(|b| *b as u64).sum::<u64>() + c as u64;
        assert_eq!(total % 256, 0);
    }
}

#[test]
fn every_hex_line_checksums_to_zero() {
    let rec = ContentRecord::new(0x0010, (0u8..40u8).collect(), 0);
    let lines = intel_hex_lines(&vec![rec]);
    // 40 bytes make two full chunks and one partial chunk, plus the
    // terminator record
    assert_eq!(lines.len(), 4);
    for line in &lines {
        assert_eq!(line[0], b':');
        let digits = &line[1..];
        assert_eq!(digits.len() % 2, 0);
        let mut sum: u64 = 0;
        for pair in digits.chunks(2) {
            let hi = (pair[0] as char).to_digit(16).unwrap();
            let lo = (pair[1] as char).to_digit(16).unwrap();
            sum += (hi * 16 + lo) as u64;
        }
        assert_eq!(sum % 256, 0);
    }
}

#[test]
fn hex_lines_chunk_at_sixteen_bytes() {
    let rec = ContentRecord::new(0, (0u8..18u8).collect(), 0);
    let lines = intel_hex_lines(&vec![rec]);
    let text: Vec<String> = lines.iter().map(|l| String::from_utf8(l.clone()).unwrap()).collect();
    assert_eq!(
        text,
        vec![
            ":10000000000102030405060708090A0B0C0D0E0F78",
            ":020010001011CD",
            ":00000001FF",
        ],
    );
}

#[test]
fn empty_records_emit_only_the_terminator() {
    let lines = intel_hex_lines(&vec![ContentRecord::new(0, vec![], 0)]);
    let text: Vec<String> = lines.iter().map(|l| String::from_utf8(l.clone()).unwrap()).collect();
    assert_eq!(text, vec![":00000001FF"]);
}

#[test]
fn header_record_layout() {
    let h = HeaderRecord::new(String::from("AB"));
    assert_eq!(h.len(), 6);
    let hex = h.hex();
    // type, length split modulo 255, name length, name, 0xFF 0x00, checksum
    assert_eq!(hex, vec![0x02, 0x06, 0x00, 0x02, 0x41, 0x42, 0xFF, 0x00, 0x74]);
    let sum: u64 = hex.iter().map(|b| *b as u64).sum();
    assert_eq!(sum % 256, 0);
}

#[test]
fn end_record_layout() {
    let e = EndRecord::new(String::from("AB"), (true, false, false, false));
    assert_eq!(e.len(), 8);
    let hex = e.hex();
    assert_eq!(hex, vec![0x04, 0x08, 0x00, 0x02, 0x41, 0x42, 0x00, 0x00, 0x01, 0x00, 0x6E]);
    let sum: u64 = hex.iter().map(|b| *b as u64).sum();
    assert_eq!(sum % 256, 0);
}

#[test]
fn content_record_layout() {
    let c = ContentRecord::new(0x0102, vec![0xAA, 0xBB], 0);
    assert_eq!(c.len(), 6);
    assert_eq!(c.offset(), 0x0102);
    assert_eq!(c.data(), vec![0xAA, 0xBB]);
    let hex = c.hex();
    // the offset is split modulo 255: 0x0102 = 1 * 0xFF + 0x03
    assert_eq!(hex, vec![0x06, 0x06, 0x00, 0x00, 0x03, 0x01, 0xAA, 0xBB, 0x8B]);
    let sum: u64 = hex.iter().map(|b| *b as u64).sum();
    assert_eq!(sum % 256, 0);
}

#[test]
fn empty_content_record_has_no_image() {
    let c = ContentRecord::new(0, vec![], 0);
    assert_eq!(c.hex(), Vec::<u8>::new());
}

#[test]
fn object_image_concatenates_header_contents_end() {
    let rec = ContentRecord::new(0, vec![0x74, 0x10], 0);
    let img = object_image("ab", vec![rec]);
    let header = HeaderRecord::new(String::from("AB")).hex();
    let content = ContentRecord::new(0, vec![0x74, 0x10], 0).hex();
    let end = EndRecord::new(String::from("AB"), (true, false, false, false)).hex();
    let mut expect = header;
    expect.extend_from_slice(&content);
    expect.extend_from_slice(&end);
    assert_eq!(img, expect);
}

#[test]
fn flat_binary_concatenates_record_data() {
    let a = ContentRecord::new(0, vec![1, 2], 0);
    let b = ContentRecord::new(0x100, vec![3], 0);
    assert_eq!(flat_binary(vec![a, b]), vec![1, 2, 3]);
}

#[test]
fn a_full_chunk_makes_exactly_one_data_line() {
    let rec = ContentRecord::new(0, (0u8..16u8).collect(), 0);
    let lines = intel_hex_lines(&vec![rec]);
    assert_eq!(lines.len(), 2);
}
