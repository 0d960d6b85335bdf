//! The assembler pipeline and its three output forms: a flat binary image,
//! Intel-HEX text lines, and the object/module byte stream.

use vstd::prelude::*;
use crate::errors::{AsmError, ErrView};
use crate::hex_table::HexTable;
use crate::instruction::table_view;
use crate::labels::{build_label_table, builtin_sfr_table, spec_sections_entries, spec_sfr_table};
use crate::line::get_lines;
use crate::omf::{byte_sum, spec_checksum, ContentRecord};
use crate::section::{
    errors_view,
    get_sections,
    ins_views,
    sections_view,
    spec_build,
    spec_fix_instrs,
    spec_section_image,
    SectionView,
};

verus! {

/// A record list as the contracts see it: each record's base address and
/// data bytes.
pub open spec fn records_view(rs: Seq<ContentRecord>) -> Seq<(u16, Seq<u8>)> {
    rs.map_values(|r: ContentRecord| (r.offset, r.data@))
}

/// The flat binary image: the records' data, concatenated in order.
pub open spec fn spec_flat(rs: Seq<(u16, Seq<u8>)>) -> Seq<u8>
    decreases rs.len(),
{
    if rs.len() == 0 {
        Seq::<u8>::empty()
    } else {
        spec_flat(rs.drop_last()) + rs.last().1
    }
}

/// Concatenate the sections' bytes into one flat binary image.
pub fn flat_binary(records: Vec<ContentRecord>) -> (r: Vec<u8>)
    ensures
        r@ == spec_flat(records_view(records@)),
{
    let ghost all = records_view(records@);
    let mut rest = records;
    let mut hex_table = HexTable::new_empty();
    proof {
        assert(all.take(0) =~= Seq::<(u16, Seq<u8>)>::empty());
    }
    let n = rest.len();
    let mut i: usize = 0;
    while i < n
        invariant
            all.len() == n,
            0 <= i <= n,
            rest@.len() == n - i,
            records_view(rest@) =~= all.skip(i as int),
            hex_table.table@ =~= spec_flat(all.take(i as int)),
        decreases n - i,
    {
        let ghost prevr = rest@;
        let rec = rest.remove(0);
        proof {
            assert(records_view(prevr)[0] == (prevr[0].offset, prevr[0].data@));
            assert((rec.offset, rec.data@) == all[i as int]);
            assert(rest@ =~= prevr.skip(1));
            assert(records_view(prevr) =~= all.skip(i as int));
            assert forall|k: int| 0 <= k < rest@.len() implies records_view(rest@)[k] == all.skip(
                i + 1,
            )[k] by {
                assert(rest@[k] == prevr[k + 1]);
                assert(records_view(rest@)[k] == (rest@[k].offset, rest@[k].data@));
                assert(records_view(prevr)[k + 1] == (prevr[k + 1].offset, prevr[k + 1].data@));
                assert(all.skip(i as int)[k + 1] == all[i + 1 + k]);
                assert(all.skip(i + 1)[k] == all[i + 1 + k]);
            }
            assert(records_view(rest@) =~= all.skip(i + 1));
            assert(all.take(i + 1).drop_last() =~= all.take(i as int));
            assert(all.take(i + 1).last() == all[i as int]);
        }
        hex_table.append_content(rec);
        i += 1;
    }
    proof {
        assert(all.take(n as int) =~= all);
    }
    hex_table.table
}

/// The uppercase ASCII digit of one hex nibble.
pub open spec fn hex_digit(n: int) -> u8 {
    if n < 10 {
        (48 + n) as u8
    } else {
        (55 + n) as u8
    }
}

/// An Intel-HEX text line: a colon, then every byte as two uppercase hex
/// digits.
pub open spec fn render_line(bytes: Seq<u8>) -> Seq<u8> {
    seq![58u8] + Seq::new(
        2 * bytes.len(),
        |i: int|
            if i % 2 == 0 {
                hex_digit((bytes[i / 2] / 16) as int)
            } else {
                hex_digit((bytes[i / 2] % 16) as int)
            },
    )
}

/// Render one record as an ASCII Intel-HEX line.
fn render_record_line(bytes: &Vec<u8>) -> (r: Vec<u8>)
    ensures
        r@ == render_line(bytes@),
{
    let mut out: Vec<u8> = Vec::new();
    out.push(58);
    let n = bytes.len();
    let mut i: usize = 0;
    while i < n
        invariant
            n == bytes@.len(),
            0 <= i <= n,
            out@ =~= render_line(bytes@).take(1 + 2 * i),
        decreases n - i,
    {
        let b = bytes[i];
        let hi = b / 16;
        let lo = b % 16;
        out.push(
            if hi < 10 {
                48 + hi
            } else {
                55 + hi
            },
        );
        out.push(
            if lo < 10 {
                48 + lo
            } else {
                55 + lo
            },
        );
        proof {
            assert(out@ =~= render_line(bytes@).take(1 + 2 * (i + 1)));
        }
        i += 1;
    }
    proof {
        assert(render_line(bytes@).take(1 + 2 * n) =~= render_line(bytes@));
    }
    out
}

/// One Intel-HEX data record, as raw bytes: the chunk length, the big-endian
/// address, the data record type 0x00, the chunk, and the trailer checksum.
pub open spec fn spec_data_record(addr: int, chunk: Seq<u8>) -> Seq<u8> {
    let body = seq![
        (chunk.len() % 0x100) as u8,
        ((addr / 0x100) % 0x100) as u8,
        (addr % 0x100) as u8,
        0u8,
    ] + chunk;
    body.push(spec_checksum(body))
}

/// The checksum round trip: in every generated data record, the declared
/// checksum byte added to the sum of all other bytes vanishes modulo 256.
pub proof fn lemma_data_record_checksum(addr: int, chunk: Seq<u8>)
    ensures
        byte_sum(spec_data_record(addr, chunk)) % 256 == 0,
{
    let body = seq![
        (chunk.len() % 0x100) as u8,
        ((addr / 0x100) % 0x100) as u8,
        (addr % 0x100) as u8,
        0u8,
    ] + chunk;
    crate::omf::lemma_checksum_zeroes_sum(body);
}

/// One record's data, rendered as lines of at most 16 bytes each, the
/// address advancing (and wrapping at 16 bits) chunk by chunk.
pub open spec fn chunk_lines(addr: int, data: Seq<u8>) -> Seq<Seq<u8>>
    decreases data.len(),
{
    if data.len() == 0 {
        Seq::<Seq<u8>>::empty()
    } else if data.len() <= 16 {
        seq![render_line(spec_data_record(addr, data))]
    } else {
        seq![render_line(spec_data_record(addr, data.take(16)))] + chunk_lines(
            (addr + 16) % 0x10000,
            data.skip(16),
        )
    }
}

/// Every record's data lines, in record order.
pub open spec fn spec_records_lines(rs: Seq<(u16, Seq<u8>)>) -> Seq<Seq<u8>>
    decreases rs.len(),
{
    if rs.len() == 0 {
        Seq::<Seq<u8>>::empty()
    } else {
        spec_records_lines(rs.drop_last()) + chunk_lines(rs.last().0 as int, rs.last().1)
    }
}

/// The end-of-file record's line.
pub open spec fn spec_terminator_line() -> Seq<u8> {
    render_line(seq![0x00u8, 0x00u8, 0x00u8, 0x01u8, 0xFFu8])
}

/// The whole Intel-HEX file, line by line.
pub open spec fn spec_hex_lines(rs: Seq<(u16, Seq<u8>)>) -> Seq<Seq<u8>> {
    spec_records_lines(rs).push(spec_terminator_line())
}

/// A list of ASCII lines as the contracts see it.
pub open spec fn byte_lines_view(ls: Seq<Vec<u8>>) -> Seq<Seq<u8>> {
    ls.map_values(|l: Vec<u8>| l@)
}

/// Render the records as Intel-HEX text: one data-record line per 16-byte
/// chunk, then the end-of-file record line.
#[verifier::rlimit(100)]
pub fn intel_hex_lines(records: &Vec<ContentRecord>) -> (r: Vec<Vec<u8>>)
    ensures
        byte_lines_view(r@) == spec_hex_lines(records_view(records@)),
{
    let ghost all = records_view(records@);
    let mut lines: Vec<Vec<u8>> = Vec::new();
    let n = records.len();
    let mut i: usize = 0;
    proof {
        assert(all.take(0) =~= Seq::<(u16, Seq<u8>)>::empty());
        assert(byte_lines_view(lines@) =~= Seq::<Seq<u8>>::empty());
    }
    while i < n
        invariant
            all == records_view(records@),
            n == records@.len(),
            0 <= i <= n,
            byte_lines_view(lines@) =~= spec_records_lines(all.take(i as int)),
        decreases n - i,
    {
        proof {
            assert(all.take(i + 1).drop_last() =~= all.take(i as int));
            assert(all.take(i + 1).last() == all[i as int]);
            assert(all[i as int] == (records@[i as int].offset, records@[i as int].data@));
        }
        let rec = &records[i];
        let data_len = rec.data.len();
        let ghost dv = rec.data@;
        let mut pos: usize = 0;
        let ghost base_lines = lines@;
        let mut addr: u16 = rec.offset;
        proof {
            assert(dv.skip(0) =~= dv);
        }
        while pos < data_len
            invariant
                data_len == dv.len(),
                i < n,
                n == records@.len(),
                dv == records@[i as int].data@,
                0 <= pos <= data_len,
                byte_lines_view(lines@) + chunk_lines(addr as int, dv.skip(pos as int))
                    =~= byte_lines_view(base_lines) + chunk_lines(
                    records@[i as int].offset as int,
                    dv,
                ),
                byte_lines_view(base_lines) =~= spec_records_lines(all.take(i as int)),
            decreases data_len - pos,
        {
            let end = if data_len - pos > 16 {
                pos + 16
            } else {
                data_len
            };
            let mut body: Vec<u8> = Vec::new();
            body.push(((end - pos) % 0x100) as u8);
            body.push((addr / 0x100) as u8);
            body.push((addr % 0x100) as u8);
            body.push(0);
            let mut j: usize = pos;
            let ghost pre = body@;
            while j < end
                invariant
                    pos <= j <= end <= dv.len(),
                    dv == records@[i as int].data@,
                    i < n <= records@.len(),
                    body@ =~= pre + dv.subrange(pos as int, j as int),
                decreases end - j,
            {
                body.push(records[i].data[j]);
                proof {
                    assert(dv.subrange(pos as int, j + 1) =~= dv.subrange(pos as int, j as int)
                        .push(dv[j as int]));
                }
                j += 1;
            }
            let chk = crate::omf::checksome(&body);
            body.push(chk);
            let ghost rest = dv.skip(pos as int);
            proof {
                let chunk = if rest.len() <= 16 {
                    rest
                } else {
                    rest.take(16)
                };
                assert(chunk =~= dv.subrange(pos as int, end as int));
                assert(chunk.len() == end - pos);
                assert(0 <= addr as int / 0x100 < 0x100) by (nonlinear_arith)
                    requires
                        addr <= 0xFFFF,
                ;
                assert(pre =~= seq![
                    (chunk.len() % 0x100) as u8,
                    ((addr as int / 0x100) % 0x100) as u8,
                    (addr as int % 0x100) as u8,
                    0u8,
                ]);
                assert(body@ =~= spec_data_record(addr as int, chunk));
            }
            let line = render_record_line(&body);
            let ghost prev_lines = lines@;
            lines.push(line);
            proof {
                assert(byte_lines_view(lines@) =~= byte_lines_view(prev_lines).push(line@));
                if rest.len() <= 16 {
                    assert(chunk_lines(addr as int, rest) =~= seq![
                        render_line(spec_data_record(addr as int, rest)),
                    ]);
                    assert(dv.skip(end as int) =~= Seq::<u8>::empty());
                } else {
                    assert(rest.skip(16) =~= dv.skip(end as int));
                    assert(chunk_lines(addr as int, rest) =~= seq![
                        render_line(spec_data_record(addr as int, rest.take(16))),
                    ] + chunk_lines((addr as int + 16) % 0x10000, dv.skip(end as int)));
                }
            }
            addr = ((addr as u32 + 0x10) % 0x10000) as u16;
            pos = end;
        }
        proof {
            assert(dv.skip(data_len as int) =~= Seq::<u8>::empty());
            assert(chunk_lines(addr as int, Seq::<u8>::empty()) =~= Seq::<Seq<u8>>::empty());
            assert(byte_lines_view(lines@) =~= byte_lines_view(base_lines) + chunk_lines(
                records@[i as int].offset as int,
                dv,
            ));
            assert(byte_lines_view(lines@) =~= spec_records_lines(all.take(i + 1)));
        }
        i += 1;
    }
    proof {
        assert(all.take(n as int) =~= all);
    }
    let mut term: Vec<u8> = Vec::new();
    term.push(0x00);
    term.push(0x00);
    term.push(0x00);
    term.push(0x01);
    term.push(0xFF);
    proof {
        assert(term@ =~= seq![0x00u8, 0x00u8, 0x00u8, 0x01u8, 0xFFu8]);
    }
    let tline = render_record_line(&term);
    let ghost prev_lines = lines@;
    lines.push(tline);
    proof {
        assert(byte_lines_view(lines@) =~= byte_lines_view(prev_lines).push(
            spec_terminator_line(),
        ));
    }
    lines
}

/// The object images of the content records, concatenated in order.
pub open spec fn spec_content_records_hex(rs: Seq<ContentRecord>) -> Seq<u8>
    decreases rs.len(),
{
    if rs.len() == 0 {
        Seq::<u8>::empty()
    } else {
        spec_content_records_hex(rs.drop_last()) + crate::omf::content_hex(
            rs.last().offset,
            rs.last().data@,
            rs.last().seg_id,
        )
    }
}

/// The whole object/module byte stream: a header record for the upper-cased
/// module name, one record per section, and an end record naming register
/// bank zero.
pub open spec fn spec_object_image(name: Seq<char>, rs: Seq<ContentRecord>) -> Seq<u8> {
    crate::omf::header_hex(crate::text::upper_seq(name)) + spec_content_records_hex(rs)
        + crate::omf::end_hex(crate::text::upper_seq(name), 1)
}

/// Serialize the records in the object/module format.
pub fn object_image(name: &str, records: Vec<ContentRecord>) -> (r: Vec<u8>)
    ensures
        r@ == spec_object_image(name@, records@),
{
    let ghost all = records@;
    let upper = crate::text::upper_string(name);
    let header = crate::omf::HeaderRecord::new(upper.clone());
    let end = crate::omf::EndRecord::new(upper, (true, false, false, false));
    let mut hex_table = HexTable::new_empty();
    hex_table.append_record(header);
    let ghost head = hex_table.table@;
    let mut rest = records;
    let n = rest.len();
    let mut i: usize = 0;
    proof {
        assert(all.take(0) =~= Seq::<ContentRecord>::empty());
        assert(head + spec_content_records_hex(all.take(0)) =~= head);
        assert(hex_table.table@ =~= head + spec_content_records_hex(all.take(0)));
    }
    while i < n
        invariant
            all.len() == n,
            0 <= i <= n,
            rest@ =~= all.skip(i as int),
            hex_table.table@ =~= head + spec_content_records_hex(all.take(i as int)),
        decreases n - i,
    {
        let ghost prevr = rest@;
        let rec = rest.remove(0);
        proof {
            assert(rec == all[i as int]);
            assert(rest@ =~= all.skip(i + 1));
            assert(all.take(i + 1).drop_last() =~= all.take(i as int));
            assert(all.take(i + 1).last() == all[i as int]);
        }
        hex_table.append_record(rec);
        i += 1;
    }
    proof {
        assert(all.take(n as int) =~= all);
    }
    hex_table.append_record(end);
    hex_table.table
}

/// The pipeline's result after some sections: the records produced so far
/// and the diagnostics so far. A section's resolution errors always
/// accumulate; its image is produced only while no diagnostic has been seen.
pub open spec fn assemble_step(
    st: (Seq<(u16, Seq<u8>)>, Seq<ErrView>),
    sec: SectionView,
    table: Seq<(Seq<char>, u16)>,
) -> (Seq<(u16, Seq<u8>)>, Seq<ErrView>) {
    let fixed = spec_fix_instrs(sec.instructions, table);
    let errs2 = st.1 + fixed.1;
    if errs2.len() == 0 {
        let img = spec_section_image(fixed.0);
        if img.1.len() == 0 {
            (st.0.push((sec.offset, img.0)), errs2)
        } else {
            (st.0, errs2 + img.1)
        }
    } else {
        (st.0, errs2)
    }
}

/// The pipeline's second and third passes over a list of sections.
pub open spec fn assemble_sections(
    ss: Seq<SectionView>,
    table: Seq<(Seq<char>, u16)>,
    st: (Seq<(u16, Seq<u8>)>, Seq<ErrView>),
) -> (Seq<(u16, Seq<u8>)>, Seq<ErrView>)
    decreases ss.len(),
{
    if ss.len() == 0 {
        st
    } else {
        assemble_sections(ss.drop_first(), table, assemble_step(st, ss[0], table))
    }
}

/// The whole assembler: tokenize, build sections, resolve labels against the
/// source-defined labels plus the built-in register names, and encode each
/// section. The result is each section's base address and bytes, or every
/// diagnostic collected along the way.
pub open spec fn spec_assemble(text: Seq<char>) -> (Seq<(u16, Seq<u8>)>, Seq<ErrView>) {
    let lines = crate::line::spec_get_lines(text);
    let b = spec_build(lines);
    if b.errors.len() > 0 {
        (Seq::<(u16, Seq<u8>)>::empty(), b.errors)
    } else {
        let sections = b.done.push(b.curr);
        let table = spec_sections_entries(sections) + spec_sfr_table();
        assemble_sections(
            sections,
            table,
            (Seq::<(u16, Seq<u8>)>::empty(), Seq::<ErrView>::empty()),
        )
    }
}

/// Assemble a source text into one content record per section, or the full
/// list of diagnostics when anything failed. No output is produced alongside
/// diagnostics.
pub fn assemble(source: String) -> (r: Result<Vec<ContentRecord>, Vec<AsmError>>)
    ensures
        ({
            let out = spec_assemble(source@);
            match r {
                Ok(recs) => out.1.len() == 0 && records_view(recs@) == out.0 && (forall|k: int|
                    0 <= k < recs@.len() ==> (#[trigger] recs@[k]).seg_id == 0),
                Err(es) => out.1.len() > 0 && errors_view(es@) == out.1,
            }
        }),
{
    let lines = get_lines(source);
    let mut sections = match get_sections(lines) {
        Ok(s) => s,
        Err(es) => {
            return Err(es);
        },
    };
    let builtins = builtin_sfr_table();
    let table = build_label_table(&sections, &builtins);
    let ghost orig = sections_view(sections@);
    let ghost tv = table_view(table@);
    let mut errors: Vec<AsmError> = Vec::new();
    let mut records: Vec<ContentRecord> = Vec::new();
    let n = sections.len();
    let mut i: usize = 0;
    proof {
        assert(orig.skip(0) =~= orig);
        assert(records_view(records@) =~= Seq::<(u16, Seq<u8>)>::empty());
        assert(errors_view(errors@) =~= Seq::<ErrView>::empty());
    }
    while i < n
        invariant
            n == sections@.len(),
            0 <= i <= n,
            orig.len() == n,
            tv == table_view(table@),
            forall|j: int| i <= j < n ==> (#[trigger] sections@[j])@ == orig[j],
            forall|k: int| 0 <= k < records@.len() ==> (#[trigger] records@[k]).seg_id == 0,
            assemble_sections(
                orig.skip(i as int),
                tv,
                (records_view(records@), errors_view(errors@)),
            ) == assemble_sections(
                orig,
                tv,
                (Seq::<(u16, Seq<u8>)>::empty(), Seq::<ErrView>::empty()),
            ),
        decreases n - i,
    {
        let ghost st = (records_view(records@), errors_view(errors@));
        let ghost rem = orig.skip(i as int);
        proof {
            assert(rem[0] == orig[i as int]);
            assert(rem.drop_first() =~= orig.skip(i + 1));
            assert(sections@[i as int]@ == orig[i as int]);
        }
        let ghost fixed = spec_fix_instrs(orig[i as int].instructions, tv);
        match sections[i].fix_labels(&table) {
            Ok(_) => {
                proof {
                    assert(errors_view(errors@) =~= st.1 + fixed.1);
                }
            },
            Err(mut es) => {
                let ghost preve = errors@;
                let ghost esv = es@;
                errors.append(&mut es);
                proof {
                    assert(errors@ =~= preve + esv);
                    assert(errors_view(errors@) =~= errors_view(preve) + errors_view(esv));
                    assert(errors_view(errors@) =~= st.1 + fixed.1);
                }
            },
        }
        proof {
            assert(ins_views(sections@[i as int].instructions@) == fixed.0);
            assert(sections@[i as int].offset == orig[i as int].offset);
            assert(sections@[i as int]@.instructions == fixed.0);
        }
        if errors.len() == 0 {
            let ghost img = spec_section_image(fixed.0);
            match sections[i].get_content_record() {
                Ok(rec) => {
                    let ghost prevr = records@;
                    records.push(rec);
                    proof {
                        assert(records_view(records@) =~= records_view(prevr).push(
                            (rec.offset, rec.data@),
                        ));
                        assert(records_view(records@) =~= st.0.push(
                            (orig[i as int].offset, img.0),
                        ));
                    }
                },
                Err(mut es) => {
                    let ghost preve = errors@;
                    let ghost esv = es@;
                    errors.append(&mut es);
                    proof {
                        assert(errors@ =~= preve + esv);
                        assert(errors_view(errors@) =~= errors_view(preve) + errors_view(esv));
                        assert(errors_view(errors@) =~= (st.1 + fixed.1) + img.1);
                    }
                },
            }
        }
        proof {
            assert((records_view(records@), errors_view(errors@)) == assemble_step(
                st,
                rem[0],
                tv,
            ));
        }
        i += 1;
    }
    proof {
        assert(orig.skip(n as int) =~= Seq::<SectionView>::empty());
    }
    if errors.len() == 0 {
        proof {
            assert(errors_view(errors@) =~= Seq::<ErrView>::empty());
        }
        Ok(records)
    } else {
        Err(errors)
    }
}

} // verus!
