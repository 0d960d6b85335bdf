//! Sections: contiguous address regions delimited by origin directives.
//!
//! [`get_sections`] walks the tokenized lines in order, parses each into an
//! instruction, assigns it the running byte offset within the current
//! section, and opens a new section (resetting the offset to zero) at every
//! well-formed `ORG`/`CSEG`/`DSEG` directive. Parse errors and malformed
//! origin operands are collected; they skip their line but never abort the
//! walk.

use vstd::prelude::*;
use crate::errors::{AsmError, ErrView};
use crate::hex_table::HexTable;
use crate::instruction::{InsView, Instruction};
use crate::omf::ContentRecord;
use crate::line::{Line, LineView, lines_view};

verus! {

/// A contiguous region: a base origin address and the instructions placed
/// in it, in source order.
#[derive(Debug)]
pub struct Section {
    pub offset: u16,
    pub instructions: Vec<Instruction>,
}

/// The mathematical abstraction of a [`Section`].
#[verifier::ext_equal]
pub struct SectionView {
    pub offset: u16,
    pub instructions: Seq<InsView>,
}

impl View for Section {
    type V = SectionView;

    open spec fn view(&self) -> SectionView {
        SectionView { offset: self.offset, instructions: ins_views(self.instructions@) }
    }
}

/// A vector of instructions as the contracts see it.
pub open spec fn ins_views(is: Seq<Instruction>) -> Seq<InsView> {
    is.map_values(|i: Instruction| i@)
}

/// A vector of sections as the contracts see it.
pub open spec fn sections_view(ss: Seq<Section>) -> Seq<SectionView> {
    ss.map_values(|s: Section| s@)
}

/// A vector of diagnostics as the contracts see it.
pub open spec fn errors_view(es: Seq<AsmError>) -> Seq<ErrView> {
    es.map_values(|e: AsmError| e@)
}

/// The section builder's state: the closed sections, the section being
/// filled, the running byte offset within it, and the diagnostics so far.
#[verifier::ext_equal]
pub struct BuildView {
    pub done: Seq<SectionView>,
    pub curr: SectionView,
    pub offset: u16,
    pub errors: Seq<ErrView>,
}

/// One line through the section builder. A line that fails to parse, or an
/// origin directive whose operand is malformed, contributes a diagnostic
/// and nothing else. A well-formed origin directive closes the current
/// section, opens one at its address, and is itself placed at offset zero of
/// the new section. Every placed instruction carries the running offset,
/// which then advances by the instruction's length, wrapping at 16 bits.
pub open spec fn build_step(st: BuildView, l: LineView) -> BuildView {
    match crate::instruction::spec_from_line(l, st.offset) {
        Err(e) => BuildView {
            done: st.done,
            curr: st.curr,
            offset: st.offset,
            errors: st.errors.push(e),
        },
        Ok(ins0) => {
            if !ins0.spec_origin_shape_ok() {
                BuildView {
                    done: st.done,
                    curr: st.curr,
                    offset: st.offset,
                    errors: st.errors.push(ErrView::InvalidOrigin { line: ins0.num }),
                }
            } else {
                match ins0.spec_new_section() {
                    Some(d) => {
                        let ins = InsView {
                            offset: 0,
                            num: ins0.num,
                            label: ins0.label,
                            mnemonic: ins0.mnemonic,
                            ops: ins0.ops,
                        };
                        BuildView {
                            done: st.done.push(st.curr),
                            curr: SectionView {
                                offset: d,
                                instructions: Seq::<InsView>::empty().push(ins),
                            },
                            offset: ((ins.spec_len()) % 0x10000) as u16,
                            errors: st.errors,
                        }
                    },
                    None => BuildView {
                        done: st.done,
                        curr: SectionView {
                            offset: st.curr.offset,
                            instructions: st.curr.instructions.push(ins0),
                        },
                        offset: ((st.offset + ins0.spec_len()) % 0x10000) as u16,
                        errors: st.errors,
                    },
                }
            }
        },
    }
}

/// The builder run over a list of lines.
pub open spec fn build_lines(ls: Seq<LineView>, st: BuildView) -> BuildView
    decreases ls.len(),
{
    if ls.len() == 0 {
        st
    } else {
        build_lines(ls.drop_first(), build_step(st, ls[0]))
    }
}

/// The builder's starting state: one open section at origin zero.
pub open spec fn initial_build() -> BuildView {
    BuildView {
        done: Seq::<SectionView>::empty(),
        curr: SectionView { offset: 0, instructions: Seq::<InsView>::empty() },
        offset: 0,
        errors: Seq::<ErrView>::empty(),
    }
}

/// The whole section-building pass over the tokenized lines.
pub open spec fn spec_build(ls: Seq<LineView>) -> BuildView {
    build_lines(ls, initial_build())
}

/// Offsets within one section are consistent: the first instruction sits at
/// offset zero and each next instruction sits exactly one instruction-length
/// (wrapping at 16 bits) after the one before it.
pub open spec fn section_offsets_wf(ins: Seq<InsView>) -> bool {
    &&& (ins.len() > 0 ==> ins[0].offset == 0)
    &&& forall|i: int|
        0 <= i && i + 1 < ins.len() ==> (#[trigger] ins[i + 1].offset) as int == (ins[i].offset
            + ins[i].spec_len()) % 0x10000
}

/// The sum of the byte lengths of the first `k` instructions of a section.
pub open spec fn len_sum(ins: Seq<InsView>, k: int) -> int
    decreases k,
{
    if k <= 0 {
        0
    } else {
        len_sum(ins, k - 1) + ins[k - 1].spec_len()
    }
}

/// In a section with consistent offsets, every instruction sits exactly at
/// the sum of the byte lengths of all instructions before it, wrapped to 16
/// bits.
pub proof fn lemma_offsets_are_length_sums(ins: Seq<InsView>, i: int)
    requires
        section_offsets_wf(ins),
        0 <= i < ins.len(),
    ensures
        ins[i].offset as int == len_sum(ins, i) % 0x10000,
    decreases i,
{
    if i == 0 {
    } else {
        lemma_offsets_are_length_sums(ins, i - 1);
        assert(ins[(i - 1) + 1].offset as int == (ins[i - 1].offset + ins[i - 1].spec_len())
            % 0x10000);
        let a = len_sum(ins, i - 1);
        let b = ins[i - 1].spec_len();
        vstd::arithmetic::div_mod::lemma_add_mod_noop(a, b, 0x10000);
        vstd::arithmetic::div_mod::lemma_add_mod_noop(a % 0x10000, b, 0x10000);
        vstd::arithmetic::div_mod::lemma_mod_twice(a, 0x10000);
        vstd::arithmetic::div_mod::lemma_mod_twice(b, 0x10000);
        vstd::arithmetic::div_mod::lemma_add_mod_noop(a, b % 0x10000, 0x10000);
    }
}

/// The running offset the next instruction of a section would get.
pub open spec fn section_next_offset(ins: Seq<InsView>) -> int {
    if ins.len() == 0 {
        0
    } else {
        (ins.last().offset + ins.last().spec_len()) % 0x10000
    }
}

impl Section {
    /// An empty section based at the given origin address.
    pub fn new(offset: u16) -> (r: Section)
        ensures
            r.offset == offset,
            r.instructions@.len() == 0,
    {
        Section { offset, instructions: Vec::new() }
    }

    /// Append one instruction.
    pub fn push(&mut self, instruction: Instruction)
        ensures
            final(self).offset == old(self).offset,
            final(self).instructions@ == old(self).instructions@.push(instruction),
    {
        self.instructions.push(instruction);
    }
}

/// Run the section builder over the tokenized lines: the closed sections in
/// order (the section being filled last), or every diagnostic the walk
/// collected. Within every returned section the instruction offsets are
/// consistent (`section_offsets_wf`).
pub fn get_sections(lines: Vec<Line>) -> (r: Result<Vec<Section>, Vec<AsmError>>)
    ensures
        ({
            let b = spec_build(lines_view(lines@));
            match r {
                Ok(ss) => b.errors.len() == 0 && sections_view(ss@) == b.done.push(b.curr)
                    && forall|k: int|
                    0 <= k < ss@.len() ==> section_offsets_wf(#[trigger] ss@[k]@.instructions),
                Err(es) => b.errors.len() > 0 && errors_view(es@) == b.errors,
            }
        }),
{
    let ghost all = lines_view(lines@);
    let mut errors: Vec<AsmError> = Vec::new();
    let mut offset: u16 = 0;
    let mut sections: Vec<Section> = Vec::new();
    let mut curr_sec = Section::new(0);
    let mut i: usize = 0;
    proof {
        assert(all.skip(0) =~= all);
        assert(sections_view(sections@) =~= Seq::<SectionView>::empty());
        assert(errors_view(errors@) =~= Seq::<ErrView>::empty());
        assert(curr_sec@.instructions =~= Seq::<InsView>::empty());
        assert(build_lines(all, initial_build()) == spec_build(all));
    }
    while i < lines.len()
        invariant
            all == lines_view(lines@),
            lines@.len() == all.len(),
            0 <= i <= lines@.len(),
            build_lines(
                all.skip(i as int),
                BuildView {
                    done: sections_view(sections@),
                    curr: curr_sec@,
                    offset,
                    errors: errors_view(errors@),
                },
            ) == spec_build(all),
            forall|k: int|
                0 <= k < sections@.len() ==> section_offsets_wf(
                    #[trigger] sections@[k]@.instructions,
                ),
            section_offsets_wf(curr_sec@.instructions),
            offset as int == section_next_offset(curr_sec@.instructions),
        decreases lines@.len() - i,
    {
        let ghost st = BuildView {
            done: sections_view(sections@),
            curr: curr_sec@,
            offset,
            errors: errors_view(errors@),
        };
        let ghost rem = all.skip(i as int);
        let ghost li = i as int;
        proof {
            assert(rem[0] == all[li]);
            assert(all[li] == lines@[li]@);
            assert(rem.drop_first() =~= all.skip(li + 1));
            assert(build_lines(rem, st) == build_lines(rem.drop_first(), build_step(st, rem[0])));
        }
        let line = clone_line(&lines[i]);
        i += 1;
        let mut ins = match Instruction::from_line(line, offset) {
            Ok(ins) => ins,
            Err(e) => {
                let ghost prev = errors@;
                errors.push(e);
                proof {
                    assert(errors_view(errors@) =~= errors_view(prev).push(e@));
                    assert(BuildView {
                        done: sections_view(sections@),
                        curr: curr_sec@,
                        offset,
                        errors: errors_view(errors@),
                    } =~~= build_step(st, rem[0]));
                }
                continue ;
            },
        };
        proof {
            assert(crate::instruction::spec_from_line(rem[0], st.offset) matches Ok(v) && ins@
                == v);
        }
        if !ins.origin_ok() {
            let e = AsmError::InvalidOrigin { line: ins.num };
            let ghost prev = errors@;
            errors.push(e);
            proof {
                assert(errors_view(errors@) =~= errors_view(prev).push(e@));
                assert(BuildView {
                    done: sections_view(sections@),
                    curr: curr_sec@,
                    offset,
                    errors: errors_view(errors@),
                } =~~= build_step(st, rem[0]));
            }
            continue ;
        }
        let ghost ins0 = ins@;
        match ins.is_new_section() {
            Some(d) => {
                let ghost prev_secs = sections@;
                sections.push(curr_sec);
                proof {
                    assert(sections_view(sections@) =~= sections_view(prev_secs).push(st.curr));
                }
                curr_sec = Section::new(d);
                offset = 0;
                ins.offset = 0;
                proof {
                    assert(ins@ =~~= InsView {
                        offset: 0,
                        num: ins0.num,
                        label: ins0.label,
                        mnemonic: ins0.mnemonic,
                        ops: ins0.ops,
                    });
                    assert(curr_sec@.instructions =~= Seq::<InsView>::empty());
                }
            },
            None => {},
        }
        let l = ins.len();
        let ghost prev_ins = curr_sec@.instructions;
        let new_off = ((offset as u32 + l as u32) % 0x10000) as u16;
        curr_sec.push(ins);
        proof {
            assert(curr_sec@.instructions =~= prev_ins.push(ins@));
            // the offsets of the grown section stay consistent
            assert(ins@.offset == offset);
            let grown = prev_ins.push(ins@);
            assert forall|k: int| 0 <= k && k + 1 < grown.len() implies (#[trigger] grown[k
                + 1].offset) as int == (grown[k].offset + grown[k].spec_len()) % 0x10000 by {
                if k + 1 < grown.len() - 1 {
                    assert(grown[k + 1] == prev_ins[k + 1]);
                    assert(grown[k] == prev_ins[k]);
                } else {
                    assert(grown[k + 1] == ins@);
                    if prev_ins.len() > 0 {
                        assert(grown[k] == prev_ins.last());
                    }
                }
            }
            assert(section_offsets_wf(grown));
            assert(new_off as int == (ins@.offset + ins@.spec_len()) % 0x10000);
            assert(section_next_offset(grown) == new_off as int);
            // this iteration did exactly one builder step
            assert(BuildView {
                done: sections_view(sections@),
                curr: curr_sec@,
                offset: new_off,
                errors: errors_view(errors@),
            } =~~= build_step(st, rem[0]));
        }
        offset = new_off;
    }
    proof {
        assert(all.skip(all.len() as int) =~= Seq::<LineView>::empty());
    }
    let ghost final_st = BuildView {
        done: sections_view(sections@),
        curr: curr_sec@,
        offset,
        errors: errors_view(errors@),
    };
    let ghost prev_secs = sections@;
    sections.push(curr_sec);
    proof {
        assert(sections_view(sections@) =~= sections_view(prev_secs).push(final_st.curr));
    }
    if errors.len() == 0 {
        proof {
            assert(errors_view(errors@) =~= Seq::<ErrView>::empty());
        }
        Ok(sections)
    } else {
        Err(errors)
    }
}

/// Duplicate a tokenized line.
fn clone_line(l: &Line) -> (r: Line)
    ensures
        r@ == l@,
{
    let mut ops: Vec<String> = Vec::new();
    let mut i: usize = 0;
    while i < l.ops.len()
        invariant
            0 <= i <= l.ops@.len(),
            crate::text::toks_view(ops@) =~= crate::text::toks_view(l.ops@).take(i as int),
        decreases l.ops@.len() - i,
    {
        let ghost prev = ops@;
        ops.push(l.ops[i].clone());
        proof {
            assert(crate::text::toks_view(ops@) =~= crate::text::toks_view(prev).push(
                l.ops@[i as int]@,
            ));
        }
        i += 1;
    }
    proof {
        assert(crate::text::toks_view(ops@) =~= crate::text::toks_view(l.ops@));
    }
    Line {
        label: match &l.label {
            Some(s) => Some(s.clone()),
            None => None,
        },
        mnu: match &l.mnu {
            Some(s) => Some(s.clone()),
            None => None,
        },
        ops,
        num: l.num,
    }
}

/// Pass one of label resolution for one section: each label definition
/// paired with its absolute address (section origin plus instruction offset,
/// wrapping at 16 bits), the name lower-cased, in source order.
pub open spec fn spec_label_entries(vs: Seq<InsView>, base: u16) -> Seq<(Seq<char>, u16)>
    decreases vs.len(),
{
    if vs.len() == 0 {
        Seq::<(Seq<char>, u16)>::empty()
    } else {
        let init = spec_label_entries(vs.drop_last(), base);
        match vs.last().label {
            Some(name) => init.push(
                (crate::text::lower_seq(name), ((vs.last().offset + base) % 0x10000) as u16),
            ),
            None => init,
        }
    }
}

/// One step of laying an instruction into a section image: an encoding
/// failure contributes its diagnostic; otherwise the bytes land at the
/// instruction's offset. The bytes always fit, because the image is sized
/// from the lengths and the length equals the encoded byte count
/// (`lemma_len_encode_consistent`).
pub open spec fn image_step(buf: Seq<u8>, errs: Seq<ErrView>, v: InsView) -> (Seq<u8>, Seq<
    ErrView,
>) {
    match v.spec_encode() {
        Err(e) => (buf, errs.push(e)),
        Ok(bytes) => (crate::hex_table::write_at(buf, v.offset as int, bytes), errs),
    }
}

/// Lay a list of instructions into a buffer, collecting diagnostics.
pub open spec fn image_fold(vs: Seq<InsView>, buf: Seq<u8>, errs: Seq<ErrView>) -> (Seq<u8>, Seq<
    ErrView,
>)
    decreases vs.len(),
{
    if vs.len() == 0 {
        (buf, errs)
    } else {
        let stepped = image_step(buf, errs, vs[0]);
        image_fold(vs.drop_first(), stepped.0, stepped.1)
    }
}

/// One section's byte image: a zero-filled buffer sized to the largest
/// offset-plus-length, with each instruction's encoding written at its
/// offset, and the diagnostics of the instructions that failed.
pub open spec fn spec_section_image(vs: Seq<InsView>) -> (Seq<u8>, Seq<ErrView>) {
    image_fold(
        vs,
        Seq::new(crate::hex_table::spec_image_size(vs) as nat, |i: int| 0u8),
        Seq::<ErrView>::empty(),
    )
}

impl Section {
    /// Collect this section's label definitions as lower-cased names with
    /// absolute addresses.
    pub fn build_label_table(&self) -> (r: Vec<(String, u16)>)
        ensures
            crate::instruction::table_view(r@) == spec_label_entries(
                self@.instructions,
                self.offset,
            ),
    {
        let ghost vs = self@.instructions;
        let mut table: Vec<(String, u16)> = Vec::new();
        let mut i: usize = 0;
        proof {
            assert(vs.take(0) =~= Seq::<InsView>::empty());
            assert(crate::instruction::table_view(table@) =~= Seq::<(Seq<char>, u16)>::empty());
        }
        while i < self.instructions.len()
            invariant
                vs == self@.instructions,
                0 <= i <= self.instructions@.len(),
                vs.len() == self.instructions@.len(),
                crate::instruction::table_view(table@) =~= spec_label_entries(
                    vs.take(i as int),
                    self.offset,
                ),
            decreases self.instructions@.len() - i,
        {
            proof {
                assert(vs.take(i + 1).drop_last() =~= vs.take(i as int));
                assert(vs.take(i + 1).last() == vs[i as int]);
                assert(vs[i as int] == self.instructions@[i as int]@);
            }
            match &self.instructions[i].label {
                Some(lbl) => {
                    let name = crate::text::lower_string(lbl.as_str());
                    let addr = ((self.instructions[i].offset() as u32 + self.offset as u32)
                        % 0x10000) as u16;
                    let ghost prev = table@;
                    table.push((name, addr));
                    proof {
                        assert(crate::instruction::table_view(table@)
                            =~= crate::instruction::table_view(prev).push((name@, addr)));
                    }
                },
                None => {},
            }
            i += 1;
        }
        proof {
            assert(vs.take(self.instructions@.len() as int) =~= vs);
        }
        table
    }

    /// Pass two of label resolution over this section: rewrite every label
    /// operand in place, collecting one diagnostic per failing instruction
    /// and leaving a failing instruction unchanged.
    pub fn fix_labels(&mut self, label_table: &Vec<(String, u16)>) -> (r: Result<
        (),
        Vec<AsmError>,
    >)
        ensures
            final(self).offset == old(self).offset,
            ({
                let fixed = spec_fix_instrs(
                    ins_views(old(self).instructions@),
                    crate::instruction::table_view(label_table@),
                );
                &&& ins_views(final(self).instructions@) == fixed.0
                &&& match r {
                    Ok(_) => fixed.1.len() == 0,
                    Err(es) => fixed.1.len() > 0 && errors_view(es@) == fixed.1,
                }
            }),
    {
        let ghost vs = ins_views(old(self).instructions@);
        let ghost tv = crate::instruction::table_view(label_table@);
        let mut errors: Vec<AsmError> = Vec::new();
        let n = self.instructions.len();
        let mut i: usize = 0;
        proof {
            assert(vs.take(0) =~= Seq::<InsView>::empty());
            assert(errors_view(errors@) =~= Seq::<ErrView>::empty());
            assert(ins_views(self.instructions@).take(0) =~= Seq::<InsView>::empty());
        }
        while i < n
            invariant
                n == self.instructions@.len(),
                0 <= i <= n,
                vs == ins_views(old(self).instructions@),
                tv == crate::instruction::table_view(label_table@),
                vs.len() == n,
                self.offset == old(self).offset,
                forall|j: int| i <= j < n ==> self.instructions@[j] == old(self).instructions@[j],
                ins_views(self.instructions@).take(i as int) =~= spec_fix_instrs(
                    vs.take(i as int),
                    tv,
                ).0,
                errors_view(errors@) =~= spec_fix_instrs(vs.take(i as int), tv).1,
            decreases n - i,
        {
            let ghost pre = self.instructions@;
            proof {
                assert(vs.take(i + 1).drop_last() =~= vs.take(i as int));
                assert(vs.take(i + 1).last() == vs[i as int]);
                assert(vs[i as int] == old(self).instructions@[i as int]@);
                assert(self.instructions@[i as int] == old(self).instructions@[i as int]);
            }
            let res = self.instructions[i].fix_label(label_table);
            proof {
                assert forall|j: int| 0 <= j < n && j != i implies self.instructions@[j] == pre[j]
                    by {}
                assert forall|j: int| 0 <= j < i implies ins_views(self.instructions@)[j]
                    == ins_views(pre)[j] by {
                    assert(self.instructions@[j] == pre[j]);
                }
                assert(ins_views(self.instructions@).take(i as int) =~= ins_views(pre).take(
                    i as int,
                ));
            }
            match res {
                Ok(_) => {
                    proof {
                        assert(ins_views(self.instructions@).take(i + 1) =~= spec_fix_instrs(
                            vs.take(i + 1),
                            tv,
                        ).0);
                    }
                },
                Err(e) => {
                    let ghost preve = errors@;
                    errors.push(e);
                    proof {
                        assert(errors_view(errors@) =~= errors_view(preve).push(e@));
                        assert(ins_views(self.instructions@).take(i + 1) =~= spec_fix_instrs(
                            vs.take(i + 1),
                            tv,
                        ).0);
                    }
                },
            }
            i += 1;
        }
        proof {
            assert(vs.take(n as int) =~= vs);
            assert(ins_views(self.instructions@).take(n as int) =~= ins_views(
                self.instructions@,
            ));
        }
        if errors.len() == 0 {
            proof {
                assert(errors_view(errors@) =~= Seq::<ErrView>::empty());
            }
            Ok(())
        } else {
            Err(errors)
        }
    }

    /// Encode every instruction and lay the bytes into this section's image
    /// at their offsets; on any failure, the diagnostics instead.
    pub fn get_content_record(&self) -> (r: Result<ContentRecord, Vec<AsmError>>)
        ensures
            ({
                let img = spec_section_image(self@.instructions);
                match r {
                    Ok(rec) => img.1.len() == 0 && rec.offset == self.offset && rec.seg_id == 0
                        && rec.data@ == img.0,
                    Err(es) => img.1.len() > 0 && errors_view(es@) == img.1,
                }
            }),
    {
        let ghost vs = self@.instructions;
        let mut errors: Vec<AsmError> = Vec::new();
        let mut hex_table = HexTable::new(&self.instructions);
        let mut i: usize = 0;
        proof {
            assert(vs.skip(0) =~= vs);
            assert(errors_view(errors@) =~= Seq::<ErrView>::empty());
        }
        while i < self.instructions.len()
            invariant
                vs == self@.instructions,
                0 <= i <= self.instructions@.len(),
                vs.len() == self.instructions@.len(),
                hex_table.table@.len() == crate::hex_table::spec_image_size(vs),
                image_fold(vs.skip(i as int), hex_table.table@, errors_view(errors@))
                    == spec_section_image(vs),
            decreases self.instructions@.len() - i,
        {
            let ghost buf0 = hex_table.table@;
            let ghost errs0 = errors_view(errors@);
            let ghost rem = vs.skip(i as int);
            proof {
                assert(rem[0] == vs[i as int]);
                assert(vs[i as int] == self.instructions@[i as int]@);
                assert(rem.drop_first() =~= vs.skip(i + 1));
            }
            let ins = &self.instructions[i];
            match ins.to_hex() {
                Err(e) => {
                    let ghost preve = errors@;
                    errors.push(e);
                    proof {
                        assert(errors_view(errors@) =~= errors_view(preve).push(e@));
                        assert((buf0, errors_view(errors@)) == image_step(buf0, errs0, rem[0]));
                    }
                },
                Ok(hex) => {
                    proof {
                        crate::instruction::lemma_len_encode_consistent(rem[0]);
                        crate::hex_table::lemma_image_size_covers(vs, i as int);
                        assert(rem[0].offset + hex@.len() <= hex_table.table@.len());
                    }
                    hex_table.update(ins.offset(), &hex);
                    proof {
                        assert((hex_table.table@, errs0) == image_step(buf0, errs0, rem[0]));
                    }
                },
            }
            i += 1;
        }
        proof {
            assert(vs.skip(vs.len() as int) =~= Seq::<InsView>::empty());
        }
        if errors.len() == 0 {
            proof {
                assert(errors_view(errors@) =~= Seq::<ErrView>::empty());
            }
            Ok(ContentRecord::new(self.offset, hex_table.table, 0))
        } else {
            Err(errors)
        }
    }
}

/// Pass two of label resolution across a whole instruction list: the
/// rewritten instructions and the diagnostics of the failing ones, in order.
pub open spec fn spec_fix_instrs(vs: Seq<InsView>, t: Seq<(Seq<char>, u16)>) -> (Seq<InsView>, Seq<
    ErrView,
>)
    decreases vs.len(),
{
    if vs.len() == 0 {
        (Seq::<InsView>::empty(), Seq::<ErrView>::empty())
    } else {
        let done = spec_fix_instrs(vs.drop_last(), t);
        let v = vs.last();
        if v.spec_fix_skip() {
            (done.0.push(v), done.1)
        } else {
            match crate::instruction::spec_fix_ops(v.ops, t, v.num) {
                Ok(ops) => (
                    done.0.push(
                        InsView {
                            offset: v.offset,
                            num: v.num,
                            label: v.label,
                            mnemonic: v.mnemonic,
                            ops,
                        },
                    ),
                    done.1,
                ),
                Err(e) => (done.0.push(v), done.1.push(e)),
            }
        }
    }
}

} // verus!
