//! Tokenized source lines.
//!
//! [`get_lines`] splits the source text into lines, strips comments, peels
//! off a `label:` prefix, and breaks the rest into a mnemonic token and
//! operand tokens.

use vstd::prelude::*;
use vstd::string::StrSliceExecFns;
use crate::text;

verus! {

/// One tokenized source line: optional label definition, optional mnemonic
/// token, operand tokens, and the 1-based line number.
pub struct Line {
    pub label: Option<String>,
    pub mnu: Option<String>,
    pub ops: Vec<String>,
    pub num: u64,
}

/// The mathematical abstraction of a [`Line`]: every token as a character
/// sequence.
#[verifier::ext_equal]
pub struct LineView {
    pub label: Option<Seq<char>>,
    pub mnu: Option<Seq<char>>,
    pub ops: Seq<Seq<char>>,
    pub num: u64,
}

impl View for Line {
    type V = LineView;

    open spec fn view(&self) -> LineView {
        LineView {
            label: match self.label {
                Some(l) => Some(l@),
                None => None,
            },
            mnu: match self.mnu {
                Some(m) => Some(m@),
                None => None,
            },
            ops: text::toks_view(self.ops@),
            num: self.num,
        }
    }
}

impl Line {
    /// Bundle the parts of a tokenized line.
    pub fn new(num: u64, label: Option<String>, mnu: Option<String>, ops: Vec<String>) -> (r:
        Line)
        ensures
            r.num == num,
            r.label == label,
            r.mnu == mnu,
            r.ops == ops,
    {
        Line { label, mnu, ops, num }
    }
}

/// Tokenizing one source line: trim, cut the comment at the first `;`, peel
/// a `label:` prefix at the first `:`, then break the rest into a mnemonic
/// token and operand tokens.
pub open spec fn spec_line(s: Seq<char>, num: u64) -> LineView {
    let t = text::spec_trim(s);
    let ci = {
        let k = text::first_idx(t, ';');
        if 0 <= k <= t.len() {
            k
        } else {
            t.len() as int
        }
    };
    let t1 = t.take(ci);
    let li = {
        let k = text::first_idx(t1, ':');
        if 0 <= k <= t1.len() {
            k
        } else {
            t1.len() as int
        }
    };
    let label: Option<Seq<char>> = if li < t1.len() {
        Some(t1.take(li))
    } else {
        None
    };
    let rest = if li < t1.len() {
        t1.skip(li + 1)
    } else {
        t1
    };
    let toks = text::spec_tokens(rest);
    LineView {
        label,
        mnu: if toks.len() > 0 {
            Some(toks[0])
        } else {
            None
        },
        ops: if toks.len() > 0 {
            toks.skip(1)
        } else {
            Seq::<Seq<char>>::empty()
        },
        num,
    }
}

/// The lines of the source text, numbered from `num`: split at every
/// newline, one trailing carriage return stripped per line.
pub open spec fn spec_lines_from(s: Seq<char>, num: u64) -> Seq<LineView>
    decreases s.len(),
{
    if s.len() == 0 {
        Seq::<LineView>::empty()
    } else {
        let k = {
            let k0 = text::first_idx(s, '\n');
            if 0 <= k0 <= s.len() {
                k0
            } else {
                s.len() as int
            }
        };
        let raw = s.take(k);
        let content = if raw.len() > 0 && raw.last() == '\r' {
            raw.drop_last()
        } else {
            raw
        };
        let rest = if k < s.len() {
            s.skip(k + 1)
        } else {
            Seq::<char>::empty()
        };
        seq![spec_line(content, num)] + spec_lines_from(rest, next_num(num))
    }
}

/// The following line number; the numbering wraps rather than stop.
pub open spec fn next_num(num: u64) -> u64 {
    if num == u64::MAX {
        0
    } else {
        (num + 1) as u64
    }
}

/// The whole source text as tokenized lines, numbered from 1.
pub open spec fn spec_get_lines(s: Seq<char>) -> Seq<LineView> {
    spec_lines_from(s, 1)
}

/// A vector of lines as the contracts see it.
pub open spec fn lines_view(ls: Seq<Line>) -> Seq<LineView> {
    ls.map_values(|l: Line| l@)
}

/// Tokenize one line of source text.
fn make_line(content: &str, num: u64) -> (r: Line)
    ensures
        r@ == spec_line(content@, num),
{
    let t = text::trim_str(content);
    let ci = text::find_char(t, ';');
    let t1 = t.substring_char(0, ci);
    proof {
        assert(t1@ =~= t@.take(ci as int));
    }
    let li = text::find_char(t1, ':');
    let label: Option<String>;
    let rest: &str;
    if li < ci {
        label = Some(t1.substring_char(0, li).to_owned());
        rest = t1.substring_char(li + 1, ci);
        proof {
            assert(t1@.take(li as int) =~= (match label {
                Some(ref l) => l@,
                None => Seq::<char>::empty(),
            }));
            assert(rest@ =~= t1@.skip(li + 1));
        }
    } else {
        label = None;
        rest = t1;
    }
    let mut toks = text::tokenize(rest);
    let mnu: Option<String>;
    let ops: Vec<String>;
    if toks.len() > 0 {
        let rest_toks = toks.split_off(1);
        proof {
            assert(text::toks_view(rest_toks@) =~= text::spec_tokens(rest@).skip(1));
        }
        mnu = match toks.pop() {
            Some(m) => Some(m),
            None => None,
        };
        ops = rest_toks;
    } else {
        mnu = None;
        ops = Vec::new();
        proof {
            assert(text::toks_view(ops@) =~= Seq::<Seq<char>>::empty());
        }
    }
    Line { label, mnu, ops, num }
}

/// Split the source text into tokenized, numbered lines.
pub fn get_lines(file_text: String) -> (r: Vec<Line>)
    ensures
        lines_view(r@) == spec_get_lines(file_text@),
{
    let s = file_text.as_str();
    let n = s.unicode_len();
    let mut lines: Vec<Line> = Vec::new();
    let mut pos: usize = 0;
    let mut num: u64 = 1;
    proof {
        assert(s@.skip(0) =~= s@);
        assert(lines_view(lines@) + spec_lines_from(s@, 1) =~= spec_lines_from(s@, 1));
    }
    while pos < n
        invariant
            n == s@.len(),
            0 <= pos <= n,
            lines_view(lines@) + spec_lines_from(s@.skip(pos as int), num) =~= spec_get_lines(
                s@,
            ),
        decreases n - pos,
    {
        let ghost rem = s@.skip(pos as int);
        let mut e: usize = pos;
        while e < n && s.get_char(e) != '\n'
            invariant
                n == s@.len(),
                pos <= e <= n,
                forall|j: int| pos <= j < e ==> s@[j] != '\n',
            decreases n - e,
        {
            e += 1;
        }
        proof {
            assert forall|j: int| 0 <= j < e - pos implies rem[j] != '\n' by {
                assert(rem[j] == s@[pos + j]);
            }
            text::lemma_first_idx_le(rem, '\n');
            if (e as int) < n {
                assert(rem[e - pos] == '\n');
            }
            assert(text::first_idx(rem, '\n') == e - pos) by {
                if text::first_idx(rem, '\n') < e - pos {
                    assert(rem[text::first_idx(rem, '\n')] == '\n');
                }
            }
        }
        let mut ce = e;
        if ce > pos && s.get_char(ce - 1) == '\r' {
            ce -= 1;
        }
        let content = s.substring_char(pos, ce);
        proof {
            let raw = rem.take(e - pos);
            assert(raw =~= s@.subrange(pos as int, e as int));
            if e > pos && s@[e - 1] == '\r' {
                assert(raw.len() > 0 && raw.last() == '\r');
                assert(content@ =~= raw.drop_last());
            } else {
                assert(content@ =~= raw);
            }
        }
        let line = make_line(content, num);
        let ghost prev = lines@;
        lines.push(line);
        proof {
            let rest = if e - pos < rem.len() {
                rem.skip(e - pos + 1)
            } else {
                Seq::<char>::empty()
            };
            assert(spec_lines_from(rem, num) =~= seq![spec_line(content@, num)]
                + spec_lines_from(rest, next_num(num)));
            if (e as int) < n {
                assert(rest =~= s@.skip(e + 1));
            } else {
                assert(rest =~= s@.skip(n as int));
            }
            assert(lines_view(lines@) =~= lines_view(prev).push(line@));
            assert(lines_view(prev).push(line@) + spec_lines_from(rest, next_num(num))
                =~= lines_view(prev) + spec_lines_from(rem, num));
            assert(lines_view(lines@) + spec_lines_from(rest, next_num(num)) =~= spec_get_lines(
                s@,
            ));
        }
        num = if num == u64::MAX {
            0
        } else {
            num + 1
        };
        pos = if e < n {
            e + 1
        } else {
            n
        };
    }
    proof {
        assert(s@.skip(n as int) =~= Seq::<char>::empty());
        assert(lines_view(lines@) + Seq::<LineView>::empty() =~= lines_view(lines@));
    }
    lines
}

} // verus!
