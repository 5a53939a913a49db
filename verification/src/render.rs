//! The canonical text form of a document: the on-disk runtime file body.
//!
//! The encoding is flow-style YAML (JSON-compatible): one top-level
//! `"key": value` line per mapping entry, nested values inline, strings
//! and keys double-quoted with `\\`, `\"` and `\n` escaped, lists in
//! `[..]` and mappings in `{..}` with `, ` between elements. The
//! encoding is a function of the document's shape alone, so rendering
//! equal-shaped documents gives byte-identical text.

use crate::doc::{lemma_view_entries, lemma_view_values, view_entries, view_values, SpecValue,
    Value};
use vstd::prelude::*;

verus! {

/// How one character is written inside a quoted string.
pub open spec fn spec_esc_char(c: char) -> Seq<char> {
    if c == '\\' {
        seq!['\\', '\\']
    } else if c == '"' {
        seq!['\\', '"']
    } else if c == '\n' {
        seq!['\\', 'n']
    } else {
        seq![c]
    }
}

/// A string's characters, escaped.
pub open spec fn spec_escape(s: Seq<char>) -> Seq<char>
    decreases s,
{
    if s.len() == 0 {
        Seq::empty()
    } else {
        spec_escape(s.drop_last()) + spec_esc_char(s.last())
    }
}

/// A string, quoted and escaped.
pub open spec fn spec_quoted(s: Seq<char>) -> Seq<char> {
    seq!['"'] + spec_escape(s) + seq!['"']
}

/// The digit character for `d` (0 to 9).
pub open spec fn spec_digit_char(d: int) -> char {
    ((48 + d) as u8) as char
}

/// The decimal digits of a non-negative number.
pub open spec fn spec_nat_chars(n: int) -> Seq<char>
    decreases n,
{
    if n < 10 {
        seq![spec_digit_char(n)]
    } else {
        spec_nat_chars(n / 10).push(spec_digit_char(n % 10))
    }
}

/// The decimal form of an integer.
pub open spec fn spec_int_chars(n: int) -> Seq<char> {
    if n < 0 {
        seq!['-'] + spec_nat_chars(-n)
    } else {
        spec_nat_chars(n)
    }
}

/// A value in flow style.
pub open spec fn spec_render_value(v: SpecValue) -> Seq<char>
    decreases v,
{
    match v {
        SpecValue::Null => seq!['n', 'u', 'l', 'l'],
        SpecValue::Bool(b) => if b {
            seq!['t', 'r', 'u', 'e']
        } else {
            seq!['f', 'a', 'l', 's', 'e']
        },
        SpecValue::Int(i) => spec_int_chars(i),
        SpecValue::Text(s) => spec_quoted(s),
        SpecValue::List(xs) => seq!['['] + spec_render_list(xs) + seq![']'],
        SpecValue::Mapping(es) => seq!['{'] + spec_render_entries(es) + seq!['}'],
    }
}

/// List elements in flow style, `, `-separated.
pub open spec fn spec_render_list(xs: Seq<SpecValue>) -> Seq<char>
    decreases xs,
{
    if xs.len() == 0 {
        Seq::empty()
    } else {
        spec_render_list(xs.drop_last()) + (if xs.len() == 1 {
            Seq::empty()
        } else {
            seq![',', ' ']
        }) + spec_render_value(xs.last())
    }
}

/// Mapping entries in flow style, `, `-separated.
pub open spec fn spec_render_entries(es: Seq<(Seq<char>, SpecValue)>) -> Seq<char>
    decreases es,
{
    if es.len() == 0 {
        Seq::empty()
    } else {
        spec_render_entries(es.drop_last()) + (if es.len() == 1 {
            Seq::empty()
        } else {
            seq![',', ' ']
        }) + spec_quoted(es.last().0) + seq![':', ' '] + spec_render_value(es.last().1)
    }
}

/// The top-level lines of a mapping document.
pub open spec fn spec_render_doc_lines(es: Seq<(Seq<char>, SpecValue)>) -> Seq<char>
    decreases es,
{
    if es.len() == 0 {
        Seq::empty()
    } else {
        spec_render_doc_lines(es.drop_last()) + spec_quoted(es.last().0) + seq![':', ' ']
            + spec_render_value(es.last().1) + seq!['\n']
    }
}

/// The document body: one line per top-level mapping entry, or a single
/// line when the document is no mapping.
pub open spec fn spec_render_doc(v: SpecValue) -> Seq<char> {
    match v {
        SpecValue::Mapping(es) => spec_render_doc_lines(es),
        _ => spec_render_value(v).push('\n'),
    }
}

/// Append a string's characters, escaped.
#[verifier::loop_isolation(false)]
fn push_escaped(out: &mut Vec<char>, s: &String)
    ensures
        final(out)@ == old(out)@ + spec_escape(s@),
{
    let ghost base = out@;
    let slice = s.as_str();
    let n = slice.unicode_len();
    let mut i: usize = 0;
    proof {
        assert(out@ =~= base + spec_escape(s@.take(0)));
    }
    while i < n
        invariant
            i <= n,
            n == s@.len(),
            slice@ == s@,
            out@ == base + spec_escape(s@.take(i as int)),
        decreases n - i,
    {
        let c = slice.get_char(i);
        if c == '\\' {
            out.push('\\');
            out.push('\\');
        } else if c == '"' {
            out.push('\\');
            out.push('"');
        } else if c == '\n' {
            out.push('\\');
            out.push('n');
        } else {
            out.push(c);
        }
        proof {
            assert(s@.take(i + 1 as int).drop_last() =~= s@.take(i as int));
            assert(s@.take(i + 1 as int).last() == s@[i as int]);
            assert(out@ =~= base + spec_escape(s@.take(i + 1 as int)));
        }
        i = i + 1;
    }
    proof {
        assert(s@.take(s@.len() as int) =~= s@);
    }
}

/// Append a string, quoted and escaped.
fn push_quoted(out: &mut Vec<char>, s: &String)
    ensures
        final(out)@ == old(out)@ + spec_quoted(s@),
{
    out.push('"');
    push_escaped(out, s);
    out.push('"');
    proof {
        assert(final(out)@ =~= old(out)@ + spec_quoted(s@));
    }
}

/// Append the decimal digits of `n`.
fn push_u64_chars(out: &mut Vec<char>, n: u64)
    ensures
        final(out)@ == old(out)@ + spec_nat_chars(n as int),
    decreases n,
{
    if n >= 10 {
        push_u64_chars(out, n / 10);
    }
    let d: u8 = 48 + (n % 10) as u8;
    out.push(d as char);
    proof {
        assert(d as char == spec_digit_char(n as int % 10));
        assert(final(out)@ =~= old(out)@ + spec_nat_chars(n as int));
    }
}

/// Append the decimal form of `n`.
fn push_i64_chars(out: &mut Vec<char>, n: i64)
    ensures
        final(out)@ == old(out)@ + spec_int_chars(n as int),
{
    if n < 0 {
        out.push('-');
        let mag: u64 = ((-1 - n) as u64) + 1;
        proof {
            assert(mag as int == -(n as int));
        }
        push_u64_chars(out, mag);
        proof {
            assert(final(out)@ =~= old(out)@ + spec_int_chars(n as int));
        }
    } else {
        push_u64_chars(out, n as u64);
    }
}

/// Append a value in flow style.
#[verifier::loop_isolation(false)]
#[verifier::rlimit(80)]
pub fn push_value(out: &mut Vec<char>, v: &Value)
    ensures
        final(out)@ == old(out)@ + spec_render_value(v@),
    decreases v,
{
    match v {
        Value::Null => {
            out.push('n');
            out.push('u');
            out.push('l');
            out.push('l');
            proof {
                assert(final(out)@ =~= old(out)@ + spec_render_value(v@));
            }
        },
        Value::Bool(b) => {
            if *b {
                out.push('t');
                out.push('r');
                out.push('u');
                out.push('e');
            } else {
                out.push('f');
                out.push('a');
                out.push('l');
                out.push('s');
                out.push('e');
            }
            proof {
                assert(final(out)@ =~= old(out)@ + spec_render_value(v@));
            }
        },
        Value::Int(i) => {
            push_i64_chars(out, *i);
        },
        Value::Text(s) => {
            push_quoted(out, s);
        },
        Value::List(xs) => {
            let ghost base = out@;
            let ghost xsv = view_values(xs@);
            proof {
                lemma_view_values(xs@);
            }
            out.push('[');
            let mut i: usize = 0;
            proof {
                assert(out@ =~= base + seq!['['] + spec_render_list(xsv.take(0)));
            }
            while i < xs.len()
                invariant
                    i <= xs.len(),
                    out@ == base + seq!['['] + spec_render_list(xsv.take(i as int)),
                decreases xs.len() - i,
            {
                if i > 0 {
                    out.push(',');
                    out.push(' ');
                }
                proof {
                    assert(*xs == v->List_0);
                    assert(decreases_to!(*v => v->List_0));
                    assert(decreases_to!(v->List_0 => v->List_0@));
                    assert(decreases_to!(v->List_0@ => v->List_0@[i as int]));
                    assert(xs@[i as int] == v->List_0@[i as int]);
                }
                push_value(out, &xs[i]);
                proof {
                    assert(xsv.take(i + 1 as int).drop_last() =~= xsv.take(i as int));
                    assert(xsv.take(i + 1 as int).last() == xsv[i as int]);
                    assert(out@ =~= base + seq!['['] + spec_render_list(xsv.take(i + 1 as int)));
                }
                i = i + 1;
            }
            out.push(']');
            proof {
                assert(xsv.take(xsv.len() as int) =~= xsv);
                assert(final(out)@ =~= old(out)@ + spec_render_value(v@));
            }
        },
        Value::Mapping(es) => {
            let ghost base = out@;
            let ghost esv = view_entries(es@);
            proof {
                lemma_view_entries(es@);
            }
            out.push('{');
            let mut i: usize = 0;
            proof {
                assert(out@ =~= base + seq!['{'] + spec_render_entries(esv.take(0)));
            }
            while i < es.len()
                invariant
                    i <= es.len(),
                    out@ == base + seq!['{'] + spec_render_entries(esv.take(i as int)),
                decreases es.len() - i,
            {
                if i > 0 {
                    out.push(',');
                    out.push(' ');
                }
                push_quoted(out, &es[i].0);
                out.push(':');
                out.push(' ');
                proof {
                    assert(*es == v->Mapping_0);
                    assert(decreases_to!(*v => v->Mapping_0));
                    assert(decreases_to!(v->Mapping_0 => v->Mapping_0@));
                    assert(decreases_to!(v->Mapping_0@ => v->Mapping_0@[i as int]));
                    assert(decreases_to!(
                        v->Mapping_0@[i as int] => v->Mapping_0@[i as int].1));
                    assert(es@[i as int].1 == v->Mapping_0@[i as int].1);
                }
                push_value(out, &es[i].1);
                proof {
                    assert(esv.take(i + 1 as int).drop_last() =~= esv.take(i as int));
                    assert(esv.take(i + 1 as int).last() == esv[i as int]);
                    assert(out@ =~= base + seq!['{'] + spec_render_entries(esv.take(i + 1 as int)));
                }
                i = i + 1;
            }
            out.push('}');
            proof {
                assert(esv.take(esv.len() as int) =~= esv);
                assert(final(out)@ =~= old(out)@ + spec_render_value(v@));
            }
        },
    }
}

/// The canonical text body of a document.
#[verifier::loop_isolation(false)]
pub fn render_doc(v: &Value) -> (r: Vec<char>)
    ensures
        r@ == spec_render_doc(v@),
{
    match v {
        Value::Mapping(es) => {
            let ghost esv = view_entries(es@);
            proof {
                lemma_view_entries(es@);
            }
            let mut out: Vec<char> = Vec::new();
            let mut i: usize = 0;
            proof {
                assert(out@ =~= spec_render_doc_lines(esv.take(0)));
            }
            while i < es.len()
                invariant
                    i <= es.len(),
                    out@ == spec_render_doc_lines(esv.take(i as int)),
                decreases es.len() - i,
            {
                push_quoted(&mut out, &es[i].0);
                out.push(':');
                out.push(' ');
                push_value(&mut out, &es[i].1);
                out.push('\n');
                proof {
                    assert(esv.take(i + 1 as int).drop_last() =~= esv.take(i as int));
                    assert(esv.take(i + 1 as int).last() == esv[i as int]);
                    assert(out@ =~= spec_render_doc_lines(esv.take(i + 1 as int)));
                }
                i = i + 1;
            }
            proof {
                assert(esv.take(esv.len() as int) =~= esv);
            }
            out
        },
        _ => {
            let mut out: Vec<char> = Vec::new();
            push_value(&mut out, v);
            out.push('\n');
            proof {
                assert(out@ =~= spec_render_doc(v@));
            }
            out
        },
    }
}

/// Rendering is deterministic: equal-shaped documents render to
/// byte-identical text.
pub proof fn lemma_render_deterministic(a: SpecValue, b: SpecValue)
    requires
        a == b,
    ensures
        spec_render_doc(a) == spec_render_doc(b),
{
}

} // verus!
