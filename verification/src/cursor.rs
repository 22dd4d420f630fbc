//! The pagination cursor: a revision specifier of the shape `base~N`. The
//! depth counts commits below `base`, so a cursor stays meaningful while new
//! commits land on the branch tip. Rewritten history can still make a cursor
//! skip or repeat commits; that is a documented property of the scheme, not a
//! defect this module tries to repair.
use crate::text;
use vstd::prelude::*;

verus! {

/// A cursor spelled out: the base, a tilde, and the decimal depth.
pub open spec fn spec_format_cursor(base: Seq<char>, depth: nat) -> Seq<char> {
    base + seq!['~'] + text::dec_digits(depth)
}

/// The base of a cursor: everything before the last tilde, or the whole
/// specifier when it has none.
pub open spec fn spec_cursor_base(s: Seq<char>) -> Seq<char> {
    match text::rfind_char_at(s, '~') {
        Some(i) => s.take(i),
        None => s,
    }
}

/// The depth of a cursor: the parsed digits after the last tilde; one when
/// the suffix does not parse (or does not fit in a machine word), and zero
/// when there is no tilde at all.
pub open spec fn spec_cursor_depth(s: Seq<char>) -> nat {
    match text::rfind_char_at(s, '~') {
        Some(i) => match text::spec_parse_dec(s.skip(i + 1)) {
            Some(v) => if v <= usize::MAX {
                v
            } else {
                1
            },
            None => 1,
        },
        None => 0,
    }
}

/// The depth the next page starts at, capped at what a machine word holds.
pub open spec fn spec_next_depth(depth: nat, per_page: nat) -> nat {
    if depth + per_page > usize::MAX {
        usize::MAX as nat
    } else {
        depth + per_page
    }
}

pub fn format_cursor(base: &str, depth: usize) -> (r: String)
    ensures
        r@ == spec_format_cursor(base@, depth as nat),
{
    let mut out = base.to_owned();
    out.append("~");
    let d = text::usize_to_dec(depth);
    out.append(d.as_str());
    proof {
        reveal_strlit("~");
        assert(out@ =~= base@ + seq!['~'] + text::dec_digits(depth as nat));
    }
    out
}

/// Splits a revision specifier into its base and depth.
pub fn parse_cursor(s: &str) -> (r: (String, usize))
    ensures
        r.0@ == spec_cursor_base(s@),
        r.1 as nat == spec_cursor_depth(s@),
{
    let n = s.unicode_len();
    match text::rfind_char(s, '~') {
        Some(i) => {
            let base = s.substring_char(0, i);
            proof {
                assert(s@.subrange(0, i as int) =~= s@.take(i as int));
            }
            let suffix = s.substring_char(i + 1, n);
            proof {
                assert(s@.subrange(i + 1, n as int) =~= s@.skip(i + 1));
            }
            let depth: usize = match text::parse_usize(suffix) {
                Some(v) => v,
                None => 1,
            };
            (base.to_owned(), depth)
        },
        None => (s.to_owned(), 0),
    }
}

/// The cursor for the page after `s`: the same base, the depth advanced by
/// the page size.
pub fn next_cursor(s: &str, per_page: usize) -> (r: String)
    ensures
        r@ == spec_format_cursor(
            spec_cursor_base(s@),
            spec_next_depth(spec_cursor_depth(s@), per_page as nat),
        ),
{
    let (base, depth) = parse_cursor(s);
    let next: usize = if depth > usize::MAX - per_page {
        usize::MAX
    } else {
        depth + per_page
    };
    format_cursor(base.as_str(), next)
}

/// Parsing a formatted cursor gives back exactly the base and depth it was
/// made from, as long as the base itself carries no tilde.
pub proof fn lemma_cursor_roundtrip(base: Seq<char>, depth: nat)
    requires
        forall|i: int| 0 <= i < base.len() ==> base[i] != '~',
        depth <= usize::MAX,
    ensures
        spec_cursor_base(spec_format_cursor(base, depth)) == base,
        spec_cursor_depth(spec_format_cursor(base, depth)) == depth,
{
    text::lemma_dec_digits_roundtrip(depth);
    let digits = text::dec_digits(depth);
    let s = spec_format_cursor(base, depth);
    assert(forall|i: int| 0 <= i < digits.len() ==> text::is_dec_digit(#[trigger] digits[i]));
    assert(forall|i: int| 0 <= i < digits.len() ==> #[trigger] digits[i] != '~');
    assert(s =~= (base + seq!['~']) + digits);
    text::lemma_rfind_append_no_hit(base + seq!['~'], digits, '~');
    assert((base + seq!['~']).last() == '~');
    assert(text::rfind_char_at(base + seq!['~'], '~') == Some(base.len() as int));
    assert(text::rfind_char_at(s, '~') == Some(base.len() as int));
    assert(s.take(base.len() as int) =~= base);
    assert(s.skip(base.len() as int + 1) =~= digits);
}

} // verus!
