//! Character-level text operations used by the display model and the
//! record logic: display substitutions on body and alt text, and
//! splitting canonical record URIs into their path segments.
use vstd::prelude::*;
use vstd::string::StrSliceExecFns;

verus! {

/// `s` with every occurrence of `from` replaced by `to`.
pub open spec fn replaced(s: Seq<char>, from: char, to: char) -> Seq<char> {
    s.map_values(|c: char| if c == from { to } else { c })
}

/// Body text as displayed: every `#` becomes the musical sharp glyph,
/// so that the rendered document cannot read it as heading syntax.
pub open spec fn sharpened(s: Seq<char>) -> Seq<char> {
    replaced(s, '#', '♯')
}

/// Alt text as displayed: every literal newline becomes a space.
pub open spec fn unfolded(s: Seq<char>) -> Seq<char> {
    replaced(s, '\n', ' ')
}

/// Relies on String::push: appends the one character to the string.
#[verifier::external_body]
fn push_char(s: &mut String, c: char)
    ensures
        final(s)@ == old(s)@.push(c),
{
    s.push(c);
}

/// Returns `s` with every occurrence of `from` replaced by `to`.
pub fn replace_chars(s: &str, from: char, to: char) -> (r: String)
    ensures
        r@ == replaced(s@, from, to),
{
    let n: usize = s.unicode_len();
    let mut out: String = String::new();
    let mut i: usize = 0;
    while i < n
        invariant
            i <= n,
            n == s@.len(),
            out@ == replaced(s@.take(i as int), from, to),
        decreases n - i,
    {
        let c = s.get_char(i);
        let d = if c == from {
            to
        } else {
            c
        };
        push_char(&mut out, d);
        i = i + 1;
        assert(out@ =~= replaced(s@.take(i as int), from, to));
    }
    assert(s@.take(n as int) =~= s@);
    out
}

/// Returns the body text as displayed: `#` becomes `♯`.
pub fn sharpen(s: &str) -> (r: String)
    ensures
        r@ == sharpened(s@),
{
    replace_chars(s, '#', '♯')
}

/// The segments of `s` split on `/`, as Rust's `split('/')` yields
/// them: always at least one segment, and an empty segment wherever
/// two separators are adjacent or one stands at an end.
pub open spec fn segments(s: Seq<char>) -> Seq<Seq<char>>
    decreases s.len(),
{
    if s.len() == 0 {
        seq![Seq::<char>::empty()]
    } else if s.last() == '/' {
        segments(s.drop_last()).push(Seq::<char>::empty())
    } else {
        let prev = segments(s.drop_last());
        prev.update(prev.len() - 1, prev.last().push(s.last()))
    }
}

/// Splitting always yields at least one segment, even for the empty
/// string.
pub proof fn lemma_segments_nonempty(s: Seq<char>)
    ensures
        segments(s).len() >= 1,
    decreases s.len(),
{
    if s.len() > 0 {
        lemma_segments_nonempty(s.drop_last());
    }
}

/// The trailing path segment of a canonical URI: the record key.
pub open spec fn last_segment(s: Seq<char>) -> Seq<char> {
    segments(s).last()
}

/// Splits `s` on `/` exactly as the segments are specified.
pub fn split_slash(s: &str) -> (parts: Vec<String>)
    ensures
        parts.deep_view() == segments(s@),
        parts.len() >= 1,
{
    let n: usize = s.unicode_len();
    let mut parts: Vec<String> = Vec::new();
    let mut cur: String = String::new();
    let mut i: usize = 0;
    proof {
        lemma_segments_nonempty(s@);
    }
    while i < n
        invariant
            i <= n,
            n == s@.len(),
            parts.deep_view().push(cur@) =~= segments(s@.take(i as int)),
        decreases n - i,
    {
        let c = s.get_char(i);
        if c == '/' {
            parts.push(cur);
            cur = String::new();
        } else {
            push_char(&mut cur, c);
        }
        i = i + 1;
        proof {
            assert(s@.take(i as int).drop_last() =~= s@.take(i - 1));
            lemma_segments_nonempty(s@.take(i - 1));
            if c == '/' {
                assert(parts.deep_view().push(cur@) =~= segments(s@.take(i as int)));
            } else {
                let prev = segments(s@.take(i - 1));
                assert(prev.update(prev.len() - 1, prev.last().push(c)).drop_last() =~= prev.drop_last());
                assert(parts.deep_view().push(cur@) =~= segments(s@.take(i as int)));
            }
        }
    }
    assert(s@.take(n as int) =~= s@);
    parts.push(cur);
    assert(parts.deep_view() =~= segments(s@));
    parts
}

/// Returns the trailing path segment of `s`: the record key named by
/// a canonical URI or by a stored annotation reference.
pub fn rkey_of(s: &str) -> (r: String)
    ensures
        r@ == last_segment(s@),
{
    let parts = split_slash(s);
    let k: usize = parts.len() - 1;
    let r = parts[k].clone();
    r
}

} // verus!
