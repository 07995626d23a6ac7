//! Character-level string helpers used by the provisioning logic.

use vstd::prelude::*;
use vstd::string::StrSliceExecFns;

verus! {

/// `p` is a prefix of `s`.
pub open spec fn spec_starts_with(s: Seq<char>, p: Seq<char>) -> bool {
    p.len() <= s.len() && s.subrange(0, p.len() as int) == p
}

/// `p` is a suffix of `s`.
pub open spec fn spec_ends_with(s: Seq<char>, p: Seq<char>) -> bool {
    p.len() <= s.len() && s.subrange(s.len() - p.len(), s.len() as int) == p
}

/// Relies on `String::push`: it appends the given character to the end of
/// the string.
#[verifier::external_body]
pub(crate) fn push_char(s: &mut String, c: char)
    ensures
        final(s)@ == old(s)@.push(c),
{
    s.push(c);
}

/// Whether `p` is a prefix of `s`.
pub fn str_starts_with(s: &str, p: &str) -> (r: bool)
    ensures
        r == spec_starts_with(s@, p@),
{
    let s_len = s.unicode_len();
    let p_len = p.unicode_len();
    if p_len > s_len {
        proof {
            assert(!spec_starts_with(s@, p@));
        }
        return false;
    }
    let mut i: usize = 0;
    while i < p_len
        invariant
            i <= p_len,
            p_len == p@.len(),
            p_len <= s@.len(),
            forall|j: int| 0 <= j < i ==> s@[j] == p@[j],
        decreases p_len - i,
    {
        if s.get_char(i) != p.get_char(i) {
            proof {
                assert(s@.subrange(0, p@.len() as int)[i as int] != p@[i as int]);
            }
            return false;
        }
        i = i + 1;
    }
    proof {
        assert(s@.subrange(0, p@.len() as int) =~= p@);
    }
    true
}

/// Whether `a` and `b` hold the same characters.
pub fn str_eq(a: &str, b: &str) -> (r: bool)
    ensures
        r == (a@ == b@),
{
    let a_len = a.unicode_len();
    let b_len = b.unicode_len();
    if a_len != b_len {
        return false;
    }
    let mut i: usize = 0;
    while i < a_len
        invariant
            i <= a_len,
            a_len == a@.len(),
            a_len == b@.len(),
            forall|j: int| 0 <= j < i ==> a@[j] == b@[j],
        decreases a_len - i,
    {
        if a.get_char(i) != b.get_char(i) {
            return false;
        }
        i = i + 1;
    }
    proof {
        assert(a@ =~= b@);
    }
    true
}

/// Whether `p` is a suffix of `s`.
pub fn str_ends_with(s: &str, p: &str) -> (r: bool)
    ensures
        r == spec_ends_with(s@, p@),
{
    let s_len = s.unicode_len();
    let p_len = p.unicode_len();
    if p_len > s_len {
        proof {
            assert(!spec_ends_with(s@, p@));
        }
        return false;
    }
    let off = s_len - p_len;
    let mut i: usize = 0;
    while i < p_len
        invariant
            i <= p_len,
            p_len == p@.len(),
            s_len == s@.len(),
            off == s@.len() - p@.len(),
            forall|j: int| 0 <= j < i ==> s@[off + j] == p@[j],
        decreases p_len - i,
    {
        if s.get_char(off + i) != p.get_char(i) {
            proof {
                assert(s@.subrange(s@.len() - p@.len(), s@.len() as int)[i as int] != p@[
                    i as int]);
            }
            return false;
        }
        i = i + 1;
    }
    proof {
        assert(s@.subrange(s@.len() - p@.len(), s@.len() as int) =~= p@);
    }
    true
}

/// Index of the first occurrence of `c` in `s`; negative when `c` is
/// absent.
pub open spec fn spec_find(s: Seq<char>, c: char) -> int
    decreases s.len(),
{
    if s.len() == 0 {
        -1
    } else if s[0] == c {
        0
    } else {
        let rest = spec_find(s.drop_first(), c);
        if rest < 0 {
            -1
        } else {
            1 + rest
        }
    }
}

proof fn lemma_find_at(s: Seq<char>, c: char, i: int)
    requires
        0 <= i < s.len(),
        s[i] == c,
        forall|j: int| 0 <= j < i ==> s[j] != c,
    ensures
        spec_find(s, c) == i,
    decreases i,
{
    if i > 0 {
        lemma_find_at(s.drop_first(), c, i - 1);
    }
}

proof fn lemma_find_none(s: Seq<char>, c: char)
    requires
        forall|j: int| 0 <= j < s.len() ==> s[j] != c,
    ensures
        spec_find(s, c) < 0,
    decreases s.len(),
{
    if s.len() > 0 {
        lemma_find_none(s.drop_first(), c);
    }
}

/// Find the first occurrence of `c` in `s` at or after position `from`.
pub fn find_char_from(s: &str, from: usize, c: char) -> (r: Option<usize>)
    requires
        from <= s@.len(),
    ensures
        r matches Some(i) ==> from <= i < s@.len() && i - from == spec_find(
            s@.skip(from as int),
            c,
        ),
        r is None ==> spec_find(s@.skip(from as int), c) < 0,
{
    let len = s.unicode_len();
    let mut j: usize = from;
    while j < len
        invariant
            from <= j <= len,
            len == s@.len(),
            forall|k: int| from <= k < j ==> s@[k] != c,
        decreases len - j,
    {
        if s.get_char(j) == c {
            proof {
                lemma_find_at(s@.skip(from as int), c, j - from);
            }
            return Some(j);
        }
        j = j + 1;
    }
    proof {
        lemma_find_none(s@.skip(from as int), c);
    }
    None
}

/// The whitespace the prompt and listing logic trims: blank, tab, carriage
/// return and newline.
pub open spec fn spec_is_space(c: char) -> bool {
    ||| c == ' '
    ||| c == '\t'
    ||| c == '\r'
    ||| c == '\n'
}

/// `s` without its leading whitespace.
pub open spec fn spec_trim_start(s: Seq<char>) -> Seq<char>
    decreases s.len(),
{
    if s.len() > 0 && spec_is_space(s[0]) {
        spec_trim_start(s.drop_first())
    } else {
        s
    }
}

/// `s` without its trailing whitespace.
pub open spec fn spec_trim_end(s: Seq<char>) -> Seq<char>
    decreases s.len(),
{
    if s.len() > 0 && spec_is_space(s.last()) {
        spec_trim_end(s.drop_last())
    } else {
        s
    }
}

/// `s` without leading and trailing whitespace.
pub open spec fn spec_trim(s: Seq<char>) -> Seq<char> {
    spec_trim_end(spec_trim_start(s))
}

proof fn lemma_trim_start_skip(s: Seq<char>, k: int)
    requires
        0 <= k <= s.len(),
        forall|j: int| 0 <= j < k ==> spec_is_space(s[j]),
        k == s.len() || !spec_is_space(s[k]),
    ensures
        spec_trim_start(s) == s.skip(k),
    decreases k,
{
    if k == 0 {
        assert(s.skip(0) =~= s);
    } else {
        lemma_trim_start_skip(s.drop_first(), k - 1);
        assert(s.drop_first().skip(k - 1) =~= s.skip(k));
    }
}

proof fn lemma_trim_end_take(s: Seq<char>, k: int)
    requires
        0 <= k <= s.len(),
        forall|j: int| k <= j < s.len() ==> spec_is_space(s[j]),
        k == 0 || !spec_is_space(s[k - 1]),
    ensures
        spec_trim_end(s) == s.take(k),
    decreases s.len() - k,
{
    if k == s.len() {
        assert(s.take(k) =~= s);
    } else {
        lemma_trim_end_take(s.drop_last(), k);
        assert(s.drop_last().take(k) =~= s.take(k));
    }
}

fn is_space(c: char) -> (r: bool)
    ensures
        r == spec_is_space(c),
{
    c == ' ' || c == '\t' || c == '\r' || c == '\n'
}

/// Copy `s` with its leading and trailing whitespace removed.
pub fn trim_str(s: &str) -> (t: String)
    ensures
        t@ == spec_trim(s@),
{
    let len = s.unicode_len();
    let mut from: usize = 0;
    while from < len && is_space(s.get_char(from))
        invariant
            from <= len,
            len == s@.len(),
            forall|j: int| 0 <= j < from ==> spec_is_space(s@[j]),
        decreases len - from,
    {
        from = from + 1;
    }
    proof {
        lemma_trim_start_skip(s@, from as int);
    }
    let mut to: usize = len;
    while to > from && is_space(s.get_char(to - 1))
        invariant
            from <= to <= len,
            len == s@.len(),
            spec_trim_start(s@) == s@.skip(from as int),
            forall|j: int| to <= j < len ==> spec_is_space(s@[j]),
        decreases to,
    {
        to = to - 1;
    }
    proof {
        lemma_trim_end_take(s@.skip(from as int), to - from);
        assert(s@.skip(from as int).take(to - from) =~= s@.subrange(from as int, to as int));
    }
    s.substring_char(from, to).to_owned()
}

/// A line with a trailing carriage return dropped, as the line splitting
/// does.
pub open spec fn spec_strip_cr(s: Seq<char>) -> Seq<char> {
    if s.len() > 0 && s.last() == '\r' {
        s.drop_last()
    } else {
        s
    }
}

/// The lines of `s`: split at each newline, a carriage return before the
/// newline dropped, and a trailing newline opening no further line.
pub open spec fn spec_lines(s: Seq<char>) -> Seq<Seq<char>>
    decreases s.len(),
{
    if s.len() == 0 {
        Seq::empty()
    } else {
        let i = spec_find(s, '\n');
        if 0 <= i < s.len() {
            seq![spec_strip_cr(s.take(i))] + spec_lines(s.skip(i + 1))
        } else {
            seq![spec_strip_cr(s)]
        }
    }
}

/// Split `s` into its lines.
pub fn str_lines(s: &str) -> (lines: Vec<String>)
    ensures
        lines.deep_view() == spec_lines(s@),
{
    let len = s.unicode_len();
    let mut lines: Vec<String> = Vec::new();
    proof {
        assert(lines.deep_view() =~= Seq::<Seq<char>>::empty());
        assert(s@.skip(0) =~= s@);
        assert(lines.deep_view() + spec_lines(s@) =~= spec_lines(s@));
    }
    let mut from: usize = 0;
    while from < len
        invariant
            from <= len,
            len == s@.len(),
            spec_lines(s@) == lines.deep_view() + spec_lines(s@.skip(from as int)),
        decreases len - from,
    {
        let ghost prev = lines.deep_view();
        let ghost rest = s@.skip(from as int);
        match find_char_from(s, from, '\n') {
            Some(i) => {
                let end = if i > from && s.get_char(i - 1) == '\r' {
                    i - 1
                } else {
                    i
                };
                let line = s.substring_char(from, end).to_owned();
                proof {
                    assert(rest.take(i - from) =~= s@.subrange(from as int, i as int));
                    assert(spec_strip_cr(rest.take(i - from)) =~= s@.subrange(
                        from as int,
                        end as int,
                    ));
                    assert(rest.skip(i - from + 1) =~= s@.skip(i + 1));
                }
                lines.push(line);
                proof {
                    assert(lines.deep_view() =~= prev.push(s@.subrange(from as int, end as int)));
                    assert(prev + spec_lines(rest) =~= lines.deep_view() + spec_lines(
                        s@.skip(i + 1),
                    ));
                }
                from = i + 1;
            },
            None => {
                let end = if s.get_char(len - 1) == '\r' {
                    len - 1
                } else {
                    len
                };
                let line = s.substring_char(from, end).to_owned();
                proof {
                    assert(rest.len() > 0);
                    assert(rest.last() == s@[len - 1]);
                    assert(spec_strip_cr(rest) =~= s@.subrange(from as int, end as int));
                }
                lines.push(line);
                proof {
                    assert(lines.deep_view() =~= prev.push(s@.subrange(from as int, end as int)));
                    assert(prev + spec_lines(rest) =~= lines.deep_view() + spec_lines(
                        s@.skip(len as int),
                    ));
                }
                from = len;
            },
        }
    }
    proof {
        assert(s@.skip(len as int) =~= Seq::<char>::empty());
        assert(s@.skip(from as int) =~= Seq::<char>::empty());
        assert(lines.deep_view() + spec_lines(s@.skip(from as int)) =~= lines.deep_view());
    }
    lines
}

/// `s` with every `from` character replaced by `to`.
pub open spec fn spec_replace_char(s: Seq<char>, from: char, to: char) -> Seq<char> {
    s.map_values(
        |c: char|
            if c == from {
                to
            } else {
                c
            },
    )
}

/// Append to `out` a copy of `s` with every `from` character replaced by
/// `to`.
pub fn append_replaced(out: &mut String, s: &str, from: char, to: char)
    ensures
        final(out)@ == old(out)@ + spec_replace_char(s@, from, to),
{
    let len = s.unicode_len();
    let mut i: usize = 0;
    while i < len
        invariant
            i <= len,
            len == s@.len(),
            out@ == old(out)@ + spec_replace_char(s@.subrange(0, i as int), from, to),
        decreases len - i,
    {
        let c = s.get_char(i);
        if c == from {
            push_char(out, to);
        } else {
            push_char(out, c);
        }
        proof {
            assert(out@ =~= old(out)@ + spec_replace_char(s@.subrange(0, i + 1), from, to));
        }
        i = i + 1;
    }
    proof {
        assert(old(out)@ + spec_replace_char(s@.subrange(0, len as int), from, to) =~= old(out)@
            + spec_replace_char(s@, from, to));
    }
}

} // verus!
