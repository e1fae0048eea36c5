//! Character-level helpers on strings, specified over `Seq<char>`.

use vstd::prelude::*;
use vstd::std_specs::iter::IteratorSpec;
use vstd::utf8::encode_utf8;

verus! {

/// Number of occurrences of `c` in `s`.
pub open spec fn count_char(s: Seq<char>, c: char) -> nat
    decreases s.len(),
{
    if s.len() == 0 {
        0
    } else {
        count_char(s.drop_last(), c) + if s.last() == c {
            1nat
        } else {
            0nat
        }
    }
}

/// `n` copies of `segment`, one after the other.
pub open spec fn repeated(segment: Seq<char>, n: nat) -> Seq<char>
    decreases n,
{
    if n == 0 {
        Seq::empty()
    } else {
        repeated(segment, (n - 1) as nat) + segment
    }
}

/// The two-colon scope separator.
pub open spec fn scope_sep() -> Seq<char> {
    seq![':', ':']
}

/// `s` with every `/` replaced by the scope separator.
pub open spec fn scoped(s: Seq<char>) -> Seq<char>
    decreases s.len(),
{
    if s.len() == 0 {
        Seq::empty()
    } else if s.last() == '/' {
        scoped(s.drop_last()) + scope_sep()
    } else {
        scoped(s.drop_last()).push(s.last())
    }
}

/// Whether `s` ends with the scope separator.
pub open spec fn ends_with_sep(s: Seq<char>) -> bool {
    s.len() >= 2 && s[s.len() - 2] == ':' && s[s.len() - 1] == ':'
}

/// `s` with every trailing scope separator removed.
pub open spec fn trim_sep(s: Seq<char>) -> Seq<char>
    decreases s.len(),
{
    if ends_with_sep(s) {
        trim_sep(s.take(s.len() - 2))
    } else {
        s
    }
}

/// Length of the run of colons that ends `s`.
pub open spec fn trailing_colons(s: Seq<char>) -> nat
    decreases s.len(),
{
    if s.len() > 0 && s.last() == ':' {
        trailing_colons(s.drop_last()) + 1
    } else {
        0
    }
}

/// Trimming removes the largest even number of trailing colons.
pub proof fn lemma_trim_sep_take(s: Seq<char>)
    ensures
        trailing_colons(s) <= s.len(),
        trim_sep(s) == s.take(s.len() - 2 * (trailing_colons(s) / 2)),
    decreases s.len(),
{
    if ends_with_sep(s) {
        let shorter = s.take(s.len() - 2);
        lemma_trim_sep_take(shorter);
        assert(s.drop_last().drop_last() == shorter);
        assert(s.drop_last().last() == ':');
        assert(trailing_colons(s) == trailing_colons(shorter) + 2);
        assert(shorter.take(shorter.len() - 2 * (trailing_colons(shorter) / 2)) == s.take(
            s.len() - 2 * (trailing_colons(s) / 2),
        ));
    } else {
        if s.len() > 0 && s.last() == ':' {
            if s.len() >= 2 {
                assert(s.drop_last().last() == s[s.len() - 2]);
            }
            assert(trailing_colons(s.drop_last()) == 0);
        }
        assert(s.take(s.len() as int) == s);
    }
}

/// A string never has more characters than bytes.
pub proof fn lemma_chars_le_bytes(s: Seq<char>)
    ensures
        s.len() <= encode_utf8(s).len(),
    decreases s.len(),
{
    if s.len() > 0 {
        lemma_chars_le_bytes(s.drop_first());
    }
}

/// Counts the occurrences of `c` in `s`.
pub fn count_in(s: &str, c: char) -> (n: usize)
    ensures
        n == count_char(s@, c),
{
    proof {
        lemma_chars_le_bytes(s@);
    }
    let bound = s.as_bytes().len();
    let mut n: usize = 0;
    for x in it: s.chars()
        invariant
            it.seq() == s@,
            s@.len() <= bound,
            n <= it.index(),
            n == count_char(s@.take(it.index() as int), c),
    {
        assert(s@.take(it.index() + 1).drop_last() == s@.take(it.index() as int));
        if x == c {
            n = n + 1;
        }
    }
    assert(s@.take(s@.len() as int) == s@);
    n
}

/// Whether `s` begins with `prefix`.
pub fn starts_with(s: &str, prefix: &str) -> (b: bool)
    ensures
        b == prefix@.is_prefix_of(s@),
{
    let mut rest = s.chars();
    let mut wanted = prefix.chars();
    let ghost mut k: int = 0;
    loop
        invariant
            0 <= k <= s@.len(),
            k <= prefix@.len(),
            rest.remaining() == s@.skip(k),
            wanted.remaining() == prefix@.skip(k),
            s@.take(k) == prefix@.take(k),
        decreases prefix@.len() - k,
    {
        match wanted.next() {
            None => {
                assert(prefix@.take(k) == prefix@);
                return true;
            },
            Some(p) => {
                match rest.next() {
                    None => {
                        return false;
                    },
                    Some(c) => {
                        if c != p {
                            assert(s@[k] != prefix@[k]);
                            return false;
                        }
                        proof {
                            assert(s@.skip(k).drop_first() == s@.skip(k + 1));
                            assert(prefix@.skip(k).drop_first() == prefix@.skip(k + 1));
                            assert(s@.take(k + 1) == s@.take(k).push(s@[k]));
                            assert(prefix@.take(k + 1) == prefix@.take(k).push(prefix@[k]));
                            k = k + 1;
                        }
                    },
                }
            },
        }
    }
}

/// Whether `a` and `b` hold the same characters.
pub fn same_text(a: &str, b: &str) -> (r: bool)
    ensures
        r == (a@ == b@),
{
    let mut left = a.chars();
    let mut right = b.chars();
    let ghost mut k: int = 0;
    loop
        invariant
            0 <= k <= a@.len(),
            k <= b@.len(),
            left.remaining() == a@.skip(k),
            right.remaining() == b@.skip(k),
            a@.take(k) == b@.take(k),
        decreases a@.len() - k,
    {
        match left.next() {
            None => {
                let done = right.next().is_none();
                assert(a@.take(k) == a@);
                assert(done ==> b@.take(k) == b@);
                return done;
            },
            Some(x) => {
                match right.next() {
                    None => {
                        return false;
                    },
                    Some(y) => {
                        if x != y {
                            assert(a@[k] != b@[k]);
                            return false;
                        }
                        proof {
                            assert(a@.skip(k).drop_first() == a@.skip(k + 1));
                            assert(b@.skip(k).drop_first() == b@.skip(k + 1));
                            assert(a@.take(k + 1) == a@.take(k).push(a@[k]));
                            assert(b@.take(k + 1) == b@.take(k).push(b@[k]));
                            k = k + 1;
                        }
                    },
                }
            },
        }
    }
}

/// Appends one character to `out`, by `String::push`.
///
/// Trusted: the new contents are the old ones followed by `c`.
#[verifier::external_body]
fn push_char(out: &mut String, c: char)
    ensures
        final(out)@ == old(out)@.push(c),
{
    out.push(c)
}

/// Appends `n` copies of `segment` to `out`.
pub fn append_repeated(out: &mut String, segment: &str, n: usize)
    ensures
        final(out)@ == old(out)@ + repeated(segment@, n as nat),
{
    let mut i: usize = 0;
    while i < n
        invariant
            i <= n,
            out@ == old(out)@ + repeated(segment@, i as nat),
        decreases n - i,
    {
        out.append(segment);
        i = i + 1;
    }
}

/// Copy of `path` with every `/` turned into the scope separator.
pub fn to_scope_path(path: &str) -> (out: String)
    ensures
        out@ == scoped(path@),
{
    let mut out = String::new();
    for c in it: path.chars()
        invariant
            it.seq() == path@,
            out@ == scoped(path@.take(it.index() as int)),
    {
        assert(path@.take(it.index() + 1).drop_last() == path@.take(it.index() as int));
        if c == '/' {
            push_char(&mut out, ':');
            push_char(&mut out, ':');
        } else {
            push_char(&mut out, c);
        }
    }
    assert(path@.take(path@.len() as int) == path@);
    out
}

/// Copy of `s` without its trailing scope separators.
pub fn trim_scope_suffix(s: &str) -> (out: String)
    ensures
        out@ == trim_sep(s@),
{
    proof {
        lemma_chars_le_bytes(s@);
    }
    let bound = s.as_bytes().len();
    let mut len: usize = 0;
    let mut colons: usize = 0;
    for c in it: s.chars()
        invariant
            it.seq() == s@,
            s@.len() <= bound,
            len == it.index(),
            colons <= len,
            colons == trailing_colons(s@.take(it.index() as int)),
    {
        assert(s@.take(it.index() + 1).drop_last() == s@.take(it.index() as int));
        len = len + 1;
        if c == ':' {
            colons = colons + 1;
        } else {
            colons = 0;
        }
    }
    proof {
        assert(s@.take(s@.len() as int) == s@);
        lemma_trim_sep_take(s@);
    }
    let keep = len - 2 * (colons / 2);
    s.substring_char(0, keep).to_owned()
}

} // verus!
