//! Trimming ASCII whitespace from both ends of a byte string.
//!
//! A record's label is stored space-padded to a fixed width; every path that
//! turns a stored label back into a derivation salt goes through the one trim
//! defined here.

use vstd::prelude::*;
use vstd::slice::slice_subrange;

verus! {

/// ASCII whitespace: space, horizontal tab, line feed, form feed and
/// carriage return.
pub open spec fn is_ascii_whitespace(b: u8) -> bool {
    b == 0x20 || b == 0x09 || b == 0x0A || b == 0x0C || b == 0x0D
}

/// The number of whitespace bytes at the start of `s`.
pub open spec fn leading(s: Seq<u8>) -> nat
    decreases s.len(),
{
    if s.len() > 0 && is_ascii_whitespace(s[0]) {
        1 + leading(s.drop_first())
    } else {
        0
    }
}

/// The number of whitespace bytes at the end of `s`.
pub open spec fn trailing(s: Seq<u8>) -> nat
    decreases s.len(),
{
    if s.len() > 0 && is_ascii_whitespace(s.last()) {
        1 + trailing(s.drop_last())
    } else {
        0
    }
}

/// `s` without its leading and trailing whitespace; empty where `s` holds
/// nothing else.
pub open spec fn trimmed(s: Seq<u8>) -> Seq<u8> {
    if leading(s) == s.len() {
        Seq::empty()
    } else {
        s.subrange(leading(s) as int, s.len() - trailing(s))
    }
}

/// Whether `b` is ASCII whitespace.
pub fn ascii_whitespace(b: u8) -> (r: bool)
    ensures
        r == is_ascii_whitespace(b),
{
    b == 0x20 || b == 0x09 || b == 0x0A || b == 0x0C || b == 0x0D
}

/// `leading(s)` is the index of the first byte that is not whitespace, or the
/// length of `s` where there is none.
pub proof fn lemma_leading(s: Seq<u8>, n: int)
    requires
        0 <= n <= s.len(),
        forall|j: int| 0 <= j < n ==> is_ascii_whitespace(s[j]),
        n == s.len() || !is_ascii_whitespace(s[n]),
    ensures
        leading(s) == n,
    decreases n,
{
    if n > 0 {
        lemma_leading(s.drop_first(), n - 1);
    }
}

/// `trailing(s)` is the number of bytes after the last one that is not
/// whitespace, or the length of `s` where there is none.
pub proof fn lemma_trailing(s: Seq<u8>, n: int)
    requires
        0 <= n <= s.len(),
        forall|j: int| s.len() - n <= j < s.len() ==> is_ascii_whitespace(s[j]),
        n == s.len() || !is_ascii_whitespace(s[s.len() - n - 1]),
    ensures
        trailing(s) == n,
    decreases n,
{
    if n > 0 {
        lemma_trailing(s.drop_last(), n - 1);
    }
}

/// What `leading` and `trailing` count: the bytes they cover are whitespace,
/// the byte next to each is not, and unless `s` is all whitespace the two
/// runs do not meet.
pub proof fn lemma_runs(s: Seq<u8>)
    ensures
        leading(s) <= s.len(),
        trailing(s) <= s.len(),
        forall|j: int| 0 <= j < leading(s) ==> is_ascii_whitespace(s[j]),
        forall|j: int| s.len() - trailing(s) <= j < s.len() ==> is_ascii_whitespace(s[j]),
        leading(s) < s.len() ==> !is_ascii_whitespace(s[leading(s) as int]),
        trailing(s) < s.len() ==> !is_ascii_whitespace(s[s.len() - trailing(s) - 1]),
        leading(s) == s.len() <==> trailing(s) == s.len(),
        leading(s) < s.len() ==> leading(s) + trailing(s) < s.len(),
    decreases s.len(),
{
    if s.len() > 0 {
        let front = s.drop_first();
        let back = s.drop_last();
        lemma_runs(front);
        lemma_runs(back);
        if is_ascii_whitespace(s[0]) {
            assert forall|j: int| 0 <= j < leading(s) implies is_ascii_whitespace(s[j]) by {
                if j > 0 {
                    assert(s[j] == front[j - 1]);
                }
            }
        }
        if is_ascii_whitespace(s.last()) {
            assert forall|j: int| s.len() - trailing(s) <= j < s.len() implies is_ascii_whitespace(
                s[j],
            ) by {
                if j < s.len() - 1 {
                    assert(s[j] == back[j]);
                }
            }
        }
    }
}

/// The trim keeps a byte string that has no whitespace at either end, and at
/// both ends of what it keeps stands a byte that is not whitespace.
pub proof fn lemma_trimmed_ends(s: Seq<u8>)
    ensures
        trimmed(s).len() <= s.len(),
        trimmed(s).len() > 0 ==> !is_ascii_whitespace(trimmed(s).first()) && !is_ascii_whitespace(
            trimmed(s).last(),
        ),
        leading(trimmed(s)) == 0,
        trailing(trimmed(s)) == 0,
        trimmed(trimmed(s)) == trimmed(s),
{
    lemma_runs(s);
}

/// Trimming sees through whitespace appended at the end.
pub proof fn lemma_trimmed_append(s: Seq<u8>, pad: Seq<u8>)
    requires
        forall|j: int| 0 <= j < pad.len() ==> is_ascii_whitespace(pad[j]),
    ensures
        trimmed(s + pad) == trimmed(s),
{
    let w = s + pad;
    lemma_runs(s);
    let a = leading(s) as int;
    let b = trailing(s) as int;
    assert forall|j: int| 0 <= j < w.len() implies w[j] == if j < s.len() {
        s[j]
    } else {
        pad[j - s.len()]
    } by {}
    if a == s.len() {
        lemma_leading(w, w.len() as int);
    } else {
        lemma_leading(w, a);
        lemma_trailing(w, b + pad.len());
    }
}

/// The part of `s` between its leading and its trailing whitespace.
pub fn trim_slice<'a>(s: &'a [u8]) -> (out: &'a [u8])
    ensures
        out@ == trimmed(s@),
{
    let n = s.len();
    let mut from: usize = 0;
    while from < n && ascii_whitespace(s[from])
        invariant
            from <= n,
            n == s@.len(),
            forall|j: int| 0 <= j < from ==> is_ascii_whitespace(s@[j]),
        decreases n - from,
    {
        from = from + 1;
    }
    proof {
        lemma_leading(s@, from as int);
    }
    if from == n {
        return slice_subrange(s, 0, 0);
    }
    let mut to: usize = n;
    while to > from + 1 && ascii_whitespace(s[to - 1])
        invariant
            from < to <= n,
            n == s@.len(),
            !is_ascii_whitespace(s@[from as int]),
            forall|j: int| to <= j < n ==> is_ascii_whitespace(s@[j]),
        decreases to,
    {
        to = to - 1;
    }
    proof {
        lemma_trailing(s@, n - to);
    }
    slice_subrange(s, from, to)
}

/// Trimming ASCII whitespace from a byte string.
pub trait TrimAsciiWhitespace: View<V = Seq<u8>> {
    /// The bytes of `self` without the ASCII whitespace at their start and
    /// end.
    fn trim_ascii_whitespace(&self) -> (out: &[u8])
        ensures
            out@ == trimmed(self@),
    ;
}

impl<'a> TrimAsciiWhitespace for &'a [u8] {
    fn trim_ascii_whitespace(&self) -> (out: &[u8]) {
        trim_slice(*self)
    }
}

impl TrimAsciiWhitespace for Vec<u8> {
    fn trim_ascii_whitespace(&self) -> (out: &[u8]) {
        trim_slice(self.as_slice())
    }
}

} // verus!
