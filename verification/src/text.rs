//! Character-level text utilities shared by the backend adapter.
//!
//! The host CLI reports everything as text: instance listings, command
//! output, sentinel strings.  This module gives that text an exact
//! mathematical treatment: sequences of characters, NUL stripping,
//! line splitting with carriage-return handling, and whitespace
//! trimming, each implemented by a verified executable function whose
//! contract pins the result down completely.

use vstd::prelude::*;
use vstd::string::StrSliceExecFns;

verus! {

/// The characters removed by whitespace trimming: the Unicode
/// white-space set that the host text conventions use.
pub open spec fn is_wspace_char(c: char) -> bool {
    let u = c as u32;
    ||| u == 0x20
    ||| (0x9 <= u && u <= 0xD)
    ||| u == 0x85
    ||| u == 0xA0
    ||| u == 0x1680
    ||| (0x2000 <= u && u <= 0x200A)
    ||| u == 0x2028
    ||| u == 0x2029
    ||| u == 0x202F
    ||| u == 0x205F
    ||| u == 0x3000
}

/// Whitespace test on a single character.
pub fn is_wspace(c: char) -> (r: bool)
    ensures
        r == is_wspace_char(c),
{
    let u = c as u32;
    u == 0x20 || (0x9 <= u && u <= 0xD) || u == 0x85 || u == 0xA0 || u == 0x1680 || (0x2000 <= u
        && u <= 0x200A) || u == 0x2028 || u == 0x2029 || u == 0x202F || u == 0x205F || u == 0x3000
}

/// The characters of `s` with every NUL removed, in order.
pub open spec fn strip_nuls_spec(s: Seq<char>) -> Seq<char>
    decreases s.len(),
{
    if s.len() == 0 {
        Seq::empty()
    } else {
        let rest = strip_nuls_spec(s.drop_last());
        if s.last() == '\0' {
            rest
        } else {
            rest.push(s.last())
        }
    }
}

/// Collects the characters of a string slice into a vector.
pub fn to_chars(s: &str) -> (r: Vec<char>)
    ensures
        r@ == s@,
{
    let n = s.unicode_len();
    let mut r: Vec<char> = Vec::new();
    let mut i: usize = 0;
    while i < n
        invariant
            n == s@.len(),
            i <= n,
            r@ == s@.take(i as int),
        decreases n - i,
    {
        let c = s.get_char(i);
        r.push(c);
        i = i + 1;
        proof {
            assert(r@ =~= s@.take(i as int));
        }
    }
    proof {
        assert(r@ =~= s@);
    }
    r
}

/// Removes every NUL character, keeping the rest in order.
pub fn strip_nuls(v: &Vec<char>) -> (r: Vec<char>)
    ensures
        r@ == strip_nuls_spec(v@),
{
    let mut r: Vec<char> = Vec::new();
    let mut i: usize = 0;
    while i < v.len()
        invariant
            i <= v@.len(),
            r@ == strip_nuls_spec(v@.take(i as int)),
        decreases v@.len() - i,
    {
        let c = v[i];
        proof {
            assert(v@.take(i + 1).drop_last() =~= v@.take(i as int));
            assert(v@.take(i + 1).last() == v@[i as int]);
        }
        if c != '\0' {
            r.push(c);
        }
        i = i + 1;
    }
    proof {
        assert(v@.take(v@.len() as int) =~= v@);
    }
    r
}

/// Index of the first line feed in `s`, or `s.len()` when there is none.
pub open spec fn first_nl_spec(s: Seq<char>) -> int
    decreases s.len(),
{
    if s.len() == 0 {
        0
    } else if s[0] == '\n' {
        0
    } else {
        1 + first_nl_spec(s.drop_first())
    }
}

/// What it means for `i` to mark the first line feed of `s`.
pub open spec fn is_first_nl(s: Seq<char>, i: int) -> bool {
    &&& 0 <= i <= s.len()
    &&& (forall|j: int| 0 <= j < i ==> s[j] != '\n')
    &&& (i < s.len() ==> s[i] == '\n')
}

pub proof fn lemma_first_nl_is(s: Seq<char>)
    ensures
        is_first_nl(s, first_nl_spec(s)),
    decreases s.len(),
{
    if s.len() == 0 {
    } else if s[0] == '\n' {
    } else {
        lemma_first_nl_is(s.drop_first());
        let i = first_nl_spec(s);
        assert forall|j: int| 0 <= j < i implies s[j] != '\n' by {
            if j > 0 {
                assert(s[j] == s.drop_first()[j - 1]);
            }
        }
        if i < s.len() {
            assert(s[i] == s.drop_first()[i - 1]);
        }
    }
}

pub proof fn lemma_first_nl_unique(s: Seq<char>, i: int, j: int)
    requires
        is_first_nl(s, i),
        is_first_nl(s, j),
    ensures
        i == j,
{
    if i < j {
        assert(s[i] == '\n');
    }
    if j < i {
        assert(s[j] == '\n');
    }
}

/// A line with a final carriage return removed: the line-ending form
/// in which a carriage return precedes the line feed.
pub open spec fn chop_cr_spec(s: Seq<char>) -> Seq<char> {
    if s.len() > 0 && s.last() == '\r' {
        s.drop_last()
    } else {
        s
    }
}

/// The lines of `s`: segments split at line feeds, each segment that a
/// line feed terminated losing a final carriage return, and a final
/// line feed opening no further empty line.
pub open spec fn lines_spec(s: Seq<char>) -> Seq<Seq<char>>
    decreases s.len(),
{
    if s.len() == 0 {
        Seq::empty()
    } else {
        let i = first_nl_spec(s);
        if 0 <= i && i < s.len() {
            seq![chop_cr_spec(s.take(i))] + lines_spec(s.skip(i + 1))
        } else {
            seq![s]
        }
    }
}

/// Finds the first line feed of `v`, or its length when there is none.
pub fn find_nl(v: &Vec<char>) -> (r: usize)
    ensures
        r == first_nl_spec(v@),
        r <= v@.len(),
{
    let mut i: usize = 0;
    while i < v.len()
        invariant
            i <= v@.len(),
            forall|j: int| 0 <= j < i ==> v@[j] != '\n',
        decreases v@.len() - i,
    {
        if v[i] == '\n' {
            proof {
                lemma_first_nl_is(v@);
                lemma_first_nl_unique(v@, first_nl_spec(v@), i as int);
            }
            return i;
        }
        i = i + 1;
    }
    proof {
        lemma_first_nl_is(v@);
        lemma_first_nl_unique(v@, first_nl_spec(v@), i as int);
    }
    i
}

/// Copies the characters of `v` between `from` and `to`.
pub fn subvec(v: &Vec<char>, from: usize, to: usize) -> (r: Vec<char>)
    requires
        from <= to <= v@.len(),
    ensures
        r@ == v@.subrange(from as int, to as int),
{
    let mut r: Vec<char> = Vec::new();
    let mut i: usize = from;
    while i < to
        invariant
            from <= i <= to <= v@.len(),
            r@ == v@.subrange(from as int, i as int),
        decreases to - i,
    {
        r.push(v[i]);
        i = i + 1;
        proof {
            assert(r@ =~= v@.subrange(from as int, i as int));
        }
    }
    r
}

/// Removes a final carriage return, if one is there.
pub fn chop_cr(v: Vec<char>) -> (r: Vec<char>)
    ensures
        r@ == chop_cr_spec(v@),
{
    let ghost v0 = v@;
    let mut v = v;
    if v.len() > 0 && v[v.len() - 1] == '\r' {
        v.pop();
        proof {
            assert(v@ =~= chop_cr_spec(v0));
        }
    }
    v
}

/// A vector of characters holds exactly its view: the deep view adds
/// nothing over the shallow one.
pub proof fn lemma_chars_deep_view(v: Vec<char>)
    ensures
        v.deep_view() =~= v@,
{
}

/// Splits `v` into its lines.
pub fn split_lines(v: &Vec<char>) -> (r: Vec<Vec<char>>)
    ensures
        r.deep_view() == lines_spec(v@),
    decreases v@.len(),
{
    let mut out: Vec<Vec<char>> = Vec::new();
    if v.len() == 0 {
        proof {
            assert(out.deep_view() =~= lines_spec(v@));
        }
        return out;
    }
    let nl = find_nl(v);
    if nl < v.len() {
        let line = chop_cr(subvec(v, 0, nl));
        proof {
            lemma_chars_deep_view(line);
        }
        out.push(line);
        let tail = subvec(v, nl + 1, v.len());
        proof {
            assert(tail@ =~= v@.skip(nl + 1));
        }
        let mut rest = split_lines(&tail);
        let ghost target = lines_spec(v@);
        proof {
            assert(target == seq![chop_cr_spec(v@.take(nl as int))] + lines_spec(v@.skip(nl + 1)));
            assert(v@.subrange(0, nl as int) =~= v@.take(nl as int));
            assert(out.deep_view() =~= seq![chop_cr_spec(v@.take(nl as int))]);
            assert(out.deep_view() + rest.deep_view() =~= target);
        }
        while rest.len() > 0
            invariant
                out.deep_view() + rest.deep_view() =~= target,
            decreases rest@.len(),
        {
            let ghost out0 = out.deep_view();
            let ghost rest0 = rest.deep_view();
            let next = rest.remove(0);
            out.push(next);
            proof {
                assert(out.deep_view() =~= out0.push(rest0[0]));
                assert(rest.deep_view() =~= rest0.skip(1));
                assert(out.deep_view() + rest.deep_view() =~= target);
            }
        }
        proof {
            assert(out.deep_view() =~= target);
        }
        out
    } else {
        let line = subvec(v, 0, v.len());
        proof {
            assert(line@ =~= v@);
            lemma_chars_deep_view(line);
        }
        out.push(line);
        proof {
            assert(out.deep_view() =~= lines_spec(v@));
        }
        out
    }
}

/// `s` without its leading whitespace.
pub open spec fn trim_start_spec(s: Seq<char>) -> Seq<char>
    decreases s.len(),
{
    if s.len() > 0 && is_wspace_char(s[0]) {
        trim_start_spec(s.drop_first())
    } else {
        s
    }
}

/// `s` without its trailing whitespace.
pub open spec fn trim_end_spec(s: Seq<char>) -> Seq<char>
    decreases s.len(),
{
    if s.len() > 0 && is_wspace_char(s.last()) {
        trim_end_spec(s.drop_last())
    } else {
        s
    }
}

/// `s` without leading and trailing whitespace.
pub open spec fn trim_spec(s: Seq<char>) -> Seq<char> {
    trim_end_spec(trim_start_spec(s))
}

/// Removes leading and trailing whitespace.
pub fn trim(v: &Vec<char>) -> (r: Vec<char>)
    ensures
        r@ == trim_spec(v@),
{
    let mut lo: usize = 0;
    proof {
        assert(v@.skip(0) =~= v@);
    }
    while lo < v.len() && is_wspace(v[lo])
        invariant
            lo <= v@.len(),
            trim_start_spec(v@) == trim_start_spec(v@.skip(lo as int)),
        decreases v@.len() - lo,
    {
        proof {
            assert(v@.skip(lo as int).drop_first() =~= v@.skip(lo + 1));
        }
        lo = lo + 1;
    }
    proof {
        assert(trim_start_spec(v@) == v@.skip(lo as int));
    }
    let mut hi: usize = v.len();
    while hi > lo && is_wspace(v[hi - 1])
        invariant
            lo <= hi <= v@.len(),
            trim_start_spec(v@) == v@.skip(lo as int),
            trim_end_spec(v@.skip(lo as int)) == trim_end_spec(v@.subrange(lo as int, hi as int)),
        decreases hi,
    {
        proof {
            assert(v@.subrange(lo as int, hi as int).drop_last() =~= v@.subrange(
                lo as int,
                hi - 1,
            ));
        }
        hi = hi - 1;
    }
    proof {
        assert(v@.skip(lo as int) =~= v@.subrange(lo as int, v@.len() as int));
        assert(trim_end_spec(v@.subrange(lo as int, hi as int)) == v@.subrange(
            lo as int,
            hi as int,
        ));
    }
    subvec(v, lo, hi)
}

/// Character-by-character equality of two vectors.
pub fn chars_eq(a: &Vec<char>, b: &Vec<char>) -> (r: bool)
    ensures
        r == (a@ == b@),
{
    if a.len() != b.len() {
        return false;
    }
    let mut i: usize = 0;
    while i < a.len()
        invariant
            a@.len() == b@.len(),
            i <= a@.len(),
            forall|j: int| 0 <= j < i ==> a@[j] == b@[j],
        decreases a@.len() - i,
    {
        if a[i] != b[i] {
            return false;
        }
        i = i + 1;
    }
    proof {
        assert(a@ =~= b@);
    }
    true
}

/// Whether one of `lines` is exactly `name`.
pub fn contains_line(lines: &Vec<Vec<char>>, name: &Vec<char>) -> (r: bool)
    ensures
        r == lines.deep_view().contains(name@),
{
    let mut i: usize = 0;
    while i < lines.len()
        invariant
            i <= lines@.len(),
            forall|j: int| 0 <= j < i ==> lines.deep_view()[j] != name@,
        decreases lines@.len() - i,
    {
        proof {
            lemma_chars_deep_view(lines[i as int]);
        }
        if chars_eq(&lines[i], name) {
            assert(lines.deep_view()[i as int] == name@);
            return true;
        }
        i = i + 1;
    }
    assert(!lines.deep_view().contains(name@));
    false
}

/// Relies on `String` collecting an iterator of characters: the
/// resulting string holds exactly the characters handed in, in order.
#[verifier::external_body]
pub fn chars_to_string(v: &Vec<char>) -> (r: String)
    ensures
        r@ == v@,
{
    v.iter().collect()
}

/// Relies on `String::from_utf8`: it succeeds exactly on valid UTF-8
/// input and then yields the decoding of those bytes.
#[verifier::external_body]
pub fn decode_utf8_bytes(b: &Vec<u8>) -> (r: Option<String>)
    ensures
        r is Some <==> vstd::utf8::valid_utf8(b@),
        r is Some ==> r->0@ == vstd::utf8::decode_utf8(b@),
{
    String::from_utf8(b.clone()).ok()
}

} // verus!
