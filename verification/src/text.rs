//! Text handling for terminal lines: whitespace trimming and ASCII
//! case-insensitive comparison.  These mirror what `str::trim` and
//! `str::eq_ignore_ascii_case` do, stated over character sequences and
//! proved rather than taken on trust.

use vstd::prelude::*;

verus! {

use vstd::string::StrSliceExecFns;

/// A character stripped from either end of a line: the code points with the
/// Unicode `White_Space` property, exactly those `char::is_whitespace`
/// accepts.
pub open spec fn is_space(c: char) -> bool {
    let n = c as u32;
    ||| (0x9 <= n && n <= 0xD)
    ||| n == 0x20
    ||| n == 0x85
    ||| n == 0xA0
    ||| n == 0x1680
    ||| (0x2000 <= n && n <= 0x200A)
    ||| n == 0x2028
    ||| n == 0x2029
    ||| n == 0x202F
    ||| n == 0x205F
    ||| n == 0x3000
}

/// Executable test for [`is_space`].
pub fn is_space_char(c: char) -> (b: bool)
    ensures
        b == is_space(c),
{
    let n: u32 = c as u32;
    (0x9 <= n && n <= 0xD) || n == 0x20 || n == 0x85 || n == 0xA0 || n == 0x1680 || (0x2000 <= n
        && n <= 0x200A) || n == 0x2028 || n == 0x2029 || n == 0x202F || n == 0x205F || n == 0x3000
}

/// The characters of `s` with every leading and trailing whitespace
/// character removed.
pub open spec fn trimmed(s: Seq<char>) -> Seq<char>
    decreases s.len(),
{
    if s.len() == 0 {
        s
    } else if is_space(s.first()) {
        trimmed(s.drop_first())
    } else if is_space(s.last()) {
        trimmed(s.drop_last())
    } else {
        s
    }
}

/// Trims leading and trailing whitespace from `line`, as `str::trim` does.
pub fn trim_line(line: &str) -> (t: &str)
    ensures
        t@ == trimmed(line@),
{
    let n: usize = line.unicode_len();
    let mut lo: usize = 0;
    let mut hi: usize = n;
    proof {
        assert(line@.subrange(0, n as int) =~= line@);
    }
    loop
        invariant
            n as nat == line@.len(),
            hi == n,
            lo <= hi,
            trimmed(line@) == trimmed(line@.subrange(lo as int, hi as int)),
        ensures
            n as nat == line@.len(),
            lo <= hi <= n,
            trimmed(line@) == trimmed(line@.subrange(lo as int, hi as int)),
            lo < hi ==> !is_space(line@[lo as int]),
        decreases hi - lo,
    {
        if lo == hi {
            break ;
        }
        let c = line.get_char(lo);
        if !is_space_char(c) {
            break ;
        }
        proof {
            let t = line@.subrange(lo as int, hi as int);
            assert(t.first() == line@[lo as int]);
            assert(t.drop_first() =~= line@.subrange(lo as int + 1, hi as int));
        }
        lo = lo + 1;
    }
    loop
        invariant
            n as nat == line@.len(),
            lo <= hi <= n,
            trimmed(line@) == trimmed(line@.subrange(lo as int, hi as int)),
            lo < hi ==> !is_space(line@[lo as int]),
        ensures
            n as nat == line@.len(),
            lo <= hi <= n,
            trimmed(line@) == trimmed(line@.subrange(lo as int, hi as int)),
            lo < hi ==> !is_space(line@[lo as int]) && !is_space(line@[hi as int - 1]),
        decreases hi,
    {
        if lo == hi {
            break ;
        }
        let c = line.get_char(hi - 1);
        if !is_space_char(c) {
            break ;
        }
        proof {
            let t = line@.subrange(lo as int, hi as int);
            assert(t.last() == line@[hi as int - 1]);
            assert(t.first() == line@[lo as int]);
            assert(t.drop_last() =~= line@.subrange(lo as int, hi as int - 1));
        }
        hi = hi - 1;
    }
    proof {
        let t = line@.subrange(lo as int, hi as int);
        if lo == hi {
            assert(t =~= Seq::<char>::empty());
        }
        assert(trimmed(t) == t);
    }
    line.substring_char(lo, hi)
}

/// The code point a character counts as when ASCII letter case is ignored:
/// an upper-case ASCII letter folds to its lower-case form, every other
/// character stands for itself.
pub open spec fn fold_case(c: char) -> int {
    let n = c as int;
    if 0x41 <= n && n <= 0x5A {
        n + 0x20
    } else {
        n
    }
}

/// Two character sequences are equal when ASCII letter case is ignored, as
/// `str::eq_ignore_ascii_case` compares.
pub open spec fn eq_ignore_case(a: Seq<char>, b: Seq<char>) -> bool {
    a.len() == b.len() && forall|i: int| 0 <= i < a.len() ==> fold_case(a[i]) == fold_case(b[i])
}

/// Executable case folding of one character, as a code point.
fn fold_case_char(c: char) -> (n: u32)
    ensures
        n == fold_case(c),
{
    let u: u32 = c as u32;
    if 0x41 <= u && u <= 0x5A {
        u + 0x20
    } else {
        u
    }
}

/// Compares two strings ignoring ASCII letter case, as
/// `str::eq_ignore_ascii_case` does.
#[verifier::loop_isolation(false)]
pub fn eq_ignore_case_str(a: &str, b: &str) -> (r: bool)
    ensures
        r == eq_ignore_case(a@, b@),
{
    let na: usize = a.unicode_len();
    let nb: usize = b.unicode_len();
    if na != nb {
        return false;
    }
    let mut i: usize = 0;
    while i < na
        invariant
            i <= na,
            forall|j: int| 0 <= j < i ==> fold_case(a@[j]) == fold_case(b@[j]),
        decreases na - i,
    {
        let ca = a.get_char(i);
        let cb = b.get_char(i);
        if fold_case_char(ca) != fold_case_char(cb) {
            assert(fold_case(a@[i as int]) != fold_case(b@[i as int]));
            return false;
        }
        i = i + 1;
    }
    true
}

} // verus!
