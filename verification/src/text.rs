//! Text helpers: the characters of a string, prefix and suffix tests, and
//! the trimming that the standard library does.

use vstd::prelude::*;
use vstd::string::StrSliceExecFns;

verus! {

/// The characters of `s`, in order.
pub fn chars_of(s: &str) -> (v: Vec<char>)
    ensures
        v@ == s@,
{
    broadcast use vstd::string::group_string_axioms;
    let mut v: Vec<char> = Vec::new();
    for c in it: s.chars()
        invariant
            it.seq() == s@,
            v@ == it.seq().take(it.index()),
    {
        v.push(c);
    }
    v
}


/// The Unicode `White_Space` property, which `char::is_whitespace` tests.
pub open spec fn is_white_space(c: char) -> bool {
    let v = c as u32;
    ||| 0x9 <= v <= 0xD
    ||| v == 0x20
    ||| v == 0x85
    ||| v == 0xA0
    ||| v == 0x1680
    ||| 0x2000 <= v <= 0x200A
    ||| v == 0x2028
    ||| v == 0x2029
    ||| v == 0x202F
    ||| v == 0x205F
    ||| v == 0x3000
}

pub open spec fn trim_start_ws(s: Seq<char>) -> Seq<char>
    decreases s.len(),
{
    if s.len() > 0 && is_white_space(s[0]) {
        trim_start_ws(s.drop_first())
    } else {
        s
    }
}

pub open spec fn trim_end_ws(s: Seq<char>) -> Seq<char>
    decreases s.len(),
{
    if s.len() > 0 && is_white_space(s.last()) {
        trim_end_ws(s.drop_last())
    } else {
        s
    }
}

/// `s` without its leading and trailing white space.
pub open spec fn trim_ws(s: Seq<char>) -> Seq<char> {
    trim_end_ws(trim_start_ws(s))
}

/// Whether `c` has the `White_Space` property.
pub fn is_white_space_char(c: char) -> (r: bool)
    ensures
        r == is_white_space(c),
{
    let v = c as u32;
    (0x9 <= v && v <= 0xD) || v == 0x20 || v == 0x85 || v == 0xA0 || v == 0x1680 || (0x2000 <= v
        && v <= 0x200A) || v == 0x2028 || v == 0x2029 || v == 0x202F || v == 0x205F || v == 0x3000
}

/// `s` without its leading and trailing white space, as `str::trim` gives it.
pub fn trim_white_space(s: &str) -> (r: String)
    ensures
        r@ == trim_ws(s@),
{
    let cs = chars_of(s);
    let n = cs.len();
    let ghost p = s@;
    let mut a: usize = 0;
    assert(p.subrange(0, n as int) =~= p);
    while a < n && is_white_space_char(cs[a])
        invariant
            cs@ == p,
            n == p.len(),
            a <= n,
            trim_start_ws(p) == trim_start_ws(p.subrange(a as int, n as int)),
        decreases n - a,
    {
        assert(p.subrange(a as int, n as int).drop_first() =~= p.subrange(a + 1, n as int));
        a = a + 1;
    }
    let mut b: usize = n;
    while b > a && is_white_space_char(cs[b - 1])
        invariant
            cs@ == p,
            n == p.len(),
            a <= b <= n,
            trim_ws(p) == trim_end_ws(p.subrange(a as int, b as int)),
        decreases b - a,
    {
        assert(p.subrange(a as int, b as int).drop_last() =~= p.subrange(a as int, b - 1));
        b = b - 1;
    }
    String::from_str(s.substring_char(a, b))
}

pub open spec fn git_suffix() -> Seq<char> {
    seq!['.', 'g', 'i', 't']
}

/// `s` with every trailing `.git` removed, one after the other.
pub open spec fn trim_git_suffixes(s: Seq<char>) -> Seq<char>
    decreases s.len(),
{
    if s.len() >= 4 && s.subrange(s.len() - 4, s.len() as int) == git_suffix() {
        trim_git_suffixes(s.subrange(0, s.len() - 4))
    } else {
        s
    }
}

/// `s` ends with the four characters `.git`.
pub open spec fn ends_with_dot_git(s: Seq<char>) -> bool {
    s.len() >= 4 && s[s.len() - 4] == '.' && s[s.len() - 3] == 'g' && s[s.len() - 2] == 'i'
        && s[s.len() - 1] == 't'
}

/// `k` copies of `.git`, one after the other.
pub open spec fn dot_git_repeated(k: nat) -> Seq<char>
    decreases k,
{
    if k == 0 {
        Seq::empty()
    } else {
        dot_git_repeated((k - 1) as nat) + seq!['.', 'g', 'i', 't']
    }
}

/// Trimming `.git` removes exactly the trailing copies of `.git` and nothing
/// else: the result no longer ends with `.git`, and the text is the result
/// followed by some number of `.git`. A text that does not end with `.git`
/// is left as it is.
pub proof fn lemma_trim_git_suffixes(s: Seq<char>)
    ensures
        !ends_with_dot_git(trim_git_suffixes(s)),
        exists|k: nat| s == trim_git_suffixes(s) + #[trigger] dot_git_repeated(k),
        !ends_with_dot_git(s) ==> trim_git_suffixes(s) == s,
    decreases s.len(),
{
    let r = trim_git_suffixes(s);
    if s.len() >= 4 && s.subrange(s.len() - 4, s.len() as int) == git_suffix() {
        let t = s.subrange(0, s.len() - 4);
        lemma_trim_git_suffixes(t);
        let k = choose|k: nat| t == trim_git_suffixes(t) + #[trigger] dot_git_repeated(k);
        assert(s =~= t + seq!['.', 'g', 'i', 't']);
        assert(dot_git_repeated(k + 1) == dot_git_repeated(k) + seq!['.', 'g', 'i', 't']);
        assert(s =~= r + dot_git_repeated(k + 1));
        assert(s[s.len() - 4] == s.subrange(s.len() - 4, s.len() as int)[0]);
    } else {
        assert(s =~= r + dot_git_repeated(0));
        if ends_with_dot_git(s) {
            assert(s.subrange(s.len() - 4, s.len() as int) =~= git_suffix());
        }
    }
}

/// `s` without its trailing `.git` suffixes, as `str::trim_end_matches(".git")`
/// gives it.
pub fn trim_end_git(s: &str) -> (r: String)
    ensures
        r@ == trim_git_suffixes(s@),
        !ends_with_dot_git(r@),
        exists|k: nat| s@ == r@ + #[trigger] dot_git_repeated(k),
        !ends_with_dot_git(s@) ==> r@ == s@,
{
    proof {
        lemma_trim_git_suffixes(s@);
    }
    let cs = chars_of(s);
    let ghost p = s@;
    let mut end: usize = cs.len();
    assert(p.subrange(0, end as int) =~= p);
    while end >= 4 && cs[end - 4] == '.' && cs[end - 3] == 'g' && cs[end - 2] == 'i' && cs[end
        - 1] == 't'
        invariant
            cs@ == p,
            end <= p.len(),
            trim_git_suffixes(p) == trim_git_suffixes(p.subrange(0, end as int)),
        decreases end,
    {
        let ghost q = p.subrange(0, end as int);
        assert(q.subrange(q.len() - 4, q.len() as int) =~= git_suffix());
        assert(q.subrange(0, q.len() - 4) =~= p.subrange(0, end - 4));
        end = end - 4;
    }
    proof {
        let q = p.subrange(0, end as int);
        if q.len() >= 4 && q.subrange(q.len() - 4, q.len() as int) == git_suffix() {
            assert(q.subrange(q.len() - 4, q.len() as int)[0] == '.');
            assert(q.subrange(q.len() - 4, q.len() as int)[1] == 'g');
            assert(q.subrange(q.len() - 4, q.len() as int)[2] == 'i');
            assert(q.subrange(q.len() - 4, q.len() as int)[3] == 't');
        }
    }
    String::from_str(s.substring_char(0, end))
}

/// Whether `prefix` is a prefix of `s`.
pub fn has_prefix(s: &Vec<char>, prefix: &Vec<char>) -> (r: bool)
    ensures
        r == prefix@.is_prefix_of(s@),
{
    if prefix.len() > s.len() {
        return false;
    }
    let mut i: usize = 0;
    while i < prefix.len()
        invariant
            prefix@.len() <= s@.len(),
            i <= prefix@.len(),
            forall|j: int| 0 <= j < i ==> prefix@[j] == s@[j],
        decreases prefix@.len() - i,
    {
        if prefix[i] != s[i] {
            return false;
        }
        i = i + 1;
    }
    true
}

/// Whether `suffix` is a suffix of `s`.
pub fn has_suffix(s: &Vec<char>, suffix: &Vec<char>) -> (r: bool)
    ensures
        r == (suffix@.len() <= s@.len() && s@.subrange(
            s@.len() - suffix@.len(),
            s@.len() as int,
        ) == suffix@),
{
    if suffix.len() > s.len() {
        return false;
    }
    let off = s.len() - suffix.len();
    let mut i: usize = 0;
    while i < suffix.len()
        invariant
            off + suffix@.len() == s@.len(),
            s@.len() == s.len(),
            i <= suffix@.len(),
            forall|j: int| 0 <= j < i ==> suffix@[j] == s@[off + j],
        decreases suffix@.len() - i,
    {
        if suffix[i] != s[off + i] {
            assert(s@.subrange(off as int, s@.len() as int)[i as int] != suffix@[i as int]);
            return false;
        }
        i = i + 1;
    }
    assert(s@.subrange(off as int, s@.len() as int) =~= suffix@);
    true
}

/// Whether `c` occurs in `s`.
pub fn has_char(s: &Vec<char>, c: char) -> (r: bool)
    ensures
        r == s@.contains(c),
{
    let mut i: usize = 0;
    while i < s.len()
        invariant
            i <= s@.len(),
            forall|j: int| 0 <= j < i ==> s@[j] != c,
        decreases s@.len() - i,
    {
        if s[i] == c {
            return true;
        }
        i = i + 1;
    }
    false
}

} // verus!
