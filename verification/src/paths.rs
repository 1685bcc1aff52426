//! Path and name arithmetic.
//!
//! The two platforms format pipe paths incompatibly: POSIX uses a plain
//! filesystem path under a fixed temporary directory, Windows a reserved
//! `\\.\pipe\` namespace string.  This module derives a platform path from a
//! bare logical name, recovers the name from a path, and renders decimal
//! numbers for the randomized names used by `Pipe::create`.

use vstd::prelude::*;
use vstd::string::*;

verus! {

/// The fixed POSIX prefix under which named pipes are created.
pub open spec fn unix_prefix() -> Seq<char> {
    "/tmp/"@
}

/// The reserved Windows pipe-namespace prefix.
pub open spec fn win_prefix() -> Seq<char> {
    "\\\\.\\pipe\\"@
}

/// The POSIX path that backs the bare logical name `name`.
pub open spec fn unix_path_of(name: Seq<char>) -> Seq<char> {
    unix_prefix() + name
}

/// The Windows path that backs the bare logical name `name`.
pub open spec fn win_path_of(name: Seq<char>) -> Seq<char> {
    win_prefix() + name
}

/// Derive the POSIX path for a bare logical name.
pub fn unix_path_for_name(name: &str) -> (r: String)
    ensures
        r@ == unix_path_of(name@),
{
    let mut s = String::from_str("/tmp/");
    s.append(name);
    s
}

/// Derive the Windows path for a bare logical name.
pub fn win_path_for_name(name: &str) -> (r: String)
    ensures
        r@ == win_path_of(name@),
{
    let mut s = String::from_str("\\\\.\\pipe\\");
    s.append(name);
    s
}

/// A path has a parent directory unless it is empty or the bare root.
pub open spec fn spec_has_parent(p: Seq<char>) -> bool {
    p.len() > 0 && !(p.len() == 1 && p[0] == '/')
}

/// Runtime check for [`spec_has_parent`].
pub fn path_has_parent(p: &str) -> (r: bool)
    ensures
        r == spec_has_parent(p@),
{
    let n = p.unicode_len();
    if n == 0 {
        false
    } else if n == 1 {
        p.get_char(0) != '/'
    } else {
        true
    }
}

/// The characters that follow the last occurrence of `sep` in `p` (all of `p`
/// if `sep` does not occur; empty if `p` ends with `sep`).
pub open spec fn suffix_after_last(p: Seq<char>, sep: char) -> Seq<char>
    decreases p.len(),
{
    if p.len() == 0 {
        Seq::<char>::empty()
    } else if p[p.len() - 1] == sep {
        Seq::<char>::empty()
    } else {
        suffix_after_last(p.drop_last(), sep).push(p[p.len() - 1])
    }
}

proof fn lemma_suffix_is_subrange(p: Seq<char>, sep: char, start: int)
    requires
        0 <= start <= p.len(),
        forall|i: int| start <= i < p.len() ==> p[i] != sep,
        start > 0 ==> p[start - 1] == sep,
    ensures
        suffix_after_last(p, sep) == p.subrange(start, p.len() as int),
    decreases p.len(),
{
    if start == p.len() {
        assert(p.subrange(start, p.len() as int) =~= Seq::<char>::empty());
    } else {
        assert(p[p.len() - 1] != sep);
        lemma_suffix_is_subrange(p.drop_last(), sep, start);
        assert(p.drop_last().subrange(start, p.len() - 1) =~= p.subrange(start, p.len() - 1));
        assert(p.subrange(start, p.len() - 1).push(p[p.len() - 1]) =~= p.subrange(
            start,
            p.len() as int,
        ));
    }
}

/// Extract the characters after the last `sep` of `p`.
pub fn name_part(p: &str, sep: char) -> (r: String)
    ensures
        r@ == suffix_after_last(p@, sep),
{
    let n = p.unicode_len();
    let mut start: usize = 0;
    let mut i: usize = 0;
    while i < n
        invariant
            n == p@.len(),
            0 <= start <= i <= n,
            forall|j: int| start <= j < i ==> p@[j] != sep,
            start > 0 ==> p@[start - 1] == sep,
        decreases n - i,
    {
        if p.get_char(i) == sep {
            start = i + 1;
        }
        i = i + 1;
    }
    proof {
        lemma_suffix_is_subrange(p@, sep, start as int);
    }
    let tail = p.substring_char(start, n);
    String::from_str(tail)
}

/// Appending a separator-free name to a prefix that ends with the separator
/// leaves exactly the name after the last separator.
pub proof fn lemma_name_of_prefixed(prefix: Seq<char>, name: Seq<char>, sep: char)
    requires
        prefix.len() > 0,
        prefix.last() == sep,
        forall|i: int| 0 <= i < name.len() ==> name[i] != sep,
    ensures
        suffix_after_last(prefix + name, sep) == name,
    decreases name.len(),
{
    if name.len() == 0 {
        assert(prefix + name =~= prefix);
    } else {
        let whole = prefix + name;
        assert(whole[whole.len() - 1] == name[name.len() - 1]);
        assert(whole.drop_last() =~= prefix + name.drop_last());
        lemma_name_of_prefixed(prefix, name.drop_last(), sep);
        assert(name.drop_last().push(name[name.len() - 1]) =~= name);
    }
}

/// Law: on POSIX, the name accessor recovers the bare logical name from the
/// path that `with_name` derives, for every name free of path separators.
pub proof fn lemma_unix_name_round_trip(name: Seq<char>)
    requires
        forall|i: int| 0 <= i < name.len() ==> name[i] != '/',
    ensures
        suffix_after_last(unix_path_of(name), '/') == name,
{
    reveal_strlit("/tmp/");
    lemma_name_of_prefixed(unix_prefix(), name, '/');
}

/// Law: on Windows, the name accessor recovers the bare logical name from the
/// path that `with_name` derives, for every name free of path separators.
pub proof fn lemma_win_name_round_trip(name: Seq<char>)
    requires
        forall|i: int| 0 <= i < name.len() ==> name[i] != '\\',
    ensures
        suffix_after_last(win_path_of(name), '\\') == name,
{
    reveal_strlit("\\\\.\\pipe\\");
    lemma_name_of_prefixed(win_prefix(), name, '\\');
}

/// Law: a logical name determines its backing path and the path determines
/// the name: two calls that derive a path from the same name bind to the
/// same channel, and different names never collide.
pub proof fn lemma_unix_path_of_injective(n1: Seq<char>, n2: Seq<char>)
    ensures
        unix_path_of(n1) == unix_path_of(n2) <==> n1 == n2,
{
    if unix_path_of(n1) == unix_path_of(n2) {
        let k = unix_prefix().len() as int;
        assert(n1 =~= n2) by {
            assert(unix_path_of(n1).len() == k + n1.len());
            assert(unix_path_of(n2).len() == k + n2.len());
            assert forall|i: int| 0 <= i < n1.len() implies n1[i] == n2[i] by {
                assert(unix_path_of(n1)[k + i] == n1[i]);
                assert(unix_path_of(n2)[k + i] == n2[i]);
            }
        }
    }
}

/// An ASCII alphanumeric character.
pub open spec fn is_alnum_char(c: char) -> bool {
    (48 <= c as u32 && c as u32 <= 57) || (65 <= c as u32 && c as u32 <= 90) || (97 <= c as u32
        && c as u32 <= 122)
}

/// The decimal digit character for `d`.
pub open spec fn dec_digit(d: nat) -> char {
    if d == 0 {
        '0'
    } else if d == 1 {
        '1'
    } else if d == 2 {
        '2'
    } else if d == 3 {
        '3'
    } else if d == 4 {
        '4'
    } else if d == 5 {
        '5'
    } else if d == 6 {
        '6'
    } else if d == 7 {
        '7'
    } else if d == 8 {
        '8'
    } else {
        '9'
    }
}

/// The decimal rendering of `n`, most significant digit first.
pub open spec fn dec_rep(n: nat) -> Seq<char>
    decreases n,
{
    if n < 10 {
        seq![dec_digit(n)]
    } else {
        dec_rep(n / 10).push(dec_digit(n % 10))
    }
}

proof fn lemma_dec_rep_len(n: nat)
    ensures
        dec_rep(n).len() >= 1,
{
}

/// Law: the decimal rendering is injective: distinct numbers never render
/// as the same character sequence.
pub proof fn lemma_dec_rep_injective(a: nat, b: nat)
    requires
        dec_rep(a) == dec_rep(b),
    ensures
        a == b,
    decreases a,
{
    if a < 10 && b < 10 {
        assert(dec_rep(a)[0] == dec_digit(a));
        assert(dec_rep(b)[0] == dec_digit(b));
    } else if a >= 10 && b >= 10 {
        assert(a / 10 < a) by (nonlinear_arith)
            requires
                a >= 10,
        ;
        assert(dec_rep(a).last() == dec_digit(a % 10));
        assert(dec_rep(b).last() == dec_digit(b % 10));
        assert(a % 10 == b % 10);
        assert(dec_rep(a).drop_last() =~= dec_rep(a / 10));
        assert(dec_rep(b).drop_last() =~= dec_rep(b / 10));
        lemma_dec_rep_injective(a / 10, b / 10);
        assert(a == 10 * (a / 10) + a % 10);
        assert(b == 10 * (b / 10) + b % 10);
    } else if a < 10 {
        assert(dec_rep(a).len() == 1);
        lemma_dec_rep_len(b / 10);
        assert(dec_rep(b).len() == dec_rep(b / 10).len() + 1);
        assert(false);
    } else {
        assert(dec_rep(b).len() == 1);
        lemma_dec_rep_len(a / 10);
        assert(dec_rep(a).len() == dec_rep(a / 10).len() + 1);
        assert(false);
    }
}

fn digit_str(d: u32) -> (r: &'static str)
    requires
        d < 10,
    ensures
        r@ == seq![dec_digit(d as nat)],
{
    proof {
        reveal_strlit("0");
        reveal_strlit("1");
        reveal_strlit("2");
        reveal_strlit("3");
        reveal_strlit("4");
        reveal_strlit("5");
        reveal_strlit("6");
        reveal_strlit("7");
        reveal_strlit("8");
        reveal_strlit("9");
    }
    let r: &'static str = if d == 0 {
        "0"
    } else if d == 1 {
        "1"
    } else if d == 2 {
        "2"
    } else if d == 3 {
        "3"
    } else if d == 4 {
        "4"
    } else if d == 5 {
        "5"
    } else if d == 6 {
        "6"
    } else if d == 7 {
        "7"
    } else if d == 8 {
        "8"
    } else {
        "9"
    };
    proof {
        assert(r@ =~= seq![dec_digit(d as nat)]);
    }
    r
}

/// Render `n` in decimal.
pub fn u32_to_string(n: u32) -> (r: String)
    ensures
        r@ == dec_rep(n as nat),
    decreases n,
{
    if n < 10 {
        String::from_str(digit_str(n))
    } else {
        proof {
            assert(n / 10 < n) by (nonlinear_arith)
                requires
                    n >= 10,
            ;
        }
        let mut s = u32_to_string(n / 10);
        let d = digit_str(n % 10);
        s.append(d);
        proof {
            assert(dec_rep((n / 10) as nat) + seq![dec_digit((n % 10) as nat)] =~= dec_rep(
                (n / 10) as nat,
            ).push(dec_digit((n % 10) as nat)));
        }
        s
    }
}

} // verus!
