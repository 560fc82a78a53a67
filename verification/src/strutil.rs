//! Character-level helpers shared by URL parsing and request serialization:
//! conversions between `str`/`String` and `Vec<char>`, ASCII upper-casing,
//! and decimal rendering of integers.

use vstd::prelude::*;
use vstd::std_specs::iter::IteratorSpec;

verus! {

/// Relies on std's `String::push`: appends the given character to the end of
/// the string.
pub assume_specification[ String::push ](s: &mut String, c: char)
    ensures
        final(s)@ == old(s)@.push(c),
;

/// Collects the characters of a string slice into a vector.
pub fn str_to_chars(s: &str) -> (v: Vec<char>)
    ensures
        v@ == s@,
{
    let mut it = s.chars();
    let mut v: Vec<char> = Vec::new();
    loop
        invariant
            it.obeys_prophetic_iter_laws(),
            it.decrease() is Some,
            v@ + it.remaining() == s@,
        ensures
            v@ == s@,
        decreases it.decrease()->0,
    {
        match it.next() {
            Some(c) => {
                v.push(c);
                proof {
                    assert(v@ + it.remaining() =~= s@);
                }
            },
            None => {
                proof {
                    assert(v@ + it.remaining() =~= v@);
                }
                break ;
            },
        }
    }
    v
}

/// Builds an owned string out of a vector of characters.
pub fn chars_to_string(v: &Vec<char>) -> (s: String)
    ensures
        s@ == v@,
{
    let mut s = String::new();
    let mut i: usize = 0;
    while i < v.len()
        invariant
            i <= v@.len(),
            s@ == v@.take(i as int),
        decreases v@.len() - i,
    {
        s.push(v[i]);
        i = i + 1;
        proof {
            assert(v@.take(i as int) =~= v@.take(i - 1).push(v@[i - 1]));
        }
    }
    proof {
        assert(v@.take(v@.len() as int) =~= v@);
    }
    s
}

/// Character-for-character equality of two vectors of characters.
pub fn chars_eq(a: &Vec<char>, b: &Vec<char>) -> (r: bool)
    ensures
        r == (a@ == b@),
{
    if a.len() != b.len() {
        return false;
    }
    let mut i: usize = 0;
    while i < a.len()
        invariant
            i <= a@.len(),
            a@.len() == b@.len(),
            forall|j: int| 0 <= j < i ==> a@[j] == b@[j],
        decreases a@.len() - i,
    {
        if a[i] != b[i] {
            return false;
        }
        i = i + 1;
    }
    proof {
        assert(a@ =~= b@);
    }
    true
}

/// Copies the first `n` characters of a vector.
pub fn vec_take(v: &Vec<char>, n: usize) -> (r: Vec<char>)
    requires
        n <= v@.len(),
    ensures
        r@ == v@.take(n as int),
{
    let mut r: Vec<char> = Vec::new();
    let mut i: usize = 0;
    while i < n
        invariant
            i <= n <= v@.len(),
            r@.len() == i,
            forall|j: int| 0 <= j < i ==> r@[j] == v@[j],
        decreases n - i,
    {
        r.push(v[i]);
        i = i + 1;
    }
    proof {
        assert(r@ =~= v@.take(n as int));
    }
    r
}

/// Copies everything after the first `n` characters of a vector.
pub fn vec_skip(v: &Vec<char>, n: usize) -> (r: Vec<char>)
    requires
        n <= v@.len(),
    ensures
        r@ == v@.skip(n as int),
{
    let mut r: Vec<char> = Vec::new();
    let mut i: usize = n;
    while i < v.len()
        invariant
            n <= i <= v@.len(),
            r@.len() == i - n,
            forall|j: int| 0 <= j < i - n ==> r@[j] == v@[n + j],
        decreases v@.len() - i,
    {
        r.push(v[i]);
        i = i + 1;
    }
    proof {
        assert(r@ =~= v@.skip(n as int));
    }
    r
}

/// The ASCII upper-case counterpart of a character; characters outside
/// `'a'..='z'` are left unchanged.
pub open spec fn spec_upper_char(c: char) -> char {
    if 'a' <= c && c <= 'z' {
        ((c as int) - 32) as char
    } else {
        c
    }
}

/// A character sequence with every ASCII lower-case letter upper-cased.
pub open spec fn spec_upper(s: Seq<char>) -> Seq<char> {
    Seq::new(s.len(), |i: int| spec_upper_char(s[i]))
}

/// Upper-cases the ASCII lower-case letters of a character vector.
pub fn ascii_upper(v: &Vec<char>) -> (r: Vec<char>)
    ensures
        r@ == spec_upper(v@),
{
    let mut r: Vec<char> = Vec::new();
    let mut i: usize = 0;
    while i < v.len()
        invariant
            i <= v@.len(),
            r@.len() == i,
            forall|j: int| 0 <= j < i ==> r@[j] == spec_upper_char(v@[j]),
        decreases v@.len() - i,
    {
        let c = v[i];
        if 'a' <= c && c <= 'z' {
            r.push(((c as u8) - 32) as char);
        } else {
            r.push(c);
        }
        i = i + 1;
    }
    proof {
        assert(r@ =~= spec_upper(v@));
    }
    r
}

/// The decimal digit character for a value below ten.
pub open spec fn spec_digit_char(d: nat) -> char
    recommends
        d < 10,
{
    ((d + 48) as char)
}

/// The decimal rendering of a natural number, most significant digit first.
pub open spec fn spec_dec(n: nat) -> Seq<char>
    decreases n,
{
    if n < 10 {
        seq![spec_digit_char(n)]
    } else {
        spec_dec(n / 10).push(spec_digit_char(n % 10))
    }
}

/// Appends the decimal rendering of `n` to `s`.
pub fn push_dec_u64(s: &mut String, n: u64)
    ensures
        final(s)@ == old(s)@ + spec_dec(n as nat),
    decreases n,
{
    if n >= 10 {
        proof {
            assert(n / 10 < n) by (nonlinear_arith)
                requires
                    n >= 10,
            ;
        }
        push_dec_u64(s, n / 10);
        let d: u8 = (n % 10) as u8;
        s.push((d + 48) as char);
        proof {
            assert(s@ =~= old(s)@ + spec_dec(n as nat));
        }
    } else {
        let d: u8 = n as u8;
        s.push((d + 48) as char);
        proof {
            assert(s@ =~= old(s)@ + spec_dec(n as nat));
        }
    }
}

/// The decimal rendering of `n` as an owned string.
pub fn u64_to_string(n: u64) -> (r: String)
    ensures
        r@ == spec_dec(n as nat),
{
    let mut s = String::new();
    push_dec_u64(&mut s, n);
    proof {
        assert(s@ =~= spec_dec(n as nat));
    }
    s
}

} // verus!
