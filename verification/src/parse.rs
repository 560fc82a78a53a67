//! URL parsing: turns a URL string into a structured target descriptor
//! holding protocol, hostname, port and path.
//!
//! The grammar follows the harness's needs, not a full URL standard: an
//! optional `scheme://` prefix, then host, an optional `:port`, and an
//! optional `/path` remainder (query strings stay inside the path). A
//! missing scheme defaults to HTTP; a missing port defaults to 80 for HTTP
//! and 443 for HTTPS; a missing path defaults to `/`.

use vstd::prelude::*;
use vstd::string::StringExecFns;

use crate::strutil::{
    ascii_upper, chars_eq, chars_to_string, spec_upper, str_to_chars, vec_skip, vec_take,
};

verus! {

/// A structured target descriptor derived from a URL string.
#[derive(Clone, Debug)]
pub struct ParsedURL {
    pub protocol: String,
    pub hostname: String,
    pub port: u16,
    pub path: String,
}

/// `pat` occurs in `s` starting at position `i`.
pub open spec fn match_at(s: Seq<char>, pat: Seq<char>, i: int) -> bool {
    &&& 0 <= i
    &&& i + pat.len() <= s.len()
    &&& s.subrange(i, i + pat.len()) == pat
}

/// `i` is the position of the first occurrence of `pat` in `s`.
pub open spec fn is_first_match(s: Seq<char>, pat: Seq<char>, i: int) -> bool {
    &&& match_at(s, pat, i)
    &&& forall|j: int| 0 <= j < i ==> !match_at(s, pat, j)
}

/// The position of the first occurrence of `pat` in `s`, if any.
pub open spec fn find_first(s: Seq<char>, pat: Seq<char>) -> Option<int> {
    if exists|i: int| is_first_match(s, pat, i) {
        Some(choose|i: int| is_first_match(s, pat, i))
    } else {
        None
    }
}

pub proof fn lemma_find_first_some(s: Seq<char>, pat: Seq<char>, i: int)
    requires
        is_first_match(s, pat, i),
    ensures
        find_first(s, pat) == Some(i),
{
    let k = choose|k: int| is_first_match(s, pat, k);
    if k < i {
        assert(!match_at(s, pat, k));
    }
    if i < k {
        assert(!match_at(s, pat, i));
    }
}

pub proof fn lemma_find_first_none(s: Seq<char>, pat: Seq<char>)
    requires
        forall|j: int| !match_at(s, pat, j),
    ensures
        find_first(s, pat) is None,
{
}

/// Whether `pat` occurs in `hay` starting at position `i`.
fn pattern_at(hay: &Vec<char>, pat: &Vec<char>, i: usize) -> (r: bool)
    requires
        i + pat@.len() <= hay@.len(),
    ensures
        r == match_at(hay@, pat@, i as int),
{
    let mut k: usize = 0;
    while k < pat.len()
        invariant
            i + pat@.len() <= hay@.len(),
            k <= pat@.len(),
            forall|j: int| 0 <= j < k ==> hay@[i + j] == pat@[j],
        decreases pat@.len() - k,
    {
        assert(i + k < hay@.len() && hay@.len() == hay.len());
        if hay[i + k] != pat[k] {
            proof {
                assert(!match_at(hay@, pat@, i as int)) by {
                    if match_at(hay@, pat@, i as int) {
                        assert(hay@.subrange(i as int, i + pat@.len())[k as int] == pat@[k as int]);
                    }
                }
            }
            return false;
        }
        k = k + 1;
    }
    proof {
        assert(hay@.subrange(i as int, i + pat@.len()) =~= pat@);
    }
    true
}

/// The position of the first occurrence of `pat` in `hay`, searched left to
/// right.
fn find_pattern(hay: &Vec<char>, pat: &Vec<char>) -> (r: Option<usize>)
    requires
        1 <= pat@.len(),
    ensures
        match r {
            Some(i) => is_first_match(hay@, pat@, i as int),
            None => forall|j: int| !match_at(hay@, pat@, j),
        },
{
    if pat.len() > hay.len() {
        return None;
    }
    let mut i: usize = 0;
    while i <= hay.len() - pat.len()
        invariant
            1 <= pat@.len() <= hay@.len(),
            i <= hay@.len() - pat@.len() + 1,
            forall|j: int| 0 <= j < i ==> !match_at(hay@, pat@, j),
        decreases hay@.len() - i,
    {
        if pattern_at(hay, pat, i) {
            return Some(i);
        }
        i = i + 1;
    }
    None
}

/// The separator between the scheme and the rest of a URL.
pub open spec fn scheme_sep() -> Seq<char> {
    seq![':', '/', '/']
}

/// The scheme part of the URL as written, or `HTTP` when none is present.
pub open spec fn spec_raw_scheme(s: Seq<char>) -> Seq<char> {
    match find_first(s, scheme_sep()) {
        Some(i) => s.take(i),
        None => "HTTP"@,
    }
}

/// Everything after the `://` separator, or the whole URL when none is
/// present.
pub open spec fn spec_after_scheme(s: Seq<char>) -> Seq<char> {
    match find_first(s, scheme_sep()) {
        Some(i) => s.skip(i + 3),
        None => s,
    }
}

/// The parsed protocol: the scheme upper-cased.
pub open spec fn spec_protocol(s: Seq<char>) -> Seq<char> {
    spec_upper(spec_raw_scheme(s))
}

/// The host-and-port section: everything after the scheme up to the first
/// `/`, or to the end when there is no path.
pub open spec fn spec_hostport(s: Seq<char>) -> Seq<char> {
    let rest = spec_after_scheme(s);
    match find_first(rest, seq!['/']) {
        Some(i) => rest.take(i),
        None => rest,
    }
}

/// The parsed path: `/` followed by whatever stands after the first `/` of
/// the part following the scheme (query strings included, unmodified).
pub open spec fn spec_path(s: Seq<char>) -> Seq<char> {
    let rest = spec_after_scheme(s);
    match find_first(rest, seq!['/']) {
        Some(i) => seq!['/'] + rest.skip(i + 1),
        None => seq!['/'],
    }
}

/// The parsed hostname: the host-and-port section up to the first `:`.
pub open spec fn spec_hostname(s: Seq<char>) -> Seq<char> {
    let hp = spec_hostport(s);
    match find_first(hp, seq![':']) {
        Some(i) => hp.take(i),
        None => hp,
    }
}

/// The explicit port digits, when the host-and-port section holds a `:`.
pub open spec fn spec_port_part(s: Seq<char>) -> Option<Seq<char>> {
    let hp = spec_hostport(s);
    match find_first(hp, seq![':']) {
        Some(i) => Some(hp.skip(i + 1)),
        None => None,
    }
}

pub open spec fn is_digit(c: char) -> bool {
    '0' <= c && c <= '9'
}

pub open spec fn digit_val(c: char) -> nat
    recommends
        is_digit(c),
{
    (c as int - 48) as nat
}

pub open spec fn all_digits(s: Seq<char>) -> bool {
    forall|i: int| 0 <= i < s.len() ==> is_digit(#[trigger] s[i])
}

/// The numeric value of a sequence of decimal digits, most significant
/// first.
pub open spec fn dec_val(s: Seq<char>) -> nat
    decreases s.len(),
{
    if s.len() == 0 {
        0
    } else {
        dec_val(s.drop_last()) * 10 + digit_val(s.last())
    }
}

/// A port segment is valid when it is a non-empty run of decimal digits
/// whose value fits in sixteen bits.
pub open spec fn spec_port_ok(p: Seq<char>) -> bool {
    &&& p.len() > 0
    &&& all_digits(p)
    &&& dec_val(p) <= 65535
}

/// The URL is accepted exactly when its explicit port segment, if any, is
/// valid.
pub open spec fn spec_url_ok(s: Seq<char>) -> bool {
    match spec_port_part(s) {
        Some(p) => spec_port_ok(p),
        None => true,
    }
}

/// The parsed port: the explicit port when one is written, else 80 for
/// HTTP, 443 for HTTPS, and 80 for any other protocol.
pub open spec fn spec_port(s: Seq<char>) -> nat {
    match spec_port_part(s) {
        Some(p) => dec_val(p),
        None => if spec_protocol(s) == "HTTPS"@ {
            443
        } else {
            80
        },
    }
}

proof fn lemma_dec_val_take_monotone(s: Seq<char>, j: int, k: int)
    requires
        0 <= j <= k <= s.len(),
    ensures
        dec_val(s.take(j)) <= dec_val(s.take(k)),
    decreases k - j,
{
    if j < k {
        lemma_dec_val_take_monotone(s, j, k - 1);
        assert(s.take(k).drop_last() =~= s.take(k - 1));
        assert(dec_val(s.take(k)) == dec_val(s.take(k - 1)) * 10 + digit_val(s.take(k).last()));
    }
}

/// Parses a non-empty all-digit port segment into its numeric value;
/// rejects anything else, including values above 65535.
fn parse_port(p: &Vec<char>) -> (r: Option<u16>)
    ensures
        match r {
            Some(v) => spec_port_ok(p@) && v as nat == dec_val(p@),
            None => !spec_port_ok(p@),
        },
{
    if p.len() == 0 {
        return None;
    }
    let mut val: u32 = 0;
    let mut i: usize = 0;
    while i < p.len()
        invariant
            i <= p@.len(),
            all_digits(p@.take(i as int)),
            val as nat == dec_val(p@.take(i as int)),
            val <= 65535,
        decreases p@.len() - i,
    {
        let c = p[i];
        if c < '0' || c > '9' {
            return None;
        }
        let d: u32 = (c as u32) - 48;
        val = val * 10 + d;
        i = i + 1;
        proof {
            assert(p@.take(i as int).drop_last() =~= p@.take(i - 1));
            assert(p@.take(i as int).last() == p@[i - 1]);
            assert(all_digits(p@.take(i as int))) by {
                assert(forall|j: int| 0 <= j < i ==> p@.take(i as int)[j] == p@[j]);
            }
        }
        if val > 65535 {
            proof {
                lemma_dec_val_take_monotone(p@, i as int, p@.len() as int);
                assert(p@.take(p@.len() as int) =~= p@);
            }
            return None;
        }
    }
    proof {
        assert(p@.take(p@.len() as int) =~= p@);
    }
    Some(val as u16)
}

/// Parses a URL string into protocol, hostname, port and path.
///
/// Fails exactly when an explicit port segment is present and is not a
/// valid decimal port; every other input is accepted.
pub fn parse_url(url: &str) -> (r: Result<ParsedURL, String>)
    ensures
        r is Ok <==> spec_url_ok(url@),
        match r {
            Ok(u) => {
                &&& u.protocol@ == spec_protocol(url@)
                &&& u.hostname@ == spec_hostname(url@)
                &&& u.port as nat == spec_port(url@)
                &&& u.path@ == spec_path(url@)
            },
            Err(m) => m@ == "The port is invalid"@,
        },
{
    let s = str_to_chars(url);
    let sep: Vec<char> = vec![':', '/', '/'];
    proof {
        assert(sep@ =~= scheme_sep());
    }
    let (raw_proto, rest): (Vec<char>, Vec<char>) = match find_pattern(&s, &sep) {
        Some(i) => {
            proof {
                lemma_find_first_some(s@, scheme_sep(), i as int);
                assert(i + 3 <= s@.len() && s@.len() == s.len());
            }
            let a = vec_take(&s, i);
            let b = vec_skip(&s, i + 3);
            (a, b)
        },
        None => {
            proof {
                lemma_find_first_none(s@, scheme_sep());
            }
            (str_to_chars("HTTP"), s)
        },
    };
    let slash: Vec<char> = vec!['/'];
    proof {
        assert(slash@ =~= seq!['/']);
    }
    let (hostport, mut path_rem): (Vec<char>, Vec<char>) = match find_pattern(&rest, &slash) {
        Some(i) => {
            proof {
                lemma_find_first_some(rest@, seq!['/'], i as int);
                assert(i + 1 <= rest@.len() && rest@.len() == rest.len());
            }
            (vec_take(&rest, i), vec_skip(&rest, i + 1))
        },
        None => {
            proof {
                lemma_find_first_none(rest@, seq!['/']);
            }
            (rest, Vec::new())
        },
    };
    let colon: Vec<char> = vec![':'];
    proof {
        assert(colon@ =~= seq![':']);
    }
    let proto_up = ascii_upper(&raw_proto);
    let (hostname, port): (Vec<char>, u16) = match find_pattern(&hostport, &colon) {
        Some(i) => {
            proof {
                lemma_find_first_some(hostport@, seq![':'], i as int);
                assert(i + 1 <= hostport@.len() && hostport@.len() == hostport.len());
            }
            let pp = vec_skip(&hostport, i + 1);
            match parse_port(&pp) {
                Some(v) => (vec_take(&hostport, i), v),
                None => {
                    return Err(String::from_str("The port is invalid"));
                },
            }
        },
        None => {
            proof {
                lemma_find_first_none(hostport@, seq![':']);
            }
            let d: u16 = if chars_eq(&proto_up, &str_to_chars("HTTPS")) {
                443
            } else {
                80
            };
            (hostport, d)
        },
    };
    let mut path_chars: Vec<char> = vec!['/'];
    path_chars.append(&mut path_rem);
    proof {
        assert(path_chars@ =~= spec_path(url@));
    }
    Ok(
        ParsedURL {
            protocol: chars_to_string(&proto_up),
            hostname: chars_to_string(&hostname),
            port,
            path: chars_to_string(&path_chars),
        },
    )
}

} // verus!
