//! Header-field lookup and HTTP token-list matching.
//!
//! A header field name compares case-insensitively. A field value such as
//! `Connection: keep-alive, Upgrade` is a comma-separated token list; a
//! token matches when one comma-separated segment, with surrounding ASCII
//! whitespace removed, equals it up to case.

use vstd::prelude::*;
use crate::ascii::{eq_ignore_case, eq_ignore_ascii_case};
use crate::model::Header;

verus! {

/// ASCII whitespace, as trimmed around list tokens.
pub open spec fn is_ws(b: u8) -> bool {
    b == 32 || b == 9 || b == 10 || b == 12 || b == 13
}

/// `s` with leading ASCII whitespace removed.
pub open spec fn trim_front(s: Seq<u8>) -> Seq<u8>
    decreases s.len(),
{
    if s.len() > 0 && is_ws(s[0]) {
        trim_front(s.drop_first())
    } else {
        s
    }
}

/// `s` with trailing ASCII whitespace removed.
pub open spec fn trim_back(s: Seq<u8>) -> Seq<u8>
    decreases s.len(),
{
    if s.len() > 0 && is_ws(s.last()) {
        trim_back(s.drop_last())
    } else {
        s
    }
}

/// `s` with whitespace removed on both ends.
pub open spec fn trimmed(s: Seq<u8>) -> Seq<u8> {
    trim_back(trim_front(s))
}

/// Whether the token list `s`, read with `acc` as the segment accumulated so
/// far, contains `token`: a comma ends a segment, and a segment matches when
/// its trimmed form equals `token` up to case.
pub open spec fn token_in(s: Seq<u8>, acc: Seq<u8>, token: Seq<u8>) -> bool
    decreases s.len(),
{
    if s.len() == 0 {
        eq_ignore_case(trimmed(acc), token)
    } else if s[0] == 44 {
        eq_ignore_case(trimmed(acc), token) || token_in(s.drop_first(), Seq::empty(), token)
    } else {
        token_in(s.drop_first(), acc.push(s[0]), token)
    }
}

/// Whether the comma-separated list `value` contains `token`.
pub open spec fn has_token(value: Seq<u8>, token: Seq<u8>) -> bool {
    token_in(value, Seq::empty(), token)
}

/// Whether header `h` is named `name`, up to ASCII case.
pub open spec fn is_named(h: Header, name: Seq<u8>) -> bool {
    eq_ignore_case(h.name@, name)
}

/// The value of the first header named `name`, if any.
pub open spec fn find_value(hs: Seq<Header>, name: Seq<u8>) -> Option<Seq<u8>>
    decreases hs.len(),
{
    if hs.len() == 0 {
        None
    } else if is_named(hs[0], name) {
        Some(hs[0].value@)
    } else {
        find_value(hs.drop_first(), name)
    }
}

/// Whether some header is named `name`.
pub open spec fn has_named(hs: Seq<Header>, name: Seq<u8>) -> bool {
    exists|i: int| 0 <= i < hs.len() && is_named(hs[i], name)
}

/// Whether some header named `name` lists `token` in its value.
pub open spec fn header_has_token(hs: Seq<Header>, name: Seq<u8>, token: Seq<u8>) -> bool {
    exists|i: int|
        0 <= i < hs.len() && is_named(hs[i], name) && has_token(hs[i].value@, token)
}

fn is_ws_byte(b: u8) -> (r: bool)
    ensures
        r == is_ws(b),
{
    b == 32 || b == 9 || b == 10 || b == 12 || b == 13
}

/// Compares a token-list segment against `token` after trimming whitespace.
pub fn trimmed_matches(seg: &[u8], token: &[u8]) -> (r: bool)
    ensures
        r == eq_ignore_case(trimmed(seg@), token@),
{
    let mut a: usize = 0;
    proof {
        assert(seg@.skip(0) =~= seg@);
    }
    while a < seg.len() && is_ws_byte(seg[a])
        invariant
            a <= seg.len(),
            trim_front(seg@) == trim_front(seg@.skip(a as int)),
        decreases seg.len() - a,
    {
        proof {
            assert(seg@.skip(a as int)[0] == seg@[a as int]);
            assert(seg@.skip(a as int).drop_first() =~= seg@.skip(a as int + 1));
        }
        a += 1;
    }
    proof {
        if a == seg@.len() {
            assert(seg@.skip(a as int) =~= Seq::<u8>::empty());
            assert(trim_front(seg@) =~= seg@.skip(a as int));
        } else {
            assert(!is_ws(seg@.skip(a as int)[0]));
            assert(trim_front(seg@) == seg@.skip(a as int));
        }
        assert(seg@.subrange(a as int, seg@.len() as int) =~= seg@.skip(a as int));
    }
    let mut b: usize = seg.len();
    while b > a && is_ws_byte(seg[b - 1])
        invariant
            a <= b <= seg.len(),
            trimmed(seg@) == trim_back(seg@.subrange(a as int, b as int)),
        decreases b,
    {
        proof {
            let cur = seg@.subrange(a as int, b as int);
            assert(cur.last() == seg@[b - 1]);
            assert(cur.drop_last() =~= seg@.subrange(a as int, b as int - 1));
        }
        b -= 1;
    }
    proof {
        let cur = seg@.subrange(a as int, b as int);
        if b == a {
            assert(cur =~= Seq::<u8>::empty());
        }
        assert(trim_back(cur) == cur);
    }
    eq_ignore_ascii_case(vstd::slice::slice_subrange(seg, a, b), token)
}

/// Whether the comma-separated list `value` contains `token`.
pub fn contains_token(value: &[u8], token: &[u8]) -> (r: bool)
    ensures
        r == has_token(value@, token@),
{
    let mut found = false;
    let mut start: usize = 0;
    let mut i: usize = 0;
    proof {
        assert(value@.skip(0) =~= value@);
        assert(value@.subrange(0, 0) =~= Seq::<u8>::empty());
    }
    while i < value.len()
        invariant
            start <= i <= value.len(),
            has_token(value@, token@) == (found || token_in(
                value@.skip(i as int),
                value@.subrange(start as int, i as int),
                token@,
            )),
        decreases value.len() - i,
    {
        proof {
            assert(value@.skip(i as int)[0] == value@[i as int]);
            assert(value@.skip(i as int).drop_first() =~= value@.skip(i as int + 1));
        }
        if value[i] == 44 {
            if !found {
                found = trimmed_matches(
                    vstd::slice::slice_subrange(value, start, i),
                    token,
                );
            }
            proof {
                assert(value@.subrange(i as int + 1, i as int + 1) =~= Seq::<u8>::empty());
            }
            start = i + 1;
        } else {
            proof {
                assert(value@.subrange(start as int, i as int).push(value@[i as int]) =~= (
                value@.subrange(start as int, i as int + 1)));
            }
        }
        i += 1;
    }
    proof {
        assert(value@.skip(value@.len() as int) =~= Seq::<u8>::empty());
    }
    if found {
        true
    } else {
        trimmed_matches(vstd::slice::slice_subrange(value, start, value.len()), token)
    }
}

/// Finds the value of the first header named `name`, case-insensitively.
pub fn find_header<'a>(headers: &'a Vec<Header>, name: &[u8]) -> (r: Option<&'a Vec<u8>>)
    ensures
        match r {
            Some(v) => find_value(headers@, name@) == Some(v@),
            None => find_value(headers@, name@) is None,
        },
{
    let mut i: usize = 0;
    proof {
        assert(headers@.skip(0) =~= headers@);
    }
    while i < headers.len()
        invariant
            i <= headers.len(),
            find_value(headers@, name@) == find_value(headers@.skip(i as int), name@),
        decreases headers.len() - i,
    {
        proof {
            assert(headers@.skip(i as int)[0] == headers@[i as int]);
            assert(headers@.skip(i as int).drop_first() =~= headers@.skip(i as int + 1));
        }
        if eq_ignore_ascii_case(headers[i].name.as_slice(), name) {
            return Some(&headers[i].value);
        }
        i += 1;
    }
    proof {
        assert(headers@.skip(headers@.len() as int) =~= Seq::<Header>::empty());
    }
    None
}

/// Whether some header is named `name`, case-insensitively.
pub fn has_header(headers: &Vec<Header>, name: &[u8]) -> (r: bool)
    ensures
        r == has_named(headers@, name@),
{
    let mut i: usize = 0;
    while i < headers.len()
        invariant
            i <= headers.len(),
            forall|j: int| 0 <= j < i ==> !is_named(headers@[j], name@),
        decreases headers.len() - i,
    {
        if eq_ignore_ascii_case(headers[i].name.as_slice(), name) {
            assert(is_named(headers@[i as int], name@));
            return true;
        }
        i += 1;
    }
    false
}

/// Whether some header named `name` lists `token` in its value.
pub fn any_header_has_token(headers: &Vec<Header>, name: &[u8], token: &[u8]) -> (r: bool)
    ensures
        r == header_has_token(headers@, name@, token@),
{
    let mut i: usize = 0;
    while i < headers.len()
        invariant
            i <= headers.len(),
            forall|j: int|
                0 <= j < i ==> !(is_named(headers@[j], name@) && has_token(
                    headers@[j].value@,
                    token@,
                )),
        decreases headers.len() - i,
    {
        if eq_ignore_ascii_case(headers[i].name.as_slice(), name) && contains_token(
            headers[i].value.as_slice(),
            token,
        ) {
            assert(is_named(headers@[i as int], name@) && has_token(
                headers@[i as int].value@,
                token@,
            ));
            return true;
        }
        i += 1;
    }
    false
}

} // verus!
