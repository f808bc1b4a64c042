//! Query strings: `&`-separated pieces, each `name=value` or a bare name,
//! percent-decoded where that gives UTF-8; a later piece with the same name
//! wins.
use vstd::prelude::*;
use crate::json::{distinct_keys, map_from_pairs};
use crate::pairs::put;
use crate::response::{header_map, text_pairs};
use crate::text::{before, chars_of, string_of};

verus! {

/// The text that percent-decoding gives, if the decoded bytes are UTF-8.
pub uninterp spec fn url_decoded(s: Seq<char>) -> Option<Seq<char>>;

/// Relies on `urlencoding::decode`: `None` where the result is not UTF-8.
#[verifier::external_body]
fn url_decode(s: &str) -> (r: Option<String>)
    ensures
        r is Some <==> url_decoded(s@) is Some,
        r matches Some(d) ==> url_decoded(s@) == Some(d@),
{
    match urlencoding::decode(s) {
        Ok(d) => Some(d.into_owned()),
        Err(_) => None,
    }
}

/// The decoded text, or the text itself where decoding fails.
pub open spec fn decoded_or_raw(s: Seq<char>) -> Seq<char> {
    match url_decoded(s) {
        Some(d) => d,
        None => s,
    }
}

/// The pieces between `&` separators, as `str::split` gives them.
pub open spec fn query_pieces(s: Seq<char>) -> Seq<Seq<char>>
    decreases s.len(),
{
    let head = before(s, '&');
    if head.len() >= s.len() {
        seq![s]
    } else {
        seq![head] + query_pieces(s.subrange(head.len() + 1 as int, s.len() as int))
    }
}

/// The parameter a piece sets: `name=value` split at the first `=`, a bare
/// name with the empty value, nothing for an empty piece.
pub open spec fn param_of(piece: Seq<char>) -> Option<(Seq<char>, Seq<char>)> {
    let k = before(piece, '=');
    if k.len() < piece.len() {
        Some((decoded_or_raw(k), decoded_or_raw(piece.subrange(k.len() + 1 as int, piece.len() as int))))
    } else if piece.len() > 0 {
        Some((decoded_or_raw(piece), Seq::empty()))
    } else {
        None
    }
}

/// The parameters that pieces set, later ones winning.
pub open spec fn params_from(pieces: Seq<Seq<char>>) -> Map<Seq<char>, Seq<char>>
    decreases pieces.len(),
{
    if pieces.len() == 0 {
        Map::empty()
    } else {
        let m = params_from(pieces.drop_last());
        match param_of(pieces.last()) {
            Some((k, v)) => m.insert(k, v),
            None => m,
        }
    }
}

/// The parameters of an optional query string.
pub open spec fn query_params(q: Option<Seq<char>>) -> Map<Seq<char>, Seq<char>> {
    match q {
        Some(s) => params_from(query_pieces(s)),
        None => Map::empty(),
    }
}

/// `before` stops at the first separator.
proof fn lemma_before_at(s: Seq<char>, c: char, i: int)
    requires
        0 <= i <= s.len(),
        forall|j: int| 0 <= j < i ==> s[j] != c,
        i == s.len() || s[i] == c,
    ensures
        before(s, c) == s.subrange(0, i),
    decreases s.len(),
{
    if s.len() > 0 && i > 0 {
        lemma_before_at(s.drop_first(), c, i - 1);
        assert(seq![s[0]] + s.drop_first().subrange(0, i - 1) =~= s.subrange(0, i));
    } else if s.len() > 0 {
        assert(s.subrange(0, 0) =~= Seq::<char>::empty());
    } else {
        assert(s.subrange(0, 0) =~= s);
    }
}

/// The first position at or after `from` that holds `c`, or the length.
fn find_char(v: &Vec<char>, from: usize, c: char) -> (r: usize)
    requires
        from <= v@.len(),
    ensures
        from <= r <= v@.len(),
        forall|j: int| from <= j < r ==> v@[j] != c,
        r == v@.len() || v@[r as int] == c,
{
    let mut i = from;
    while i < v.len() && v[i] != c
        invariant
            from <= i <= v@.len(),
            forall|j: int| from <= j < i ==> v@[j] != c,
        decreases v.len() - i,
    {
        i = i + 1;
    }
    i
}

/// The characters from `a` to `b` as a string.
fn sub_string(v: &Vec<char>, a: usize, b: usize) -> (r: String)
    requires
        a <= b <= v@.len(),
    ensures
        r@ == v@.subrange(a as int, b as int),
{
    let mut part: Vec<char> = Vec::new();
    let mut i = a;
    while i < b
        invariant
            a <= i <= b,
            b <= v@.len(),
            part@ =~= v@.subrange(a as int, i as int),
        decreases b - i,
    {
        part.push(v[i]);
        i = i + 1;
    }
    string_of(&part)
}

fn decode_or_keep(s: &str) -> (r: String)
    ensures
        r@ == decoded_or_raw(s@),
{
    match url_decode(s) {
        Some(d) => d,
        None => s.to_owned(),
    }
}

/// The parameter one piece sets.
fn param_from_piece(piece: &Vec<char>) -> (r: Option<(String, String)>)
    ensures
        match (r, param_of(piece@)) {
            (Some((k, v)), Some((a, b))) => k@ == a && v@ == b,
            (None, None) => true,
            _ => false,
        },
{
    let eq = find_char(piece, 0, '=');
    proof {
        lemma_before_at(piece@, '=', eq as int);
    }
    if eq < piece.len() {
        let name = sub_string(piece, 0, eq);
        let value = sub_string(piece, eq + 1, piece.len());
        Some((decode_or_keep(name.as_str()), decode_or_keep(value.as_str())))
    } else if piece.len() > 0 {
        let name = string_of(piece);
        Some((decode_or_keep(name.as_str()), String::new()))
    } else {
        None
    }
}

/// The parameters of a query string, each name once.
pub fn extract_query_params(query: Option<&str>) -> (r: Vec<(String, String)>)
    ensures
        distinct_keys(text_pairs(r@)),
        header_map(r@) == query_params(
            match query {
                Some(q) => Some(q@),
                None => None,
            },
        ),
{
    let mut out: Vec<(String, String)> = Vec::new();
    assert(header_map(out@) =~= Map::empty());
    let q = match query {
        Some(q) => q,
        None => return out,
    };
    let chars = chars_of(q);
    let n = chars.len();
    let mut start: usize = 0;
    let ghost mut done: Seq<Seq<char>> = Seq::empty();
    assert(chars@.subrange(0, n as int) =~= chars@);
    loop
        invariant
            n == chars@.len(),
            chars@ == q@,
            query == Some(q),
            start <= n,
            done + query_pieces(chars@.subrange(start as int, n as int)) == query_pieces(q@),
            distinct_keys(text_pairs(out@)),
            header_map(out@) == params_from(done),
        decreases n - start,
    {
        let end = find_char(&chars, start, '&');
        let ghost rest = chars@.subrange(start as int, n as int);
        proof {
            lemma_before_at(rest, '&', end - start);
            assert(rest.subrange(0, end - start) =~= chars@.subrange(start as int, end as int));
        }
        let piece_str = sub_string(&chars, start, end);
        let piece = chars_of(piece_str.as_str());
        let ghost old_out = out@;
        match param_from_piece(&piece) {
            Some((k, v)) => put(&mut out, k, v),
            None => {},
        }
        proof {
            let done2 = done.push(piece@);
            assert(done2.drop_last() =~= done);
            assert(header_map(out@) == params_from(done2));
            if end < n {
                assert(rest.subrange(end - start + 1, rest.len() as int) =~= chars@.subrange(end + 1, n as int));
                assert(query_pieces(rest) == seq![piece@] + query_pieces(chars@.subrange(end + 1, n as int)));
                assert(done2 + query_pieces(chars@.subrange(end + 1, n as int)) =~= done + query_pieces(rest));
            } else {
                assert(query_pieces(rest) == seq![piece@]);
                assert(done2 =~= done + query_pieces(rest));
            }
            done = done2;
        }
        if end >= n {
            assert(done == query_pieces(q@));
            assert(header_map(out@) == params_from(done));
            return out;
        }
        start = end + 1;
    }
}

} // verus!
