//! The part number that a pre-signed URL carries in its query string.
//!
//! A URL has the shape `<path>?<key>=<value>&<key>=<value>&...`. Only the
//! key `partNumber` is read here; every other parameter is opaque.

use vstd::prelude::*;

verus! {

/// The query key that carries the part number: `partNumber`.
pub open spec fn part_number_key() -> Seq<char> {
    seq!['p', 'a', 'r', 't', 'N', 'u', 'm', 'b', 'e', 'r']
}

/// The index of the first `c` in `s` at or after `from`, or `s.len()` where
/// there is none.
pub open spec fn find_from(s: Seq<char>, c: char, from: int) -> int
    decreases s.len() - from,
{
    if from < 0 || from >= s.len() {
        s.len() as int
    } else if s[from] == c {
        from
    } else {
        find_from(s, c, from + 1)
    }
}

/// What follows the first `?` of a URL, or `None` for a URL without one.
pub open spec fn query_of(url: Seq<char>) -> Option<Seq<char>> {
    let mark = find_from(url, '?', 0);
    if mark < url.len() {
        Some(url.subrange(mark + 1, url.len() as int))
    } else {
        None
    }
}

/// The key of a `key=value` token: what stands before its first `=`, or the
/// whole token where it has none.
pub open spec fn token_key(token: Seq<char>) -> Seq<char> {
    token.subrange(0, find_from(token, '=', 0))
}

/// The value of a `key=value` token: what follows its first `=`, or nothing
/// where it has none.
pub open spec fn token_value(token: Seq<char>) -> Seq<char> {
    let eq = find_from(token, '=', 0);
    if eq < token.len() {
        token.subrange(eq + 1, token.len() as int)
    } else {
        Seq::empty()
    }
}

/// Whether `c` is one of `0` to `9`.
pub open spec fn is_digit(c: char) -> bool {
    '0' <= c <= '9'
}

/// Whether `s` is one decimal digit or more, and nothing else.
pub open spec fn is_number(s: Seq<char>) -> bool {
    s.len() > 0 && forall|i: int| 0 <= i < s.len() ==> is_digit(#[trigger] s[i])
}

/// The number that a string of decimal digits denotes.
pub open spec fn digits_value(s: Seq<char>) -> int
    decreases s.len(),
{
    if s.len() == 0 {
        0
    } else {
        digits_value(s.drop_last()) * 10 + (s.last() as int - '0' as int)
    }
}

/// The integer that `s` denotes: decimal digits after at most one sign, `+`
/// or `-`. `None` for anything else, the empty string and a lone sign
/// included.
pub open spec fn parse_int(s: Seq<char>) -> Option<int> {
    if s.len() > 0 && (s[0] == '+' || s[0] == '-') {
        let digits = s.subrange(1, s.len() as int);
        if !is_number(digits) {
            None
        } else if s[0] == '-' {
            Some(-digits_value(digits))
        } else {
            Some(digits_value(digits))
        }
    } else if is_number(s) {
        Some(digits_value(s))
    } else {
        None
    }
}

/// The `i32` that `s` denotes, or `None` where it denotes no integer or one
/// that an `i32` cannot hold.
pub open spec fn parse_i32(s: Seq<char>) -> Option<i32> {
    match parse_int(s) {
        Some(n) => if i32::MIN <= n <= i32::MAX {
            Some(n as i32)
        } else {
            None
        },
        None => None,
    }
}

/// The part number that a query string gives.
///
/// The query is cut into tokens at each `&`. The first token whose key is
/// exactly `partNumber` decides: the result is its value as an `i32`, or
/// `None` where the value is no such number. A query without such a token
/// gives `None`.
pub open spec fn part_number_in_query(query: Seq<char>) -> Option<i32>
    decreases query.len(),
{
    let end = find_from(query, '&', 0);
    let token = query.subrange(0, end);
    if token_key(token) == part_number_key() {
        parse_i32(token_value(token))
    } else if 0 <= end < query.len() {
        part_number_in_query(query.subrange(end + 1, query.len() as int))
    } else {
        None
    }
}

/// The part number that a URL carries, or `None` where it has no query or
/// the query gives none.
pub open spec fn part_number_of(url: Seq<char>) -> Option<i32> {
    match query_of(url) {
        Some(query) => part_number_in_query(query),
        None => None,
    }
}

/// Whether `c` occurs nowhere in `s`.
pub open spec fn lacks(s: Seq<char>, c: char) -> bool {
    forall|i: int| 0 <= i < s.len() ==> #[trigger] s[i] != c
}

/// A position that no `c` precedes from `from` on, and that holds a `c` or
/// is the end, is the one that `find_from` gives.
pub proof fn lemma_find_from_unique(s: Seq<char>, c: char, from: int, at: int)
    requires
        0 <= from <= at <= s.len(),
        forall|i: int| from <= i < at ==> s[i] != c,
        at < s.len() ==> s[at] == c,
    ensures
        find_from(s, c, from) == at,
    decreases at - from,
{
    if from < at {
        lemma_find_from_unique(s, c, from + 1, at);
    }
}

/// A URL is a path, and a query after the first `?`: the query of
/// `<path>?<query>` is `<query>`, whatever the query holds.
pub proof fn lemma_query_follows_path(path: Seq<char>, query: Seq<char>)
    requires
        lacks(path, '?'),
    ensures
        query_of(path + seq!['?'] + query) == Some(query),
        part_number_of(path + seq!['?'] + query) == part_number_in_query(query),
{
    let url = path + seq!['?'] + query;
    lemma_find_from_unique(url, '?', 0, path.len() as int);
    assert(url.subrange(path.len() as int + 1, url.len() as int) =~= query);
}

/// A URL without a `?` has no query, and so no part number.
pub proof fn lemma_no_query_no_part_number(url: Seq<char>)
    requires
        lacks(url, '?'),
    ensures
        query_of(url) is None,
        part_number_of(url) is None,
{
    lemma_find_from_unique(url, '?', 0, url.len() as int);
}

/// A token is a key, and a value after the first `=`: in `<key>=<value>`
/// the key is `<key>` and the value `<value>`, whatever the value holds. A
/// token without a `=` is all key.
pub proof fn lemma_token_parts(key: Seq<char>, value: Seq<char>)
    requires
        lacks(key, '='),
    ensures
        token_key(key + seq!['='] + value) == key,
        token_value(key + seq!['='] + value) == value,
        token_key(key) == key,
        token_value(key) == Seq::<char>::empty(),
{
    let token = key + seq!['='] + value;
    lemma_find_from_unique(token, '=', 0, key.len() as int);
    assert(token.subrange(0, key.len() as int) =~= key);
    assert(token.subrange(key.len() as int + 1, token.len() as int) =~= value);
    lemma_find_from_unique(key, '=', 0, key.len() as int);
    assert(key.subrange(0, key.len() as int) =~= key);
}

/// A query is a token, and more tokens after the first `&`. In
/// `<token>&<rest>` the token decides if its key is `partNumber`, and
/// otherwise the rest does; a query that is one token gives what the token
/// gives.
pub proof fn lemma_first_token_decides(token: Seq<char>, rest: Seq<char>)
    requires
        lacks(token, '&'),
    ensures
        part_number_in_query(token + seq!['&'] + rest) == if token_key(token)
            == part_number_key() {
            parse_i32(token_value(token))
        } else {
            part_number_in_query(rest)
        },
        part_number_in_query(token) == if token_key(token) == part_number_key() {
            parse_i32(token_value(token))
        } else {
            None
        },
{
    let query = token + seq!['&'] + rest;
    lemma_find_from_unique(query, '&', 0, token.len() as int);
    assert(query.subrange(0, token.len() as int) =~= token);
    assert(query.subrange(token.len() as int + 1, query.len() as int) =~= rest);
    lemma_find_from_unique(token, '&', 0, token.len() as int);
    assert(token.subrange(0, token.len() as int) =~= token);
}

/// A URL whose query begins with `partNumber=<digits>` carries the number
/// that the digits denote, if an `i32` holds it: alone in the query, or
/// with more parameters after it.
pub proof fn lemma_leading_part_number(path: Seq<char>, digits: Seq<char>, rest: Seq<char>)
    requires
        lacks(path, '?'),
        is_number(digits),
        digits_value(digits) <= i32::MAX,
    ensures
        part_number_of(path + seq!['?'] + (part_number_key() + seq!['='] + digits)) == Some(
            digits_value(digits) as i32,
        ),
        part_number_of(
            path + seq!['?'] + (part_number_key() + seq!['='] + digits + seq!['&'] + rest),
        ) == Some(digits_value(digits) as i32),
{
    let key = part_number_key();
    let token = key + seq!['='] + digits;
    lemma_digits_value_grows(digits, 0);
    assert(lacks(key, '='));
    lemma_token_parts(key, digits);
    assert forall|i: int| 0 <= i < token.len() implies #[trigger] token[i] != '&' by {
        if i > key.len() {
            assert(is_digit(digits[i - key.len() - 1]));
        }
    }
    lemma_first_token_decides(token, rest);
    lemma_query_follows_path(path, token);
    lemma_query_follows_path(path, token + seq!['&'] + rest);
}

/// The digits read so far never denote more than the whole string does.
proof fn lemma_digits_value_grows(s: Seq<char>, k: int)
    requires
        0 <= k <= s.len(),
        forall|i: int| 0 <= i < s.len() ==> is_digit(#[trigger] s[i]),
    ensures
        0 <= digits_value(s.take(k)) <= digits_value(s),
    decreases s.len(),
{
    if s.len() == 0 {
        assert(s.take(k) =~= s);
    } else if k == s.len() {
        assert(s.take(k) =~= s);
        lemma_digits_value_grows(s.drop_last(), k - 1);
    } else {
        assert(s.drop_last().take(k) =~= s.take(k));
        lemma_digits_value_grows(s.drop_last(), k);
        lemma_digits_value_grows(s.drop_last(), s.len() - 1);
        assert(s.drop_last().take(s.len() - 1) =~= s.drop_last());
    }
}

/// Copies the characters of `s` into a vector.
pub(crate) fn chars_of(s: &str) -> (v: Vec<char>)
    ensures
        v@ == s@,
{
    let mut v: Vec<char> = Vec::new();
    for c in it: s.chars()
        invariant
            it.seq() == s@,
            v@ == it.seq().take(it.index()),
    {
        v.push(c);
    }
    v
}

/// Finds the first `c` in `v[from..to]`, or `to` where there is none.
pub(crate) fn find_char(v: &Vec<char>, c: char, from: usize, to: usize) -> (at: usize)
    requires
        from <= to <= v.len(),
    ensures
        from <= at <= to,
        forall|i: int| from <= i < at ==> v@[i] != c,
        at < to ==> v@[at as int] == c,
{
    let mut at: usize = from;
    while at < to && v[at] != c
        invariant
            from <= at <= to <= v.len(),
            forall|i: int| from <= i < at ==> v@[i] != c,
        decreases to - at,
    {
        at += 1;
    }
    at
}

/// Whether `v[from..to]` spells `partNumber`.
fn is_part_number_key(v: &Vec<char>, from: usize, to: usize) -> (b: bool)
    requires
        from <= to <= v.len(),
    ensures
        b == (v@.subrange(from as int, to as int) == part_number_key()),
{
    let ghost key = v@.subrange(from as int, to as int);
    assert(key.len() == to - from && part_number_key().len() == 10);
    if to - from != 10 {
        return false;
    }
    let b = v[from] == 'p' && v[from + 1] == 'a' && v[from + 2] == 'r' && v[from + 3] == 't'
        && v[from + 4] == 'N' && v[from + 5] == 'u' && v[from + 6] == 'm' && v[from + 7] == 'b'
        && v[from + 8] == 'e' && v[from + 9] == 'r';
    proof {
        if b {
            assert(key =~= part_number_key());
        } else {
            assert(key[0] == v@[from as int]);
            assert(key[1] == v@[from + 1]);
            assert(key[2] == v@[from + 2]);
            assert(key[3] == v@[from + 3]);
            assert(key[4] == v@[from + 4]);
            assert(key[5] == v@[from + 5]);
            assert(key[6] == v@[from + 6]);
            assert(key[7] == v@[from + 7]);
            assert(key[8] == v@[from + 8]);
            assert(key[9] == v@[from + 9]);
        }
    }
    b
}

/// Reads `v[from..to]` as a string of decimal digits of a value up to
/// `limit`.
fn parse_digits(v: &Vec<char>, from: usize, to: usize, limit: u32) -> (r: Option<u32>)
    requires
        from <= to <= v.len(),
        limit <= 0x8000_0000,
    ensures
        r.is_some() <==> is_number(v@.subrange(from as int, to as int)) && digits_value(
            v@.subrange(from as int, to as int),
        ) <= limit,
        r.is_some() ==> r.unwrap() == digits_value(v@.subrange(from as int, to as int)),
{
    let ghost s = v@.subrange(from as int, to as int);
    if from == to {
        return None;
    }
    let mut acc: u64 = 0;
    let mut at: usize = from;
    while at < to
        invariant
            from <= at <= to <= v.len(),
            s == v@.subrange(from as int, to as int),
            forall|i: int| 0 <= i < at - from ==> is_digit(#[trigger] s[i]),
            acc == digits_value(s.take(at - from)),
            acc <= limit <= 0x8000_0000,
        decreases to - at,
    {
        let c: char = v[at];
        assert(s[at - from] == c);
        if c < '0' || c > '9' {
            return None;
        }
        let code: u32 = c as u32;
        let ghost before = s.take(at - from);
        let ghost now = s.take(at - from + 1);
        proof {
            assert(now.drop_last() =~= before);
            assert(now.last() == c);
        }
        acc = acc * 10 + ((code - 48) as u64);
        at += 1;
        if acc > limit as u64 {
            proof {
                if is_number(s) {
                    lemma_digits_value_grows(s, at - from);
                }
            }
            return None;
        }
    }
    proof {
        assert(s.take(to - from) =~= s);
    }
    Some(acc as u32)
}

/// Reads `v[from..to]` as an `i32`.
fn parse_number(v: &Vec<char>, from: usize, to: usize) -> (r: Option<i32>)
    requires
        from <= to <= v.len(),
    ensures
        r == parse_i32(v@.subrange(from as int, to as int)),
{
    let ghost s = v@.subrange(from as int, to as int);
    if from < to && (v[from] == '+' || v[from] == '-') {
        let negative = v[from] == '-';
        proof {
            assert(s.subrange(1, s.len() as int) =~= v@.subrange(from + 1, to as int));
        }
        if negative {
            match parse_digits(v, from + 1, to, 0x8000_0000) {
                Some(n) => Some((-(n as i64)) as i32),
                None => None,
            }
        } else {
            match parse_digits(v, from + 1, to, 0x7fff_ffff) {
                Some(n) => Some(n as i32),
                None => None,
            }
        }
    } else {
        match parse_digits(v, from, to, 0x7fff_ffff) {
            Some(n) => Some(n as i32),
            None => None,
        }
    }
}

/// Extracts the part number from a pre-signed URL.
///
/// The query is what follows the first `?`. It is cut into `key=value`
/// tokens at each `&`, and the first token whose key is exactly
/// `partNumber` gives the result: its value read as an `i32`. A URL without
/// a query, without such a token, or with a value that is no `i32` gives
/// `None`: the part is unknown, which is no failure.
pub fn extract_part_number(url: &str) -> (part_number: Option<i32>)
    ensures
        part_number == part_number_of(url@),
{
    let v = chars_of(url);
    let n = v.len();
    let mark = find_char(&v, '?', 0, n);
    proof {
        lemma_find_from_unique(v@, '?', 0, mark as int);
    }
    if mark == n {
        return None;
    }
    let ghost query = v@.subrange(mark + 1, n as int);
    let mut pos: usize = mark + 1;
    proof {
        assert(v@.subrange(pos as int, n as int) =~= query);
    }
    loop
        invariant
            mark < pos <= n == v.len(),
            part_number_of(url@) == part_number_in_query(query),
            part_number_in_query(v@.subrange(pos as int, n as int)) == part_number_in_query(query),
        decreases n - pos,
    {
        let end = find_char(&v, '&', pos, n);
        let eq = find_char(&v, '=', pos, end);
        let ghost rest = v@.subrange(pos as int, n as int);
        let ghost token = rest.subrange(0, end - pos);
        proof {
            lemma_find_from_unique(rest, '&', 0, end - pos);
            assert(token =~= v@.subrange(pos as int, end as int));
            lemma_find_from_unique(token, '=', 0, eq - pos);
            assert(token_key(token) =~= v@.subrange(pos as int, eq as int));
        }
        if is_part_number_key(&v, pos, eq) {
            let value_from = if eq < end {
                eq + 1
            } else {
                end
            };
            proof {
                assert(token_value(token) =~= v@.subrange(value_from as int, end as int));
            }
            return parse_number(&v, value_from, end);
        }
        if end == n {
            return None;
        }
        proof {
            assert(rest.subrange(end - pos + 1, rest.len() as int) =~= v@.subrange(
                end + 1,
                n as int,
            ));
        }
        pos = end + 1;
    }
}

} // verus!
