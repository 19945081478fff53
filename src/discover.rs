//! Reading the answers to a discovery probe: a status line, then
//! `key: value` headers separated by CRLF, among them the device id in
//! hexadecimal.
use vstd::prelude::*;

use vstd::utf8::{decode_utf8, valid_utf8};

use crate::codec::push_char;
use crate::text::unsigned_body;

verus! {

/// The last two characters of `s` are `a` then `b`.
pub open spec fn ends_with_pair(s: Seq<char>, a: char, b: char) -> bool {
    s.len() >= 2 && s[s.len() - 2] == a && s[s.len() - 1] == b
}

/// The pieces of `s` between occurrences of the two-character separator
/// `a b`, as `str::split` yields them.
pub open spec fn split_pair(s: Seq<char>, a: char, b: char) -> Seq<Seq<char>>
    decreases s.len(),
{
    if s.len() == 0 {
        seq![Seq::empty()]
    } else if ends_with_pair(s, a, b) {
        split_pair(s.take(s.len() - 2), a, b).push(Seq::empty())
    } else {
        let p = split_pair(s.drop_last(), a, b);
        p.update(p.len() - 1, p.last().push(s.last()))
    }
}

/// A split has at least one piece.
pub proof fn lemma_split_nonempty(s: Seq<char>, a: char, b: char)
    ensures
        split_pair(s, a, b).len() >= 1,
    decreases s.len(),
{
    if s.len() > 0 {
        if ends_with_pair(s, a, b) {
            lemma_split_nonempty(s.take(s.len() - 2), a, b);
        } else {
            lemma_split_nonempty(s.drop_last(), a, b);
        }
    }
}

/// The texts that a list of index ranges selects from `s`.
pub open spec fn range_texts(s: Seq<char>, rs: Seq<(usize, usize)>) -> Seq<Seq<char>> {
    rs.map_values(|r: (usize, usize)| s.subrange(r.0 as int, r.1 as int))
}

/// The map built by inserting each pair in order, later pairs winning.
pub open spec fn pairs_map(ps: Seq<(Seq<char>, Seq<char>)>) -> Map<Seq<char>, Seq<char>>
    decreases ps.len(),
{
    if ps.len() == 0 {
        Map::empty()
    } else {
        pairs_map(ps.drop_last()).insert(ps.last().0, ps.last().1)
    }
}

/// The headers carried by the lines after the status line: each line with a
/// `": "` gives the text before it as key and the text up to the next
/// `": "` as value.
pub open spec fn headers(lines: Seq<Seq<char>>) -> Map<Seq<char>, Seq<char>>
    decreases lines.len(),
{
    if lines.len() == 0 {
        Map::empty()
    } else {
        let m = headers(lines.drop_last());
        let p = split_pair(lines.last(), ':', ' ');
        if p.len() >= 2 {
            m.insert(p[0], p[1])
        } else {
            m
        }
    }
}

/// `s` with every leading repetition of `p` removed, as
/// `str::trim_start_matches` does.
pub open spec fn strip_prefix_all(s: Seq<char>, p: Seq<char>) -> Seq<char>
    decreases s.len(),
{
    if p.len() > 0 && p.len() <= s.len() && s.take(p.len() as int) == p {
        strip_prefix_all(s.skip(p.len() as int), p)
    } else {
        s
    }
}

/// The value of a hexadecimal digit, either case; -1 for another character.
pub open spec fn hex_digit_value(c: char) -> int {
    if '0' <= c <= '9' {
        c as int - '0' as int
    } else if 'a' <= c <= 'f' {
        c as int - 'a' as int + 10
    } else if 'A' <= c <= 'F' {
        c as int - 'A' as int + 10
    } else {
        -1
    }
}

/// The number that a string of hexadecimal digits denotes.
pub open spec fn hex_value(s: Seq<char>) -> int
    decreases s.len(),
{
    if s.len() == 0 {
        0
    } else {
        hex_value(s.drop_last()) * 16 + hex_digit_value(s.last())
    }
}

/// `s` is an optional `+` followed by at least one hexadecimal digit, with a
/// value that fits in a `u64`.
pub open spec fn hex_ok(s: Seq<char>) -> bool {
    let b = unsigned_body(s);
    &&& b.len() > 0
    &&& forall|i: int| 0 <= i < b.len() ==> hex_digit_value(#[trigger] b[i]) >= 0
    &&& hex_value(b) <= u64::MAX
}

/// What `u64::from_str_radix(s, 16)` reads from `s`.
pub open spec fn hex_u64(s: Seq<char>) -> Option<u64> {
    if hex_ok(s) {
        Some(hex_value(unsigned_body(s)) as u64)
    } else {
        None
    }
}

/// The status line of an answer.
pub open spec fn status_ok() -> Seq<char> {
    "HTTP/1.1 200 OK"@
}

/// The id and headers of a discovery answer, or `None` when it is not UTF-8,
/// its status line is not a success, or it has no readable `id` header.
pub open spec fn parse_answer(bytes: Seq<u8>) -> Option<(u64, Map<Seq<char>, Seq<char>>)> {
    if !valid_utf8(bytes) {
        None
    } else {
        let lines = split_pair(decode_utf8(bytes), '\r', '\n');
        if lines[0] != status_ok() {
            None
        } else {
            let hs = headers(lines.drop_first());
            if !hs.contains_key("id"@) {
                None
            } else {
                match hex_u64(strip_prefix_all(hs["id"@], "0x"@)) {
                    Some(id) => Some((id, hs)),
                    None => None,
                }
            }
        }
    }
}

/// Relies on std::str::from_utf8: `Some` exactly for valid UTF-8, holding
/// its characters.
#[verifier::external_body]
fn utf8_chars(b: &Vec<u8>) -> (r: Option<Vec<char>>)
    ensures
        r is Some <==> valid_utf8(b@),
        r matches Some(cs) ==> cs@ == decode_utf8(b@),
{
    std::str::from_utf8(b.as_slice()).ok().map(|s| s.chars().collect())
}

/// Relies on u64::from_str_radix with radix 16: an optional `+`, then
/// hexadecimal digits in either case, with a value that fits.
#[verifier::external_body]
fn parse_hex(s: &str) -> (r: Option<u64>)
    ensures
        r is Some <==> hex_ok(s@),
        r matches Some(v) ==> v as int == hex_value(unsigned_body(s@)),
{
    u64::from_str_radix(s, 16).ok()
}

/// The ranges of the pieces of `s[lo..hi]` between occurrences of `a b`.
fn split_ranges(s: &Vec<char>, lo: usize, hi: usize, a: char, b: char) -> (r: Vec<(usize, usize)>)
    requires
        lo <= hi <= s@.len(),
        a != b,
    ensures
        range_texts(s@, r@) == split_pair(s@.subrange(lo as int, hi as int), a, b),
        forall|k: int| 0 <= k < r@.len() ==> lo <= #[trigger] r@[k].0 <= r@[k].1 <= hi,
{
    let ghost t = s@.subrange(lo as int, hi as int);
    let mut done: Vec<(usize, usize)> = Vec::new();
    let mut start: usize = lo;
    let mut i: usize = lo;
    assert(t.take(0) =~= Seq::<char>::empty());
    assert(split_pair(t.take(0), a, b) == seq![Seq::<char>::empty()]);
    assert(s@.subrange(lo as int, lo as int) =~= Seq::<char>::empty());
    assert(range_texts(s@, done@).push(s@.subrange(start as int, i as int)) =~= seq![
        Seq::<char>::empty(),
    ]);
    while i < hi
        invariant
            lo <= start <= i <= hi <= s@.len(),
            a != b,
            t == s@.subrange(lo as int, hi as int),
            range_texts(s@, done@).push(s@.subrange(start as int, i as int)) == split_pair(
                t.take(i - lo),
                a,
                b,
            ),
            start == i ==> (i == lo || s@[i - 1] == b),
            forall|k: int| 0 <= k < done@.len() ==> lo <= #[trigger] done@[k].0 <= done@[k].1 <= start,
        decreases hi - i,
    {
        let c = s[i];
        let ghost k = i - lo;
        let ghost before = range_texts(s@, done@);
        assert(t.take(k + 1).drop_last() =~= t.take(k));
        assert(t.take(k + 1).last() == c);
        if i > lo && c == b && s[i - 1] == a {
            assert(start < i);
            assert(t.take(k + 1).take(k - 1) =~= t.take(k - 1));
            assert(t.take(k).drop_last() =~= t.take(k - 1));
            assert(!ends_with_pair(t.take(k), a, b));
            assert(t.take(k).last() == a);
            proof {
                lemma_split_nonempty(t.take(k - 1), a, b);
            }
            let ghost p = split_pair(t.take(k - 1), a, b);
            let ghost q = p.update(p.len() - 1, p.last().push(a));
            let ghost piece = s@.subrange(start as int, i as int);
            assert(q == split_pair(t.take(k), a, b));
            assert(q == before.push(piece));
            assert(q.len() == p.len());
            assert(p.len() == before.len() + 1);
            assert(q[p.len() - 1] == p.last().push(a));
            assert(before.push(piece)[before.len() as int] == piece);
            assert(p.drop_last() =~= before) by {
                assert forall|j: int| 0 <= j < before.len() implies p[j] == before[j] by {
                    assert(q[j] == p[j]);
                    assert(before.push(piece)[j] == before[j]);
                }
            }
            assert(p.last().push(a) == s@.subrange(start as int, i as int));
            assert(p.last() =~= s@.subrange(start as int, i - 1));
            let ghost old_done = done@;
            done.push((start, i - 1));
            assert(done@ == old_done.push((start, (i - 1) as usize)));
            assert(range_texts(s@, done@) =~= before.push(s@.subrange(start as int, i - 1)));
            assert(p =~= p.drop_last().push(p.last()));
            assert(range_texts(s@, done@) =~= p);
            assert(t.take(k + 1)[k - 1] == a);
            assert(t.take(k + 1)[k] == b);
            assert(ends_with_pair(t.take(k + 1), a, b));
            assert(split_pair(t.take(k + 1), a, b) == p.push(Seq::<char>::empty()));
            start = i + 1;
            assert(s@.subrange(start as int, i + 1) =~= Seq::<char>::empty());
            assert forall|m: int| 0 <= m < done@.len() implies lo <= #[trigger] done@[m].0
                <= done@[m].1 <= start by {
                if m < old_done.len() {
                    assert(done@[m] == old_done[m]);
                }
            }
            assert(range_texts(s@, done@).push(s@.subrange(start as int, i + 1)) =~= split_pair(
                t.take(k + 1),
                a,
                b,
            ));
        } else {
            assert(!ends_with_pair(t.take(k + 1), a, b));
            assert(s@.subrange(start as int, i + 1) =~= s@.subrange(start as int, i as int).push(c));
            assert(range_texts(s@, done@).push(s@.subrange(start as int, i + 1)) =~= split_pair(
                t.take(k),
                a,
                b,
            ).update(before.len() as int, s@.subrange(start as int, i as int).push(c)));
        }
        i = i + 1;
    }
    assert(t.take(hi - lo) =~= t);
    done.push((start, hi));
    assert(range_texts(s@, done@) =~= split_pair(t, a, b));
    done
}

/// No two pairs share a key.
pub open spec fn keys_unique(ps: Seq<(Seq<char>, Seq<char>)>) -> bool {
    forall|i: int, j: int| 0 <= i < j < ps.len() ==> ps[i].0 != ps[j].0
}

/// The texts of a list of string pairs.
pub open spec fn str_pairs(hs: Seq<(String, String)>) -> Seq<(Seq<char>, Seq<char>)> {
    hs.map_values(|h: (String, String)| (h.0@, h.1@))
}

proof fn lemma_pairs_lookup(ps: Seq<(Seq<char>, Seq<char>)>, k: Seq<char>)
    requires
        keys_unique(ps),
    ensures
        pairs_map(ps).contains_key(k) <==> exists|i: int| 0 <= i < ps.len() && ps[i].0 == k,
        forall|i: int| 0 <= i < ps.len() && ps[i].0 == k ==> pairs_map(ps)[k] == ps[i].1,
    decreases ps.len(),
{
    if ps.len() > 0 {
        let d = ps.drop_last();
        lemma_pairs_lookup(d, k);
        if pairs_map(ps).contains_key(k) && ps.last().0 != k {
            let i = choose|i: int| 0 <= i < d.len() && d[i].0 == k;
            assert(ps[i] == d[i]);
        }
        assert forall|i: int| 0 <= i < ps.len() && ps[i].0 == k implies pairs_map(ps)[k]
            == ps[i].1 by {
            if i < ps.len() - 1 {
                assert(d[i] == ps[i]);
            }
        }
        if exists|i: int| 0 <= i < ps.len() && ps[i].0 == k {
            let i = choose|i: int| 0 <= i < ps.len() && ps[i].0 == k;
            if i < ps.len() - 1 {
                assert(d[i] == ps[i]);
            }
        }
    }
}

proof fn lemma_pairs_update(ps: Seq<(Seq<char>, Seq<char>)>, j: int, v: Seq<char>)
    requires
        keys_unique(ps),
        0 <= j < ps.len(),
    ensures
        pairs_map(ps.update(j, (ps[j].0, v))) == pairs_map(ps).insert(ps[j].0, v),
    decreases ps.len(),
{
    let u = ps.update(j, (ps[j].0, v));
    let d = ps.drop_last();
    if j == ps.len() - 1 {
        assert(u.drop_last() =~= d);
        assert(pairs_map(u) =~= pairs_map(ps).insert(ps[j].0, v));
    } else {
        assert(u.drop_last() =~= d.update(j, (d[j].0, v)));
        lemma_pairs_update(d, j, v);
        assert(ps.last().0 != ps[j].0);
        assert(pairs_map(u) =~= pairs_map(ps).insert(ps[j].0, v));
    }
}

/// Finds the pair whose key is `key`.
fn find_key(hs: &Vec<(String, String)>, key: &String) -> (r: Option<usize>)
    requires
        keys_unique(str_pairs(hs@)),
    ensures
        r matches Some(i) ==> i < hs@.len() && hs@[i as int].0@ == key@,
        r is None ==> forall|i: int| 0 <= i < hs@.len() ==> hs@[i].0@ != key@,
{
    let mut i: usize = 0;
    while i < hs.len()
        invariant
            i <= hs@.len(),
            forall|j: int| 0 <= j < i ==> hs@[j].0@ != key@,
        decreases hs.len() - i,
    {
        if hs[i].0 == *key {
            return Some(i);
        }
        i = i + 1;
    }
    None
}

/// Sets `key` to `value`, replacing the value of an equal key.
fn insert_header(hs: &mut Vec<(String, String)>, key: String, value: String)
    requires
        keys_unique(str_pairs(old(hs)@)),
    ensures
        keys_unique(str_pairs(final(hs)@)),
        pairs_map(str_pairs(final(hs)@)) == pairs_map(str_pairs(old(hs)@)).insert(key@, value@),
{
    let ghost ps = str_pairs(hs@);
    match find_key(hs, &key) {
        Some(i) => {
            let ghost vv = value@;
            hs.set(i, (key, value));
            assert(str_pairs(hs@) =~= ps.update(i as int, (ps[i as int].0, vv)));
            proof {
                lemma_pairs_update(ps, i as int, vv);
            }
        },
        None => {
            let ghost kv = (key@, value@);
            hs.push((key, value));
            assert(str_pairs(hs@) =~= ps.push(kv));
            assert(str_pairs(hs@).drop_last() =~= ps);
        },
    }
}

/// The characters `s[lo..hi]` as a string.
fn chars_text(s: &Vec<char>, lo: usize, hi: usize) -> (r: String)
    requires
        lo <= hi <= s@.len(),
    ensures
        r@ == s@.subrange(lo as int, hi as int),
{
    let mut out = String::new();
    let mut i: usize = lo;
    while i < hi
        invariant
            lo <= i <= hi <= s@.len(),
            out@ == s@.subrange(lo as int, i as int),
        decreases hi - i,
    {
        push_char(&mut out, s[i]);
        assert(s@.subrange(lo as int, i + 1) =~= s@.subrange(lo as int, i as int).push(s@[i as int]));
        i = i + 1;
    }
    out
}

/// Whether `s[lo..hi]` is the text `t`.
fn chars_equal(s: &Vec<char>, lo: usize, hi: usize, t: &str) -> (r: bool)
    requires
        lo <= hi <= s@.len(),
    ensures
        r == (s@.subrange(lo as int, hi as int) == t@),
{
    let n = t.unicode_len();
    if hi - lo != n {
        return false;
    }
    let mut i: usize = 0;
    while i < n
        invariant
            n == t@.len() == hi - lo,
            lo <= hi <= s@.len(),
            i <= n,
            forall|j: int| 0 <= j < i ==> s@[lo + j] == t@[j],
        decreases n - i,
    {
        if s[lo + i] != t.get_char(i) {
            assert(s@.subrange(lo as int, hi as int)[i as int] != t@[i as int]);
            return false;
        }
        i = i + 1;
    }
    assert(s@.subrange(lo as int, hi as int) =~= t@);
    true
}

/// Whether `t` starts at position `at` of `s`.
fn starts_at(s: &str, n: usize, at: usize, t: &str, m: usize) -> (r: bool)
    requires
        n == s@.len(),
        m == t@.len(),
        at <= n,
    ensures
        r == (m <= n - at && s@.skip(at as int).take(m as int) == t@),
{
    if m > n - at {
        return false;
    }
    let mut i: usize = 0;
    while i < m
        invariant
            n == s@.len(),
            m == t@.len(),
            at + m <= n,
            i <= m,
            forall|j: int| 0 <= j < i ==> s@[at + j] == t@[j],
        decreases m - i,
    {
        if s.get_char(at + i) != t.get_char(i) {
            assert(s@.skip(at as int).take(m as int)[i as int] != t@[i as int]);
            return false;
        }
        i = i + 1;
    }
    assert(s@.skip(at as int).take(m as int) =~= t@);
    true
}

/// `s` with every leading repetition of `p` removed.
pub fn trim_start_matches<'a>(s: &'a str, p: &str) -> (r: &'a str)
    ensures
        r@ == strip_prefix_all(s@, p@),
{
    let n = s.unicode_len();
    let m = p.unicode_len();
    let mut start: usize = 0;
    assert(s@.skip(0) =~= s@);
    if m > 0 {
        while starts_at(s, n, start, p, m)
            invariant
                n == s@.len(),
                m == p@.len(),
                m > 0,
                start <= n,
                strip_prefix_all(s@.skip(start as int), p@) == strip_prefix_all(s@, p@),
            decreases n - start,
        {
            assert(s@.skip(start as int).skip(m as int) =~= s@.skip(start + m));
            start = start + m;
        }
    }
    assert(s@.skip(start as int) =~= s@.subrange(start as int, n as int));
    s.substring_char(start, n)
}

/// The address `host:port` that a discovery answer's headers give for the
/// light: the `Location` header without its `yeelight://` scheme; `None`
/// without such a header.
pub fn bulb_address(hs: &Vec<(String, String)>) -> (r: Option<String>)
    requires
        keys_unique(str_pairs(hs@)),
    ensures
        r is Some <==> pairs_map(str_pairs(hs@)).contains_key("Location"@),
        r matches Some(a) ==> a@ == strip_prefix_all(
            pairs_map(str_pairs(hs@))["Location"@],
            "yeelight://"@,
        ),
{
    let key = String::from_str("Location");
    proof {
        lemma_pairs_lookup(str_pairs(hs@), "Location"@);
    }
    match find_key(hs, &key) {
        None => {
            assert(!pairs_map(str_pairs(hs@)).contains_key("Location"@)) by {
                if pairs_map(str_pairs(hs@)).contains_key("Location"@) {
                    let k = choose|k: int|
                        0 <= k < str_pairs(hs@).len() && str_pairs(hs@)[k].0 == "Location"@;
                    assert(hs@[k].0@ == "Location"@);
                }
            }
            None
        },
        Some(k) => {
            assert(str_pairs(hs@)[k as int].0 == "Location"@);
            let rest = trim_start_matches(hs[k].1.as_str(), "yeelight://");
            Some(String::from_str(rest))
        },
    }
}

/// Reads the first `len` bytes of `buf` as a discovery answer: the device id
/// and the headers, keys unique, or `None` when the answer is not UTF-8, its
/// status line is not `HTTP/1.1 200 OK`, or it has no `id` header holding a
/// hexadecimal number (after any leading `0x`).
pub fn parse(buf: &[u8], len: usize) -> (r: Option<(u64, Vec<(String, String)>)>)
    requires
        len <= buf@.len(),
    ensures
        r is Some <==> parse_answer(buf@.take(len as int)) is Some,
        r matches Some((id, hs)) ==> parse_answer(buf@.take(len as int)) == Some(
            (id, pairs_map(str_pairs(hs@))),
        ) && keys_unique(str_pairs(hs@)),
{
    let mut bytes: Vec<u8> = Vec::new();
    let mut i: usize = 0;
    while i < len
        invariant
            i <= len <= buf@.len(),
            bytes@ == buf@.take(i as int),
        decreases len - i,
    {
        bytes.push(buf[i]);
        assert(buf@.take(i + 1) =~= buf@.take(i as int).push(buf@[i as int]));
        i = i + 1;
    }
    let chars = match utf8_chars(&bytes) {
        Some(cs) => cs,
        None => return None,
    };
    let n = chars.len();
    let ghost text = chars@;
    assert(text.subrange(0, n as int) =~= text);
    let lines = split_ranges(&chars, 0, n, '\r', '\n');
    let ghost ls = range_texts(text, lines@);
    proof {
        lemma_split_nonempty(text, '\r', '\n');
    }
    let head = lines[0];
    if !chars_equal(&chars, head.0, head.1, "HTTP/1.1 200 OK") {
        return None;
    }
    let ghost rest = ls.drop_first();
    let mut hs: Vec<(String, String)> = Vec::new();
    assert(rest.take(0) =~= Seq::<Seq<char>>::empty());
    assert(str_pairs(hs@) =~= Seq::<(Seq<char>, Seq<char>)>::empty());
    let mut j: usize = 1;
    while j < lines.len()
        invariant
            1 <= j <= lines@.len(),
            ls == range_texts(text, lines@),
            rest == ls.drop_first(),
            text == chars@,
            forall|k: int| 0 <= k < lines@.len() ==> 0 <= #[trigger] lines@[k].0 <= lines@[k].1 <= n,
            n == chars@.len(),
            keys_unique(str_pairs(hs@)),
            pairs_map(str_pairs(hs@)) == headers(rest.take(j - 1)),
        decreases lines.len() - j,
    {
        let (lo, hi) = lines[j];
        let parts = split_ranges(&chars, lo, hi, ':', ' ');
        let ghost line = text.subrange(lo as int, hi as int);
        assert(line == rest[j - 1]);
        assert(rest.take(j as int).drop_last() =~= rest.take(j - 1));
        assert(rest.take(j as int).last() == line);
        if parts.len() >= 2 {
            let key = chars_text(&chars, parts[0].0, parts[0].1);
            let value = chars_text(&chars, parts[1].0, parts[1].1);
            insert_header(&mut hs, key, value);
        }
        j = j + 1;
    }
    assert(rest.take(j - 1) =~= rest);
    let id_key = String::from_str("id");
    proof {
        lemma_pairs_lookup(str_pairs(hs@), "id"@);
    }
    match find_key(&hs, &id_key) {
        None => {
            assert(!pairs_map(str_pairs(hs@)).contains_key("id"@)) by {
                if pairs_map(str_pairs(hs@)).contains_key("id"@) {
                    let k = choose|k: int|
                        0 <= k < str_pairs(hs@).len() && str_pairs(hs@)[k].0 == "id"@;
                    assert(hs@[k].0@ == "id"@);
                }
            }
            None
        },
        Some(k) => {
            assert(str_pairs(hs@)[k as int].0 == "id"@);
            let digits = trim_start_matches(hs[k].1.as_str(), "0x");
            match parse_hex(digits) {
                Some(id) => Some((id, hs)),
                None => None,
            }
        },
    }
}

} // verus!

