//! Text encodings the platform adapters use: percent-encoding of URL
//! components and its decoding, the JSON inside a JavaScript callback, and
//! cookie headers.
use crate::pattern::{find, find_char, rfind_char, rfind_char_exec, slice_from, slice_to, split, split_exec};
use crate::crypto::primitives::string_from_utf8;
use crate::publish::error::PublishError;
use crate::text::{chars_eq, chars_of, push_all, push_str, string_of};
use vstd::prelude::*;
use vstd::string::StringSliceAdditionalSpecFns;

verus! {

broadcast use vstd::string::group_string_axioms;

// ---------------------------------------------------------------------
// Percent-encoding
// ---------------------------------------------------------------------

/// Characters that stand for themselves in a URL component: ASCII
/// letters and digits and `-`, `_`, `.`, `~`.
pub open spec fn unreserved(c: char) -> bool {
    let u = c as u32;
    ||| (0x41 <= u && u <= 0x5A)
    ||| (0x61 <= u && u <= 0x7A)
    ||| (0x30 <= u && u <= 0x39)
    ||| c == '-'
    ||| c == '_'
    ||| c == '.'
    ||| c == '~'
}

/// The upper-case hexadecimal digit for `d < 16`.
pub open spec fn hex_upper(d: nat) -> char {
    if d == 0 { '0' } else if d == 1 { '1' } else if d == 2 { '2' } else if d == 3 { '3' }
    else if d == 4 { '4' } else if d == 5 { '5' } else if d == 6 { '6' } else if d == 7 { '7' }
    else if d == 8 { '8' } else if d == 9 { '9' } else if d == 10 { 'A' } else if d == 11 { 'B' }
    else if d == 12 { 'C' } else if d == 13 { 'D' } else if d == 14 { 'E' } else { 'F' }
}

/// `%` and the two upper-case hexadecimal digits of `b`.
pub open spec fn percent_byte(b: u8) -> Seq<char> {
    seq!['%', hex_upper((b / 16) as nat), hex_upper((b % 16) as nat)]
}

/// Each byte of `bs` percent-encoded.
pub open spec fn percent_bytes(bs: Seq<u8>) -> Seq<char>
    decreases bs.len(),
{
    if bs.len() == 0 {
        seq![]
    } else {
        percent_bytes(bs.drop_last()) + percent_byte(bs.last())
    }
}

/// The encoding of one character: itself if unreserved, else each byte of
/// its UTF-8 encoding percent-encoded.
pub open spec fn encode_char(c: char) -> Seq<char> {
    if unreserved(c) {
        seq![c]
    } else {
        percent_bytes(vstd::utf8::encode_utf8(seq![c]))
    }
}

/// `s` percent-encoded character by character.
pub open spec fn url_encoded(s: Seq<char>) -> Seq<char>
    decreases s.len(),
{
    if s.len() == 0 {
        seq![]
    } else {
        url_encoded(s.drop_last()) + encode_char(s.last())
    }
}

fn is_unreserved(c: char) -> (r: bool)
    ensures
        r == unreserved(c),
{
    let u = c as u32;
    (0x41 <= u && u <= 0x5A) || (0x61 <= u && u <= 0x7A) || (0x30 <= u && u <= 0x39) || c == '-'
        || c == '_' || c == '.' || c == '~'
}

fn hex_upper_exec(d: u8) -> (c: char)
    requires
        d < 16,
    ensures
        c == hex_upper(d as nat),
{
    if d == 0 { '0' } else if d == 1 { '1' } else if d == 2 { '2' } else if d == 3 { '3' }
    else if d == 4 { '4' } else if d == 5 { '5' } else if d == 6 { '6' } else if d == 7 { '7' }
    else if d == 8 { '8' } else if d == 9 { '9' } else if d == 10 { 'A' } else if d == 11 { 'B' }
    else if d == 12 { 'C' } else if d == 13 { 'D' } else if d == 14 { 'E' } else { 'F' }
}

fn push_percent_bytes(out: &mut Vec<char>, bs: &[u8])
    ensures
        final(out)@ == old(out)@ + percent_bytes(bs@),
{
    let ghost start = out@;
    let mut i: usize = 0;
    while i < bs.len()
        invariant
            i <= bs.len(),
            out@ == start + percent_bytes(bs@.take(i as int)),
        decreases bs.len() - i,
    {
        let b = bs[i];
        out.push('%');
        out.push(hex_upper_exec(b / 16));
        out.push(hex_upper_exec(b % 16));
        assert(bs@.take(i + 1).drop_last() =~= bs@.take(i as int));
        assert(out@ =~= start + percent_bytes(bs@.take(i + 1)));
        i = i + 1;
    }
    assert(bs@.take(bs.len() as int) =~= bs@);
}

/// `input` percent-encoded: unreserved characters kept, every other
/// character written as `%XX` per byte of its UTF-8 encoding.
pub fn urlencoding_encode(input: &str) -> (r: String)
    ensures
        r@ == url_encoded(input@),
{
    let cs = chars_of(input);
    let mut out: Vec<char> = Vec::new();
    let mut i: usize = 0;
    while i < cs.len()
        invariant
            i <= cs.len(),
            cs@ == input@,
            out@ == url_encoded(cs@.take(i as int)),
        decreases cs.len() - i,
    {
        let c = cs[i];
        assert(cs@.take(i + 1).drop_last() =~= cs@.take(i as int));
        if is_unreserved(c) {
            out.push(c);
        } else {
            let one = vec![c];
            let s = string_of(&one);
            assert(one@ =~= seq![c]);
            let bytes = s.as_str().as_bytes();
            push_percent_bytes(&mut out, bytes);
        }
        assert(out@ =~= url_encoded(cs@.take(i + 1)));
        i = i + 1;
    }
    assert(cs@.take(cs.len() as int) =~= cs@);
    string_of(&out)
}

// ---------------------------------------------------------------------
// Percent-decoding
// ---------------------------------------------------------------------

/// The value of a hexadecimal digit of either case.
pub open spec fn hex_value(c: char) -> Option<nat> {
    let u = c as u32;
    if 0x30 <= u && u <= 0x39 {
        Some((u - 0x30) as nat)
    } else if 0x61 <= u && u <= 0x66 {
        Some((u - 0x61 + 10) as nat)
    } else if 0x41 <= u && u <= 0x46 {
        Some((u - 0x41 + 10) as nat)
    } else {
        None
    }
}

/// The byte that `u8::from_str_radix(h, 16)` reads from the characters
/// after a `%`, when they are two bytes long: two hexadecimal digits, or a
/// `+` sign and one digit.
pub open spec fn hex_pair(h: Seq<char>) -> Option<u8> {
    if h.len() != 2 {
        None
    } else {
        match (hex_value(h[0]), hex_value(h[1])) {
            (Some(a), Some(b)) => Some((a * 16 + b) as u8),
            (None, Some(b)) => if h[0] == '+' {
                Some(b as u8)
            } else {
                None
            },
            _ => None,
        }
    }
}

/// The bytes `s` stands for: `%` and a readable pair the byte it reads
/// as, `+` a space, every other character its UTF-8 bytes; a `%` not
/// followed by a readable pair stands for itself and what follows it.
pub open spec fn url_bytes(s: Seq<char>) -> Seq<u8>
    decreases s.len(),
{
    if s.len() == 0 {
        seq![]
    } else if s[0] == '%' {
        let n: int = if s.len() >= 3 { 2 } else { s.len() - 1 };
        let h = s.subrange(1, 1 + n);
        match hex_pair(h) {
            Some(b) => seq![b] + url_bytes(s.skip(1 + n)),
            None => vstd::utf8::encode_utf8(seq!['%'] + h) + url_bytes(s.skip(1 + n)),
        }
    } else if s[0] == '+' {
        seq![0x20u8] + url_bytes(s.drop_first())
    } else {
        vstd::utf8::encode_utf8(seq![s[0]]) + url_bytes(s.drop_first())
    }
}

/// `s` decoded byte by byte: each escaped byte read as the character of
/// that code (how bytes that are not UTF-8 are read).
pub open spec fn url_decoded_bytewise(s: Seq<char>) -> Seq<char>
    decreases s.len(),
{
    if s.len() == 0 {
        seq![]
    } else if s[0] == '%' {
        let n: int = if s.len() >= 3 { 2 } else { s.len() - 1 };
        let h = s.subrange(1, 1 + n);
        match hex_pair(h) {
            Some(b) => seq![b as char] + url_decoded_bytewise(s.skip(1 + n)),
            None => seq!['%'] + h + url_decoded_bytewise(s.skip(1 + n)),
        }
    } else if s[0] == '+' {
        seq![' '] + url_decoded_bytewise(s.drop_first())
    } else {
        seq![s[0]] + url_decoded_bytewise(s.drop_first())
    }
}

/// `s` decoded: the bytes it stands for read as UTF-8; where they are not
/// UTF-8, read byte by byte.
pub open spec fn url_decoded(s: Seq<char>) -> Seq<char> {
    if vstd::utf8::valid_utf8(url_bytes(s)) {
        vstd::utf8::decode_utf8(url_bytes(s))
    } else {
        url_decoded_bytewise(s)
    }
}

fn hex_value_exec(c: char) -> (r: Option<u8>)
    ensures
        match r {
            Some(v) => hex_value(c) == Some(v as nat) && v < 16,
            None => hex_value(c).is_none(),
        },
{
    let u = c as u32;
    if 0x30 <= u && u <= 0x39 {
        Some((u - 0x30) as u8)
    } else if 0x61 <= u && u <= 0x66 {
        Some((u - 0x61 + 10) as u8)
    } else if 0x41 <= u && u <= 0x46 {
        Some((u - 0x41 + 10) as u8)
    } else {
        None
    }
}

fn hex_pair_exec(h: &[char]) -> (r: Option<u8>)
    ensures
        r == hex_pair(h@),
{
    if h.len() != 2 {
        return None;
    }
    match (hex_value_exec(h[0]), hex_value_exec(h[1])) {
        (Some(a), Some(b)) => Some(a * 16 + b),
        (None, Some(b)) => if h[0] == '+' {
            Some(b)
        } else {
            None
        },
        _ => None,
    }
}

fn push_bytes(out: &mut Vec<u8>, bs: &[u8])
    ensures
        final(out)@ == old(out)@ + bs@,
{
    let ghost start = out@;
    let mut i: usize = 0;
    while i < bs.len()
        invariant
            i <= bs.len(),
            out@ == start + bs@.take(i as int),
        decreases bs.len() - i,
    {
        out.push(bs[i]);
        assert(bs@.take(i + 1) =~= bs@.take(i as int).push(bs@[i as int]));
        i = i + 1;
    }
    assert(bs@.take(bs.len() as int) =~= bs@);
}

fn push_utf8(out: &mut Vec<u8>, cs: &[char])
    ensures
        final(out)@ == old(out)@ + vstd::utf8::encode_utf8(cs@),
{
    let st = string_of(cs);
    push_bytes(out, st.as_str().as_bytes());
}

/// `input` with percent-escapes and `+` decoded, the bytes read as UTF-8;
/// escapes that do not read as a byte are kept as written.
pub fn urlencoding_decode(input: &str) -> (r: String)
    ensures
        r@ == url_decoded(input@),
{
    let s = chars_of(input);
    let mut out: Vec<char> = Vec::new();
    let mut bytes: Vec<u8> = Vec::new();
    let mut i: usize = 0;
    assert(s@.skip(0) =~= s@);
    while i < s.len()
        invariant
            i <= s.len(),
            out@ + url_decoded_bytewise(s@.skip(i as int)) == url_decoded_bytewise(s@),
            bytes@ + url_bytes(s@.skip(i as int)) == url_bytes(s@),
        decreases s.len() - i,
    {
        let ghost t = s@.skip(i as int);
        let ghost before = out@;
        let ghost before_bytes = bytes@;
        if s[i] == '%' {
            let n: usize = if s.len() - i >= 3 {
                2
            } else {
                s.len() - i - 1
            };
            let h = slice_to(&slice_from(&s, i + 1), n);
            assert(h@ =~= t.subrange(1, 1 + n));
            assert(t.skip(1 + n) =~= s@.skip(i + 1 + n));
            match hex_pair_exec(&h) {
                Some(b) => {
                    out.push(b as char);
                    bytes.push(b);
                    assert(before + (seq![b as char] + url_decoded_bytewise(t.skip(1 + n))) =~= out@
                        + url_decoded_bytewise(s@.skip(i + 1 + n)));
                    assert(before_bytes + (seq![b] + url_bytes(t.skip(1 + n))) =~= bytes@
                        + url_bytes(s@.skip(i + 1 + n)));
                },
                None => {
                    out.push('%');
                    push_all(&mut out, &h);
                    assert(before + (seq!['%'] + h@ + url_decoded_bytewise(t.skip(1 + n))) =~= out@
                        + url_decoded_bytewise(s@.skip(i + 1 + n)));
                    let mut raw: Vec<char> = vec!['%'];
                    push_all(&mut raw, &h);
                    assert(raw@ =~= seq!['%'] + h@);
                    push_utf8(&mut bytes, &raw);
                    assert(before_bytes + (vstd::utf8::encode_utf8(seq!['%'] + h@) + url_bytes(
                        t.skip(1 + n),
                    )) =~= bytes@ + url_bytes(s@.skip(i + 1 + n)));
                },
            }
            i = i + 1 + n;
        } else {
            if s[i] == '+' {
                out.push(' ');
                bytes.push(0x20u8);
            } else {
                out.push(s[i]);
                let one = vec![s[i]];
                assert(one@ =~= seq![t[0]]);
                push_utf8(&mut bytes, &one);
            }
            assert(t.drop_first() =~= s@.skip(i + 1));
            assert(before + (seq![out@.last()] + url_decoded_bytewise(t.drop_first())) =~= out@
                + url_decoded_bytewise(s@.skip(i + 1)));
            assert(bytes@ + url_bytes(s@.skip(i + 1)) == url_bytes(s@)) by {
                assert(before_bytes + url_bytes(t) == url_bytes(s@));
            }
            i = i + 1;
        }
    }
    assert(s@.skip(i as int) =~= Seq::<char>::empty());
    assert(out@ =~= url_decoded_bytewise(s@));
    assert(bytes@ =~= url_bytes(s@));
    match string_from_utf8(bytes) {
        Ok(text) => text,
        Err(_) => string_of(&out),
    }
}

proof fn lemma_url_encoded_front(s: Seq<char>)
    requires
        s.len() > 0,
    ensures
        url_encoded(s) == encode_char(s[0]) + url_encoded(s.drop_first()),
    decreases s.len(),
{
    if s.len() == 1 {
        assert(url_encoded(s.drop_last()) =~= Seq::<char>::empty());
        assert(url_encoded(s.drop_first()) =~= Seq::<char>::empty());
        assert(url_encoded(s) =~= encode_char(s[0]) + url_encoded(s.drop_first()));
    } else {
        let d = s.drop_last();
        lemma_url_encoded_front(d);
        assert(d.drop_first() =~= s.drop_first().drop_last());
        assert(s.drop_first().last() == s.last());
        assert(url_encoded(s) =~= encode_char(s[0]) + url_encoded(s.drop_first()));
    }
}

proof fn lemma_percent_bytes_front(bs: Seq<u8>)
    requires
        bs.len() > 0,
    ensures
        percent_bytes(bs) == percent_byte(bs[0]) + percent_bytes(bs.drop_first()),
    decreases bs.len(),
{
    if bs.len() == 1 {
        assert(percent_bytes(bs.drop_last()) =~= Seq::<char>::empty());
        assert(percent_bytes(bs.drop_first()) =~= Seq::<char>::empty());
        assert(percent_bytes(bs) =~= percent_byte(bs[0]) + percent_bytes(bs.drop_first()));
    } else {
        let d = bs.drop_last();
        lemma_percent_bytes_front(d);
        assert(d.drop_first() =~= bs.drop_first().drop_last());
        assert(bs.drop_first().last() == bs.last());
        assert(percent_bytes(bs) =~= percent_byte(bs[0]) + percent_bytes(bs.drop_first()));
    }
}

proof fn lemma_hex_upper_value(d: nat)
    requires
        d < 16,
    ensures
        hex_value(hex_upper(d)) == Some(d),
{
}

proof fn lemma_url_bytes_percent(bs: Seq<u8>, rest: Seq<char>)
    ensures
        url_bytes(percent_bytes(bs) + rest) == bs + url_bytes(rest),
    decreases bs.len(),
{
    if bs.len() == 0 {
        assert(percent_bytes(bs) + rest =~= rest);
        assert(bs + url_bytes(rest) =~= url_bytes(rest));
    } else {
        let b = bs[0];
        lemma_percent_bytes_front(bs);
        let tail = percent_bytes(bs.drop_first()) + rest;
        let x = percent_byte(b) + tail;
        assert(percent_bytes(bs) + rest =~= x);
        lemma_hex_upper_value((b / 16) as nat);
        lemma_hex_upper_value((b % 16) as nat);
        assert(x.subrange(1, 3) =~= seq![hex_upper((b / 16) as nat), hex_upper((b % 16) as nat)]);
        assert(((b / 16) * 16 + b % 16) as u8 == b);
        assert(x.skip(3) =~= tail);
        lemma_url_bytes_percent(bs.drop_first(), rest);
        assert(bs =~= seq![b] + bs.drop_first());
    }
}

proof fn lemma_url_bytes_char(c: char, rest: Seq<char>)
    ensures
        url_bytes(encode_char(c) + rest) == vstd::utf8::encode_utf8(seq![c]) + url_bytes(rest),
{
    if unreserved(c) {
        let x = seq![c] + rest;
        assert(x[0] == c);
        assert(x.drop_first() =~= rest);
    } else {
        lemma_url_bytes_percent(vstd::utf8::encode_utf8(seq![c]), rest);
    }
}

proof fn lemma_url_bytes_encoded(s: Seq<char>)
    ensures
        url_bytes(url_encoded(s)) == vstd::utf8::encode_utf8(s),
    decreases s.len(),
{
    if s.len() > 0 {
        lemma_url_encoded_front(s);
        lemma_url_bytes_char(s[0], url_encoded(s.drop_first()));
        lemma_url_bytes_encoded(s.drop_first());
        let one = seq![s[0]];
        assert(one.drop_first() =~= Seq::<char>::empty());
        assert(vstd::utf8::encode_utf8(one.drop_first()) =~= Seq::<u8>::empty());
        assert(vstd::utf8::encode_utf8(one) =~= vstd::utf8::encode_scalar(s[0] as u32));
    }
}

/// Percent-decoding undoes percent-encoding: decoding the encoding of any
/// text gives the text back.
pub proof fn lemma_url_decode_encode(s: Seq<char>)
    ensures
        url_decoded(url_encoded(s)) == s,
{
    lemma_url_bytes_encoded(s);
    vstd::utf8::encode_utf8_valid_utf8(s);
    vstd::utf8::encode_utf8_decode_utf8(s);
}

// ---------------------------------------------------------------------
// JSON inside a JavaScript callback
// ---------------------------------------------------------------------

/// The JSON of a reply: between the first `(` and the last `)`, or the
/// whole reply where it starts with `{`.
pub open spec fn js_callback_payload(body: Seq<char>) -> Option<Seq<char>> {
    match (find(body, seq!['(']), rfind_char(body, ')')) {
        (Some(st), Some(e)) => Some(body.subrange(st + 1, e)),
        _ => if body.len() > 0 && body[0] == '{' {
            Some(body)
        } else {
            None
        },
    }
}

/// The reply can be cut: where it has both parentheses, the last `)`
/// follows the first `(` (cutting otherwise panics).
pub open spec fn js_callback_cuttable(body: Seq<char>) -> bool {
    match (find(body, seq!['(']), rfind_char(body, ')')) {
        (Some(st), Some(e)) => st + 1 <= e,
        _ => true,
    }
}

/// The JSON inside a reply of the form `callback({...})`, or the reply
/// itself where it is a bare object; a `ParseError` naming the reply
/// otherwise.
pub fn extract_json_from_js_callback(body: &str) -> (r: Result<String, PublishError>)
    requires
        js_callback_cuttable(body@),
    ensures
        match js_callback_payload(body@) {
            Some(p) => r matches Ok(s) && s@ == p,
            None => r matches Err(PublishError::ParseError(m)) && m@ == "无法解析响应: "@ + body@,
        },
{
    let b = chars_of(body);
    match find_char(&b, '(') {
        Some(st) => match rfind_char_exec(&b, ')') {
            Some(e) => {
                proof {
                    crate::pattern::lemma_find_bound(b@, seq!['(']);
                    crate::pattern::lemma_rfind_bound(b@, ')');
                }
                let inner = slice_to(&slice_from(&b, st + 1), e - (st + 1));
                assert(inner@ =~= b@.subrange(st + 1, e as int));
                return Ok(string_of(&inner));
            },
            None => {},
        },
        None => {},
    }
    if b.len() > 0 && b[0] == '{' {
        return Ok(body.to_owned());
    }
    let mut m: Vec<char> = Vec::new();
    push_str(&mut m, "无法解析响应: ");
    push_all(&mut m, &b);
    Err(PublishError::ParseError(string_of(&m)))
}

// ---------------------------------------------------------------------
// Cookies
// ---------------------------------------------------------------------

/// The value of the first cookie pair named `name` among `pieces`; a piece
/// is split at its first `=`, pieces without one are passed over.
pub open spec fn cookie_value_in(pieces: Seq<Seq<char>>, name: Seq<char>) -> Option<Seq<char>>
    decreases pieces.len(),
{
    if pieces.len() == 0 {
        None
    } else {
        let p = pieces[0];
        match find(p, seq!['=']) {
            Some(k) => if p.take(k) == name {
                Some(p.skip(k + 1))
            } else {
                cookie_value_in(pieces.drop_first(), name)
            },
            None => cookie_value_in(pieces.drop_first(), name),
        }
    }
}

/// The value of the cookie `name` in a `"; "`-separated cookie header.
pub open spec fn cookie_value(cookies: Seq<char>, name: Seq<char>) -> Option<Seq<char>> {
    cookie_value_in(split(cookies, seq![';', ' ']), name)
}

/// The value of the cookie `name` in the cookie header `cookies`.
pub fn extract_cookie_value(cookies: &str, name: &str) -> (r: Option<String>)
    ensures
        match r {
            Some(v) => cookie_value(cookies@, name@) == Some(v@),
            None => cookie_value(cookies@, name@).is_none(),
        },
{
    let cs = chars_of(cookies);
    let nm = chars_of(name);
    let sep = vec![';', ' '];
    assert(sep@ =~= seq![';', ' ']);
    let pieces = split_exec(&cs, &sep);
    let mut i: usize = 0;
    assert(pieces.deep_view().skip(0) =~= pieces.deep_view());
    while i < pieces.len()
        invariant
            i <= pieces.len(),
            pieces.deep_view() == split(cookies@, seq![';', ' ']),
            cookie_value(cookies@, name@) == cookie_value_in(pieces.deep_view().skip(i as int), nm@),
            nm@ == name@,
        decreases pieces.len() - i,
    {
        let p = &pieces[i];
        assert(pieces.deep_view()[i as int] == p@);
        assert(pieces.deep_view().skip(i as int).drop_first() =~= pieces.deep_view().skip(i + 1));
        match find_char(p, '=') {
            Some(k) => {
                proof {
                    crate::pattern::lemma_find_bound(p@, seq!['=']);
                    assert(seq!['='].len() == 1);
                }
                assert(k < p.len());
                let key = slice_to(p, k);
                if chars_eq(&key, &nm) {
                    let value = slice_from(p, k + 1);
                    return Some(string_of(&value));
                }
            },
            None => {},
        }
        i = i + 1;
    }
    None
}

/// The cookie header made of `Set-Cookie` values: of each value that is
/// text and has a `;`, the part before it, joined by `"; "` (no separator
/// while the header is still empty).
pub open spec fn cookie_header_of(headers: Seq<Option<Seq<char>>>) -> Seq<char>
    decreases headers.len(),
{
    if headers.len() == 0 {
        seq![]
    } else {
        let acc = cookie_header_of(headers.drop_last());
        match headers.last() {
            Some(h) => match find(h, seq![';']) {
                Some(p) => if acc.len() == 0 {
                    h.take(p)
                } else {
                    acc + seq![';', ' '] + h.take(p)
                },
                None => acc,
            },
            None => acc,
        }
    }
}

/// The view of a list of optional strings.
pub open spec fn opt_strings_view(v: Seq<Option<String>>) -> Seq<Option<Seq<char>>> {
    Seq::new(v.len(), |i: int| match v[i] {
        Some(s) => Some(s@),
        None => None,
    })
}

/// The cookie header built from `Set-Cookie` header values; `None` stands
/// for a value that is not visible ASCII text.
pub fn cookie_header(headers: &Vec<Option<String>>) -> (r: String)
    ensures
        r@ == cookie_header_of(opt_strings_view(headers@)),
{
    let ghost hv = opt_strings_view(headers@);
    let mut out: Vec<char> = Vec::new();
    let mut i: usize = 0;
    while i < headers.len()
        invariant
            i <= headers.len(),
            hv == opt_strings_view(headers@),
            out@ == cookie_header_of(hv.take(i as int)),
        decreases headers.len() - i,
    {
        assert(hv.take(i + 1).drop_last() =~= hv.take(i as int));
        assert(hv.take(i + 1).last() == hv[i as int]);
        match &headers[i] {
            Some(h) => {
                let hc = chars_of(h.as_str());
                match find_char(&hc, ';') {
                    Some(p) => {
                        proof {
                            crate::pattern::lemma_find_bound(hc@, seq![';']);
                        }
                        let part = slice_to(&hc, p);
                        if out.len() > 0 {
                            out.push(';');
                            out.push(' ');
                        }
                        push_all(&mut out, &part);
                        assert(out@ =~= cookie_header_of(hv.take(i + 1)));
                    },
                    None => {},
                }
            },
            None => {},
        }
        i = i + 1;
    }
    assert(hv.take(headers.len() as int) =~= hv);
    string_of(&out)
}

} // verus!
