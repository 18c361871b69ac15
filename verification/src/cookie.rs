//! Session-cookie handling for the key-broker HTTP client.
//!
//! A broker response carries the session identifier as a `session_id`
//! attribute of one of its header lines. A header line is a list of
//! attributes separated by `;`, each of the form `name=value`.

use vstd::prelude::*;
use vstd::slice::slice_subrange;
use vstd::utf8::*;

verus! {

/// The bytes of the attribute name `session_id`.
pub open spec fn session_key() -> Seq<u8> {
    seq![115u8, 101u8, 115u8, 115u8, 105u8, 111u8, 110u8, 95u8, 105u8, 100u8]
}

/// `needle` occurs in `hay` at offset `at`.
pub open spec fn occurs_at(hay: Seq<u8>, needle: Seq<u8>, at: int) -> bool {
    &&& 0 <= at
    &&& at + needle.len() <= hay.len()
    &&& forall|k: int| 0 <= k < needle.len() ==> hay[at + k] == needle[k]
}

/// `needle` occurs somewhere in `hay[from..to]`.
pub open spec fn occurs_within(hay: Seq<u8>, needle: Seq<u8>, from: int, to: int) -> bool {
    exists|at: int| from <= at && at + needle.len() <= to && #[trigger] occurs_at(hay, needle, at)
}

/// The first index in `from..to` at which `s` holds `b`, or `to` if there is none.
pub open spec fn find_from(s: Seq<u8>, b: u8, from: int, to: int) -> int
    decreases to - from,
{
    if from >= to {
        to
    } else if s[from] == b {
        from
    } else {
        find_from(s, b, from + 1, to)
    }
}

/// The value range of the attribute `h[start..end]`, if that attribute holds
/// exactly one `=` and its name contains `session_id`.
pub open spec fn pair_value(h: Seq<u8>, start: int, end: int) -> Option<(int, int)> {
    let eq = find_from(h, 61u8, start, end);
    if eq < end && find_from(h, 61u8, eq + 1, end) == end && occurs_within(
        h,
        session_key(),
        start,
        eq,
    ) {
        Some((eq + 1, end))
    } else {
        None
    }
}

/// The value range of the first matching attribute at or after `start`.
pub open spec fn scan(h: Seq<u8>, start: int) -> Option<(int, int)>
    decreases h.len() - start,
{
    if start < 0 || start > h.len() {
        None
    } else {
        let end = find_from(h, 59u8, start, h.len() as int);
        if pair_value(h, start, end) is Some {
            pair_value(h, start, end)
        } else if start <= end < h.len() {
            scan(h, end + 1)
        } else {
            None
        }
    }
}

/// The session identifier that a header line carries: none unless the line is
/// UTF-8 text, otherwise the value of its first attribute that holds exactly
/// one `=` and whose name contains `session_id`.
pub open spec fn session_id_of(h: Seq<u8>) -> Option<Seq<char>> {
    if !valid_utf8(h) {
        None
    } else {
        match scan(h, 0) {
            Some((a, b)) => Some(decode_utf8(h.subrange(a, b))),
            None => None,
        }
    }
}

/// `find_from` finds the first occurrence in the range, if there is one.
pub proof fn lemma_find_from(s: Seq<u8>, b: u8, from: int, to: int)
    requires
        0 <= from <= to <= s.len(),
    ensures
        from <= find_from(s, b, from, to) <= to,
        find_from(s, b, from, to) < to ==> s[find_from(s, b, from, to)] == b,
        forall|i: int| from <= i < find_from(s, b, from, to) ==> s[i] != b,
    decreases to - from,
{
    if from < to && s[from] != b {
        lemma_find_from(s, b, from + 1, to);
    }
}

/// Reads bytes as text. Wraps `std::str::from_utf8`, which succeeds exactly on
/// well-formed UTF-8 and then yields the characters that the bytes encode.
#[verifier::external_body]
fn utf8_text(bytes: &[u8]) -> (r: Option<&str>)
    ensures
        r is Some <==> valid_utf8(bytes@),
        r matches Some(s) ==> s@ == decode_utf8(bytes@),
{
    std::str::from_utf8(bytes).ok()
}

fn find_byte(s: &[u8], b: u8, from: usize, to: usize) -> (r: usize)
    requires
        from <= to <= s@.len(),
    ensures
        r == find_from(s@, b, from as int, to as int),
        from <= r <= to,
{
    let mut i = from;
    while i < to
        invariant
            from <= i <= to <= s@.len(),
            find_from(s@, b, from as int, to as int) == find_from(s@, b, i as int, to as int),
        decreases to - i,
    {
        if s[i] == b {
            return i;
        }
        i += 1;
    }
    i
}

fn key_at(s: &[u8], at: usize) -> (r: bool)
    requires
        at + 10 <= s@.len(),
    ensures
        r == occurs_at(s@, session_key(), at as int),
{
    let key: [u8; 10] = [115, 101, 115, 115, 105, 111, 110, 95, 105, 100];
    assert(key@ =~= session_key());
    let n = s.len();
    let mut k: usize = 0;
    while k < 10
        invariant
            k <= 10,
            at + 10 <= n == s@.len(),
            key@ == session_key(),
            forall|j: int| 0 <= j < k ==> s@[at + j] == session_key()[j],
        decreases 10 - k,
    {
        if s[at + k] != key[k] {
            return false;
        }
        k += 1;
    }
    true
}

fn key_within(s: &[u8], from: usize, to: usize) -> (r: bool)
    requires
        from <= to <= s@.len(),
    ensures
        r == occurs_within(s@, session_key(), from as int, to as int),
{
    if to - from < 10 {
        return false;
    }
    let last = to - 10;
    let mut at = from;
    while at <= last
        invariant
            from <= at <= last + 1,
            last + 10 == to,
            to <= s@.len(),
            forall|j: int| from <= j < at ==> !occurs_at(s@, session_key(), j),
        decreases last + 1 - at,
    {
        if key_at(s, at) {
            return true;
        }
        at += 1;
    }
    false
}

/// In well-formed UTF-8 an ASCII byte is a character of its own: the text can
/// be cut before it and after it.
pub proof fn lemma_ascii_boundaries(bytes: Seq<u8>, index: int)
    requires
        valid_utf8(bytes),
        0 <= index < bytes.len(),
        bytes[index] < 0x80,
    ensures
        is_char_boundary(bytes, index),
        is_char_boundary(bytes, index + 1),
    decreases bytes.len(),
{
    is_char_boundary_iff_not_is_continuation_byte(bytes, index);
    if index == 0 {
        assert(length_of_first_scalar(bytes) == 1);
        assert(is_char_boundary(pop_first_scalar(bytes), 0));
    } else {
        let rest = pop_first_scalar(bytes);
        let width = length_of_first_scalar(bytes);
        assert(is_char_boundary(rest, index - width));
        assert(index - width >= 0);
        assert(rest[index - width] == bytes[index]);
        lemma_ascii_boundaries(rest, index - width);
    }
}

/// A piece of well-formed UTF-8 that lies between two cuts, each at an end of
/// the text or beside an ASCII byte, is well-formed UTF-8.
pub proof fn lemma_piece_is_text(h: Seq<u8>, a: int, b: int)
    requires
        valid_utf8(h),
        0 <= a <= b <= h.len(),
        is_char_boundary(h, a),
        b == h.len() || h[b] < 0x80,
    ensures
        valid_utf8(h.subrange(a, b)),
{
    let tail = h.subrange(a, h.len() as int);
    valid_utf8_split(h, a);
    if b == h.len() {
    } else {
        assert(tail[b - a] == h[b]);
        lemma_ascii_boundaries(tail, b - a);
        valid_utf8_split(tail, b - a);
        assert(tail.subrange(0, b - a) =~= h.subrange(a, b));
    }
}

/// Extracts the session identifier from one response header line.
pub fn extract_session_id(header: &[u8]) -> (r: Option<String>)
    ensures
        r is Some <==> session_id_of(header@) is Some,
        r matches Some(id) ==> session_id_of(header@) == Some(id@),
{
    if utf8_text(header).is_none() {
        return None;
    }
    let n = header.len();
    let mut start: usize = 0;
    loop
        invariant
            start <= n == header@.len(),
            valid_utf8(header@),
            scan(header@, 0) == scan(header@, start as int),
        decreases n - start,
    {
        let end = find_byte(header, 59u8, start, n);
        let eq = find_byte(header, 61u8, start, end);
        proof {
            lemma_find_from(header@, 59u8, start as int, n as int);
            lemma_find_from(header@, 61u8, start as int, end as int);
        }
        if eq < end {
            let more = find_byte(header, 61u8, eq + 1, end);
            if more == end && key_within(header, start, eq) {
                let value = slice_subrange(header, eq + 1, end);
                proof {
                    lemma_ascii_boundaries(header@, eq as int);
                    lemma_piece_is_text(header@, eq + 1, end as int);
                }
                match utf8_text(value) {
                    Some(text) => {
                        return Some(text.to_owned());
                    },
                    None => {
                        return None;
                    },
                }
            }
        }
        if end >= n {
            return None;
        }
        start = end + 1;
    }
}

proof fn lemma_scan_needs_key(h: Seq<u8>, start: int)
    requires
        0 <= start <= h.len(),
        scan(h, start) is Some,
    ensures
        occurs_within(h, session_key(), 0, h.len() as int),
    decreases h.len() - start,
{
    let end = find_from(h, 59u8, start, h.len() as int);
    lemma_find_from(h, 59u8, start, h.len() as int);
    if pair_value(h, start, end) is Some {
        let eq = find_from(h, 61u8, start, end);
        lemma_find_from(h, 61u8, start, end);
        let at = choose|at: int|
            start <= at && at + session_key().len() <= eq && #[trigger] occurs_at(
                h,
                session_key(),
                at,
            );
        assert(0 <= at && at + session_key().len() <= h.len() && occurs_at(h, session_key(), at));
    } else {
        lemma_scan_needs_key(h, end + 1);
    }
}

/// A header line that is no text, or that does not hold `session_id`
/// anywhere, carries no session identifier.
pub proof fn law_no_key_no_session(h: Seq<u8>)
    requires
        !valid_utf8(h) || !occurs_within(h, session_key(), 0, h.len() as int),
    ensures
        session_id_of(h) is None,
{
    if valid_utf8(h) && scan(h, 0) is Some {
        lemma_scan_needs_key(h, 0);
    }
}

} // verus!
