//! The wire formats of the interpretation backend: the streamed `VLBX`
//! frame preamble, 16-bit little-endian PCM carried across arbitrary chunk
//! boundaries, header values, and the mapping of backend failures to errors.
use crate::error::VerbalixError;
use crate::live::{InterpretOutcome, LiveSessionId, SegmentId, SegmentResult};
use crate::preferences_sync::{all_digits, digits_value, field_digits};
use crate::text::{decimal, decimal_string, joined};
use base64::Engine;
use vstd::prelude::*;

verus! {

/// The string a JSON document holds under `key` at its top level, as
/// `serde_json` parses it; `None` when the bytes do not parse as JSON or
/// hold no string under that key.
pub uninterp spec fn json_string_field(json: Seq<u8>, key: Seq<char>) -> Option<Seq<char>>;

/// Reads the string under `key` from a JSON document
/// (`serde_json::from_slice` into a `serde_json::Value`, then `Value::get`
/// and `Value::as_str`). The result is `json_string_field` of the bytes and
/// the key; JSON's grammar is not spelled out. Empty input is no JSON
/// document, so it holds no field.
#[verifier::external_body]
fn json_string_at(json: &[u8], key: &str) -> (r: Option<String>)
    ensures
        match r {
            Some(t) => json_string_field(json@, key@) == Some(t@),
            None => json_string_field(json@, key@) is None,
        },
        json@.len() == 0 ==> r is None,
{
    serde_json::from_slice::<serde_json::Value>(json).ok().and_then(
        |v| v.get(key).and_then(|s| s.as_str()).map(String::from),
    )
}

/// The `sourceText` of a frame's JSON: the string under that key, or empty
/// when the JSON does not parse or has no such string.
pub open spec fn source_text_spec(json: Seq<u8>) -> Seq<char> {
    match json_string_field(json, "sourceText"@) {
        Some(t) => t,
        None => Seq::empty(),
    }
}

/// Reads the `sourceText` of a frame's JSON; empty JSON, JSON that does not
/// parse and JSON without that string give the empty text.
pub fn source_text_of(json: &[u8]) -> (text: String)
    ensures
        text@ == source_text_spec(json@),
        json@.len() == 0 ==> text@.len() == 0,
{
    match json_string_at(json, "sourceText") {
        Some(t) => t,
        None => String::new(),
    }
}

/// The magic bytes that open a frame: `VLBX`.
pub open spec fn has_magic(buf: Seq<u8>) -> bool {
    buf.len() >= 4 && buf[0] == 0x56 && buf[1] == 0x4c && buf[2] == 0x42 && buf[3] == 0x58
}

/// The big-endian 32-bit value of four bytes.
pub open spec fn be_u32(b0: u8, b1: u8, b2: u8, b3: u8) -> nat {
    (b0 as nat) * 16777216 + (b1 as nat) * 65536 + (b2 as nat) * 256 + (b3 as nat)
}

/// The preamble of a frame, when `buf` holds it whole: the magic, a
/// big-endian length, and that many bytes of JSON. Its length and the
/// `sourceText` of its JSON.
pub open spec fn preamble(buf: Seq<u8>) -> Option<(nat, Seq<char>)> {
    if buf.len() < 8 || !has_magic(buf) {
        None
    } else {
        let total = 8 + be_u32(buf[4], buf[5], buf[6], buf[7]);
        if buf.len() < total {
            None
        } else {
            Some((total, source_text_spec(buf.subrange(8, total as int))))
        }
    }
}

/// Parses the preamble at the start of `buf`: `None` while it is
/// incomplete or when the magic is wrong. A preamble without JSON gives
/// the empty text.
pub fn parse_vlbx_preamble(buf: &[u8]) -> (r: Option<(usize, String)>)
    ensures
        match preamble(buf@) {
            Some((total, text)) => r matches Some((n, s)) && n == total && s@ == text,
            None => r is None,
        },
        r matches Some((n, s)) ==> (n == 8 ==> s@.len() == 0),
{
    if buf.len() < 8 {
        return None;
    }
    if !(buf[0] == 0x56 && buf[1] == 0x4c && buf[2] == 0x42 && buf[3] == 0x58) {
        return None;
    }
    let json_len: u64 = (buf[4] as u64) * 16777216 + (buf[5] as u64) * 65536 + (buf[6] as u64)
        * 256 + (buf[7] as u64);
    let total: u64 = 8 + json_len;
    if (buf.len() as u64) < total {
        return None;
    }
    let total = total as usize;
    let json = slice_range(buf, 8, total);
    Some((total, source_text_of(json)))
}

/// `buf[from..to]`.
pub(crate) fn slice_range(buf: &[u8], from: usize, to: usize) -> (s: &[u8])
    requires
        from <= to <= buf@.len(),
    ensures
        s@ == buf@.subrange(from as int, to as int),
{
    let (head, _) = buf.split_at(to);
    let (_, tail) = head.split_at(from);
    tail
}

/// The signed value of a little-endian 16-bit sample.
pub open spec fn sample_value(lo: u8, hi: u8) -> int {
    let u = (hi as int) * 256 + (lo as int);
    if u >= 32768 {
        u - 65536
    } else {
        u
    }
}

/// The samples of a byte string read as consecutive little-endian 16-bit
/// values; an odd last byte is not read.
pub open spec fn pcm_samples(bytes: Seq<u8>) -> Seq<int> {
    Seq::new(bytes.len() / 2, |i: int| sample_value(bytes[2 * i], bytes[2 * i + 1]))
}

/// The bytes a chunk is read with: the byte held back from the previous
/// chunk, then the chunk.
pub open spec fn with_remainder(remainder: Option<u8>, chunk: Seq<u8>) -> Seq<u8> {
    match remainder {
        Some(b) => seq![b] + chunk,
        None => chunk,
    }
}

fn sample_of(lo: u8, hi: u8) -> (v: i16)
    ensures
        v as int == sample_value(lo, hi),
{
    let u: i32 = (hi as i32) * 256 + (lo as i32);
    if u >= 32768 {
        (u - 65536) as i16
    } else {
        u as i16
    }
}

/// Reads the samples of a chunk of a 16-bit PCM stream. A byte left over
/// from the previous chunk is read first, and an odd byte at the end is
/// held back for the next chunk.
pub fn split_pcm_with_remainder(chunk: &[u8], remainder: &mut Option<u8>) -> (samples: Vec<i16>)
    ensures
        samples@.len() == pcm_samples(with_remainder(*old(remainder), chunk@)).len(),
        forall|i: int|
            0 <= i < samples@.len() ==> samples@[i] as int == pcm_samples(
                with_remainder(*old(remainder), chunk@),
            )[i],
        ({
            let full = with_remainder(*old(remainder), chunk@);
            *final(remainder) == if full.len() % 2 == 1 {
                Some(full.last())
            } else {
                None
            }
        }),
        samples@.map_values(|v: i16| v as int) == pcm_samples(with_remainder(*old(remainder), chunk@)),
        *final(remainder) == remainder_after(*old(remainder), chunk@),
{
    let mut full: Vec<u8> = Vec::new();
    let held = *remainder;
    if let Some(prev) = held {
        full.push(prev);
    }
    let mut k: usize = 0;
    while k < chunk.len()
        invariant
            k <= chunk@.len(),
            full@ == with_remainder(held, chunk@.subrange(0, k as int)),
        decreases chunk@.len() - k,
    {
        full.push(chunk[k]);
        proof {
            match held {
                Some(b) => {
                    assert(seq![b] + chunk@.subrange(0, k + 1) =~= (seq![b] + chunk@.subrange(0, k as int)).push(chunk@[k as int]));
                },
                None => {
                    assert(chunk@.subrange(0, k + 1) =~= chunk@.subrange(0, k as int).push(chunk@[k as int]));
                },
            }
        }
        k = k + 1;
    }
    assert(chunk@.subrange(0, chunk@.len() as int) =~= chunk@);
    let ghost f = full@;
    let total = full.len();
    let mut samples: Vec<i16> = Vec::new();
    let mut i: usize = 0;
    while i + 1 < total
        invariant
            f == full@,
            total == f.len(),
            i % 2 == 0,
            i <= total,
            samples@.len() == i / 2,
            forall|m: int| 0 <= m < samples@.len() ==> samples@[m] as int == pcm_samples(f)[m],
        decreases total - i,
    {
        let v = sample_of(full[i], full[i + 1]);
        samples.push(v);
        assert(pcm_samples(f)[(i / 2) as int] == sample_value(f[i as int], f[i + 1]));
        i = i + 2;
    }
    if total % 2 == 1 {
        *remainder = Some(full[total - 1]);
    } else {
        *remainder = None;
    }
    samples
}

/// What `u32::from_str` accepts: an optional `+` and at least one digit,
/// with a value that fits.
pub open spec fn parse_u32_spec(s: Seq<char>) -> Option<nat> {
    let d = field_digits(s);
    if d.len() > 0 && all_digits(d) && digits_value(d) <= u32::MAX {
        Some(digits_value(d))
    } else {
        None
    }
}

/// Parses a decimal `u32`, as a timing header carries it.
pub fn parse_u32(s: &str) -> (r: Option<u32>)
    ensures
        match parse_u32_spec(s@) {
            Some(n) => r == Some(n as u32),
            None => r is None,
        },
{
    let v = crate::text::chars_of(s);
    let ghost f = v@;
    let mut start: usize = 0;
    if v.len() > 0 && v[0] == '+' {
        start = 1;
    }
    let ghost d = v@.subrange(start as int, v.len() as int);
    assert(d == field_digits(f)) by {
        if f.len() > 0 && f[0] == '+' {
            assert(d =~= f.drop_first());
        } else {
            assert(d =~= f);
        }
    }
    if start == v.len() {
        return None;
    }
    let limit: u64 = 4294967295;
    let mut val: u64 = 0;
    let mut i = start;
    assert(v@.subrange(start as int, start as int) =~= Seq::<char>::empty());
    while i < v.len()
        invariant
            limit == 4294967295,
            start <= i <= v.len(),
            f == v@,
            f == s@,
            d == v@.subrange(start as int, v.len() as int),
            d == field_digits(f),
            forall|k: int| start <= k < i ==> crate::preferences_sync::is_digit(#[trigger] v@[k]),
            digits_value(v@.subrange(start as int, i as int)) <= limit ==> val == digits_value(
                v@.subrange(start as int, i as int),
            ),
            digits_value(v@.subrange(start as int, i as int)) > limit ==> val == limit + 1,
        decreases v.len() - i,
    {
        let c = v[i];
        if !('0' <= c && c <= '9') {
            assert(!crate::preferences_sync::is_digit(d[i - start]));
            assert(!all_digits(d));
            return None;
        }
        let digit: u64 = (c as u64) - ('0' as u64);
        proof {
            let s2 = v@.subrange(start as int, i + 1);
            assert(s2.drop_last() =~= v@.subrange(start as int, i as int));
        }
        if val > limit {
            proof {
                let p = digits_value(v@.subrange(start as int, i as int));
                assert(p * 10 + digit >= p) by (nonlinear_arith)
                    requires
                        p >= 0,
                        digit >= 0,
                ;
            }
            val = limit + 1;
        } else {
            let next = val * 10 + digit;
            val = if next > limit {
                limit + 1
            } else {
                next
            };
        }
        i = i + 1;
    }
    proof {
        assert(v@.subrange(start as int, v.len() as int) == d);
        assert forall|k: int| 0 <= k < d.len() implies crate::preferences_sync::is_digit(#[trigger] d[k]) by {
            assert(d[k] == v@[start + k]);
        }
    }
    if val > limit {
        None
    } else {
        Some(val as u32)
    }
}

/// The request id of one segment: `<session>-<segment>` in decimal.
pub fn interpret_request_id(session_id: LiveSessionId, segment_id: SegmentId) -> (id: String)
    ensures
        id@ == decimal(session_id.0 as nat) + seq!['-'] + decimal(segment_id.0 as nat),
{
    let s = decimal_string(session_id.0);
    let s = joined(s.as_str(), "-");
    let seg = decimal_string(segment_id.0 as u128);
    proof {
        reveal_strlit("-");
    }
    joined(s.as_str(), seg.as_str())
}

/// The error of a failed interpretation: the stage the backend names in
/// its error code, else by HTTP status.
pub open spec fn interpret_error_spec(code: Option<Seq<char>>, status: u16) -> VerbalixError {
    if code == Some("STT_FAILED"@) {
        VerbalixError::SttFailed
    } else if code == Some("TRANSLATION_FAILED"@) {
        VerbalixError::TranslationFailed
    } else if code == Some("TTS_FAILED"@) {
        VerbalixError::TtsFailed
    } else if status == 401 || status == 403 {
        VerbalixError::Unauthenticated
    } else if status == 404 {
        VerbalixError::VoiceProfileMissing
    } else if status == 504 {
        VerbalixError::ProviderTimeout
    } else {
        VerbalixError::InterpretationFailed
    }
}

pub open spec fn opt_str_view(o: Option<&str>) -> Option<Seq<char>> {
    match o {
        Some(s) => Some(s@),
        None => None,
    }
}

/// Maps a failed interpretation response (its error code, when the body
/// carried one, and its HTTP status) to an error.
pub fn interpret_error(code: Option<&str>, status: u16) -> (e: VerbalixError)
    ensures
        e == interpret_error_spec(opt_str_view(code), status),
{
    if let Some(c) = code {
        if crate::text::same_text(c, "STT_FAILED") {
            return VerbalixError::SttFailed;
        }
        if crate::text::same_text(c, "TRANSLATION_FAILED") {
            return VerbalixError::TranslationFailed;
        }
        if crate::text::same_text(c, "TTS_FAILED") {
            return VerbalixError::TtsFailed;
        }
    }
    if status == 401 || status == 403 {
        VerbalixError::Unauthenticated
    } else if status == 404 {
        VerbalixError::VoiceProfileMissing
    } else if status == 504 {
        VerbalixError::ProviderTimeout
    } else {
        VerbalixError::InterpretationFailed
    }
}

/// The error of a failed voice-profile request, by status.
pub open spec fn enrollment_status_error_spec(status: u16) -> VerbalixError {
    if status == 401 || status == 403 {
        VerbalixError::Unauthenticated
    } else if status == 504 {
        VerbalixError::ProviderTimeout
    } else {
        VerbalixError::EnrollmentFailed
    }
}

/// Maps a failed voice-enrollment response status to an error.
pub fn enrollment_status_error(status: u16) -> (e: VerbalixError)
    ensures
        e == enrollment_status_error_spec(status),
{
    if status == 401 || status == 403 {
        VerbalixError::Unauthenticated
    } else if status == 504 {
        VerbalixError::ProviderTimeout
    } else {
        VerbalixError::EnrollmentFailed
    }
}

/// The character of the standard base64 alphabet for a 6-bit value:
/// `A`-`Z`, `a`-`z`, `0`-`9`, `+`, `/`.
pub open spec fn base64_char(n: nat) -> char {
    if n < 26 {
        (('A' as nat) + n) as char
    } else if n < 52 {
        (('a' as nat) + (n - 26)) as char
    } else if n < 62 {
        (('0' as nat) + (n - 52)) as char
    } else if n == 62 {
        '+'
    } else {
        '/'
    }
}

/// The four characters for three bytes, or for one or two bytes padded
/// with `=`.
pub open spec fn base64_group(b0: u8, b1: u8, b2: u8, len: nat) -> Seq<char> {
    let v = (b0 as nat) * 65536 + (b1 as nat) * 256 + (b2 as nat);
    let c0 = base64_char(v / 262144);
    let c1 = base64_char((v / 4096) % 64);
    let c2 = if len >= 2 {
        base64_char((v / 64) % 64)
    } else {
        '='
    };
    let c3 = if len >= 3 {
        base64_char(v % 64)
    } else {
        '='
    };
    seq![c0, c1, c2, c3]
}

/// The text standard padded base64 encodes `bytes` to: each group of three
/// bytes becomes four characters, and a last group of one or two bytes is
/// padded with `=`.
pub open spec fn base64_encoded(bytes: Seq<u8>) -> Seq<char>
    decreases bytes.len(),
{
    if bytes.len() == 0 {
        Seq::empty()
    } else if bytes.len() == 1 {
        base64_group(bytes[0], 0, 0, 1)
    } else if bytes.len() == 2 {
        base64_group(bytes[0], bytes[1], 0, 2)
    } else {
        base64_group(bytes[0], bytes[1], bytes[2], 3) + base64_encoded(
            bytes.subrange(3, bytes.len() as int),
        )
    }
}

proof fn lemma_base64_char_injective(m: nat, n: nat)
    requires
        m < 64,
        n < 64,
        base64_char(m) == base64_char(n),
    ensures
        m == n,
{
}

proof fn lemma_base64_char_not_pad(n: nat)
    requires
        n < 64,
    ensures
        base64_char(n) != '=',
{
}

/// The four characters of a group give back its bytes.
proof fn lemma_base64_group_injective(x0: u8, x1: u8, x2: u8, y0: u8, y1: u8, y2: u8, len: nat)
    requires
        1 <= len <= 3,
        base64_group(x0, x1, x2, len) == base64_group(y0, y1, y2, len),
        len < 2 ==> x1 == 0 && y1 == 0,
        len < 3 ==> x2 == 0 && y2 == 0,
    ensures
        x0 == y0 && x1 == y1 && x2 == y2,
{
    let vx: u32 = ((x0 as u32) * 65536 + (x1 as u32) * 256 + (x2 as u32)) as u32;
    let vy: u32 = ((y0 as u32) * 65536 + (y1 as u32) * 256 + (y2 as u32)) as u32;
    let gx = base64_group(x0, x1, x2, len);
    let gy = base64_group(y0, y1, y2, len);
    assert(vx < 16777216 && vy < 16777216);
    assert(vx / 262144 < 64 && vy / 262144 < 64);
    assert(gx[0] == gy[0] && gx[1] == gy[1] && gx[2] == gy[2] && gx[3] == gy[3]);
    lemma_base64_char_injective((vx / 262144) as nat, (vy / 262144) as nat);
    lemma_base64_char_injective(((vx / 4096) % 64) as nat, ((vy / 4096) % 64) as nat);
    if len >= 2 {
        lemma_base64_char_injective(((vx / 64) % 64) as nat, ((vy / 64) % 64) as nat);
    }
    if len >= 3 {
        lemma_base64_char_injective((vx % 64) as nat, (vy % 64) as nat);
    }
    if len == 1 {
        bv_one_byte(x0, y0, vx, vy);
    } else if len == 2 {
        bv_two_bytes(x0, x1, y0, y1, vx, vy);
    } else {
        bv_three_bytes(x0, x1, x2, y0, y1, y2, vx, vy);
    }
}

proof fn lemma_base64_len(b: Seq<u8>)
    ensures
        base64_encoded(b).len() == 4 * ((b.len() + 2) / 3),
    decreases b.len(),
{
    if b.len() >= 3 {
        lemma_base64_len(b.subrange(3, b.len() as int));
    }
}

/// Standard base64 loses nothing: different bytes encode to different text.
pub proof fn lemma_base64_injective(a: Seq<u8>, b: Seq<u8>)
    requires
        base64_encoded(a) == base64_encoded(b),
    ensures
        a == b,
    decreases a.len(),
{
    lemma_base64_len(a);
    lemma_base64_len(b);
    let e = base64_encoded(a);
    if a.len() == 0 || b.len() == 0 {
        assert(a.len() == 0 && b.len() == 0);
        assert(a =~= b);
    } else {
        let ga = if a.len() == 1 {
            base64_group(a[0], 0, 0, 1)
        } else if a.len() == 2 {
            base64_group(a[0], a[1], 0, 2)
        } else {
            base64_group(a[0], a[1], a[2], 3)
        };
        let gb = if b.len() == 1 {
            base64_group(b[0], 0, 0, 1)
        } else if b.len() == 2 {
            base64_group(b[0], b[1], 0, 2)
        } else {
            base64_group(b[0], b[1], b[2], 3)
        };
        assert(e.subrange(0, 4) =~= ga);
        assert(e.subrange(0, 4) =~= gb);
        let va = (a[0] as nat) * 65536 + (if a.len() >= 2 { a[1] as nat } else { 0 }) * 256 + (if a.len() >= 3 { a[2] as nat } else { 0 });
        let vb = (b[0] as nat) * 65536 + (if b.len() >= 2 { b[1] as nat } else { 0 }) * 256 + (if b.len() >= 3 { b[2] as nat } else { 0 });
        assert(va < 16777216 && vb < 16777216);
        lemma_base64_char_not_pad((va / 64) % 64);
        lemma_base64_char_not_pad(va % 64);
        lemma_base64_char_not_pad((vb / 64) % 64);
        lemma_base64_char_not_pad(vb % 64);
        assert(ga[2] == '=' <==> a.len() == 1);
        assert(gb[2] == '=' <==> b.len() == 1);
        assert(ga[3] == '=' <==> a.len() <= 2);
        assert(gb[3] == '=' <==> b.len() <= 2);
        if a.len() == 1 {
            assert(b.len() == 1);
            lemma_base64_group_injective(a[0], 0, 0, b[0], 0, 0, 1);
            assert(a =~= b);
        } else if a.len() == 2 {
            assert(b.len() == 2);
            lemma_base64_group_injective(a[0], a[1], 0, b[0], b[1], 0, 2);
            assert(a =~= b);
        } else {
            assert(b.len() >= 3);
            lemma_base64_group_injective(a[0], a[1], a[2], b[0], b[1], b[2], 3);
            let ra = a.subrange(3, a.len() as int);
            let rb = b.subrange(3, b.len() as int);
            assert(base64_encoded(ra) =~= e.subrange(4, e.len() as int));
            assert(base64_encoded(rb) =~= e.subrange(4, e.len() as int));
            lemma_base64_injective(ra, rb);
            assert(a =~= seq![a[0], a[1], a[2]] + ra);
            assert(b =~= seq![b[0], b[1], b[2]] + rb);
        }
    }
}

/// The bytes standard padded base64 text decodes to: the bytes it is the
/// encoding of, or `None` when it encodes none (the decoder takes only
/// canonical padded text).
pub open spec fn base64_decoded(text: Seq<char>) -> Option<Seq<u8>> {
    if exists|b: Seq<u8>| base64_encoded(b) == text {
        Some(choose|b: Seq<u8>| base64_encoded(b) == text)
    } else {
        None
    }
}

proof fn bv_one_byte(x0: u8, y0: u8, vx: u32, vy: u32)
    by (bit_vector)
    requires
        vx == (x0 as u32) * 65536,
        vy == (y0 as u32) * 65536,
        vx / 262144 == vy / 262144,
        (vx / 4096) % 64 == (vy / 4096) % 64,
    ensures
        x0 == y0,
{
}

proof fn bv_two_bytes(x0: u8, x1: u8, y0: u8, y1: u8, vx: u32, vy: u32)
    by (bit_vector)
    requires
        vx == (x0 as u32) * 65536 + (x1 as u32) * 256,
        vy == (y0 as u32) * 65536 + (y1 as u32) * 256,
        vx / 262144 == vy / 262144,
        (vx / 4096) % 64 == (vy / 4096) % 64,
        (vx / 64) % 64 == (vy / 64) % 64,
    ensures
        x0 == y0 && x1 == y1,
{
}

proof fn bv_three_bytes(x0: u8, x1: u8, x2: u8, y0: u8, y1: u8, y2: u8, vx: u32, vy: u32)
    by (bit_vector)
    requires
        vx == (x0 as u32) * 65536 + (x1 as u32) * 256 + (x2 as u32),
        vy == (y0 as u32) * 65536 + (y1 as u32) * 256 + (y2 as u32),
        vx / 262144 == vy / 262144,
        (vx / 4096) % 64 == (vy / 4096) % 64,
        (vx / 64) % 64 == (vy / 64) % 64,
        vx % 64 == vy % 64,
    ensures
        x0 == y0 && x1 == y1 && x2 == y2,
{
}

/// Encodes bytes as standard padded base64
/// (`base64::engine::general_purpose::STANDARD.encode`): the text is
/// `base64_encoded` of the bytes.
#[verifier::external_body]
fn encode_base64(bytes: &[u8]) -> (text: String)
    ensures
        text@ == base64_encoded(bytes@),
{
    base64::engine::general_purpose::STANDARD.encode(bytes)
}

/// The audio of a segment as the request carries it: its WAV bytes in
/// base64.
pub fn wav_base64(wav_bytes: &[u8]) -> (text: String)
    ensures
        text@ == base64_encoded(wav_bytes@),
{
    encode_base64(wav_bytes)
}

/// The endpoint of the interpretation function under the backend's base URL.
pub fn interpret_url(base_url: &str) -> (url: String)
    ensures
        url@ == base_url@ + "/functions/v1/interpret"@,
{
    joined(base_url, "/functions/v1/interpret")
}

/// What the backend answered to one segment.
#[derive(Debug)]
pub enum InterpretAnswer {
    /// The request could not be sent.
    Unreachable,
    /// A failure status, with the error code of the body when it carried one.
    Failed { code: Option<String>, status: u16 },
    /// A success whose body did not parse.
    Unreadable,
    /// A success with the interpreted segment.
    Delivered(SegmentResult),
}

pub open spec fn opt_string_view(o: Option<String>) -> Option<Seq<char>> {
    match o {
        Some(s) => Some(s@),
        None => None,
    }
}

/// The outcome of one segment for the backend's answer: an unreachable
/// backend is an interpretation failure, a failure status is mapped as
/// `interpret_error` says, an unreadable body is an invalid response.
pub fn interpret_outcome(session_id: LiveSessionId, segment_id: SegmentId, answer: InterpretAnswer) -> (o:
    InterpretOutcome)
    ensures
        o.session_id == session_id,
        o.segment_id == segment_id,
        match answer {
            InterpretAnswer::Unreachable => o.result == Err::<SegmentResult, VerbalixError>(
                VerbalixError::InterpretationFailed,
            ),
            InterpretAnswer::Failed { code, status } => o.result == Err::<SegmentResult, VerbalixError>(
                interpret_error_spec(opt_string_view(code), status),
            ),
            InterpretAnswer::Unreadable => o.result == Err::<SegmentResult, VerbalixError>(
                VerbalixError::InvalidResponse,
            ),
            InterpretAnswer::Delivered(r) => o.result == Ok::<SegmentResult, VerbalixError>(r),
        },
{
    let result = match answer {
        InterpretAnswer::Unreachable => Err(VerbalixError::InterpretationFailed),
        InterpretAnswer::Failed { code, status } => {
            let e = match &code {
                Some(c) => interpret_error(Some(c.as_str()), status),
                None => interpret_error(None, status),
            };
            Err(e)
        },
        InterpretAnswer::Unreadable => Err(VerbalixError::InvalidResponse),
        InterpretAnswer::Delivered(r) => Ok(r),
    };
    InterpretOutcome { session_id, segment_id, result }
}

/// A stage timing header in milliseconds: 0 when it is absent or is not a
/// `u32`.
pub fn header_ms(value: Option<&str>) -> (ms: u32)
    ensures
        ms == match opt_str_view(value) {
            Some(v) => match parse_u32_spec(v) {
                Some(n) => n,
                None => 0,
            },
            None => 0,
        },
{
    match value {
        Some(v) => match parse_u32(v) {
            Some(n) => n,
            None => 0,
        },
        None => 0,
    }
}

/// A text header, or `default` when it is absent.
pub fn header_or(value: Option<&str>, default: &str) -> (s: String)
    ensures
        s@ == match opt_str_view(value) {
            Some(v) => v,
            None => default@,
        },
{
    match value {
        Some(v) => v.to_owned(),
        None => default.to_owned(),
    }
}

/// Collects the first chunks of a streamed answer until its preamble is
/// whole.
pub struct PreambleReader {
    buf: Vec<u8>,
}

impl PreambleReader {
    pub fn new() -> (r: Self)
        ensures
            r.buffered() == Seq::<u8>::empty(),
    {
        PreambleReader { buf: Vec::new() }
    }

    /// What arrived so far.
    pub closed spec fn buffered(&self) -> Seq<u8> {
        self.buf@
    }

    /// Adds a chunk. Once the preamble is whole, yields its `sourceText` and
    /// the PCM bytes that followed it in what arrived so far.
    pub fn push(&mut self, chunk: &[u8]) -> (r: Option<(String, Vec<u8>)>)
        ensures
            final(self).buffered() == old(self).buffered() + chunk@,
            match preamble(final(self).buffered()) {
                Some((total, text)) => r matches Some((s, pcm)) && s@ == text && pcm@
                    == final(self).buffered().subrange(total as int, final(self).buffered().len() as int),
                None => r is None,
            },
    {
        let mut k: usize = 0;
        let ghost start = self.buf@;
        while k < chunk.len()
            invariant
                k <= chunk@.len(),
                self.buf@ == start + chunk@.subrange(0, k as int),
            decreases chunk@.len() - k,
        {
            self.buf.push(chunk[k]);
            assert(start + chunk@.subrange(0, k + 1) =~= (start + chunk@.subrange(0, k as int)).push(
                chunk@[k as int],
            ));
            k = k + 1;
        }
        assert(chunk@.subrange(0, chunk@.len() as int) =~= chunk@);
        match parse_vlbx_preamble(self.buf.as_slice()) {
            Some((total, text)) => {
                let n = self.buf.len();
                let mut pcm: Vec<u8> = Vec::new();
                let mut j: usize = total;
                while j < n
                    invariant
                        total <= j <= n,
                        n == self.buf@.len(),
                        pcm@ == self.buf@.subrange(total as int, j as int),
                    decreases n - j,
                {
                    pcm.push(self.buf[j]);
                    assert(self.buf@.subrange(total as int, j + 1) =~= self.buf@.subrange(
                        total as int,
                        j as int,
                    ).push(self.buf@[j as int]));
                    j = j + 1;
                }
                Some((text, pcm))
            },
            None => None,
        }
    }
}

/// What a voice-profile status answer means before its body is read: a
/// missing profile (`Ok(false)`), a body to read (`Ok(true)`), or the error
/// of a failure status.
pub fn voice_status_answer(status: u16) -> (r: Result<bool, VerbalixError>)
    ensures
        status == 404 ==> r == Ok::<bool, VerbalixError>(false),
        status != 404 && 200 <= status < 300 ==> r == Ok::<bool, VerbalixError>(true),
        status != 404 && !(200 <= status < 300) ==> r == Err::<bool, VerbalixError>(
            enrollment_status_error_spec(status),
        ),
{
    if status == 404 {
        Ok(false)
    } else if 200 <= status && status < 300 {
        Ok(true)
    } else {
        Err(enrollment_status_error(status))
    }
}

/// The byte held back after reading `chunk` with the byte held before.
pub open spec fn remainder_after(prev: Option<u8>, chunk: Seq<u8>) -> Option<u8> {
    let full = with_remainder(prev, chunk);
    if full.len() % 2 == 1 {
        Some(full.last())
    } else {
        None
    }
}

proof fn lemma_pcm_samples_concat(x: Seq<u8>, y: Seq<u8>)
    requires
        x.len() % 2 == 0,
    ensures
        pcm_samples(x + y) == pcm_samples(x) + pcm_samples(y),
{
    let k = x.len() / 2;
    let xy = x + y;
    assert(xy.len() / 2 == k + y.len() / 2) by (nonlinear_arith)
        requires
            xy.len() == x.len() + y.len(),
            x.len() % 2 == 0,
            k == x.len() / 2,
    ;
    assert forall|i: int| 0 <= i < xy.len() / 2 implies #[trigger] pcm_samples(xy)[i] == (
    pcm_samples(x) + pcm_samples(y))[i] by {
        if i < k {
            assert(2 * i + 1 < x.len());
            assert(xy[2 * i] == x[2 * i]);
            assert(xy[2 * i + 1] == x[2 * i + 1]);
        } else {
            let j = i - k;
            assert(2 * i == x.len() + 2 * j);
            assert(xy[2 * i] == y[2 * j]);
            assert(xy[2 * i + 1] == y[2 * j + 1]);
        }
    }
    assert(pcm_samples(xy) =~= pcm_samples(x) + pcm_samples(y));
}

proof fn lemma_pcm_samples_odd(f: Seq<u8>)
    requires
        f.len() % 2 == 1,
    ensures
        pcm_samples(f) == pcm_samples(f.drop_last()),
{
    assert(f.len() / 2 == f.drop_last().len() / 2);
    assert(pcm_samples(f) =~= pcm_samples(f.drop_last()));
}

/// Cutting a stream into chunks does not change its samples: reading `a`
/// and then `b`, carrying the odd byte across, gives the samples of `a`
/// and `b` read as one chunk.
pub proof fn lemma_chunking_preserves_samples(prev: Option<u8>, a: Seq<u8>, b: Seq<u8>)
    ensures
        pcm_samples(with_remainder(prev, a)) + pcm_samples(
            with_remainder(remainder_after(prev, a), b),
        ) == pcm_samples(with_remainder(prev, a + b)),
{
    let f = with_remainder(prev, a);
    assert(with_remainder(prev, a + b) =~= f + b);
    if f.len() % 2 == 0 {
        assert(with_remainder(remainder_after(prev, a), b) == b);
        lemma_pcm_samples_concat(f, b);
    } else {
        let d = f.drop_last();
        lemma_pcm_samples_odd(f);
        assert(with_remainder(remainder_after(prev, a), b) =~= seq![f.last()] + b);
        assert(f + b =~= d + (seq![f.last()] + b));
        lemma_pcm_samples_concat(d, seq![f.last()] + b);
    }
}

/// The byte held back across two chunks is the byte held back across the
/// two read as one.
proof fn lemma_remainder_composes(prev: Option<u8>, a: Seq<u8>, b: Seq<u8>)
    ensures
        remainder_after(remainder_after(prev, a), b) == remainder_after(prev, a + b),
{
    let f = with_remainder(prev, a);
    assert(with_remainder(prev, a + b) =~= f + b);
    if f.len() % 2 == 1 {
        assert(with_remainder(remainder_after(prev, a), b) =~= seq![f.last()] + b);
        if b.len() == 0 {
            assert(f + b =~= f);
        }
    } else {
        if b.len() == 0 {
            assert(f + b =~= f);
        }
    }
}

/// The samples that reading `chunks` one after another yields, the odd
/// byte carried from each chunk into the next, starting with `prev` held:
/// what successive calls of `split_pcm_with_remainder` return, by its
/// contract.
pub open spec fn chunk_samples(prev: Option<u8>, chunks: Seq<Seq<u8>>) -> Seq<int>
    decreases chunks.len(),
{
    if chunks.len() == 0 {
        Seq::empty()
    } else {
        pcm_samples(with_remainder(prev, chunks[0])) + chunk_samples(
            remainder_after(prev, chunks[0]),
            chunks.drop_first(),
        )
    }
}

/// The byte held back after reading `chunks` one after another.
pub open spec fn chunk_remainder(prev: Option<u8>, chunks: Seq<Seq<u8>>) -> Option<u8>
    decreases chunks.len(),
{
    if chunks.len() == 0 {
        prev
    } else {
        chunk_remainder(remainder_after(prev, chunks[0]), chunks.drop_first())
    }
}

/// Chunk boundaries do not matter, even inside a sample: reading any number
/// of chunks one after another gives the samples of their concatenation
/// read at once, and holds back its odd last byte, if any.
pub proof fn lemma_chunk_boundaries_do_not_matter(prev: Option<u8>, chunks: Seq<Seq<u8>>)
    ensures
        chunk_samples(prev, chunks) == pcm_samples(with_remainder(prev, chunks.flatten())),
        chunk_remainder(prev, chunks) == remainder_after(prev, chunks.flatten()),
    decreases chunks.len(),
{
    if chunks.len() == 0 {
        assert(pcm_samples(with_remainder(prev, Seq::<u8>::empty())).len() == 0);
        assert(pcm_samples(with_remainder(prev, Seq::<u8>::empty())) =~= Seq::<int>::empty());
        assert(with_remainder(prev, Seq::<u8>::empty()).len() % 2 == 1 ==> prev is Some);
        match prev {
            Some(b) => assert(with_remainder(prev, Seq::<u8>::empty()) =~= seq![b]),
            None => {},
        }
    } else {
        let c = chunks[0];
        let rest = chunks.drop_first();
        lemma_chunk_boundaries_do_not_matter(remainder_after(prev, c), rest);
        assert(chunks.flatten() == c + rest.flatten());
        lemma_chunking_preserves_samples(prev, c, rest.flatten());
        lemma_remainder_composes(prev, c, rest.flatten());
    }
}

/// Successive calls of `split_pcm_with_remainder` on chunks `c1 .. cn`,
/// starting with no byte held, return together the samples of
/// `c1 ++ .. ++ cn` read at once, and end holding its odd last byte, if any:
/// chunk boundaries, even inside a sample, do not matter. `outs[i]` is what
/// the call on `chunks[i]` returned (as integers) and `held[i]` the byte held
/// before it.
pub proof fn lemma_split_runs_read_the_whole_stream(
    chunks: Seq<Seq<u8>>,
    outs: Seq<Seq<int>>,
    held: Seq<Option<u8>>,
)
    requires
        outs.len() == chunks.len(),
        held.len() == chunks.len() + 1,
        held[0] is None,
        forall|i: int|
            0 <= i < chunks.len() ==> #[trigger] outs[i] == pcm_samples(with_remainder(held[i], chunks[i]))
                && held[i + 1] == remainder_after(held[i], chunks[i]),
    ensures
        outs.flatten() == pcm_samples(chunks.flatten()),
        held.last() == remainder_after(None, chunks.flatten()),
{
    let n = chunks.len() as int;
    split_runs_suffix(chunks, outs, held, 0);
    assert(chunks.subrange(0, n) =~= chunks);
    assert(outs.subrange(0, n) =~= outs);
    lemma_chunk_boundaries_do_not_matter(None, chunks);
    assert(with_remainder(None, chunks.flatten()) == chunks.flatten());
}

proof fn split_runs_suffix(chunks: Seq<Seq<u8>>, outs: Seq<Seq<int>>, held: Seq<Option<u8>>, k: int)
    requires
        outs.len() == chunks.len(),
        held.len() == chunks.len() + 1,
        forall|i: int|
            0 <= i < chunks.len() ==> #[trigger] outs[i] == pcm_samples(with_remainder(held[i], chunks[i]))
                && held[i + 1] == remainder_after(held[i], chunks[i]),
        0 <= k <= chunks.len(),
    ensures
        outs.subrange(k, outs.len() as int).flatten() == chunk_samples(
            held[k],
            chunks.subrange(k, chunks.len() as int),
        ),
        chunk_remainder(held[k], chunks.subrange(k, chunks.len() as int)) == held[chunks.len() as int],
    decreases chunks.len() - k,
{
    let n = chunks.len() as int;
    if k < n {
        split_runs_suffix(chunks, outs, held, k + 1);
        let cs = chunks.subrange(k, n);
        let os = outs.subrange(k, n);
        assert(cs[0] == chunks[k]);
        assert(cs.drop_first() =~= chunks.subrange(k + 1, n));
        assert(os[0] == outs[k]);
        assert(os.drop_first() =~= outs.subrange(k + 1, n));
        assert(outs[k] == pcm_samples(with_remainder(held[k], chunks[k])));
    } else {
        assert(chunks.subrange(k, n).len() == 0);
        assert(outs.subrange(k, n) =~= Seq::<Seq<int>>::empty());
    }
}

} // verus!
