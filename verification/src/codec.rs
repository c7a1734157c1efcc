//! Envelope codec of the gateway.
//!
//! Every WebSocket frame carries a tagged envelope `{"event": E, "data": D}`.
//! The codec decodes the envelope head lazily — the event tag first, the
//! payload only once the dispatcher knows its shape from the tag — and
//! encodes the outbound pong reply.  The accepted frame grammar is the
//! compact form the peers emit: fixed field order, no interior whitespace,
//! plain ASCII strings without escapes, and decimal integers of at most
//! nine digits (unsigned fields) or eighteen digits (signed fields).
//!
//! A frame that is not of this shape fails to decode as a malformed
//! envelope; a well-formed envelope whose event tag is not a known inbound
//! event fails as an unknown event.  Both are non-fatal: the actor drops
//! the frame and keeps the connection open.

use vstd::prelude::*;

use crate::shards::{PingPayload, ShardPingPayload, ShardUpdatePayload};

verus! {

/// Event kinds the actor sends.
#[derive(Debug, Clone, Copy, PartialEq, Eq, Structural)]
pub enum SocketSendEvent {
    Ready,
    BotPong,
}

/// Event kinds the actor understands on inbound frames.
#[derive(Debug, Clone, Copy, PartialEq, Eq, Structural)]
pub enum SocketReceiveEvent {
    BotUpdate,
}

/// Why a frame was dropped.
#[derive(Debug, Clone, Copy, PartialEq, Eq, Structural)]
pub enum DecodeError {
    /// The frame is not an envelope of the expected shape.
    MalformedEnvelope,
    /// The envelope is well-formed but its event tag names no known
    /// inbound event.
    UnknownEvent,
}

/// The literal `lit` occurs in `s` at position `i`.
pub open spec fn lit_at(s: Seq<u8>, i: int, lit: Seq<u8>) -> bool {
    &&& 0 <= i
    &&& i + lit.len() <= s.len()
    &&& s.subrange(i, i + lit.len()) == lit
}

pub open spec fn is_digit(b: u8) -> bool {
    '0' as u8 <= b <= '9' as u8
}

/// End of the run of decimal digits starting at `i`.
pub open spec fn digit_run_end(s: Seq<u8>, i: int) -> int
    decreases s.len() - i,
{
    if i < 0 || i >= s.len() {
        i
    } else if is_digit(s[i]) {
        digit_run_end(s, i + 1)
    } else {
        i
    }
}

/// Value of a sequence of decimal digit bytes.
pub open spec fn digits_val(ds: Seq<u8>) -> int
    decreases ds.len(),
{
    if ds.len() == 0 {
        0
    } else {
        digits_val(ds.drop_last()) * 10 + (ds.last() - '0' as u8)
    }
}

pub open spec fn pow10(n: nat) -> int
    decreases n,
{
    if n == 0 {
        1
    } else {
        10 * pow10((n - 1) as nat)
    }
}

proof fn lemma_digit_run_end(s: Seq<u8>, i: int)
    requires
        0 <= i <= s.len(),
    ensures
        i <= digit_run_end(s, i) <= s.len(),
        forall|k: int| i <= k < digit_run_end(s, i) ==> is_digit(#[trigger] s[k]),
        digit_run_end(s, i) < s.len() ==> !is_digit(s[digit_run_end(s, i)]),
    decreases s.len() - i,
{
    if i < s.len() && is_digit(s[i]) {
        lemma_digit_run_end(s, i + 1);
    }
}

proof fn lemma_digits_val_bound(ds: Seq<u8>)
    requires
        forall|k: int| 0 <= k < ds.len() ==> is_digit(#[trigger] ds[k]),
    ensures
        0 <= digits_val(ds) < pow10(ds.len()),
    decreases ds.len(),
{
    if ds.len() > 0 {
        assert(forall|k: int|
            0 <= k < ds.drop_last().len() ==> is_digit(#[trigger] ds.drop_last()[k]));
        lemma_digits_val_bound(ds.drop_last());
        assert(is_digit(ds.last()));
    }
}

proof fn lemma_pow10_pos(n: nat)
    ensures
        pow10(n) > 0,
    decreases n,
{
    if n > 0 {
        lemma_pow10_pos((n - 1) as nat);
    }
}

proof fn lemma_pow10_mono(a: nat, b: nat)
    requires
        a <= b,
    ensures
        0 < pow10(a) <= pow10(b),
    decreases b,
{
    lemma_pow10_pos(a);
    if a < b {
        lemma_pow10_mono(a, (b - 1) as nat);
    }
}

proof fn lemma_pow10_values()
    ensures
        pow10(9) == 1000000000,
        pow10(18) == 1000000000000000000,
{
    assert(pow10(0) == 1);
    assert(pow10(1) == 10);
    assert(pow10(2) == 100);
    assert(pow10(3) == 1000);
    assert(pow10(4) == 10000);
    assert(pow10(5) == 100000);
    assert(pow10(6) == 1000000);
    assert(pow10(7) == 10000000);
    assert(pow10(8) == 100000000);
    assert(pow10(9) == 1000000000);
    assert(pow10(10) == 10000000000);
    assert(pow10(11) == 100000000000);
    assert(pow10(12) == 1000000000000);
    assert(pow10(13) == 10000000000000);
    assert(pow10(14) == 100000000000000);
    assert(pow10(15) == 1000000000000000);
    assert(pow10(16) == 10000000000000000);
    assert(pow10(17) == 100000000000000000);
    assert(pow10(18) == 1000000000000000000);
}

/// An unsigned decimal integer of one to nine digits.
pub open spec fn spec_parse_u32(s: Seq<u8>, i: int) -> Option<(u32, int)> {
    let e = digit_run_end(s, i);
    if e == i || e - i > 9 {
        None
    } else {
        Some((digits_val(s.subrange(i, e)) as u32, e))
    }
}

/// A signed decimal integer: an optional minus sign and one to eighteen
/// digits.
pub open spec fn spec_parse_i64(s: Seq<u8>, i: int) -> Option<(i64, int)> {
    if 0 <= i < s.len() && s[i] == '-' as u8 {
        let e = digit_run_end(s, i + 1);
        if e == i + 1 || e - (i + 1) > 18 {
            None
        } else {
            Some(((-digits_val(s.subrange(i + 1, e))) as i64, e))
        }
    } else {
        let e = digit_run_end(s, i);
        if e == i || e - i > 18 {
            None
        } else {
            Some((digits_val(s.subrange(i, e)) as i64, e))
        }
    }
}

/// Scans the digit run starting at `at`.
fn scan_digits(frame: &[u8], at: usize) -> (e: usize)
    requires
        at <= frame@.len(),
    ensures
        e == digit_run_end(frame@, at as int),
        at <= e <= frame@.len(),
{
    proof {
        lemma_digit_run_end(frame@, at as int);
    }
    let ghost s = frame@;
    let mut j: usize = at;
    while j < frame.len() && frame[j] >= '0' as u8 && frame[j] <= '9' as u8
        invariant
            at <= j <= s.len(),
            s == frame@,
            forall|k: int| at <= k < j ==> is_digit(#[trigger] s[k]),
        decreases s.len() - j,
    {
        j = j + 1;
    }
    proof {
        let e = digit_run_end(s, at as int);
        if j < e {
            assert(is_digit(s[j as int]));
            assert(false);
        } else if j > e {
            assert(is_digit(s[e]));
            assert(!is_digit(s[e]));
            assert(false);
        }
    }
    j
}

/// Parses an unsigned decimal integer of at most nine digits.
fn parse_u32(frame: &[u8], at: usize) -> (r: Option<(u32, usize)>)
    requires
        at <= frame@.len(),
    ensures
        r is None <==> spec_parse_u32(frame@, at as int) is None,
        r matches Some((v, j)) ==> spec_parse_u32(frame@, at as int) == Some((v, j as int))
            && at < j <= frame@.len(),
{
    let ghost s = frame@;
    let e = scan_digits(frame, at);
    if e == at || e - at > 9 {
        return None;
    }
    proof {
        lemma_digit_run_end(s, at as int);
        lemma_pow10_values();
    }
    let mut val: u32 = 0;
    let mut k: usize = at;
    while k < e
        invariant
            at <= k <= e <= s.len(),
            s == frame@,
            e - at <= 9,
            e == digit_run_end(s, at as int),
            forall|m: int| at <= m < e ==> is_digit(#[trigger] s[m]),
            val == digits_val(s.subrange(at as int, k as int)),
            0 <= val < pow10((k - at) as nat),
            pow10(9) == 1000000000,
        decreases e - k,
    {
        let d = frame[k] - '0' as u8;
        proof {
            let pre = s.subrange(at as int, k as int);
            let post = s.subrange(at as int, k + 1);
            assert(post =~= pre.push(s[k as int]));
            assert(post.last() == s[k as int]);
            assert(post.drop_last() =~= pre);
            assert(digits_val(post) == digits_val(pre) * 10 + d);
            lemma_pow10_mono(((k + 1) - at) as nat, 9);
        }
        val = val * 10 + (d as u32);
        k = k + 1;
    }
    proof {
        lemma_digits_val_bound(s.subrange(at as int, e as int));
    }
    Some((val, e))
}

/// Parses a signed decimal integer of at most eighteen digits.
fn parse_i64(frame: &[u8], at: usize) -> (r: Option<(i64, usize)>)
    requires
        at <= frame@.len(),
    ensures
        r is None <==> spec_parse_i64(frame@, at as int) is None,
        r matches Some((v, j)) ==> spec_parse_i64(frame@, at as int) == Some((v, j as int))
            && at < j <= frame@.len(),
{
    let ghost s = frame@;
    let negative = at < frame.len() && frame[at] == '-' as u8;
    let start = if negative { at + 1 } else { at };
    let e = scan_digits(frame, start);
    if e == start || e - start > 18 {
        return None;
    }
    proof {
        lemma_digit_run_end(s, start as int);
        lemma_pow10_values();
    }
    let mut val: i64 = 0;
    let mut k: usize = start;
    while k < e
        invariant
            start <= k <= e <= s.len(),
            s == frame@,
            e - start <= 18,
            e == digit_run_end(s, start as int),
            forall|m: int| start <= m < e ==> is_digit(#[trigger] s[m]),
            val == digits_val(s.subrange(start as int, k as int)),
            0 <= val < pow10((k - start) as nat),
            pow10(18) == 1000000000000000000,
        decreases e - k,
    {
        let d = frame[k] - '0' as u8;
        proof {
            let pre = s.subrange(start as int, k as int);
            let post = s.subrange(start as int, k + 1);
            assert(post =~= pre.push(s[k as int]));
            assert(post.last() == s[k as int]);
            assert(post.drop_last() =~= pre);
            assert(digits_val(post) == digits_val(pre) * 10 + d);
            lemma_pow10_mono(((k + 1) - start) as nat, 18);
        }
        val = val * 10 + (d as i64);
        k = k + 1;
    }
    proof {
        lemma_digits_val_bound(s.subrange(start as int, e as int));
    }
    if negative {
        Some((-val, e))
    } else {
        Some((val, e))
    }
}

/// A byte strings may hold without an escape: printable ASCII other than
/// the quote and the backslash.
pub open spec fn is_plain_str_byte(b: u8) -> bool {
    32 <= b <= 126 && b != '"' as u8 && b != '\\' as u8
}

/// End of the run of plain string bytes starting at `i`.
pub open spec fn plain_run_end(s: Seq<u8>, i: int) -> int
    decreases s.len() - i,
{
    if i < 0 || i >= s.len() {
        i
    } else if is_plain_str_byte(s[i]) {
        plain_run_end(s, i + 1)
    } else {
        i
    }
}

/// A string body: plain bytes up to a closing quote, which is consumed.
pub open spec fn spec_parse_string(s: Seq<u8>, i: int) -> Option<(Seq<u8>, int)> {
    let e = plain_run_end(s, i);
    if e < s.len() && s[e] == '"' as u8 {
        Some((s.subrange(i, e), e + 1))
    } else {
        None
    }
}

proof fn lemma_plain_run_end(s: Seq<u8>, i: int)
    requires
        0 <= i <= s.len(),
    ensures
        i <= plain_run_end(s, i) <= s.len(),
        forall|k: int| i <= k < plain_run_end(s, i) ==> is_plain_str_byte(#[trigger] s[k]),
        plain_run_end(s, i) < s.len() ==> !is_plain_str_byte(s[plain_run_end(s, i)]),
    decreases s.len() - i,
{
    if i < s.len() && is_plain_str_byte(s[i]) {
        lemma_plain_run_end(s, i + 1);
    }
}

/// The characters spelled by a sequence of ASCII bytes.
pub open spec fn ascii_str(bytes: Seq<u8>) -> Seq<char> {
    Seq::new(bytes.len(), |i: int| bytes[i] as char)
}

/// Relies on `String::from_utf8`: ASCII bytes are valid UTF-8, and decode
/// to the string whose characters are exactly those bytes.
#[verifier::external_body]
fn ascii_to_string(bytes: Vec<u8>) -> (r: String)
    requires
        forall|i: int| 0 <= i < bytes@.len() ==> bytes@[i] < 128,
    ensures
        r@ == ascii_str(bytes@),
{
    String::from_utf8(bytes).unwrap_or_default()
}

/// Parses a quoted string body starting at `at`; returns its bytes and the
/// position after the closing quote.
fn parse_string_bytes(frame: &[u8], at: usize) -> (r: Option<(Vec<u8>, usize)>)
    requires
        at <= frame@.len(),
    ensures
        r is None <==> spec_parse_string(frame@, at as int) is None,
        r matches Some((b, j)) ==> spec_parse_string(frame@, at as int) == Some((b@, j as int))
            && at < j <= frame@.len(),
        r matches Some((b, j)) ==> forall|k: int| 0 <= k < b@.len() ==> b@[k] < 128,
{
    proof {
        lemma_plain_run_end(frame@, at as int);
    }
    let ghost s = frame@;
    let mut j: usize = at;
    let mut out: Vec<u8> = Vec::new();
    while j < frame.len() && frame[j] >= 32 && frame[j] <= 126 && frame[j] != '"' as u8
        && frame[j] != '\\' as u8
        invariant
            at <= j <= s.len(),
            s == frame@,
            forall|k: int| at <= k < j ==> is_plain_str_byte(#[trigger] s[k]),
            out@ == s.subrange(at as int, j as int),
        decreases s.len() - j,
    {
        out.push(frame[j]);
        proof {
            assert(out@ =~= s.subrange(at as int, j + 1));
        }
        j = j + 1;
    }
    proof {
        let e = plain_run_end(s, at as int);
        if j < e {
            assert(is_plain_str_byte(s[j as int]));
            assert(false);
        } else if j > e {
            assert(is_plain_str_byte(s[e]));
            assert(!is_plain_str_byte(s[e]));
            assert(false);
        }
    }
    if j < frame.len() && frame[j] == '"' as u8 {
        Some((out, j + 1))
    } else {
        None
    }
}

/// Compares the frame at position `at` against a literal.
fn match_lit(frame: &[u8], at: usize, lit: &Vec<u8>) -> (r: bool)
    ensures
        r == lit_at(frame@, at as int, lit@),
{
    let ghost s = frame@;
    let ghost l = lit@;
    if at > frame.len() || frame.len() - at < lit.len() {
        return false;
    }
    let mut k: usize = 0;
    while k < lit.len()
        invariant
            0 <= k <= l.len(),
            at + l.len() <= s.len(),
            at + l.len() <= usize::MAX,
            s == frame@,
            l == lit@,
            forall|m: int| 0 <= m < k ==> s[at + m] == #[trigger] l[m],
        decreases l.len() - k,
    {
        if frame[at + k] != lit[k] {
            proof {
                assert(s.subrange(at as int, at + l.len())[k as int] != l[k as int]);
            }
            return false;
        }
        k = k + 1;
    }
    proof {
        assert(s.subrange(at as int, at + l.len()) =~= l);
    }
    true
}

// ---- wire literals ----

/// Bytes of `{"event":"`.
pub open spec fn lit_event_head() -> Seq<u8> {
    seq!['{' as u8, '"' as u8, 'e' as u8, 'v' as u8, 'e' as u8, 'n' as u8, 't' as u8, '"' as u8, ':' as u8, '"' as u8]
}

fn lit_event_head_vec() -> (v: Vec<u8>)
    ensures
        v@ == lit_event_head(),
{
    let mut v: Vec<u8> = Vec::new();
    v.push('{' as u8);
    v.push('"' as u8);
    v.push('e' as u8);
    v.push('v' as u8);
    v.push('e' as u8);
    v.push('n' as u8);
    v.push('t' as u8);
    v.push('"' as u8);
    v.push(':' as u8);
    v.push('"' as u8);
    proof {
        assert(v@ =~= lit_event_head());
    }
    v
}

/// Bytes of `,"data":`.
pub open spec fn lit_data_head() -> Seq<u8> {
    seq![',' as u8, '"' as u8, 'd' as u8, 'a' as u8, 't' as u8, 'a' as u8, '"' as u8, ':' as u8]
}

fn lit_data_head_vec() -> (v: Vec<u8>)
    ensures
        v@ == lit_data_head(),
{
    let mut v: Vec<u8> = Vec::new();
    v.push(',' as u8);
    v.push('"' as u8);
    v.push('d' as u8);
    v.push('a' as u8);
    v.push('t' as u8);
    v.push('a' as u8);
    v.push('"' as u8);
    v.push(':' as u8);
    proof {
        assert(v@ =~= lit_data_head());
    }
    v
}

/// Bytes of `BotUpdate`.
pub open spec fn lit_bot_update() -> Seq<u8> {
    seq!['B' as u8, 'o' as u8, 't' as u8, 'U' as u8, 'p' as u8, 'd' as u8, 'a' as u8, 't' as u8, 'e' as u8]
}

fn lit_bot_update_vec() -> (v: Vec<u8>)
    ensures
        v@ == lit_bot_update(),
{
    let mut v: Vec<u8> = Vec::new();
    v.push('B' as u8);
    v.push('o' as u8);
    v.push('t' as u8);
    v.push('U' as u8);
    v.push('p' as u8);
    v.push('d' as u8);
    v.push('a' as u8);
    v.push('t' as u8);
    v.push('e' as u8);
    proof {
        assert(v@ =~= lit_bot_update());
    }
    v
}

/// Bytes of `{"ping":{"timestamp":`.
pub open spec fn lit_ping_head() -> Seq<u8> {
    seq!['{' as u8, '"' as u8, 'p' as u8, 'i' as u8, 'n' as u8, 'g' as u8, '"' as u8, ':' as u8, '{' as u8, '"' as u8, 't' as u8, 'i' as u8, 'm' as u8, 'e' as u8, 's' as u8, 't' as u8, 'a' as u8, 'm' as u8, 'p' as u8, '"' as u8, ':' as u8]
}

fn lit_ping_head_vec() -> (v: Vec<u8>)
    ensures
        v@ == lit_ping_head(),
{
    let mut v: Vec<u8> = Vec::new();
    v.push('{' as u8);
    v.push('"' as u8);
    v.push('p' as u8);
    v.push('i' as u8);
    v.push('n' as u8);
    v.push('g' as u8);
    v.push('"' as u8);
    v.push(':' as u8);
    v.push('{' as u8);
    v.push('"' as u8);
    v.push('t' as u8);
    v.push('i' as u8);
    v.push('m' as u8);
    v.push('e' as u8);
    v.push('s' as u8);
    v.push('t' as u8);
    v.push('a' as u8);
    v.push('m' as u8);
    v.push('p' as u8);
    v.push('"' as u8);
    v.push(':' as u8);
    proof {
        assert(v@ =~= lit_ping_head());
    }
    v
}

/// Bytes of `,"avg_ping":`.
pub open spec fn lit_avg_ping() -> Seq<u8> {
    seq![',' as u8, '"' as u8, 'a' as u8, 'v' as u8, 'g' as u8, '_' as u8, 'p' as u8, 'i' as u8, 'n' as u8, 'g' as u8, '"' as u8, ':' as u8]
}

fn lit_avg_ping_vec() -> (v: Vec<u8>)
    ensures
        v@ == lit_avg_ping(),
{
    let mut v: Vec<u8> = Vec::new();
    v.push(',' as u8);
    v.push('"' as u8);
    v.push('a' as u8);
    v.push('v' as u8);
    v.push('g' as u8);
    v.push('_' as u8);
    v.push('p' as u8);
    v.push('i' as u8);
    v.push('n' as u8);
    v.push('g' as u8);
    v.push('"' as u8);
    v.push(':' as u8);
    proof {
        assert(v@ =~= lit_avg_ping());
    }
    v
}

/// Bytes of `},"shards":`.
pub open spec fn lit_shards_head() -> Seq<u8> {
    seq!['}' as u8, ',' as u8, '"' as u8, 's' as u8, 'h' as u8, 'a' as u8, 'r' as u8, 'd' as u8, 's' as u8, '"' as u8, ':' as u8]
}

fn lit_shards_head_vec() -> (v: Vec<u8>)
    ensures
        v@ == lit_shards_head(),
{
    let mut v: Vec<u8> = Vec::new();
    v.push('}' as u8);
    v.push(',' as u8);
    v.push('"' as u8);
    v.push('s' as u8);
    v.push('h' as u8);
    v.push('a' as u8);
    v.push('r' as u8);
    v.push('d' as u8);
    v.push('s' as u8);
    v.push('"' as u8);
    v.push(':' as u8);
    proof {
        assert(v@ =~= lit_shards_head());
    }
    v
}

/// Bytes of `{"shard_id":`.
pub open spec fn lit_shard_head() -> Seq<u8> {
    seq!['{' as u8, '"' as u8, 's' as u8, 'h' as u8, 'a' as u8, 'r' as u8, 'd' as u8, '_' as u8, 'i' as u8, 'd' as u8, '"' as u8, ':' as u8]
}

fn lit_shard_head_vec() -> (v: Vec<u8>)
    ensures
        v@ == lit_shard_head(),
{
    let mut v: Vec<u8> = Vec::new();
    v.push('{' as u8);
    v.push('"' as u8);
    v.push('s' as u8);
    v.push('h' as u8);
    v.push('a' as u8);
    v.push('r' as u8);
    v.push('d' as u8);
    v.push('_' as u8);
    v.push('i' as u8);
    v.push('d' as u8);
    v.push('"' as u8);
    v.push(':' as u8);
    proof {
        assert(v@ =~= lit_shard_head());
    }
    v
}

/// Bytes of `,"status":"`.
pub open spec fn lit_status_key() -> Seq<u8> {
    seq![',' as u8, '"' as u8, 's' as u8, 't' as u8, 'a' as u8, 't' as u8, 'u' as u8, 's' as u8, '"' as u8, ':' as u8, '"' as u8]
}

fn lit_status_key_vec() -> (v: Vec<u8>)
    ensures
        v@ == lit_status_key(),
{
    let mut v: Vec<u8> = Vec::new();
    v.push(',' as u8);
    v.push('"' as u8);
    v.push('s' as u8);
    v.push('t' as u8);
    v.push('a' as u8);
    v.push('t' as u8);
    v.push('u' as u8);
    v.push('s' as u8);
    v.push('"' as u8);
    v.push(':' as u8);
    v.push('"' as u8);
    proof {
        assert(v@ =~= lit_status_key());
    }
    v
}

/// Bytes of `,"latency_ms":`.
pub open spec fn lit_latency_key() -> Seq<u8> {
    seq![',' as u8, '"' as u8, 'l' as u8, 'a' as u8, 't' as u8, 'e' as u8, 'n' as u8, 'c' as u8, 'y' as u8, '_' as u8, 'm' as u8, 's' as u8, '"' as u8, ':' as u8]
}

fn lit_latency_key_vec() -> (v: Vec<u8>)
    ensures
        v@ == lit_latency_key(),
{
    let mut v: Vec<u8> = Vec::new();
    v.push(',' as u8);
    v.push('"' as u8);
    v.push('l' as u8);
    v.push('a' as u8);
    v.push('t' as u8);
    v.push('e' as u8);
    v.push('n' as u8);
    v.push('c' as u8);
    v.push('y' as u8);
    v.push('_' as u8);
    v.push('m' as u8);
    v.push('s' as u8);
    v.push('"' as u8);
    v.push(':' as u8);
    proof {
        assert(v@ =~= lit_latency_key());
    }
    v
}

/// Bytes of `,"members":`.
pub open spec fn lit_members_key() -> Seq<u8> {
    seq![',' as u8, '"' as u8, 'm' as u8, 'e' as u8, 'm' as u8, 'b' as u8, 'e' as u8, 'r' as u8, 's' as u8, '"' as u8, ':' as u8]
}

fn lit_members_key_vec() -> (v: Vec<u8>)
    ensures
        v@ == lit_members_key(),
{
    let mut v: Vec<u8> = Vec::new();
    v.push(',' as u8);
    v.push('"' as u8);
    v.push('m' as u8);
    v.push('e' as u8);
    v.push('m' as u8);
    v.push('b' as u8);
    v.push('e' as u8);
    v.push('r' as u8);
    v.push('s' as u8);
    v.push('"' as u8);
    v.push(':' as u8);
    proof {
        assert(v@ =~= lit_members_key());
    }
    v
}

/// Bytes of `null`.
pub open spec fn lit_null_word() -> Seq<u8> {
    seq!['n' as u8, 'u' as u8, 'l' as u8, 'l' as u8]
}

fn lit_null_word_vec() -> (v: Vec<u8>)
    ensures
        v@ == lit_null_word(),
{
    let mut v: Vec<u8> = Vec::new();
    v.push('n' as u8);
    v.push('u' as u8);
    v.push('l' as u8);
    v.push('l' as u8);
    proof {
        assert(v@ =~= lit_null_word());
    }
    v
}

/// Bytes of `{"event":"BotPong","data":{"timestamp":`.
pub open spec fn lit_pong_head() -> Seq<u8> {
    seq!['{' as u8, '"' as u8, 'e' as u8, 'v' as u8, 'e' as u8, 'n' as u8, 't' as u8, '"' as u8, ':' as u8, '"' as u8, 'B' as u8, 'o' as u8, 't' as u8, 'P' as u8, 'o' as u8, 'n' as u8, 'g' as u8, '"' as u8, ',' as u8, '"' as u8, 'd' as u8, 'a' as u8, 't' as u8, 'a' as u8, '"' as u8, ':' as u8, '{' as u8, '"' as u8, 't' as u8, 'i' as u8, 'm' as u8, 'e' as u8, 's' as u8, 't' as u8, 'a' as u8, 'm' as u8, 'p' as u8, '"' as u8, ':' as u8]
}

fn lit_pong_head_vec() -> (v: Vec<u8>)
    ensures
        v@ == lit_pong_head(),
{
    let mut v: Vec<u8> = Vec::new();
    v.push('{' as u8);
    v.push('"' as u8);
    v.push('e' as u8);
    v.push('v' as u8);
    v.push('e' as u8);
    v.push('n' as u8);
    v.push('t' as u8);
    v.push('"' as u8);
    v.push(':' as u8);
    v.push('"' as u8);
    v.push('B' as u8);
    v.push('o' as u8);
    v.push('t' as u8);
    v.push('P' as u8);
    v.push('o' as u8);
    v.push('n' as u8);
    v.push('g' as u8);
    v.push('"' as u8);
    v.push(',' as u8);
    v.push('"' as u8);
    v.push('d' as u8);
    v.push('a' as u8);
    v.push('t' as u8);
    v.push('a' as u8);
    v.push('"' as u8);
    v.push(':' as u8);
    v.push('{' as u8);
    v.push('"' as u8);
    v.push('t' as u8);
    v.push('i' as u8);
    v.push('m' as u8);
    v.push('e' as u8);
    v.push('s' as u8);
    v.push('t' as u8);
    v.push('a' as u8);
    v.push('m' as u8);
    v.push('p' as u8);
    v.push('"' as u8);
    v.push(':' as u8);
    proof {
        assert(v@ =~= lit_pong_head());
    }
    v
}

// ---- composite parsers ----

/// Parsed fields of one shard report: id, status bytes, latency, members.
pub open spec fn spec_parse_opt_u32(s: Seq<u8>, i: int) -> Option<(Option<u32>, int)> {
    if lit_at(s, i, lit_null_word()) {
        Some((None, i + 4))
    } else {
        match spec_parse_u32(s, i) {
            None => None,
            Some((v, j)) => Some((Some(v), j)),
        }
    }
}

pub open spec fn spec_parse_opt_i64(s: Seq<u8>, i: int) -> Option<(Option<i64>, int)> {
    if lit_at(s, i, lit_null_word()) {
        Some((None, i + 4))
    } else {
        match spec_parse_i64(s, i) {
            None => None,
            Some((v, j)) => Some((Some(v), j)),
        }
    }
}

fn parse_opt_u32(frame: &[u8], at: usize) -> (r: Option<(Option<u32>, usize)>)
    requires
        at <= frame@.len(),
    ensures
        r is None <==> spec_parse_opt_u32(frame@, at as int) is None,
        r matches Some((v, j)) ==> spec_parse_opt_u32(frame@, at as int) == Some((v, j as int))
            && at < j <= frame@.len(),
{
    let flen = frame.len();
    let null_lit = lit_null_word_vec();
    if match_lit(frame, at, &null_lit) {
        proof {
            assert(at + 4 <= flen);
        }
        Some((None, at + 4))
    } else {
        match parse_u32(frame, at) {
            None => None,
            Some((v, j)) => Some((Some(v), j)),
        }
    }
}

fn parse_opt_i64(frame: &[u8], at: usize) -> (r: Option<(Option<i64>, usize)>)
    requires
        at <= frame@.len(),
    ensures
        r is None <==> spec_parse_opt_i64(frame@, at as int) is None,
        r matches Some((v, j)) ==> spec_parse_opt_i64(frame@, at as int) == Some((v, j as int))
            && at < j <= frame@.len(),
{
    let flen = frame.len();
    let null_lit = lit_null_word_vec();
    if match_lit(frame, at, &null_lit) {
        proof {
            assert(at + 4 <= flen);
        }
        Some((None, at + 4))
    } else {
        match parse_i64(frame, at) {
            None => None,
            Some((v, j)) => Some((Some(v), j)),
        }
    }
}

/// One shard report object:
/// `{"shard_id":ID,"status":"S","latency_ms":L,"members":M}`.
pub open spec fn spec_parse_shard(s: Seq<u8>, i: int) -> Option<
    ((u32, Seq<u8>, Option<u32>, u32), int),
> {
    if !lit_at(s, i, lit_shard_head()) {
        None
    } else {
        match spec_parse_u32(s, i + 12) {
            None => None,
            Some((id, j)) => {
                if !lit_at(s, j, lit_status_key()) {
                    None
                } else {
                    match spec_parse_string(s, j + 11) {
                        None => None,
                        Some((st, k)) => {
                            if !lit_at(s, k, lit_latency_key()) {
                                None
                            } else {
                                match spec_parse_opt_u32(s, k + 14) {
                                    None => None,
                                    Some((lat, m)) => {
                                        if !lit_at(s, m, lit_members_key()) {
                                            None
                                        } else {
                                            match spec_parse_u32(s, m + 11) {
                                                None => None,
                                                Some((mem, n)) => {
                                                    if n < s.len() && s[n] == '}' as u8 {
                                                        Some(((id, st, lat, mem), n + 1))
                                                    } else {
                                                        None
                                                    }
                                                },
                                            }
                                        }
                                    },
                                }
                            }
                        },
                    }
                }
            },
        }
    }
}

/// An exec shard report carries the fields a parse found.
pub open spec fn shard_matches(p: ShardUpdatePayload, t: (u32, Seq<u8>, Option<u32>, u32)) -> bool {
    &&& p.shard_id == t.0
    &&& p.status@ == ascii_str(t.1)
    &&& p.latency_ms == t.2
    &&& p.members == t.3
}

fn parse_shard(frame: &[u8], at: usize) -> (r: Option<(ShardUpdatePayload, usize)>)
    requires
        at <= frame@.len(),
    ensures
        r is None <==> spec_parse_shard(frame@, at as int) is None,
        r matches Some((p, j)) ==> spec_parse_shard(frame@, at as int) matches Some((t, jj))
            && shard_matches(p, t) && jj == j as int && at < j <= frame@.len(),
{
    let ghost s = frame@;
    let flen = frame.len();
    let head = lit_shard_head_vec();
    if !match_lit(frame, at, &head) {
        return None;
    }
    proof {
        assert(at + 12 <= flen);
    }
    let Some((id, j1)) = parse_u32(frame, at + 12) else { return None };
    let status_lit = lit_status_key_vec();
    if !match_lit(frame, j1, &status_lit) {
        return None;
    }
    proof {
        assert(j1 + 11 <= flen);
    }
    let Some((status_bytes, j2)) = parse_string_bytes(frame, j1 + 11) else { return None };
    let latency_lit = lit_latency_key_vec();
    if !match_lit(frame, j2, &latency_lit) {
        return None;
    }
    proof {
        assert(j2 + 14 <= flen);
    }
    let Some((lat, j3)) = parse_opt_u32(frame, j2 + 14) else { return None };
    let members_lit = lit_members_key_vec();
    if !match_lit(frame, j3, &members_lit) {
        return None;
    }
    proof {
        assert(j3 + 11 <= flen);
    }
    let Some((mem, j4)) = parse_u32(frame, j3 + 11) else { return None };
    if j4 < flen && frame[j4] == '}' as u8 {
        let status = ascii_to_string(status_bytes);
        Some((
            ShardUpdatePayload { shard_id: id, status, latency_ms: lat, members: mem },
            j4 + 1,
        ))
    } else {
        None
    }
}

/// Everything a successful shard parse consumes lies inside the frame, and
/// it consumes at least one byte.
proof fn lemma_parse_shard_progress(s: Seq<u8>, i: int)
    requires
        0 <= i,
    ensures
        spec_parse_shard(s, i) matches Some((t, j)) ==> i < j <= s.len(),
{
    if spec_parse_shard(s, i) is Some {
        lemma_digit_run_end(s, i + 12);
        let (id, j1) = spec_parse_u32(s, i + 12)->Some_0;
        lemma_plain_run_end(s, j1 + 11);
        let (st, j2) = spec_parse_string(s, j1 + 11)->Some_0;
        if !lit_at(s, j2 + 14, lit_null_word()) {
            lemma_digit_run_end(s, j2 + 14);
        }
        let (lat, j3) = spec_parse_opt_u32(s, j2 + 14)->Some_0;
        lemma_digit_run_end(s, j3 + 11);
    }
}

/// One or more comma-separated shard objects followed by the closing `]`.
pub open spec fn spec_parse_shard_items(s: Seq<u8>, i: int) -> Option<
    (Seq<(u32, Seq<u8>, Option<u32>, u32)>, int),
>
    decreases s.len() - i,
        when 0 <= i
        via spec_parse_shard_items_dec
{
    match spec_parse_shard(s, i) {
        None => None,
        Some((sh, j)) => {
            if j < s.len() && s[j] == ',' as u8 {
                match spec_parse_shard_items(s, j + 1) {
                    None => None,
                    Some((rest, k)) => Some((seq![sh] + rest, k)),
                }
            } else if j < s.len() && s[j] == ']' as u8 {
                Some((seq![sh], j + 1))
            } else {
                None
            }
        },
    }
}

#[via_fn]
proof fn spec_parse_shard_items_dec(s: Seq<u8>, i: int) {
    lemma_parse_shard_progress(s, i);
}

/// A shard list: `[]`, or `[` items `]`.
pub open spec fn spec_parse_shard_list(s: Seq<u8>, i: int) -> Option<
    (Seq<(u32, Seq<u8>, Option<u32>, u32)>, int),
> {
    if !(0 <= i < s.len() && s[i] == '[' as u8) {
        None
    } else if i + 1 < s.len() && s[i + 1] == ']' as u8 {
        Some((Seq::empty(), i + 2))
    } else {
        spec_parse_shard_items(s, i + 1)
    }
}

proof fn lemma_parse_shard_items_progress(s: Seq<u8>, i: int)
    requires
        0 <= i,
    ensures
        spec_parse_shard_items(s, i) matches Some((t, j)) ==> i < j <= s.len(),
    decreases s.len() - i,
{
    lemma_parse_shard_progress(s, i);
    match spec_parse_shard(s, i) {
        None => {},
        Some((sh, j)) => {
            if j < s.len() && s[j] == ',' as u8 {
                lemma_parse_shard_items_progress(s, j + 1);
            }
        },
    }
}

fn parse_shard_items(frame: &[u8], at: usize) -> (r: Option<(Vec<ShardUpdatePayload>, usize)>)
    requires
        at <= frame@.len(),
    ensures
        r is None <==> spec_parse_shard_items(frame@, at as int) is None,
        r matches Some((v, j)) ==> spec_parse_shard_items(frame@, at as int) matches Some(
            (ts, jj),
        ) && jj == j as int && at < j <= frame@.len() && v@.len() == ts.len() && forall|m: int|
            0 <= m < ts.len() ==> shard_matches(#[trigger] v@[m], ts[m]),
    decreases frame@.len() - at,
{
    let ghost s = frame@;
    match parse_shard(frame, at) {
        None => None,
        Some((sh, j)) => {
            if j < frame.len() && frame[j] == ',' as u8 {
                match parse_shard_items(frame, j + 1) {
                    None => None,
                    Some((rest, k)) => {
                        let mut v = rest;
                        v.insert(0, sh);
                        proof {
                            let t = spec_parse_shard(s, at as int)->Some_0.0;
                            let ts = spec_parse_shard_items(s, at as int)->Some_0.0;
                            let rest_ts = spec_parse_shard_items(s, j + 1)->Some_0.0;
                            assert(ts == seq![t] + rest_ts);
                            assert(v@[0] == sh);
                            assert forall|m: int| 0 <= m < ts.len() implies shard_matches(
                                #[trigger] v@[m],
                                ts[m],
                            ) by {
                                if m == 0 {
                                    assert(ts[0] == t);
                                } else {
                                    assert(v@[m] == rest@[m - 1]);
                                    assert(ts[m] == rest_ts[m - 1]);
                                }
                            }
                        }
                        Some((v, k))
                    },
                }
            } else if j < frame.len() && frame[j] == ']' as u8 {
                let mut v: Vec<ShardUpdatePayload> = Vec::new();
                v.push(sh);
                proof {
                    let t = spec_parse_shard(s, at as int)->Some_0.0;
                    let ts = spec_parse_shard_items(s, at as int)->Some_0.0;
                    assert(ts == seq![t]);
                    assert(v@[0] == sh);
                }
                Some((v, j + 1))
            } else {
                None
            }
        },
    }
}

fn parse_shard_list(frame: &[u8], at: usize) -> (r: Option<(Vec<ShardUpdatePayload>, usize)>)
    requires
        at <= frame@.len(),
    ensures
        r is None <==> spec_parse_shard_list(frame@, at as int) is None,
        r matches Some((v, j)) ==> spec_parse_shard_list(frame@, at as int) matches Some(
            (ts, jj),
        ) && jj == j as int && at < j <= frame@.len() && v@.len() == ts.len() && forall|m: int|
            0 <= m < ts.len() ==> shard_matches(#[trigger] v@[m], ts[m]),
{
    if !(at < frame.len() && frame[at] == '[' as u8) {
        None
    } else if at + 1 < frame.len() && frame[at + 1] == ']' as u8 {
        Some((Vec::new(), at + 2))
    } else {
        parse_shard_items(frame, at + 1)
    }
}

/// The batch payload:
/// `{"ping":{"timestamp":T,"avg_ping":A},"shards":[...]}`.
pub open spec fn spec_parse_batch(s: Seq<u8>, i: int) -> Option<
    ((i64, Option<i64>), Seq<(u32, Seq<u8>, Option<u32>, u32)>, int),
> {
    if !lit_at(s, i, lit_ping_head()) {
        None
    } else {
        match spec_parse_i64(s, i + 21) {
            None => None,
            Some((ts, j)) => {
                if !lit_at(s, j, lit_avg_ping()) {
                    None
                } else {
                    match spec_parse_opt_i64(s, j + 12) {
                        None => None,
                        Some((avg, k)) => {
                            if !lit_at(s, k, lit_shards_head()) {
                                None
                            } else {
                                match spec_parse_shard_list(s, k + 11) {
                                    None => None,
                                    Some((shs, m)) => {
                                        if m < s.len() && s[m] == '}' as u8 {
                                            Some(((ts, avg), shs, m + 1))
                                        } else {
                                            None
                                        }
                                    },
                                }
                            }
                        },
                    }
                }
            },
        }
    }
}

/// The whole `data` value of a batch report envelope: a batch payload that
/// is closed by the envelope's final `}` and reaches the end of the frame.
pub open spec fn spec_decode_data(s: Seq<u8>, i: int) -> Option<
    ((i64, Option<i64>), Seq<(u32, Seq<u8>, Option<u32>, u32)>),
> {
    match spec_parse_batch(s, i) {
        None => None,
        Some((ping, shs, j)) => {
            if j < s.len() && s[j] == '}' as u8 && j + 1 == s.len() {
                Some((ping, shs))
            } else {
                None
            }
        },
    }
}

/// Lazily decodes the data payload of a batch report envelope, starting at
/// the offset the envelope decoder reported.  A payload that is not of the
/// expected shape yields nothing and the frame is dropped.
#[verifier::rlimit(100)]
pub fn decode_batch(frame: &[u8], at: usize) -> (r: Option<ShardPingPayload>)
    requires
        at <= frame@.len(),
    ensures
        r is None <==> spec_decode_data(frame@, at as int) is None,
        r matches Some(p) ==> spec_decode_data(frame@, at as int) matches Some((ping, ts))
            && p.ping.timestamp == ping.0 && p.ping.avg_ping == ping.1 && p.shards@.len()
            == ts.len() && forall|m: int|
            0 <= m < ts.len() ==> shard_matches(#[trigger] p.shards@[m], ts[m]),
{
    let ghost s = frame@;
    let flen = frame.len();
    let head = lit_ping_head_vec();
    if !match_lit(frame, at, &head) {
        return None;
    }
    proof {
        assert(at + 21 <= flen);
    }
    let Some((ts, j1)) = parse_i64(frame, at + 21) else { return None };
    let avg_lit = lit_avg_ping_vec();
    if !match_lit(frame, j1, &avg_lit) {
        return None;
    }
    proof {
        assert(j1 + 12 <= flen);
    }
    let Some((avg, j2)) = parse_opt_i64(frame, j1 + 12) else { return None };
    let shards_lit = lit_shards_head_vec();
    if !match_lit(frame, j2, &shards_lit) {
        return None;
    }
    proof {
        assert(j2 + 11 <= flen);
    }
    let Some((shs, j3)) = parse_shard_list(frame, j2 + 11) else { return None };
    if !(j3 < flen && frame[j3] == '}' as u8) {
        return None;
    }
    proof {
        assert(spec_parse_batch(s, at as int) matches Some((ping, ts2, jj)) && jj == j3 + 1
            && ping.0 == ts && ping.1 == avg);
    }
    let j4 = j3 + 1;
    if !(j4 < flen && frame[j4] == '}' as u8) {
        return None;
    }
    if j4 + 1 != flen {
        return None;
    }
    Some(ShardPingPayload { ping: PingPayload { timestamp: ts, avg_ping: avg }, shards: shs })
}

/// The envelope head `{"event":"NAME","data":` of a frame: the event name
/// and the offset where the data payload begins.
pub open spec fn spec_envelope_head(s: Seq<u8>) -> Option<(Seq<u8>, int)> {
    if !lit_at(s, 0, lit_event_head()) {
        None
    } else {
        match spec_parse_string(s, 10) {
            None => None,
            Some((name, j)) => {
                if lit_at(s, j, lit_data_head()) {
                    Some((name, j + 8))
                } else {
                    None
                }
            },
        }
    }
}

/// What decoding a frame's envelope yields: the classified inbound event
/// and the offset of its payload, or the reason the frame is dropped.
pub open spec fn spec_decode_envelope(s: Seq<u8>) -> Result<(SocketReceiveEvent, int), DecodeError> {
    match spec_envelope_head(s) {
        None => Err(DecodeError::MalformedEnvelope),
        Some((name, d)) => {
            if name == lit_bot_update() {
                Ok((SocketReceiveEvent::BotUpdate, d))
            } else {
                Err(DecodeError::UnknownEvent)
            }
        },
    }
}

fn bytes_eq(a: &Vec<u8>, b: &Vec<u8>) -> (r: bool)
    ensures
        r == (a@ == b@),
{
    if a.len() != b.len() {
        return false;
    }
    let mut k: usize = 0;
    while k < a.len()
        invariant
            0 <= k <= a@.len(),
            a@.len() == b@.len(),
            forall|m: int| 0 <= m < k ==> a@[m] == #[trigger] b@[m],
        decreases a@.len() - k,
    {
        if a[k] != b[k] {
            return false;
        }
        k = k + 1;
    }
    proof {
        assert(a@ =~= b@);
    }
    true
}

/// Decodes a frame's envelope: checks the envelope shape, classifies the
/// event tag, and reports where the payload begins.  A frame that is not
/// an envelope is malformed; a well-formed envelope with an unrecognised
/// tag is an unknown event.
pub fn decode_envelope(frame: &[u8]) -> (r: Result<(SocketReceiveEvent, usize), DecodeError>)
    ensures
        match spec_decode_envelope(frame@) {
            Ok((ev, d)) => r matches Ok((rev, rd)) && rev == ev && rd as int == d && d
                <= frame@.len(),
            Err(e) => r == Err::<(SocketReceiveEvent, usize), DecodeError>(e),
        },
{
    let ghost s = frame@;
    let head = lit_event_head_vec();
    if !match_lit(frame, 0, &head) {
        return Err(DecodeError::MalformedEnvelope);
    }
    let Some((name, j)) = parse_string_bytes(frame, 10) else {
        return Err(DecodeError::MalformedEnvelope);
    };
    proof {
        lemma_plain_run_end(s, 10);
    }
    let data_lit = lit_data_head_vec();
    if !match_lit(frame, j, &data_lit) {
        return Err(DecodeError::MalformedEnvelope);
    }
    proof {
        assert(j + 8 <= frame.len());
    }
    let expected = lit_bot_update_vec();
    if bytes_eq(&name, &expected) {
        Ok((SocketReceiveEvent::BotUpdate, j + 8))
    } else {
        Err(DecodeError::UnknownEvent)
    }
}

// ---- encoding ----

/// Decimal digits of a non-negative integer.
pub open spec fn u_dec(n: int) -> Seq<u8>
    decreases n,
{
    if n < 10 {
        seq![('0' as u8 + n) as u8]
    } else {
        u_dec(n / 10).push(('0' as u8 + n % 10) as u8)
    }
}

/// Decimal notation of an integer, with a leading minus sign if negative.
pub open spec fn i_dec(n: int) -> Seq<u8> {
    if n >= 0 {
        u_dec(n)
    } else {
        seq!['-' as u8] + u_dec(-n)
    }
}

fn push_u64_dec(out: &mut Vec<u8>, n: u64)
    ensures
        final(out)@ == old(out)@ + u_dec(n as int),
    decreases n,
{
    if n < 10 {
        out.push('0' as u8 + (n as u8));
        proof {
            assert(out@ =~= old(out)@ + u_dec(n as int));
        }
    } else {
        push_u64_dec(out, n / 10);
        out.push('0' as u8 + ((n % 10) as u8));
        proof {
            assert(out@ =~= old(out)@ + u_dec(n as int));
        }
    }
}

fn push_i64_dec(out: &mut Vec<u8>, n: i64)
    ensures
        final(out)@ == old(out)@ + i_dec(n as int),
{
    if n >= 0 {
        push_u64_dec(out, n as u64);
    } else {
        out.push('-' as u8);
        let m: u64 = ((-(n + 1)) as u64) + 1;
        proof {
            assert(m as int == -(n as int));
        }
        push_u64_dec(out, m);
        proof {
            assert(out@ =~= old(out)@ + i_dec(n as int));
        }
    }
}

/// The pong reply frame: the report echoed back under the outbound pong
/// event tag.
pub open spec fn spec_encode_pong(p: PingPayload) -> Seq<u8> {
    lit_pong_head() + i_dec(p.timestamp as int) + lit_avg_ping() + (match p.avg_ping {
        None => lit_null_word(),
        Some(v) => i_dec(v as int),
    }) + seq!['}' as u8, '}' as u8]
}

/// Encodes the pong reply that echoes a ping report.
pub fn encode_pong(p: &PingPayload) -> (r: Vec<u8>)
    ensures
        r@ == spec_encode_pong(*p),
{
    let mut out = lit_pong_head_vec();
    push_i64_dec(&mut out, p.timestamp);
    let mut avg_lit = lit_avg_ping_vec();
    out.append(&mut avg_lit);
    match p.avg_ping {
        None => {
            let mut null_lit = lit_null_word_vec();
            out.append(&mut null_lit);
        },
        Some(v) => {
            push_i64_dec(&mut out, v);
        },
    }
    out.push('}' as u8);
    out.push('}' as u8);
    proof {
        assert(out@ =~= spec_encode_pong(*p));
    }
    out
}

} // verus!
