use vstd::prelude::*;
use crate::text::push_char;

verus! {

/// A byte that an HTTP header value may hold and still read as text:
/// visible ASCII or a horizontal tab.
pub open spec fn is_visible_ascii(b: u8) -> bool {
    (32 <= b && b < 127) || b == 9
}

/// The header value reads as text.
pub open spec fn is_header_text(v: Seq<u8>) -> bool {
    forall|i: int| 0 <= i < v.len() ==> is_visible_ascii(#[trigger] v[i])
}

pub open spec fn is_digit(b: u8) -> bool {
    48 <= b && b <= 57
}

/// What is left of a number's text once an optional leading `+` is taken off.
pub open spec fn unsigned_part(s: Seq<u8>) -> Seq<u8> {
    if s.len() > 0 && s[0] == 43 {
        s.subrange(1, s.len() as int)
    } else {
        s
    }
}

/// The value of a run of decimal digits, most significant first.
pub open spec fn digits_value(s: Seq<u8>) -> nat
    decreases s.len(),
{
    if s.len() == 0 {
        0
    } else {
        digits_value(s.drop_last()) * 10 + (s.last() - 48) as nat
    }
}

/// The text is an unsigned decimal number (an optional `+`, then at least one digit)
/// whose value fits in 64 bits.
pub open spec fn is_u64_text(s: Seq<u8>) -> bool {
    let d = unsigned_part(s);
    &&& d.len() > 0
    &&& forall|i: int| 0 <= i < d.len() ==> is_digit(#[trigger] d[i])
    &&& digits_value(d) <= u64::MAX
}

/// Why the size header gave no length.
#[derive(Debug)]
pub enum ClientError {
    /// The response has no size header.
    NoHeader,
    /// The header value holds bytes that do not read as text.
    ParsingHeaderError(Vec<u8>),
    /// The header text is not an unsigned 64-bit number.
    ParsingNumber(String),
}

proof fn lemma_digits_value_push(s: Seq<u8>, b: u8)
    ensures
        digits_value(s.push(b)) == digits_value(s) * 10 + (b - 48) as nat,
{
    assert(s.push(b).drop_last() == s);
}

/// Reads `s` as an unsigned decimal number, as `u64`'s `from_str` does.
pub fn parse_u64(s: &[u8]) -> (r: Option<u64>)
    ensures
        r is Some <==> is_u64_text(s@),
        r is Some ==> r->Some_0 as nat == digits_value(unsigned_part(s@)),
{
    let start: usize = if s.len() > 0 && s[0] == 43u8 { 1 } else { 0 };
    let ghost d = unsigned_part(s@);
    assert(d == s@.subrange(start as int, s@.len() as int));
    if start >= s.len() {
        return None;
    }
    let mut value: u64 = 0;
    let mut i: usize = start;
    while i < s.len()
        invariant
            start <= i <= s.len(),
            d == s@.subrange(start as int, s@.len() as int),
            d == unsigned_part(s@),
            forall|k: int| 0 <= k < i - start ==> is_digit(#[trigger] d[k]),
            value as nat == digits_value(d.subrange(0, i - start)),
        decreases s.len() - i,
    {
        let b = s[i];
        let ghost prefix = d.subrange(0, i - start);
        assert(d.subrange(0, i + 1 - start) == prefix.push(b));
        proof { lemma_digits_value_push(prefix, b); }
        if !(48u8 <= b && b <= 57u8) {
            assert(d[i - start] == b);
            assert(!is_digit(d[i - start]));
            return None;
        }
        let digit = (b - 48u8) as u64;
        match value.checked_mul(10) {
            None => {
                proof { lemma_overflow_rejects(d, (i + 1 - start) as int); }
                return None;
            },
            Some(tens) => match tens.checked_add(digit) {
                None => {
                    proof { lemma_overflow_rejects(d, (i + 1 - start) as int); }
                    return None;
                },
                Some(next) => {
                    value = next;
                },
            },
        }
        i += 1;
    }
    assert(d.subrange(0, s.len() - start) == d);
    Some(value)
}

/// A digit run with a prefix worth more than `u64::MAX` is no 64-bit number.
proof fn lemma_overflow_rejects(d: Seq<u8>, n: int)
    requires
        0 <= n <= d.len(),
        digits_value(d.subrange(0, n)) > u64::MAX,
    ensures
        !(forall|k: int| 0 <= k < d.len() ==> is_digit(#[trigger] d[k])) || digits_value(d) > u64::MAX,
{
    if forall|k: int| 0 <= k < d.len() ==> is_digit(#[trigger] d[k]) {
        lemma_digits_prefix_bound(d, n);
    }
}

/// A prefix of a digit run is worth no more than the whole run.
proof fn lemma_digits_prefix_bound(d: Seq<u8>, n: int)
    requires
        0 <= n <= d.len(),
        forall|k: int| 0 <= k < d.len() ==> is_digit(#[trigger] d[k]),
    ensures
        digits_value(d.subrange(0, n)) <= digits_value(d),
    decreases d.len() - n,
{
    if n < d.len() {
        lemma_digits_prefix_bound(d, n + 1);
        let p = d.subrange(0, n);
        assert(d.subrange(0, n + 1) == p.push(d[n]));
        lemma_digits_value_push(p, d[n]);
    } else {
        assert(d.subrange(0, n) == d);
    }
}

/// The header's bytes read as characters, one for each byte.
pub open spec fn ascii_text(v: Seq<u8>) -> Seq<char> {
    v.map_values(|b: u8| b as char)
}

/// The length that a size header announces, if it announces one.
pub open spec fn announced_length(header: Option<Seq<u8>>) -> Option<u64> {
    match header {
        Some(v) => if is_header_text(v) && is_u64_text(v) {
            Some(digits_value(unsigned_part(v)) as u64)
        } else {
            None
        },
        None => None,
    }
}

/// The bytes of a header, if there is one.
pub open spec fn header_bytes(header: Option<Vec<u8>>) -> Option<Seq<u8>> {
    match header {
        Some(v) => Some(v@),
        None => None,
    }
}

/// Reads the expected length of a transfer from its size header.
/// A missing header, bytes that are not text and text that is not a
/// number are each told apart.
pub fn content_length(header: Option<Vec<u8>>) -> (r: Result<u64, ClientError>)
    ensures
        header is None ==> r is Err && r->Err_0 is NoHeader,
        header is Some && !is_header_text(header->Some_0@) ==> r is Err
            && r->Err_0 is ParsingHeaderError && r->Err_0->ParsingHeaderError_0@ == header->Some_0@,
        header is Some && is_header_text(header->Some_0@) && !is_u64_text(header->Some_0@) ==> r is Err
            && r->Err_0 is ParsingNumber && r->Err_0->ParsingNumber_0@ == ascii_text(header->Some_0@),
        r is Ok <==> announced_length(header_bytes(header)) is Some,
        r is Ok ==> r->Ok_0 == announced_length(header_bytes(header))->Some_0,
{
    match header {
        None => Err(ClientError::NoHeader),
        Some(v) => {
            let mut i: usize = 0;
            while i < v.len()
                invariant
                    header == Some(v),
                    i <= v.len(),
                    forall|k: int| 0 <= k < i ==> is_visible_ascii(#[trigger] v@[k]),
                decreases v.len() - i,
            {
                let b = v[i];
                if !((32u8 <= b && b < 127u8) || b == 9u8) {
                    return Err(ClientError::ParsingHeaderError(v));
                }
                i += 1;
            }
            match parse_u64(v.as_slice()) {
                Some(n) => Ok(n),
                None => Err(ClientError::ParsingNumber(ascii_string(&v))),
            }
        },
    }
}

/// The bytes as a string of one character each.
fn ascii_string(v: &Vec<u8>) -> (r: String)
    ensures
        r@ == ascii_text(v@),
{
    let mut r = String::new();
    let mut i: usize = 0;
    while i < v.len()
        invariant
            i <= v.len(),
            r@ == ascii_text(v@.subrange(0, i as int)),
        decreases v.len() - i,
    {
        push_char(&mut r, v[i] as char);
        assert(v@.subrange(0, i + 1) == v@.subrange(0, i as int).push(v@[i as int]));
        i += 1;
    }
    assert(v@.subrange(0, v.len() as int) == v@);
    r
}

/// How far a transfer has got: the length its size header announced, if any,
/// and the bytes received so far.
#[derive(Clone, Copy, Debug, PartialEq, Eq, Structural)]
pub struct DownloadProgress {
    pub expected_bytes: Option<u64>,
    pub received_bytes: u64,
}

/// The progress after one more chunk of `n` bytes; the count stops at `u64::MAX`.
pub open spec fn after_chunk(p: DownloadProgress, n: u64) -> DownloadProgress {
    DownloadProgress {
        expected_bytes: p.expected_bytes,
        received_bytes: if p.received_bytes + n > u64::MAX {
            u64::MAX
        } else {
            (p.received_bytes + n) as u64
        },
    }
}

/// The progress after each of `chunks`, in order.
pub open spec fn after_chunks(p: DownloadProgress, chunks: Seq<u64>) -> DownloadProgress
    decreases chunks.len(),
{
    if chunks.len() == 0 {
        p
    } else {
        after_chunk(after_chunks(p, chunks.drop_last()), chunks.last())
    }
}

/// The number of bytes in all of `chunks`.
pub open spec fn total_bytes(chunks: Seq<u64>) -> nat
    decreases chunks.len(),
{
    if chunks.len() == 0 {
        0
    } else {
        total_bytes(chunks.drop_last()) + chunks.last() as nat
    }
}

impl DownloadProgress {
    /// A transfer that has received nothing yet. The total is known only when
    /// the size header gave a length; otherwise the transfer goes on with an
    /// unknown total.
    pub fn from_length(length: &Result<u64, ClientError>) -> (p: DownloadProgress)
        ensures
            p.received_bytes == 0,
            p.expected_bytes == match length {
                Ok(n) => Some(*n),
                Err(_) => None::<u64>,
            },
    {
        let expected_bytes = match length {
            Ok(n) => Some(*n),
            Err(_) => None,
        };
        DownloadProgress { expected_bytes, received_bytes: 0 }
    }

    /// Counts a chunk of `n` bytes that has arrived and been written.
    pub fn record_chunk(&mut self, n: u64)
        ensures
            *final(self) == after_chunk(*old(self), n),
            final(self).received_bytes >= old(self).received_bytes,
    {
        self.received_bytes = self.received_bytes.saturating_add(n);
    }

    /// Whether the size header gave the total.
    pub fn total_known(&self) -> (r: bool)
        ensures
            r == self.expected_bytes is Some,
    {
        self.expected_bytes.is_some()
    }
}

/// Every byte of a stream is counted: after chunks of `total_bytes(chunks)` bytes
/// in all, a fresh transfer has received exactly that many, and what it expected
/// is unchanged.
pub proof fn lemma_received_counts_every_byte(expected: Option<u64>, chunks: Seq<u64>)
    requires
        total_bytes(chunks) <= u64::MAX,
    ensures
        after_chunks(DownloadProgress { expected_bytes: expected, received_bytes: 0 }, chunks).received_bytes
            == total_bytes(chunks),
        after_chunks(DownloadProgress { expected_bytes: expected, received_bytes: 0 }, chunks).expected_bytes
            == expected,
    decreases chunks.len(),
{
    if chunks.len() > 0 {
        lemma_received_counts_every_byte(expected, chunks.drop_last());
    }
}

/// The received count never goes down, whatever chunks arrive.
pub proof fn lemma_received_never_decreases(p: DownloadProgress, chunks: Seq<u64>)
    ensures
        after_chunks(p, chunks).received_bytes >= p.received_bytes,
    decreases chunks.len(),
{
    if chunks.len() > 0 {
        lemma_received_never_decreases(p, chunks.drop_last());
    }
}

/// A header that is missing, or whose value is not a number, leaves the total
/// unknown rather than failing the transfer.
pub proof fn lemma_unreadable_header_leaves_total_unknown(header: Option<Seq<u8>>)
    requires
        header is None || !is_u64_text(header->Some_0),
    ensures
        announced_length(header) is None,
{
}

} // verus!
