//! Length-prefixed message framing.
//!
//! Every message on the wire is a header block of `Field: value` lines,
//! each line ended by CR LF, terminated by one empty line, followed by
//! exactly as many payload bytes as the `Content-Length` field declares.
//! [`encode_frame`] produces that byte sequence; [`decode_frame`] reads one
//! frame back off a received buffer, reporting whether more bytes are
//! needed, and [`lemma_frame_round_trip`] proves that decoding an encoded
//! frame recovers the payload exactly.

use vstd::prelude::*;

verus! {

pub const CR: u8 = 13;

pub const LF: u8 = 10;

/// The bytes of `"Content-Length: "`, the header field the framing relies
/// on.
pub open spec fn content_length_prefix() -> Seq<u8> {
    seq![67u8, 111u8, 110u8, 116u8, 101u8, 110u8, 116u8, 45u8, 76u8, 101u8, 110u8, 103u8, 116u8, 104u8, 58u8, 32u8]
}

/// The header terminator: an empty line after the last header line.
pub open spec fn spec_blank() -> Seq<u8> {
    seq![CR, LF, CR, LF]
}

/// The ways decoding a frame can fail.
#[derive(Clone, Copy, Debug, PartialEq, Eq, Structural)]
pub enum FrameError {
    /// The stream ended before the header block was terminated.
    UnterminatedHeader,
    /// The header block carries no `Content-Length` line.
    MissingLength,
    /// The `Content-Length` value is not an unsigned decimal number in
    /// range.
    BadLength,
    /// The stream ended before the declared number of payload bytes
    /// arrived.
    Truncated,
}

/// What decoding a buffer yields, at the specification level.
pub enum SpecFrame {
    /// The buffer does not hold a full frame yet.
    Incomplete,
    /// The bytes received so far cannot be a frame.
    Failed(FrameError),
    /// One whole frame: its payload and how many bytes it took.
    Done { payload: Seq<u8>, consumed: int },
}

// --- decimal digits -------------------------------------------------------

pub open spec fn spec_is_digit(x: u8) -> bool {
    48 <= x <= 57
}

pub open spec fn spec_all_digits(d: Seq<u8>) -> bool {
    forall|m: int| 0 <= m < d.len() ==> spec_is_digit(#[trigger] d[m])
}

/// The value of a digit string, most significant digit first.
pub open spec fn spec_digits_val(d: Seq<u8>) -> nat
    decreases d.len(),
{
    if d.len() == 0 {
        0
    } else {
        (spec_digits_val(d.drop_last()) * 10 + d.last() - 48) as nat
    }
}

/// The decimal digit bytes of `n`, most significant first.
pub open spec fn spec_dec_bytes(n: nat) -> Seq<u8>
    decreases n,
{
    if n < 10 {
        seq![(48 + n) as u8]
    } else {
        spec_dec_bytes(n / 10).push((48 + n % 10) as u8)
    }
}

/// The declared length, if `d` is a non-empty digit string whose value fits
/// in a `u64`.
pub open spec fn spec_parse_len(d: Seq<u8>) -> Option<nat> {
    if d.len() == 0 || !spec_all_digits(d) {
        None
    } else if spec_digits_val(d) > u64::MAX {
        None
    } else {
        Some(spec_digits_val(d))
    }
}

/// Decimal renderings are non-empty digit strings.
pub proof fn lemma_dec_bytes_digits(n: nat)
    ensures
        spec_dec_bytes(n).len() >= 1,
        spec_all_digits(spec_dec_bytes(n)),
    decreases n,
{
    if n >= 10 {
        lemma_dec_bytes_digits(n / 10);
        assert forall|m: int| 0 <= m < spec_dec_bytes(n).len() implies spec_is_digit(
            #[trigger] spec_dec_bytes(n)[m],
        ) by {
            if m < spec_dec_bytes(n / 10).len() {
                assert(spec_dec_bytes(n)[m] == spec_dec_bytes(n / 10)[m]);
            }
        }
    }
}

/// Parsing inverts rendering: the digit string of `n` evaluates to `n`.
pub proof fn lemma_digits_val_dec(n: nat)
    ensures
        spec_digits_val(spec_dec_bytes(n)) == n,
    decreases n,
{
    if n < 10 {
        assert(spec_dec_bytes(n).drop_last() =~= Seq::<u8>::empty());
        assert(spec_dec_bytes(n).last() == (48 + n) as u8);
        assert(spec_digits_val(Seq::<u8>::empty()) == 0);
    } else {
        lemma_digits_val_dec(n / 10);
        assert(spec_dec_bytes(n).drop_last() =~= spec_dec_bytes(n / 10));
        assert(spec_dec_bytes(n).last() == (48 + n % 10) as u8);
        vstd::arithmetic::div_mod::lemma_fundamental_div_mod(n as int, 10);
    }
}

/// A digit string's value only grows as more digits are appended.
pub proof fn lemma_digits_val_mono(d: Seq<u8>, m: int)
    requires
        spec_all_digits(d),
        0 <= m <= d.len(),
    ensures
        spec_digits_val(d.take(m)) <= spec_digits_val(d),
    decreases d.len() - m,
{
    if m < d.len() {
        lemma_digits_val_mono(d, m + 1);
        assert(d.take(m + 1).drop_last() =~= d.take(m));
        assert(d.take(m + 1).last() == d[m]);
        assert(spec_digits_val(d.take(m)) <= spec_digits_val(d.take(m + 1)));
    } else {
        assert(d.take(m) =~= d);
    }
}

/// Renders `n` as decimal digit bytes.
pub fn u64_to_dec_bytes(n: u64) -> (r: Vec<u8>)
    ensures
        r@ == spec_dec_bytes(n as nat),
    decreases n,
{
    if n < 10 {
        let mut digits: Vec<u8> = Vec::new();
        digits.push(48 + (n as u8));
        proof {
            assert(digits@ =~= spec_dec_bytes(n as nat));
        }
        digits
    } else {
        let mut digits = u64_to_dec_bytes(n / 10);
        digits.push(48 + ((n % 10) as u8));
        proof {
            assert(digits@ =~= spec_dec_bytes(n as nat));
        }
        digits
    }
}

/// Parses the digit bytes `buf[lo..hi]` as a length.
pub fn parse_digits(buf: &[u8], lo: usize, hi: usize) -> (r: Option<u64>)
    requires
        lo <= hi <= buf@.len(),
    ensures
        match r {
            Some(v) => spec_parse_len(buf@.subrange(lo as int, hi as int)) == Some(v as nat),
            None => spec_parse_len(buf@.subrange(lo as int, hi as int)) is None,
        },
{
    let ghost d = buf@.subrange(lo as int, hi as int);
    if lo == hi {
        return None;
    }
    let mut acc: u64 = 0;
    let mut i: usize = lo;
    while i < hi
        invariant
            lo <= i <= hi <= buf@.len(),
            d == buf@.subrange(lo as int, hi as int),
            spec_all_digits(d.take(i - lo)),
            acc == spec_digits_val(d.take(i - lo)),
        decreases hi - i,
    {
        let x = buf[i];
        if x < 48 || x > 57 {
            proof {
                assert(d[i - lo] == x);
                assert(!spec_is_digit(d[i - lo]));
            }
            return None;
        }
        let dig = x - 48;
        if acc > (u64::MAX - (dig as u64)) / 10 {
            proof {
                assert(d.take(i - lo + 1).drop_last() =~= d.take(i - lo));
                assert(d.take(i - lo + 1).last() == d[i - lo]);
                assert(spec_digits_val(d.take(i - lo + 1)) > u64::MAX);
                if spec_all_digits(d) {
                    lemma_digits_val_mono(d, i - lo + 1);
                }
            }
            return None;
        }
        proof {
            assert(d.take(i - lo + 1).drop_last() =~= d.take(i - lo));
            assert(d.take(i - lo + 1).last() == d[i - lo]);
        }
        acc = acc * 10 + (dig as u64);
        i = i + 1;
    }
    proof {
        assert(d.take(hi - lo) =~= d);
    }
    Some(acc)
}

// --- locating the header --------------------------------------------------

/// Whether the header terminator starts at position `k`.
pub open spec fn spec_blank_at(b: Seq<u8>, k: int) -> bool {
    &&& 0 <= k
    &&& k + 4 <= b.len()
    &&& b[k] == CR
    &&& b[k + 1] == LF
    &&& b[k + 2] == CR
    &&& b[k + 3] == LF
}

/// The first position at or after `k` where the header terminator starts.
pub open spec fn spec_find_blank(b: Seq<u8>, k: int) -> Option<int>
    decreases b.len() - k,
    when 0 <= k
{
    if k + 4 > b.len() {
        None
    } else if spec_blank_at(b, k) {
        Some(k)
    } else {
        spec_find_blank(b, k + 1)
    }
}

/// Whatever `spec_find_blank` returns is a terminator position, and no
/// earlier position at or after `k` is one.
pub proof fn lemma_find_blank_props(b: Seq<u8>, k: int)
    requires
        0 <= k,
    ensures
        match spec_find_blank(b, k) {
            Some(he) => {
                &&& k <= he
                &&& spec_blank_at(b, he)
                &&& forall|m: int| k <= m < he ==> !spec_blank_at(b, m)
            },
            None => forall|m: int| k <= m ==> !spec_blank_at(b, m),
        },
    decreases b.len() - k,
{
    if k + 4 > b.len() {
    } else if spec_blank_at(b, k) {
    } else {
        lemma_find_blank_props(b, k + 1);
    }
}

/// If the terminator occurs at `he` and nowhere earlier, the scan finds it.
pub proof fn lemma_find_blank_first(b: Seq<u8>, k: int, he: int)
    requires
        0 <= k <= he,
        spec_blank_at(b, he),
        forall|m: int| k <= m < he ==> !spec_blank_at(b, m),
    ensures
        spec_find_blank(b, k) == Some(he),
    decreases he - k,
{
    if k < he {
        lemma_find_blank_first(b, k + 1, he);
    }
}

/// Finds the first header terminator in `buf`.
pub fn find_blank(buf: &[u8]) -> (r: Option<usize>)
    ensures
        match r {
            Some(he) => {
                &&& Some(he as int) == spec_find_blank(buf@, 0)
                &&& he + 4 <= buf@.len()
            },
            None => spec_find_blank(buf@, 0) is None,
        },
{
    if buf.len() < 4 {
        return None;
    }
    let mut k: usize = 0;
    while k <= buf.len() - 4
        invariant
            buf@.len() >= 4,
            0 <= k <= buf@.len(),
            spec_find_blank(buf@, 0) == spec_find_blank(buf@, k as int),
        decreases buf@.len() - k,
    {
        if buf[k] == CR && buf[k + 1] == LF && buf[k + 2] == CR && buf[k + 3] == LF {
            return Some(k);
        }
        k = k + 1;
    }
    None
}

// --- locating the Content-Length line -------------------------------------

/// The first position in `[k, hi)` where a CR LF line break starts.
pub open spec fn spec_find_crlf(b: Seq<u8>, k: int, hi: int) -> Option<int>
    decreases hi - k,
    when 0 <= k
{
    if k + 2 > hi {
        None
    } else if b[k] == CR && b[k + 1] == LF {
        Some(k)
    } else {
        spec_find_crlf(b, k + 1, hi)
    }
}

/// Whatever `spec_find_crlf` returns lies in `[k, hi - 2]`.
pub proof fn lemma_find_crlf_props(b: Seq<u8>, k: int, hi: int)
    requires
        0 <= k,
    ensures
        match spec_find_crlf(b, k, hi) {
            Some(p) => k <= p && p + 2 <= hi,
            None => true,
        },
    decreases hi - k,
{
    if k + 2 <= hi && !(b[k] == CR && b[k + 1] == LF) {
        lemma_find_crlf_props(b, k + 1, hi);
    }
}

/// If no byte in `[k, hi)` is a CR, there is no line break there.
pub proof fn lemma_find_crlf_none(b: Seq<u8>, k: int, hi: int)
    requires
        0 <= k,
        forall|m: int| k <= m < hi ==> b[m] != CR,
    ensures
        spec_find_crlf(b, k, hi) is None,
    decreases hi - k,
{
    if k + 2 <= hi {
        lemma_find_crlf_none(b, k + 1, hi);
    }
}

/// Whether the line starting at `lo` and ending at `end` begins with
/// `"Content-Length: "`.
pub open spec fn spec_cl_at(b: Seq<u8>, lo: int, end: int) -> bool {
    &&& end - lo >= 16
    &&& b.subrange(lo, lo + 16) == content_length_prefix()
}

/// The digit range of the first `Content-Length` line among the header
/// lines in `[lo, hi)`.
pub open spec fn spec_cl_digits(b: Seq<u8>, lo: int, hi: int) -> Option<(int, int)>
    decreases hi - lo,
    when 0 <= lo
    via spec_cl_digits_decreases
{
    match spec_find_crlf(b, lo, hi) {
        None => if spec_cl_at(b, lo, hi) {
            Some((lo + 16, hi))
        } else {
            None
        },
        Some(p) => if spec_cl_at(b, lo, p) {
            Some((lo + 16, p))
        } else {
            spec_cl_digits(b, p + 2, hi)
        },
    }
}

#[via_fn]
proof fn spec_cl_digits_decreases(b: Seq<u8>, lo: int, hi: int) {
    lemma_find_crlf_props(b, lo, hi);
}

/// The digit range a header scan returns lies between `lo + 16` and `hi`.
pub proof fn lemma_cl_digits_props(b: Seq<u8>, lo: int, hi: int)
    requires
        0 <= lo,
    ensures
        match spec_cl_digits(b, lo, hi) {
            Some(dd) => lo + 16 <= dd.0 && dd.0 <= dd.1 <= hi,
            None => true,
        },
    decreases hi - lo,
{
    lemma_find_crlf_props(b, lo, hi);
    match spec_find_crlf(b, lo, hi) {
        None => {},
        Some(p) => {
            if !spec_cl_at(b, lo, p) {
                lemma_cl_digits_props(b, p + 2, hi);
            }
        },
    }
}

/// The sixteen bytes of `"Content-Length: "`, for building and comparing
/// headers.
pub fn cl_prefix_bytes() -> (r: Vec<u8>)
    ensures
        r@ == content_length_prefix(),
{
    let mut v: Vec<u8> = Vec::new();
    v.push(67);
    v.push(111);
    v.push(110);
    v.push(116);
    v.push(101);
    v.push(110);
    v.push(116);
    v.push(45);
    v.push(76);
    v.push(101);
    v.push(110);
    v.push(103);
    v.push(116);
    v.push(104);
    v.push(58);
    v.push(32);
    proof {
        assert(v@ =~= content_length_prefix());
    }
    v
}

/// Whether the line `buf[lo..end]` begins with `"Content-Length: "`.
fn is_cl_at(buf: &[u8], lo: usize, end: usize) -> (r: bool)
    requires
        lo <= end <= buf@.len(),
    ensures
        r == spec_cl_at(buf@, lo as int, end as int),
{
    if end - lo < 16 {
        return false;
    }
    let prefix = cl_prefix_bytes();
    let mut t: usize = 0;
    while t < 16
        invariant
            0 <= t <= 16,
            lo + 16 <= end <= buf@.len(),
            prefix@ == content_length_prefix(),
            forall|m: int| 0 <= m < t ==> buf@[lo + m] == content_length_prefix()[m],
        decreases 16 - t,
    {
        if buf[lo + t] != prefix[t] {
            proof {
                assert(buf@.subrange(lo as int, lo + 16)[t as int] != content_length_prefix()[t as int]);
            }
            return false;
        }
        t = t + 1;
    }
    proof {
        assert(buf@.subrange(lo as int, lo + 16) =~= content_length_prefix());
    }
    true
}

/// Finds the first CR LF in `buf[k0..hi]`.
fn find_crlf(buf: &[u8], k0: usize, hi: usize) -> (r: Option<usize>)
    requires
        k0 <= hi <= buf@.len(),
    ensures
        match r {
            Some(p) => {
                &&& Some(p as int) == spec_find_crlf(buf@, k0 as int, hi as int)
                &&& k0 <= p && p + 2 <= hi
            },
            None => spec_find_crlf(buf@, k0 as int, hi as int) is None,
        },
{
    if hi < 2 {
        return None;
    }
    let mut k: usize = k0;
    while k <= hi - 2
        invariant
            hi >= 2,
            k0 <= k,
            k <= hi <= buf@.len(),
            spec_find_crlf(buf@, k0 as int, hi as int) == spec_find_crlf(buf@, k as int, hi as int),
        decreases hi - k,
    {
        if buf[k] == CR && buf[k + 1] == LF {
            return Some(k);
        }
        k = k + 1;
    }
    None
}

/// Finds the digit range of the first `Content-Length` header line in
/// `buf[lo0..hi]`.
fn find_cl(buf: &[u8], lo0: usize, hi: usize) -> (r: Option<(usize, usize)>)
    requires
        lo0 <= hi <= buf@.len(),
    ensures
        match r {
            Some(dd) => {
                &&& Some((dd.0 as int, dd.1 as int)) == spec_cl_digits(buf@, lo0 as int, hi as int)
                &&& lo0 + 16 <= dd.0 && dd.0 <= dd.1 && dd.1 <= hi
            },
            None => spec_cl_digits(buf@, lo0 as int, hi as int) is None,
        },
{
    let mut lo: usize = lo0;
    loop
        invariant
            lo0 <= lo <= hi <= buf@.len(),
            spec_cl_digits(buf@, lo0 as int, hi as int) == spec_cl_digits(
                buf@,
                lo as int,
                hi as int,
            ),
        decreases hi - lo,
    {
        match find_crlf(buf, lo, hi) {
            None => {
                if is_cl_at(buf, lo, hi) {
                    return Some((lo + 16, hi));
                } else {
                    return None;
                }
            },
            Some(p) => {
                if is_cl_at(buf, lo, p) {
                    return Some((lo + 16, p));
                } else {
                    lo = p + 2;
                }
            },
        }
    }
}

// --- the frame specification ----------------------------------------------

/// The framed encoding of `payload`: a `Content-Length` header line, the
/// empty line, then the payload bytes.
pub open spec fn spec_encode_frame(payload: Seq<u8>) -> Seq<u8> {
    content_length_prefix() + spec_dec_bytes(payload.len()) + spec_blank() + payload
}

/// What decoding yields on `b`, when `eof` says whether the stream has
/// ended: the frame whose header terminator comes first, its payload length
/// read from the first `Content-Length` line of that header block.
pub open spec fn spec_decode(b: Seq<u8>, eof: bool) -> SpecFrame {
    match spec_find_blank(b, 0) {
        None => if eof {
            SpecFrame::Failed(FrameError::UnterminatedHeader)
        } else {
            SpecFrame::Incomplete
        },
        Some(he) => match spec_cl_digits(b, 0, he) {
            None => SpecFrame::Failed(FrameError::MissingLength),
            Some(dd) => match spec_parse_len(b.subrange(dd.0, dd.1)) {
                None => SpecFrame::Failed(FrameError::BadLength),
                Some(lval) => if b.len() >= he + 4 + lval {
                    SpecFrame::Done {
                        payload: b.subrange(he + 4, he + 4 + lval),
                        consumed: he + 4 + lval,
                    }
                } else if eof {
                    SpecFrame::Failed(FrameError::Truncated)
                } else {
                    SpecFrame::Incomplete
                },
            },
        },
    }
}

/// What [`decode_frame`] reports.
pub enum DecodeStep {
    /// More bytes must be read before a frame can be decoded.
    NeedMore,
    /// The bytes received cannot be a frame.
    Failed(FrameError),
    /// One whole frame: its payload, and how many bytes of the buffer it
    /// consumed.
    Done { payload: Vec<u8>, consumed: usize },
}

/// Copies `buf[lo..hi]` into an owned vector.
fn copy_range(buf: &[u8], lo: usize, hi: usize) -> (r: Vec<u8>)
    requires
        lo <= hi <= buf@.len(),
    ensures
        r@ == buf@.subrange(lo as int, hi as int),
{
    let mut out: Vec<u8> = Vec::new();
    let mut i: usize = lo;
    while i < hi
        invariant
            lo <= i <= hi <= buf@.len(),
            out@ == buf@.subrange(lo as int, i as int),
        decreases hi - i,
    {
        out.push(buf[i]);
        proof {
            assert(out@ =~= buf@.subrange(lo as int, (i + 1) as int));
        }
        i = i + 1;
    }
    out
}

/// Encodes one frame around `payload`.
pub fn encode_frame(payload: &[u8]) -> (r: Vec<u8>)
    ensures
        r@ == spec_encode_frame(payload@),
{
    let mut out = cl_prefix_bytes();
    let mut digits = u64_to_dec_bytes(payload.len() as u64);
    out.append(&mut digits);
    out.push(CR);
    out.push(LF);
    out.push(CR);
    out.push(LF);
    let mut body = copy_range(payload, 0, payload.len());
    out.append(&mut body);
    proof {
        assert(out@ =~= spec_encode_frame(payload@));
    }
    out
}

/// Decodes one frame from the front of `buf`.
///
/// `eof` says whether the stream has ended; a buffer that could still grow
/// into a frame reports [`DecodeStep::NeedMore`], while the same bytes at
/// end of stream are a framing error — in particular, a header declaring
/// more payload bytes than ever arrive is reported as
/// [`FrameError::Truncated`], never returned as a short payload.
pub fn decode_frame(buf: &[u8], eof: bool) -> (r: DecodeStep)
    ensures
        match r {
            DecodeStep::NeedMore => spec_decode(buf@, eof) == SpecFrame::Incomplete,
            DecodeStep::Failed(e) => spec_decode(buf@, eof) == SpecFrame::Failed(e),
            DecodeStep::Done { payload, consumed } => spec_decode(buf@, eof) == (SpecFrame::Done {
                payload: payload@,
                consumed: consumed as int,
            }),
        },
{
    let he = match find_blank(buf) {
        None => {
            if eof {
                return DecodeStep::Failed(FrameError::UnterminatedHeader);
            } else {
                return DecodeStep::NeedMore;
            }
        },
        Some(he) => he,
    };
    let dd = match find_cl(buf, 0, he) {
        None => {
            return DecodeStep::Failed(FrameError::MissingLength);
        },
        Some(dd) => dd,
    };
    let lval = match parse_digits(buf, dd.0, dd.1) {
        None => {
            return DecodeStep::Failed(FrameError::BadLength);
        },
        Some(v) => v,
    };
    let rem = buf.len() - (he + 4);
    if (rem as u64) >= lval {
        let count = lval as usize;
        let payload = copy_range(buf, he + 4, he + 4 + count);
        DecodeStep::Done { payload, consumed: he + 4 + count }
    } else if eof {
        DecodeStep::Failed(FrameError::Truncated)
    } else {
        DecodeStep::NeedMore
    }
}

// --- the round-trip law ---------------------------------------------------

/// No byte of the `"Content-Length: "` prefix or of a digit string is a CR.
proof fn lemma_header_bytes_not_cr(n: nat)
    ensures
        forall|m: int|
            0 <= m < content_length_prefix().len() ==> #[trigger] content_length_prefix()[m] != CR,
        forall|m: int| 0 <= m < spec_dec_bytes(n).len() ==> #[trigger] spec_dec_bytes(n)[m] != CR,
{
    lemma_dec_bytes_digits(n);
}

/// Encoding a payload of length `L` and decoding the result recovers a
/// payload of exactly `L` bytes, equal to the original, consuming the whole
/// frame — whether or not the stream ends there.
pub proof fn lemma_frame_round_trip(payload: Seq<u8>, eof: bool)
    requires
        payload.len() <= u64::MAX,
    ensures
        spec_decode(spec_encode_frame(payload), eof) == (SpecFrame::Done {
            payload,
            consumed: spec_encode_frame(payload).len() as int,
        }),
{
    let b = spec_encode_frame(payload);
    let dlen = spec_dec_bytes(payload.len()).len() as int;
    let he = 16 + dlen;
    lemma_dec_bytes_digits(payload.len());
    lemma_header_bytes_not_cr(payload.len());

    // The bytes before the terminator are the prefix and the digits; none
    // of them is a CR, so the first terminator is the one the encoder wrote.
    assert forall|m: int| 0 <= m < he implies b[m] != CR by {
        if m < 16 {
            assert(b[m] == content_length_prefix()[m]);
        } else {
            assert(b[m] == spec_dec_bytes(payload.len())[m - 16]);
        }
    }
    assert(b[he] == spec_blank()[0]);
    assert(b[he + 1] == spec_blank()[1]);
    assert(b[he + 2] == spec_blank()[2]);
    assert(b[he + 3] == spec_blank()[3]);
    assert(spec_blank_at(b, he));
    assert forall|m: int| 0 <= m < he implies !spec_blank_at(b, m) by {
        assert(b[m] != CR);
    }
    lemma_find_blank_first(b, 0, he);

    // The header block holds no line break, and starts with the prefix, so
    // the scan lands on its digit range.
    lemma_find_crlf_none(b, 0, he);
    assert(b.subrange(0, 16) =~= content_length_prefix());
    assert(spec_cl_at(b, 0, he));
    assert(spec_cl_digits(b, 0, he) == Some((16int, he)));

    // The digits parse back to the payload length.
    assert(b.subrange(16, he) =~= spec_dec_bytes(payload.len()));
    lemma_digits_val_dec(payload.len());

    // And the rest of the frame is exactly the payload.
    assert(b.subrange(he + 4, he + 4 + payload.len() as int) =~= payload);
}

} // verus!
