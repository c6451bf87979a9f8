//! The streaming range server: which bytes of a file a request asks for,
//! and the response that carries them.

use vstd::prelude::*;
use vstd::slice::{slice_subrange, slice_to_vec};
use vstd::string::{StrSliceExecFns, StringExecFns, StringSliceAdditionalSpecFns};
use crate::text::{
    chars_of, decimal, has_prefix, matches_at, parse_number, parse_unsigned, push_decimal,
    scan_until, until,
};

verus! {

/// The status of a response.
#[derive(Clone, Copy, Debug, PartialEq, Eq, Structural)]
pub enum Status {
    /// The whole resource.
    Complete,
    /// A byte-exact slice of the resource.
    Partial,
    /// The resource does not exist.
    NotFound,
    /// The resource could not be read as asked.
    InternalError,
}

/// What a request asks for.
#[derive(Clone, Copy, Debug, PartialEq, Eq, Structural)]
pub enum Span {
    /// The whole file.
    Whole,
    /// The bytes from `start` to `end`, both included.
    Part { start: u64, end: u64 },
}

/// A response of the range server.
#[derive(Debug)]
pub struct RangeResponse {
    pub status: Status,
    /// Header names and values, in order.
    pub headers: Vec<(String, String)>,
    pub body: Vec<u8>,
    /// The length of the whole resource, where it is known.
    pub total: u64,
}

/// The two fields of a range specification `bytes=<start>-<end>`: the text
/// before and after its one hyphen. A header of another form has none.
pub open spec fn range_fields(h: Seq<char>) -> Option<(Seq<char>, Seq<char>)> {
    if !has_prefix(h, "bytes="@) {
        None
    } else {
        let v = h.skip("bytes="@.len() as int);
        let i = until(v, '-') as int;
        if i >= v.len() {
            None
        } else if until(v.skip(i + 1), '-') < v.skip(i + 1).len() {
            None
        } else {
            Some((v.take(i), v.skip(i + 1)))
        }
    }
}

/// The index of the last byte of a file; zero for an empty file.
pub open spec fn last_byte(size: u64) -> u64 {
    if size == 0 {
        0
    } else {
        (size - 1) as u64
    }
}

/// The start that a start field asks for: its number, or zero where it is
/// none.
pub open spec fn start_of(field: Seq<char>) -> u64 {
    match parse_unsigned(field, u64::MAX as nat) {
        Some(n) => n as u64,
        None => 0,
    }
}

/// The end that an end field asks for in a file of `size` bytes: its
/// number, clamped to the last byte; the last byte where the field is
/// empty or no number.
pub open spec fn end_of(field: Seq<char>, size: u64) -> u64 {
    match parse_unsigned(field, u64::MAX as nat) {
        Some(n) => if n < last_byte(size) {
            n as u64
        } else {
            last_byte(size)
        },
        None => last_byte(size),
    }
}

/// What a request with the given `Range` header asks of a file of `size`
/// bytes. Without a header, or with one of another form than
/// `bytes=<start>-<end>`, it asks for the whole file.
pub open spec fn requested_span(header: Option<Seq<char>>, size: u64) -> Span {
    match header {
        None => Span::Whole,
        Some(h) => match range_fields(h) {
            None => Span::Whole,
            Some(f) => Span::Part { start: start_of(f.0), end: end_of(f.1, size) },
        },
    }
}

/// Whether a span can be read from a file of `size` bytes.
pub open spec fn readable(span: Span, size: u64) -> bool {
    match span {
        Span::Whole => true,
        Span::Part { start, end } => start <= end && end < size,
    }
}

/// What a request with the given `Range` header asks of a file of `size`
/// bytes.
pub fn parse_range(header: Option<&str>, size: u64) -> (span: Span)
    ensures
        span == requested_span(
            match header {
                Some(h) => Some(h@),
                None => None,
            },
            size,
        ),
{
    let text = match header {
        Some(h) => h,
        None => {
            return Span::Whole;
        },
    };
    let h = chars_of(text);
    let prefix = chars_of("bytes=");
    if !matches_at(&h, &prefix, 0) {
        return Span::Whole;
    }
    let from = prefix.len();
    let len = h.len();
    let ghost v = h@.skip(from as int);
    assert(v =~= h@.subrange(from as int, len as int));
    let dash = scan_until(&h, from, len, '-');
    if dash == len {
        return Span::Whole;
    }
    let ghost rest = v.skip(dash - from + 1);
    assert(rest =~= h@.subrange(dash + 1, len as int));
    let second = scan_until(&h, dash + 1, len, '-');
    if second < len {
        return Span::Whole;
    }
    assert(v.take(dash - from) =~= h@.subrange(from as int, dash as int));
    let last = if size == 0 {
        0
    } else {
        size - 1
    };
    let start = match parse_number(&h, from, dash, u64::MAX) {
        Some(n) => n,
        None => 0,
    };
    let end = match parse_number(&h, dash + 1, len, u64::MAX) {
        Some(n) => if n < last {
            n
        } else {
            last
        },
        None => last,
    };
    Span::Part { start, end }
}

// ---------------------------------------------------------------------------
// Headers
// ---------------------------------------------------------------------------

/// The headers of every response: byte ranges are accepted, and any origin
/// may ask.
pub open spec fn common_headers() -> Seq<(Seq<char>, Seq<char>)> {
    seq![
        ("Accept-Ranges"@, "bytes"@),
        ("Access-Control-Allow-Origin"@, "*"@),
        ("Access-Control-Allow-Methods"@, "GET, HEAD, OPTIONS"@),
        ("Access-Control-Allow-Headers"@, "*"@),
    ]
}

/// The value of `Content-Range` for a slice of a resource.
pub open spec fn content_range(start: u64, end: u64, total: u64) -> Seq<char> {
    "bytes "@ + decimal(start as nat) + "-"@ + decimal(end as nat) + "/"@ + decimal(total as nat)
}

/// The headers of a response that carries the whole resource.
pub open spec fn whole_headers(total: u64) -> Seq<(Seq<char>, Seq<char>)> {
    seq![("Content-Type"@, "video/mp4"@), ("Content-Length"@, decimal(total as nat))]
        + common_headers()
}

/// The headers of a response that carries a slice of the resource.
pub open spec fn partial_headers(start: u64, end: u64, total: u64) -> Seq<(Seq<char>, Seq<char>)> {
    seq![
        ("Content-Type"@, "video/mp4"@),
        ("Content-Range"@, content_range(start, end, total)),
        ("Content-Length"@, decimal((end - start + 1) as nat)),
    ] + common_headers()
}

/// The view of a list of headers: names and values as texts.
pub open spec fn headers_view(headers: Seq<(String, String)>) -> Seq<(Seq<char>, Seq<char>)> {
    Seq::new(headers.len(), |i: int| (headers[i].0@, headers[i].1@))
}

fn push_header(headers: &mut Vec<(String, String)>, name: &str, value: String)
    ensures
        headers_view(final(headers)@) == headers_view(old(headers)@).push((name@, value@)),
{
    headers.push((name.to_string(), value));
    assert(headers_view(headers@) =~= headers_view(old(headers)@).push((name@, value@)));
}

fn push_common_headers(headers: &mut Vec<(String, String)>)
    ensures
        headers_view(final(headers)@) == headers_view(old(headers)@) + common_headers(),
{
    push_header(headers, "Accept-Ranges", "bytes".to_string());
    push_header(headers, "Access-Control-Allow-Origin", "*".to_string());
    push_header(headers, "Access-Control-Allow-Methods", "GET, HEAD, OPTIONS".to_string());
    push_header(headers, "Access-Control-Allow-Headers", "*".to_string());
    assert(headers_view(headers@) =~= headers_view(old(headers)@) + common_headers());
}

fn number(n: u64) -> (s: String)
    ensures
        s@ == decimal(n as nat),
{
    crate::text::decimal_string(n)
}

fn content_range_text(start: u64, end: u64, total: u64) -> (s: String)
    ensures
        s@ == content_range(start, end, total),
{
    let mut s = "bytes ".to_string();
    push_decimal(&mut s, start as u128);
    s.append("-");
    push_decimal(&mut s, end as u128);
    s.append("/");
    push_decimal(&mut s, total as u128);
    s
}

// ---------------------------------------------------------------------------
// Responses
// ---------------------------------------------------------------------------

/// The bytes of the words that begin the body of a not-found response.
pub open spec fn not_found_prefix() -> Seq<u8> {
    seq![
        86u8, 105u8, 100u8, 101u8, 111u8, 32u8, 110u8, 111u8, 116u8, 32u8, 102u8, 111u8, 117u8,
        110u8, 100u8, 58u8, 32u8,
    ]
}

/// The response to a request for a file that does not exist: its body
/// describes the failure in words, "Video not found: " and the reason.
pub fn not_found_response(reason: &str) -> (r: RangeResponse)
    ensures
        r.status == Status::NotFound,
        r.body@ == not_found_prefix() + reason.spec_bytes(),
        r.body@.len() > 0,
        headers_view(r.headers@) == common_headers(),
        r.total == 0,
{
    let mut body: Vec<u8> = vec![
        86u8, 105u8, 100u8, 101u8, 111u8, 32u8, 110u8, 111u8, 116u8, 32u8, 102u8, 111u8, 117u8,
        110u8, 100u8, 58u8, 32u8,
    ];
    assert(body@ =~= not_found_prefix());
    let mut tail = reason.as_bytes_vec();
    body.append(&mut tail);
    let mut headers: Vec<(String, String)> = Vec::new();
    assert(headers_view(headers@) =~= Seq::empty());
    push_common_headers(&mut headers);
    assert(headers_view(headers@) =~= common_headers());
    RangeResponse { status: Status::NotFound, headers, body, total: 0 }
}

/// The response to a request whose bytes could not be read: an internal
/// error with an empty body.
pub fn failure_response(total: u64) -> (r: RangeResponse)
    ensures
        r.status == Status::InternalError,
        r.body@.len() == 0,
        headers_view(r.headers@) == common_headers(),
        r.total == total,
{
    let mut headers: Vec<(String, String)> = Vec::new();
    assert(headers_view(headers@) =~= Seq::empty());
    push_common_headers(&mut headers);
    assert(headers_view(headers@) =~= common_headers());
    RangeResponse { status: Status::InternalError, headers, body: Vec::new(), total }
}

/// The response that carries a whole file.
pub fn whole_response(data: Vec<u8>) -> (r: RangeResponse)
    ensures
        r.status == Status::Complete,
        r.body@ == data@,
        r.total == data@.len(),
        headers_view(r.headers@) == whole_headers(data@.len() as u64),
{
    let total = data.len() as u64;
    let mut headers: Vec<(String, String)> = Vec::new();
    assert(headers_view(headers@) =~= Seq::empty());
    push_header(&mut headers, "Content-Type", "video/mp4".to_string());
    push_header(&mut headers, "Content-Length", number(total));
    push_common_headers(&mut headers);
    assert(headers_view(headers@) =~= whole_headers(total));
    RangeResponse { status: Status::Complete, headers, body: data, total }
}

/// The response that carries the bytes `start..=end` of a file of `total`
/// bytes, where `data` is what was read for them. Data of another length
/// than the span is a failed read: the response never carries a shorter
/// body than it declares.
pub fn partial_response(start: u64, end: u64, total: u64, data: Vec<u8>) -> (r: RangeResponse)
    ensures
        r.total == total,
        start <= end && data@.len() == end - start + 1 ==> r.status == Status::Partial && r.body@
            == data@ && headers_view(r.headers@) == partial_headers(start, end, total),
        !(start <= end && data@.len() == end - start + 1) ==> r.status == Status::InternalError
            && r.body@.len() == 0 && headers_view(r.headers@) == common_headers(),
{
    let held = data.len() as u64;
    if start > end || end - start == u64::MAX || held != end - start + 1 {
        return failure_response(total);
    }
    let mut headers: Vec<(String, String)> = Vec::new();
    assert(headers_view(headers@) =~= Seq::empty());
    push_header(&mut headers, "Content-Type", "video/mp4".to_string());
    push_header(&mut headers, "Content-Range", content_range_text(start, end, total));
    push_header(&mut headers, "Content-Length", number(end - start + 1));
    push_common_headers(&mut headers);
    assert(headers_view(headers@) =~= partial_headers(start, end, total));
    RangeResponse { status: Status::Partial, headers, body: data, total }
}

/// The status and body with which a request for an existing file is
/// answered: the whole file, the slice that the header asks for, or, where
/// that slice cannot be read, an internal error without a body.
pub open spec fn answer(file: Seq<u8>, header: Option<Seq<char>>) -> (Status, Seq<u8>) {
    match requested_span(header, file.len() as u64) {
        Span::Whole => (Status::Complete, file),
        Span::Part { start, end } => if start <= end && end < file.len() {
            (Status::Partial, file.subrange(start as int, end + 1))
        } else {
            (Status::InternalError, Seq::empty())
        },
    }
}

/// Answers a request for a file whose bytes are at hand.
pub fn serve(file: &Vec<u8>, header: Option<&str>) -> (r: RangeResponse)
    ensures
        (r.status, r.body@) == answer(
            file@,
            match header {
                Some(h) => Some(h@),
                None => None,
            },
        ),
        r.total == file@.len(),
        r.status == Status::Complete ==> headers_view(r.headers@) == whole_headers(r.total),
        r.status == Status::InternalError ==> headers_view(r.headers@) == common_headers(),
        r.status == Status::Partial ==> match requested_span(
            match header {
                Some(h) => Some(h@),
                None => None,
            },
            r.total,
        ) {
            Span::Part { start, end } => headers_view(r.headers@) == partial_headers(
                start,
                end,
                r.total,
            ),
            Span::Whole => false,
        },
{
    let total = file.len() as u64;
    match parse_range(header, total) {
        Span::Whole => {
            let data = slice_to_vec(slice_subrange(file.as_slice(), 0, file.len()));
            assert(data@ =~= file@);
            whole_response(data)
        },
        Span::Part { start, end } => {
            if start <= end && end < total {
                let data = slice_to_vec(
                    slice_subrange(file.as_slice(), start as usize, end as usize + 1),
                );
                partial_response(start, end, total, data)
            } else {
                failure_response(total)
            }
        },
    }
}

/// Whether a span can be read from a file of `size` bytes.
pub fn can_read(span: Span, size: u64) -> (r: bool)
    ensures
        r == readable(span, size),
{
    match span {
        Span::Whole => true,
        Span::Part { start, end } => start <= end && end < size,
    }
}

/// The path of the resource that a request's address names: the address
/// without the scheme and host of the video protocol, or the whole address
/// where it does not begin with them.
pub open spec fn path_of(uri: Seq<char>) -> Seq<char> {
    if has_prefix(uri, "video://localhost"@) {
        uri.skip("video://localhost"@.len() as int)
    } else {
        uri
    }
}

/// The path of the resource that a request's address names.
pub fn resource_path(uri: &str) -> (path: String)
    ensures
        path@ == path_of(uri@),
{
    let u = chars_of(uri);
    let prefix = chars_of("video://localhost");
    if matches_at(&u, &prefix, 0) {
        assert(u@.skip(prefix@.len() as int) =~= u@.subrange(
            prefix@.len() as int,
            u@.len() as int,
        ));
        crate::text::text_of(&u, prefix.len(), u.len())
    } else {
        uri.to_string()
    }
}

/// The `Range` header that asks for the bytes from `start` to `end`.
pub open spec fn range_header(start: u64, end: u64) -> Seq<char> {
    "bytes="@ + decimal(start as nat) + seq!['-'] + decimal(end as nat)
}

/// The fields of a header made of the prefix, a start field without a
/// hyphen, one hyphen and an end field without a hyphen are those two.
pub proof fn lemma_range_fields(a: Seq<char>, b: Seq<char>)
    requires
        until(a, '-') == a.len(),
        until(b, '-') == b.len(),
    ensures
        range_fields("bytes="@ + a + seq!['-'] + b) == Some((a, b)),
{
    let p = "bytes="@;
    let h = p + a + seq!['-'] + b;
    assert(h.subrange(0, p.len() as int) =~= p);
    let v = h.skip(p.len() as int);
    assert(v =~= a + (seq!['-'] + b));
    crate::text::lemma_until_concat(a, seq!['-'] + b, '-');
    assert((seq!['-'] + b)[0] == '-');
    assert(until(seq!['-'] + b, '-') == 0);
    let i = until(v, '-') as int;
    assert(i == a.len());
    assert(v.skip(i + 1) =~= b);
    assert(v.take(i) =~= a);
}

/// For every span inside a file, the request for it is answered with
/// exactly the bytes of the span: as many as the span is long, the same
/// ones that stand there in the whole file.
pub proof fn lemma_partial_is_exact_slice(file: Seq<u8>, start: u64, end: u64)
    requires
        file.len() <= u64::MAX,
        start <= end,
        end < file.len(),
    ensures
        answer(file, Some(range_header(start, end))) == (
            Status::Partial,
            file.subrange(start as int, end + 1),
        ),
        answer(file, Some(range_header(start, end))).1.len() == end - start + 1,
        answer(file, None).1 == file,
{
    let a = decimal(start as nat);
    let b = decimal(end as nat);
    crate::text::lemma_decimal_digits(start as nat);
    crate::text::lemma_decimal_digits(end as nat);
    crate::text::lemma_digits_hold_no(a, '-');
    crate::text::lemma_digits_hold_no(b, '-');
    lemma_range_fields(a, b);
    crate::text::lemma_parse_decimal(start as nat, u64::MAX as nat);
    crate::text::lemma_parse_decimal(end as nat, u64::MAX as nat);
}

/// A header with an empty end field asks for the same span as one whose
/// end field names the last byte of the file, whatever stands in the
/// start field; so both are answered alike.
pub proof fn lemma_open_end_is_last_byte(start_field: Seq<char>, size: u64)
    requires
        size >= 1,
    ensures
        requested_span(Some("bytes="@ + start_field + seq!['-']), size) == requested_span(
            Some("bytes="@ + start_field + seq!['-'] + decimal((size - 1) as nat)),
            size,
        ),
        forall|file: Seq<u8>|
            file.len() == size ==> #[trigger] answer(
                file,
                Some("bytes="@ + start_field + seq!['-']),
            ) == answer(
                file,
                Some("bytes="@ + start_field + seq!['-'] + decimal((size - 1) as nat)),
            ),
{
    let p = "bytes="@;
    let a = start_field;
    let d = decimal((size - 1) as nat);
    let none = Seq::<char>::empty();
    let h1 = p + a + seq!['-'];
    let h2 = p + a + seq!['-'] + d;
    crate::text::lemma_decimal_digits((size - 1) as nat);
    crate::text::lemma_digits_hold_no(d, '-');
    crate::text::lemma_parse_decimal((size - 1) as nat, u64::MAX as nat);
    crate::text::lemma_until_bound(a, '-');
    assert(h1 =~= p + a + seq!['-'] + none);
    if until(a, '-') == a.len() {
        lemma_range_fields(a, none);
        lemma_range_fields(a, d);
        assert(parse_unsigned(none, u64::MAX as nat).is_none());
    } else {
        let i = until(a, '-') as int;
        assert(h1.subrange(0, p.len() as int) =~= p);
        assert(h2.subrange(0, p.len() as int) =~= p);
        let v1 = h1.skip(p.len() as int);
        let v2 = h2.skip(p.len() as int);
        assert(v1 =~= a + seq!['-']);
        assert(v2 =~= a + (seq!['-'] + d));
        crate::text::lemma_until_concat(a, seq!['-'], '-');
        crate::text::lemma_until_concat(a, seq!['-'] + d, '-');
        let r1 = v1.skip(i + 1);
        let r2 = v2.skip(i + 1);
        assert(r1 =~= a.skip(i + 1) + seq!['-']);
        assert(r2 =~= a.skip(i + 1) + (seq!['-'] + d));
        crate::text::lemma_until_concat(a.skip(i + 1), seq!['-'], '-');
        crate::text::lemma_until_concat(a.skip(i + 1), seq!['-'] + d, '-');
        crate::text::lemma_until_bound(a.skip(i + 1), '-');
        assert(seq!['-'][0] == '-');
        assert((seq!['-'] + d)[0] == '-');
        assert(until(seq!['-'], '-') == 0);
        assert(until(seq!['-'] + d, '-') == 0);
        assert(range_fields(h1).is_none());
        assert(range_fields(h2).is_none());
    }
}

} // verus!
