//! Splitting a Gemini response into its header and its body.
//!
//! A response is everything the peer sent before it closed the connection.
//! The first `CR LF` in it ends the header; the body is whatever follows,
//! untouched, further `CR LF` pairs included.

use vstd::prelude::*;

verus! {

/// Carriage return, the first byte of the delimiter.
pub const CR: u8 = 13;

/// Line feed, the second byte of the delimiter.
pub const LF: u8 = 10;

/// `data` holds the delimiter at offset `i`.
pub open spec fn crlf_at(data: Seq<u8>, i: int) -> bool {
    0 <= i && i + 1 < data.len() && data[i] == CR && data[i + 1] == LF
}

/// `data` holds the delimiter somewhere.
pub open spec fn has_crlf(data: Seq<u8>) -> bool {
    exists|i: int| crlf_at(data, i)
}

/// `i` is the offset of the first delimiter in `data`.
pub open spec fn first_crlf_at(data: Seq<u8>, i: int) -> bool {
    crlf_at(data, i) && forall|j: int| 0 <= j < i ==> !crlf_at(data, j)
}

/// The offset of the first delimiter in `data`, if it holds one.
pub open spec fn first_crlf(data: Seq<u8>) -> Option<int> {
    if has_crlf(data) {
        Some(choose|i: int| first_crlf_at(data, i))
    } else {
        None
    }
}

/// Header and body of a response, as sequences of bytes.
pub struct FramedSeq {
    pub header: Option<Seq<u8>>,
    pub body: Seq<u8>,
}

/// What framing makes of `data`: the bytes before the first delimiter and the
/// bytes after it, or nothing where `data` holds no delimiter.
pub open spec fn framed(data: Seq<u8>) -> Option<FramedSeq> {
    match first_crlf(data) {
        Some(i) => Some(
            FramedSeq {
                header: Some(data.subrange(0, i)),
                body: data.subrange(i + 2, data.len() as int),
            },
        ),
        None => None,
    }
}

/// A delimiter somewhere means that there is a first one.
pub proof fn lemma_first_crlf_exists(data: Seq<u8>, i: int)
    requires
        crlf_at(data, i),
    ensures
        exists|k: int| 0 <= k <= i && first_crlf_at(data, k),
    decreases i,
{
    if exists|j: int| 0 <= j < i && crlf_at(data, j) {
        let j = choose|j: int| 0 <= j < i && crlf_at(data, j);
        lemma_first_crlf_exists(data, j);
    } else {
        assert(first_crlf_at(data, i));
    }
}

/// There is only one first delimiter: `first_crlf` names it.
pub proof fn lemma_first_crlf_unique(data: Seq<u8>, i: int)
    requires
        first_crlf_at(data, i),
    ensures
        first_crlf(data) == Some(i),
{
    assert(crlf_at(data, i));
    let k = choose|k: int| first_crlf_at(data, k);
    assert(first_crlf_at(data, k));
    if k < i {
        assert(!crlf_at(data, k));
    } else if i < k {
        assert(!crlf_at(data, i));
    }
}

/// Finds the first `CR LF` in `data`.
///
/// Returns the offset of its `CR`, or `None` where `data` holds no `CR LF`.
pub fn find_clrf(data: &[u8]) -> (found: Option<usize>)
    ensures
        match found {
            Some(i) => first_crlf_at(data@, i as int) && first_crlf(data@) == Some(i as int),
            None => !has_crlf(data@) && first_crlf(data@).is_none(),
        },
{
    let n: usize = data.len();
    let mut i: usize = 0;
    while i < n && i + 1 < n
        invariant
            n == data@.len(),
            i <= n,
            forall|j: int| 0 <= j < i ==> !crlf_at(data@, j),
        decreases n - i,
    {
        if data[i] == CR && data[i + 1] == LF {
            proof {
                lemma_first_crlf_unique(data@, i as int);
            }
            return Some(i);
        }
        i = i + 1;
    }
    proof {
        if has_crlf(data@) {
            let k = choose|k: int| crlf_at(data@, k);
            assert(crlf_at(data@, k));
            assert(k < i);
        }
    }
    None
}

/// A response split at its first delimiter.
///
/// The header is the status line of the peer, without the delimiter; nothing
/// here reads it. The body is passed on as it came.
#[derive(Debug)]
pub struct FramedResponse {
    pub header: Option<Vec<u8>>,
    pub body: Vec<u8>,
}

impl View for FramedResponse {
    type V = FramedSeq;

    open spec fn view(&self) -> FramedSeq {
        FramedSeq {
            header: match self.header {
                Some(h) => Some(h@),
                None => None,
            },
            body: self.body@,
        }
    }
}

/// Why a response could not be framed.
#[derive(Debug, Clone, Copy, PartialEq, Eq, Structural)]
pub enum FramingError {
    /// The response holds no `CR LF`.
    DelimiterNotFound,
}

impl FramingError {
    /// The error in words.
    pub fn message(&self) -> (text: &'static str)
        ensures
            text@ == "delimiter not found"@,
    {
        "delimiter not found"
    }
}

/// The result of `frame`, as a value of the model.
pub open spec fn frame_result_view(r: Result<FramedResponse, FramingError>) -> Option<FramedSeq> {
    match r {
        Ok(f) => Some(f@),
        Err(_) => None,
    }
}

/// Splits a response at its first `CR LF`.
///
/// The header is the bytes before the delimiter, the body the bytes after
/// it. A delimiter at offset 0 gives an empty header. A response without a
/// delimiter is refused: it is never taken for an empty body.
pub fn frame(raw: Vec<u8>) -> (r: Result<FramedResponse, FramingError>)
    ensures
        frame_result_view(r) == framed(raw@),
        r matches Err(e) ==> e == FramingError::DelimiterNotFound,
{
    let mut header = raw;
    match find_clrf(header.as_slice()) {
        Some(i) => {
            let ghost all = header@;
            assert(crlf_at(all, i as int));
            let mut body = header.split_off(i);
            let rest = body.split_off(2);
            proof {
                assert(rest@ =~= all.subrange(i + 2, all.len() as int));
            }
            Ok(FramedResponse { header: Some(header), body: rest })
        },
        None => Err(FramingError::DelimiterNotFound),
    }
}

/// Framing reads its input and nothing else: equal inputs frame alike, and
/// a second framing of the same bytes gives what the first one gave.
pub proof fn lemma_frame_deterministic(a: Seq<u8>, b: Seq<u8>)
    requires
        a =~= b,
    ensures
        framed(a) == framed(b),
{
}

/// A response with a delimiter at offset `i` and none before it splits into
/// the `i` bytes before it and the bytes from offset `i + 2` on.
pub proof fn lemma_frame_splits_at_first(data: Seq<u8>, i: int)
    requires
        first_crlf_at(data, i),
    ensures
        framed(data) == Some(
            FramedSeq {
                header: Some(data.subrange(0, i)),
                body: data.subrange(i + 2, data.len() as int),
            },
        ),
{
    lemma_first_crlf_unique(data, i);
}

/// A response with any delimiter in it is framed, at an offset no later
/// than that delimiter; one without a delimiter is not framed.
pub proof fn lemma_frame_succeeds_iff_delimited(data: Seq<u8>)
    ensures
        framed(data).is_some() <==> has_crlf(data),
        forall|i: int| crlf_at(data, i) ==> first_crlf(data).is_some() && first_crlf(data).unwrap() <= i,
{
    assert forall|i: int| crlf_at(data, i) implies first_crlf(data).is_some() && first_crlf(
        data,
    ).unwrap() <= i by {
        lemma_first_crlf_exists(data, i);
        let k = choose|k: int| 0 <= k <= i && first_crlf_at(data, k);
        lemma_first_crlf_unique(data, k);
    }
}

/// The body is not split again. A header without a delimiter, then the
/// delimiter, then any body at all, further delimiters included, frames back
/// into that header and that body.
pub proof fn lemma_frame_inverts_join(header: Seq<u8>, body: Seq<u8>)
    requires
        !has_crlf(header),
    ensures
        framed(header + seq![CR, LF] + body) == Some(
            FramedSeq { header: Some(header), body: body },
        ),
{
    let data = header + seq![CR, LF] + body;
    let i = header.len() as int;
    assert(crlf_at(data, i));
    assert forall|j: int| 0 <= j < i implies !crlf_at(data, j) by {
        if crlf_at(data, j) {
            if j + 1 < i {
                assert(header[j] == data[j] && header[j + 1] == data[j + 1]);
                assert(crlf_at(header, j));
            }
        }
    }
    lemma_first_crlf_unique(data, i);
    assert(data.subrange(0, i) =~= header);
    assert(data.subrange(i + 2, data.len() as int) =~= body);
}

} // verus!
