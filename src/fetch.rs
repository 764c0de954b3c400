use vstd::prelude::*;
use vstd::slice::{slice_subrange, slice_to_vec};
use vstd::utf8::{decode_utf8, valid_utf8};
use crate::errors::AppError;
use crate::text::{trimmed, trim_str};

verus! {

/// How many leading bytes of an unexpected body are kept for diagnosis.
pub const SNIPPET_LEN: usize = 100;

/// The byte that opens a FASTA header line (`>`).
pub const FASTA_HEADER: u8 = 0x3e;

/// Statuses in the success range.
pub open spec fn is_success_status(status: u16) -> bool {
    200 <= status && status <= 299
}

/// Whether a body starts like a FASTA record.
pub open spec fn looks_like_fasta(body: Seq<u8>) -> bool {
    body.len() > 0 && body[0] == FASTA_HEADER
}

/// The leading bytes of a body that an error message shows.
pub open spec fn snippet_bytes(body: Seq<u8>) -> Seq<u8> {
    if body.len() <= SNIPPET_LEN {
        body
    } else {
        body.take(SNIPPET_LEN as int)
    }
}

/// What a failed status reports: the address and the upstream message.
pub open spec fn status_message(url: Seq<char>, reason: Seq<char>) -> Seq<char> {
    "Failed to download file from "@ + url + ". [ERROR]: `"@ + reason + "`"@
}

/// The text that `String::from_utf8_lossy` decodes from a byte sequence.
pub uninterp spec fn lossy_utf8(b: Seq<u8>) -> Seq<char>;

/// Relies on `String::from_utf8_lossy`: decodes the bytes as UTF-8, with each
/// invalid sequence replaced; the result depends on the bytes alone, and
/// valid UTF-8 decodes to its characters.
#[verifier::external_body]
fn decode_lossy(b: &[u8]) -> (r: String)
    ensures
        r@ == lossy_utf8(b@),
        valid_utf8(b@) ==> r@ == decode_utf8(b@),
{
    String::from_utf8_lossy(b).into_owned()
}

/// The error for a response whose status is outside the success range.
pub fn status_error(url: &str, reason: &str) -> (e: AppError)
    ensures
        match e {
            AppError::StatusCodeError(m) => m@ == status_message(url@, reason@),
            _ => false,
        },
{
    let m = String::from_str("Failed to download file from ").concat(url).concat(
        ". [ERROR]: `",
    ).concat(reason).concat("`");
    AppError::StatusCodeError(m)
}

/// The error for a body that is not FASTA, given the decoded text of its
/// leading bytes.
pub fn invalid_response(decoded: &str) -> (e: AppError)
    ensures
        match e {
            AppError::InvalidResponseError(m) => m@ == trimmed(decoded@),
            _ => false,
        },
{
    AppError::InvalidResponseError(String::from_str(trim_str(decoded)))
}

/// The leading bytes of a body, at most `SNIPPET_LEN` of them.
pub fn snippet(body: &Vec<u8>) -> (r: Vec<u8>)
    ensures
        r@ == snippet_bytes(body@),
{
    let n: usize = if body.len() <= SNIPPET_LEN {
        body.len()
    } else {
        SNIPPET_LEN
    };
    let head = slice_subrange(body.as_slice(), 0, n);
    let r = slice_to_vec(head);
    proof {
        assert(r@ =~= snippet_bytes(body@));
    }
    r
}

/// Judges one HTTP response: its status must be in the success range and its
/// body must open with a FASTA header. On success the body comes back as it was.
pub fn validate_response(url: &str, status: u16, reason: &str, body: Vec<u8>) -> (r: Result<
    Vec<u8>,
    AppError,
>)
    ensures
        !is_success_status(status) ==> match r {
            Err(AppError::StatusCodeError(m)) => m@ == status_message(url@, reason@),
            _ => false,
        },
        is_success_status(status) && !looks_like_fasta(body@) ==> match r {
            Err(AppError::InvalidResponseError(m)) => m@ == trimmed(
                lossy_utf8(snippet_bytes(body@)),
            ),
            _ => false,
        },
        is_success_status(status) && looks_like_fasta(body@) ==> match r {
            Ok(b) => b@ == body@,
            Err(_) => false,
        },
{
    if status < 200 || status > 299 {
        return Err(status_error(url, reason));
    }
    if body.len() == 0 || body[0] != FASTA_HEADER {
        let head = snippet(&body);
        let text = decode_lossy(head.as_slice());
        return Err(invalid_response(text.as_str()));
    }
    Ok(body)
}

} // verus!
