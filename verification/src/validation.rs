//! Pure input-validation rules: lengths, counts, thresholds, timestamps
//! and the submission-URL format. No state.

use vstd::prelude::*;
use crate::errors::ErrorCode;

verus! {

/// Longest accepted title, in bytes.
pub const MAX_TITLE_LEN: usize = 100;

/// Longest accepted description, in bytes.
pub const MAX_DESCRIPTION_LEN: usize = 500;

/// Largest accepted judge panel.
pub const MAX_JUDGES: usize = 5;

/// Smallest accepted prize, in minor currency units (0.01 of a whole unit).
pub const MIN_PRIZE_AMOUNT: u64 = 10_000_000;

/// Longest accepted submission URL, in bytes.
pub const MAX_URL_LEN: usize = 200;

/// Whether `url` begins with the secure-transport prefix `https://`.
pub open spec fn is_secure_url(url: Seq<u8>) -> bool {
    &&& url.len() >= 8
    &&& url[0] == 104u8  // h
    &&& url[1] == 116u8  // t
    &&& url[2] == 116u8  // t
    &&& url[3] == 112u8  // p
    &&& url[4] == 115u8  // s
    &&& url[5] == 58u8  // :
    &&& url[6] == 47u8  // /
    &&& url[7] == 47u8  // /
}

/// The first rule a submission URL violates, if any: it must be at most
/// `MAX_URL_LEN` bytes and begin with `https://`.
pub open spec fn url_error(url: Seq<u8>) -> Option<ErrorCode> {
    if url.len() > MAX_URL_LEN {
        Some(ErrorCode::UrlTooLong)
    } else if !is_secure_url(url) {
        Some(ErrorCode::InvalidUrl)
    } else {
        None
    }
}

/// Checks a submission URL and reports the first violated rule, if any.
pub fn check_url(url: &Vec<u8>) -> (r: Option<ErrorCode>)
    ensures
        r == url_error(url@),
{
    if url.len() > MAX_URL_LEN {
        Some(ErrorCode::UrlTooLong)
    } else if url.len() < 8 {
        Some(ErrorCode::InvalidUrl)
    } else if url[0] == 104 && url[1] == 116 && url[2] == 116 && url[3] == 112 && url[4] == 115
        && url[5] == 58 && url[6] == 47 && url[7] == 47 {
        None
    } else {
        Some(ErrorCode::InvalidUrl)
    }
}

} // verus!
