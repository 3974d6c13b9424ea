//! Size-gating and emptiness decisions, shared by the platform read
//! protocols.
//!
//! Before a payload is transferred, the providers obtain a cheap size
//! report where one is available and compare it against the configured
//! limit without touching the payload. A format reporting size zero is
//! empty content — effectively absent — and never an error; one reporting
//! more than the limit is skipped. Both are soft outcomes.

use vstd::prelude::*;

use crate::error::ErrorWrapper;

verus! {

/// The decision taken on a reported payload size.
#[derive(Debug, PartialEq, Eq)]
pub enum SizeCheck {
    /// Size zero: the format is treated as effectively absent.
    Empty,
    /// The size exceeds the configured limit: skip the transfer.
    TooLarge,
    /// Transfer the payload.
    Proceed,
}

/// Decides on a size report: zero is empty content, a size strictly beyond
/// the configured limit is skipped, anything else is transferred. Without
/// a configured limit only emptiness is checked.
pub fn check_reported_size(size: u64, max_bytes: Option<u32>) -> (r: SizeCheck)
    ensures
        r == SizeCheck::Empty <==> size == 0,
        r == SizeCheck::TooLarge <==> (size > 0 && match max_bytes {
            Some(m) => size > m as u64,
            None => false,
        }),
        r == SizeCheck::Proceed <==> (size > 0 && match max_bytes {
            Some(m) => size <= m as u64,
            None => true,
        }),
{
    if size == 0 {
        SizeCheck::Empty
    } else {
        match max_bytes {
            Some(m) => if size > m as u64 {
                SizeCheck::TooLarge
            } else {
                SizeCheck::Proceed
            },
            None => SizeCheck::Proceed,
        }
    }
}

/// Whether a format may be read, given its presence in the enumeration,
/// the size the native clipboard reports for it, and the configured limit.
/// An absent format is simply not readable; with no configured limit no
/// size is consulted. With a limit, a missing size report for a format
/// that was just enumerated means the format vanished, empty content and
/// oversized content are soft early exits, and anything else is read.
pub fn can_access_format(present: bool, reported_size: Option<u64>, max_bytes: Option<u32>) -> (r:
    Result<bool, ErrorWrapper>)
    ensures
        !present ==> r == Result::<bool, ErrorWrapper>::Ok(false),
        present && max_bytes is None ==> r == Result::<bool, ErrorWrapper>::Ok(true),
        present && max_bytes is Some && reported_size is None ==> r == Result::<
            bool,
            ErrorWrapper,
        >::Err(ErrorWrapper::FormatUnavailable),
        present ==> match (max_bytes, reported_size) {
            (Some(m), Some(size)) => r == if size == 0 {
                Result::<bool, ErrorWrapper>::Err(ErrorWrapper::EmptyContent)
            } else if size > m as u64 {
                Result::<bool, ErrorWrapper>::Err(ErrorWrapper::SizeTooLarge)
            } else {
                Result::<bool, ErrorWrapper>::Ok(true)
            },
            _ => true,
        },
{
    if !present {
        Ok(false)
    } else {
        match max_bytes {
            None => Ok(true),
            Some(_) => match reported_size {
                None => Err(ErrorWrapper::FormatUnavailable),
                Some(size) => match check_reported_size(size, max_bytes) {
                    SizeCheck::Empty => Err(ErrorWrapper::EmptyContent),
                    SizeCheck::TooLarge => Err(ErrorWrapper::SizeTooLarge),
                    SizeCheck::Proceed => Ok(true),
                },
            },
        }
    }
}

/// Whether text content read from the clipboard is usable: empty text is
/// empty content, a soft early exit for the whole cycle's text tier.
pub fn content_is_not_empty(content: &str) -> (r: Result<bool, ErrorWrapper>)
    ensures
        content@.len() == 0 ==> r == Result::<bool, ErrorWrapper>::Err(ErrorWrapper::EmptyContent),
        content@.len() > 0 ==> r == Result::<bool, ErrorWrapper>::Ok(true),
{
    if content.is_empty() {
        Err(ErrorWrapper::EmptyContent)
    } else {
        Ok(true)
    }
}

} // verus!
