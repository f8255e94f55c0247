use vstd::prelude::*;
use crate::text::{contains_text, seq_contains};

verus! {

/// Browser error text that marks a name that does not resolve.
pub const DNS_FAILURE_MARKER: &'static str = "ERR_NAME_NOT_RESOLVED";

/// Browser error text that marks a host that cannot be reached.
pub const HOST_UNREACHABLE_MARKER: &'static str = "ERR_ADDRESS_UNREACHABLE";

/// Driver error text that marks a selector that matched nothing.
pub const ELEMENT_NOT_FOUND_MARKER: &'static str =
    "no element found matching selector: no such element: Unable to locate element:";

/// Browser error text that marks a cipher mismatch in the TLS handshake.
pub const TLS_CIPHER_MARKER: &'static str = "ERR_SSL_VERSION_OR_CIPHER_MISMATCH";

/// Browser error text that marks a TLS protocol failure.
pub const TLS_PROTOCOL_MARKER: &'static str = "ERR_SSL_PROTOCOL_ERROR";

/// Browser error text that marks a navigation that timed out.
pub const TIMEOUT_MARKER: &'static str = "ERR_TIMED_OUT";

/// The kind of a failed fetch, as the recovery policy sees it.
#[derive(PartialEq, Eq, Structural, Clone, Copy, Debug)]
pub enum ErrorKind {
    NavigationTimeout,
    DnsFailure,
    TlsFailure,
    HostUnreachable,
    ElementNotFound,
    Other,
}

/// The kind of error that a fetch's error text reports. Markers of a failure
/// that lies with the target are looked for first.
pub open spec fn error_kind_of(text: Seq<char>) -> ErrorKind {
    if seq_contains(text, DNS_FAILURE_MARKER@) {
        ErrorKind::DnsFailure
    } else if seq_contains(text, HOST_UNREACHABLE_MARKER@) {
        ErrorKind::HostUnreachable
    } else if seq_contains(text, ELEMENT_NOT_FOUND_MARKER@) {
        ErrorKind::ElementNotFound
    } else if seq_contains(text, TLS_CIPHER_MARKER@) || seq_contains(text, TLS_PROTOCOL_MARKER@) {
        ErrorKind::TlsFailure
    } else if seq_contains(text, TIMEOUT_MARKER@) {
        ErrorKind::NavigationTimeout
    } else {
        ErrorKind::Other
    }
}

/// Maps the text of a fetch error to its kind.
pub fn classify_error_text(text: &str) -> (r: ErrorKind)
    ensures
        r == error_kind_of(text@),
{
    if contains_text(text, DNS_FAILURE_MARKER) {
        ErrorKind::DnsFailure
    } else if contains_text(text, HOST_UNREACHABLE_MARKER) {
        ErrorKind::HostUnreachable
    } else if contains_text(text, ELEMENT_NOT_FOUND_MARKER) {
        ErrorKind::ElementNotFound
    } else if contains_text(text, TLS_CIPHER_MARKER) || contains_text(text, TLS_PROTOCOL_MARKER) {
        ErrorKind::TlsFailure
    } else if contains_text(text, TIMEOUT_MARKER) {
        ErrorKind::NavigationTimeout
    } else {
        ErrorKind::Other
    }
}

/// What a fetch operation came back with.
#[derive(PartialEq, Eq, Structural, Clone, Copy, Debug)]
pub enum FetchOutcome {
    /// Markup with at least one character.
    Content,
    /// The operation completed but returned no content.
    Empty,
    Failed(ErrorKind),
}

/// Sorts fetched markup into content or empty.
pub fn outcome_of_markup(markup: &str) -> (r: FetchOutcome)
    ensures
        r == (if markup@.len() == 0 { FetchOutcome::Empty } else { FetchOutcome::Content }),
{
    if markup.is_empty() {
        FetchOutcome::Empty
    } else {
        FetchOutcome::Content
    }
}

/// What to do after a fetch.
#[derive(PartialEq, Eq, Structural, Clone, Copy, Debug)]
pub enum Recovery {
    /// Write the result; the session is healthy.
    Persist,
    /// Record the target as permanently unfetchable and release the session.
    Quarantine,
    /// Fetch once more with the scheme downgraded to plaintext.
    Downgrade,
    /// Release the session and write nothing.
    Release,
    /// Cycle the session, which may be in an unsafe state, and write nothing.
    Replace,
}

/// The recovery policy. `downgraded` says whether this fetch was already the
/// plaintext retry; a failure then ends the item with a release.
pub open spec fn recovery_of(outcome: FetchOutcome, downgraded: bool) -> Recovery {
    match outcome {
        FetchOutcome::Content => Recovery::Persist,
        FetchOutcome::Empty => Recovery::Replace,
        FetchOutcome::Failed(kind) => if downgraded {
            Recovery::Release
        } else {
            match kind {
                ErrorKind::DnsFailure => Recovery::Quarantine,
                ErrorKind::HostUnreachable => Recovery::Quarantine,
                ErrorKind::ElementNotFound => Recovery::Quarantine,
                ErrorKind::TlsFailure => Recovery::Downgrade,
                _ => Recovery::Replace,
            }
        },
    }
}

/// Chooses the recovery for a fetch outcome.
pub fn classify(outcome: FetchOutcome, downgraded: bool) -> (r: Recovery)
    ensures
        r == recovery_of(outcome, downgraded),
{
    match outcome {
        FetchOutcome::Content => Recovery::Persist,
        FetchOutcome::Empty => Recovery::Replace,
        FetchOutcome::Failed(kind) => {
            if downgraded {
                Recovery::Release
            } else {
                match kind {
                    ErrorKind::DnsFailure => Recovery::Quarantine,
                    ErrorKind::HostUnreachable => Recovery::Quarantine,
                    ErrorKind::ElementNotFound => Recovery::Quarantine,
                    ErrorKind::TlsFailure => Recovery::Downgrade,
                    _ => Recovery::Replace,
                }
            }
        },
    }
}

} // verus!
