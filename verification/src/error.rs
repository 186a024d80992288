//! The error taxonomy: every raw engine outcome is mapped to exactly one
//! structured kind, partitioned into retryable, clean-end and fatal kinds.

use vstd::prelude::*;

verus! {

/// Status codes the engine reports through its error-inspection call.
pub const ENGINE_ERROR_SSL: i32 = 1;

pub const ENGINE_ERROR_WANT_READ: i32 = 2;

pub const ENGINE_ERROR_WANT_WRITE: i32 = 3;

pub const ENGINE_ERROR_WANT_X509_LOOKUP: i32 = 4;

pub const ENGINE_ERROR_SYSCALL: i32 = 5;

pub const ENGINE_ERROR_ZERO_RETURN: i32 = 6;

pub const ENGINE_ERROR_WANT_CONNECT: i32 = 7;

pub const ENGINE_ERROR_WANT_ACCEPT: i32 = 8;

pub const ENGINE_ERROR_WANT_CHANNEL_ID_LOOKUP: i32 = 9;

pub const ENGINE_ERROR_PENDING_SESSION: i32 = 11;

pub const ENGINE_ERROR_PENDING_CERTIFICATE: i32 = 12;

pub const ENGINE_ERROR_WANT_PRIVATE_KEY_OPERATION: i32 = 13;

/// The closed taxonomy of structured errors.
///
/// Every fallible operation resolves its raw engine status into one of these
/// kinds; a bare numeric code never reaches a caller.
#[derive(Clone, Copy, Debug, PartialEq, Eq, Structural)]
pub enum Error {
    /// The operation failed within the engine.
    /// The caller may inspect the diagnostic error queue for more information.
    Ssl,
    /// The operation failed attempting to read from the transport.
    /// The caller may retry the operation when the transport is ready for reading.
    WantRead,
    /// The operation failed attempting to write to the transport.
    /// The caller may retry the operation when the transport is ready for writing.
    WantWrite,
    /// The operation failed in a certificate-lookup callback.
    /// The caller may retry the operation when a certificate is available.
    WantX509Lookup,
    /// The operation failed externally to the engine, with a nonzero
    /// return value: a hard transport failure. The caller should consult
    /// the system-specific error mechanism. (A zero return under the same
    /// engine status is the transport's end-of-stream and resolves to
    /// `TransportEof` instead.)
    Syscall,
    /// The transport signaled end-of-stream: the stream ended, with a zero
    /// return, before a close-notify alert arrived. A clean EOF — not
    /// retryable, but not fatal by itself.
    TransportEof,
    /// The operation failed because the connection was cleanly shut down
    /// with a close-notify alert from the peer.
    ZeroReturn,
    /// The operation failed attempting to connect the transport.
    /// The caller may retry the operation when the transport is ready.
    WantConnect,
    /// The operation failed attempting to accept a connection from the transport.
    /// The caller may retry the operation when the transport is ready.
    WantAccept,
    /// The operation failed looking up the channel-ID key.
    /// The caller may retry the operation when a key is available.
    WantChannelIdLookup,
    /// The operation failed because a session lookup is still in progress.
    /// The caller may retry the operation when the lookup has completed.
    PendingSession,
    /// The operation failed because an early certificate lookup is incomplete.
    /// The caller may retry the operation when the lookup has completed.
    PendingCertificate,
    /// The operation failed because a private key operation was unfinished.
    /// The caller may retry the operation when it is complete.
    WantPrivateKeyOperation,
    /// The engine could not allocate an object.
    AllocationFailed,
    /// The engine reported a status code outside the known taxonomy, or a
    /// result that contradicts its own contract. This is a
    /// programming/compatibility error and is always fatal.
    Unrecognized,
    /// A write was retried with a buffer that is neither byte-identical to
    /// the unresolved earlier buffer nor an extension of it. The engine has
    /// already committed to the earlier data, so this is a caller contract
    /// violation, flagged distinctly from a legitimate retry.
    RetryMismatch,
}

/// A retryable kind: the caller may re-issue the same logical operation once
/// the named precondition (transport readiness, callback completion) holds.
pub open spec fn retryable(e: Error) -> bool {
    match e {
        Error::WantRead => true,
        Error::WantWrite => true,
        Error::WantX509Lookup => true,
        Error::WantConnect => true,
        Error::WantAccept => true,
        Error::WantChannelIdLookup => true,
        Error::PendingSession => true,
        Error::PendingCertificate => true,
        Error::WantPrivateKeyOperation => true,
        _ => false,
    }
}

/// A clean-end kind: the session or the stream ended in an orderly way —
/// the peer's close-notify, or the transport's end-of-stream. Neither
/// retryable nor fatal.
pub open spec fn clean_end(e: Error) -> bool {
    e == Error::ZeroReturn || e == Error::TransportEof
}

/// A fatal kind: the operation cannot be retried; a connection that sees a
/// fatal engine error moves to its failed state.
pub open spec fn fatal(e: Error) -> bool {
    !retryable(e) && !clean_end(e)
}

/// The taxonomy is partitioned: every kind is exactly one of retryable,
/// clean-end, or fatal.
pub proof fn lemma_taxonomy_partition(e: Error)
    ensures
        retryable(e) || clean_end(e) || fatal(e),
        !(retryable(e) && clean_end(e)),
        !(retryable(e) && fatal(e)),
        !(clean_end(e) && fatal(e)),
{
}

/// What an engine status code means, as a kind of the taxonomy.
///
/// Codes outside the engine's documented set (including the "no error" code,
/// which never accompanies a failed operation) resolve to
/// `Error::Unrecognized` so that a compatibility break fails loudly instead
/// of being coerced to a known kind.
pub open spec fn spec_classify(code: i32) -> Error {
    if code == ENGINE_ERROR_SSL {
        Error::Ssl
    } else if code == ENGINE_ERROR_WANT_READ {
        Error::WantRead
    } else if code == ENGINE_ERROR_WANT_WRITE {
        Error::WantWrite
    } else if code == ENGINE_ERROR_WANT_X509_LOOKUP {
        Error::WantX509Lookup
    } else if code == ENGINE_ERROR_SYSCALL {
        Error::Syscall
    } else if code == ENGINE_ERROR_ZERO_RETURN {
        Error::ZeroReturn
    } else if code == ENGINE_ERROR_WANT_CONNECT {
        Error::WantConnect
    } else if code == ENGINE_ERROR_WANT_ACCEPT {
        Error::WantAccept
    } else if code == ENGINE_ERROR_WANT_CHANNEL_ID_LOOKUP {
        Error::WantChannelIdLookup
    } else if code == ENGINE_ERROR_PENDING_SESSION {
        Error::PendingSession
    } else if code == ENGINE_ERROR_PENDING_CERTIFICATE {
        Error::PendingCertificate
    } else if code == ENGINE_ERROR_WANT_PRIVATE_KEY_OPERATION {
        Error::WantPrivateKeyOperation
    } else {
        Error::Unrecognized
    }
}

/// Resolve an engine status code into its structured kind.
pub fn classify(code: i32) -> (e: Error)
    ensures
        e == spec_classify(code),
{
    match code {
        ENGINE_ERROR_SSL => Error::Ssl,
        ENGINE_ERROR_WANT_READ => Error::WantRead,
        ENGINE_ERROR_WANT_WRITE => Error::WantWrite,
        ENGINE_ERROR_WANT_X509_LOOKUP => Error::WantX509Lookup,
        ENGINE_ERROR_SYSCALL => Error::Syscall,
        ENGINE_ERROR_ZERO_RETURN => Error::ZeroReturn,
        ENGINE_ERROR_WANT_CONNECT => Error::WantConnect,
        ENGINE_ERROR_WANT_ACCEPT => Error::WantAccept,
        ENGINE_ERROR_WANT_CHANNEL_ID_LOOKUP => Error::WantChannelIdLookup,
        ENGINE_ERROR_PENDING_SESSION => Error::PendingSession,
        ENGINE_ERROR_PENDING_CERTIFICATE => Error::PendingCertificate,
        ENGINE_ERROR_WANT_PRIVATE_KEY_OPERATION => Error::WantPrivateKeyOperation,
        _ => Error::Unrecognized,
    }
}

/// Whether a kind is retryable: the caller may re-issue the same logical
/// operation once the named precondition holds.
pub fn is_retryable(e: Error) -> (b: bool)
    ensures
        b == retryable(e),
{
    match e {
        Error::WantRead => true,
        Error::WantWrite => true,
        Error::WantX509Lookup => true,
        Error::WantConnect => true,
        Error::WantAccept => true,
        Error::WantChannelIdLookup => true,
        Error::PendingSession => true,
        Error::PendingCertificate => true,
        Error::WantPrivateKeyOperation => true,
        _ => false,
    }
}

/// Whether a kind is a clean end: the peer's close-notify, or the
/// transport's end-of-stream.
pub fn is_clean_end(e: Error) -> (b: bool)
    ensures
        b == clean_end(e),
{
    match e {
        Error::ZeroReturn => true,
        Error::TransportEof => true,
        _ => false,
    }
}

/// Whether a kind is fatal: the operation cannot be retried.
pub fn is_fatal(e: Error) -> (b: bool)
    ensures
        b == fatal(e),
{
    !is_retryable(e) && !is_clean_end(e)
}

/// What a failed transport operation's raw outcome means: the engine's
/// status code, refined by the operation's own return value. A zero return
/// under the external-failure status is the transport's end-of-stream — a
/// clean EOF, distinct from a hard transport failure; every other outcome
/// means what its status code alone means.
pub open spec fn spec_resolve(ret: i32, err_code: i32) -> Error {
    if ret == 0 && err_code == ENGINE_ERROR_SYSCALL {
        Error::TransportEof
    } else {
        spec_classify(err_code)
    }
}

/// Resolve a failed operation's raw outcome — return value and status
/// code — into its structured kind.
pub fn resolve(ret: i32, err_code: i32) -> (e: Error)
    ensures
        e == spec_resolve(ret, err_code),
{
    if ret == 0 && err_code == ENGINE_ERROR_SYSCALL {
        Error::TransportEof
    } else {
        classify(err_code)
    }
}

/// Classification by status code never yields the caller-contract kinds or
/// the EOF refinement: `AllocationFailed` and `RetryMismatch` arise only
/// from failed allocations and misused write retries, and `TransportEof`
/// only from a zero return resolved together with its status code.
pub proof fn lemma_classify_range(code: i32)
    ensures
        spec_classify(code) != Error::AllocationFailed,
        spec_classify(code) != Error::RetryMismatch,
        spec_classify(code) != Error::TransportEof,
{
}

} // verus!
