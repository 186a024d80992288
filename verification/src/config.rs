//! The shared TLS configuration: the policy parameters a connection captures
//! at creation, and the exactly-once release of the engine context object
//! that backs them.

use vstd::prelude::*;
use crate::error::Error;

verus! {

/// Protocol version codes, as the engine numbers them.
pub const TLS1_VERSION: u16 = 0x0301;

pub const TLS1_1_VERSION: u16 = 0x0302;

pub const TLS1_2_VERSION: u16 = 0x0303;

pub const TLS1_3_VERSION: u16 = 0x0304;

/// Whether peer certificate validation failures abort the handshake.
#[derive(Clone, Copy, Debug, PartialEq, Eq, Structural)]
pub enum VerifyMode {
    /// Certificate validation failures are ignored.
    NoVerify,
    /// A valid peer certificate is required.
    Peer,
}

/// The policy parameters a configuration holds and a connection captures at
/// the instant it is created.
#[derive(Clone, Copy, Debug, PartialEq, Eq, Structural)]
pub struct Policy {
    /// The lowest protocol version the engine may negotiate.
    pub min_version: u16,
    /// Certificate verification mode.
    pub verify: VerifyMode,
    /// Whether a cipher-selection expression has been applied.
    pub cipher_applied: bool,
    /// Request signed-certificate timestamps from servers.
    pub signed_cert_timestamps: bool,
    /// Request OCSP stapling from servers.
    pub ocsp_stapling: bool,
    /// Advertise TLS channel-ID support.
    pub channel_id: bool,
}

/// The policy a freshly created configuration starts from: the engine's
/// defaults, with every optional extension off.
pub open spec fn default_policy() -> Policy {
    Policy {
        min_version: TLS1_VERSION,
        verify: VerifyMode::NoVerify,
        cipher_applied: false,
        signed_cert_timestamps: false,
        ocsp_stapling: false,
        channel_id: false,
    }
}

/// A reusable TLS configuration backed by an engine context object.
///
/// The engine object is an exclusively owned resource: it is acquired when
/// the configuration is created and must be released exactly once. `release`
/// decides when the engine's free call may be made; after it, the
/// configuration must not be used again.
pub struct Context {
    /// The current policy.
    pub policy: Policy,
    /// Whether the backing engine object has been released.
    pub released: bool,
}

/// The release decision: the free call is performed on the first release and
/// never again.
pub open spec fn spec_context_release(pre: Context) -> (Context, bool) {
    (Context { policy: pre.policy, released: true }, !pre.released)
}

impl Context {
    /// Create a configuration with the engine's default settings.
    ///
    /// `allocated` is the engine's verdict on allocating its context object;
    /// when the engine could not allocate, creation fails with
    /// `AllocationFailed` and no resource is held.
    pub fn new(allocated: bool) -> (r: Result<Context, Error>)
        ensures
            allocated ==> r == Ok::<Context, Error>(
                Context { policy: default_policy(), released: false },
            ),
            !allocated ==> r == Err::<Context, Error>(Error::AllocationFailed),
    {
        if allocated {
            let policy = Policy {
                min_version: TLS1_VERSION,
                verify: VerifyMode::NoVerify,
                cipher_applied: false,
                signed_cert_timestamps: false,
                ocsp_stapling: false,
                channel_id: false,
            };
            Ok(Context { policy, released: false })
        } else {
            Err(Error::AllocationFailed)
        }
    }

    /// Restrict negotiable protocol versions to `version` and above.
    ///
    /// The engine accepts the request silently; a version it does not
    /// support falls back to its defaults at negotiation time, so a caller
    /// needing strict enforcement must verify the negotiated version on an
    /// established connection.
    pub fn set_min_version(&mut self, version: u16)
        requires
            !old(self).released,
        ensures
            final(self).policy == (Policy { min_version: version, ..old(self).policy }),
            !final(self).released,
    {
        self.policy.min_version = version;
    }

    /// Apply a cipher-selection expression.
    ///
    /// `accepted` is the engine's verdict on parsing `list`. On rejection
    /// the policy is left untouched and the caller should consult the
    /// diagnostic error queue for the cause.
    pub fn set_cipher_list(&mut self, list: &str, accepted: bool) -> (r: bool)
        requires
            !old(self).released,
        ensures
            r == accepted,
            accepted ==> final(self).policy == (Policy { cipher_applied: true, ..old(self).policy }),
            !accepted ==> final(self).policy == old(self).policy,
            !final(self).released,
    {
        let _ = list;
        if accepted {
            self.policy.cipher_applied = true;
        }
        accepted
    }

    /// Choose whether peer certificate validation failures abort the
    /// handshake.
    pub fn set_verify(&mut self, mode: VerifyMode)
        requires
            !old(self).released,
        ensures
            final(self).policy == (Policy { verify: mode, ..old(self).policy }),
            !final(self).released,
    {
        self.policy.verify = mode;
    }

    /// Request signed-certificate timestamps on every client connection
    /// created from this configuration.
    pub fn enable_signed_cert_timestamps(&mut self)
        requires
            !old(self).released,
        ensures
            final(self).policy == (Policy { signed_cert_timestamps: true, ..old(self).policy }),
            !final(self).released,
    {
        self.policy.signed_cert_timestamps = true;
    }

    /// Request OCSP stapling on every client connection created from this
    /// configuration.
    pub fn enable_ocsp_stapling(&mut self)
        requires
            !old(self).released,
        ensures
            final(self).policy == (Policy { ocsp_stapling: true, ..old(self).policy }),
            !final(self).released,
    {
        self.policy.ocsp_stapling = true;
    }

    /// Advertise TLS channel-ID support.
    ///
    /// The engine's contract is to always report success (`ret == 1`) for
    /// this call; any other signal is a programming-contract violation and
    /// resolves to the fatal `Unrecognized` kind, leaving the policy
    /// untouched.
    pub fn enable_tls_channel_id(&mut self, ret: i32) -> (r: Result<(), Error>)
        requires
            !old(self).released,
        ensures
            ret == 1 ==> r == Ok::<(), Error>(()) && final(self).policy == (Policy {
                channel_id: true,
                ..old(self).policy
            }),
            ret != 1 ==> r == Err::<(), Error>(Error::Unrecognized)
                && final(self).policy == old(self).policy,
            !final(self).released,
    {
        if ret == 1 {
            self.policy.channel_id = true;
            Ok(())
        } else {
            Err(Error::Unrecognized)
        }
    }

    /// Decide the release of the backing engine object.
    ///
    /// Returns whether the engine's free call must now be performed: true on
    /// the first release, false ever after, so the resource is released
    /// exactly once.
    pub fn release(&mut self) -> (do_free: bool)
        ensures
            (*final(self), do_free) == spec_context_release(*old(self)),
    {
        let was_released = self.released;
        self.released = true;
        !was_released
    }

    /// The current policy.
    pub fn policy(&self) -> (p: Policy)
        ensures
            p == self.policy,
    {
        self.policy
    }

    /// Whether the backing engine object has been released.
    pub fn is_released(&self) -> (b: bool)
        ensures
            b == self.released,
    {
        self.released
    }
}

/// However a configuration is used, release frees the backing engine object
/// at most once: of any two successive release decisions, the second never
/// frees, and starting from a freshly created configuration the first always
/// does.
pub proof fn lemma_release_exactly_once(c0: Context)
    ensures
        ({
            let (c1, did1) = spec_context_release(c0);
            let (c2, did2) = spec_context_release(c1);
            &&& !c0.released ==> did1
            &&& !did2
        }),
{
}

} // verus!
