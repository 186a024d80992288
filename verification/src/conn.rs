//! The per-connection handshake/read/write/shutdown state machine.
//!
//! A connection is driven as an event loop split between the caller and this
//! library: before an engine call the caller asks the `check_*` guard
//! whether the operation may proceed at all (a refused operation resolves
//! here, fast, without any engine call); after a permitted engine call the
//! caller hands the raw outcome — the call's return code and, for a
//! non-positive return, the engine's status code — to the operation itself,
//! which decides the structured result and the next state. Every decision is
//! stated by the `*_guard`, `*_post` and `*_res` specification functions and
//! proved of the executable operations.

use vstd::prelude::*;
use vstd::slice::slice_to_vec;
use crate::config::Context;
use crate::config::Policy;
use crate::error::Error;
use crate::error::classify;
use crate::error::clean_end;
use crate::error::is_clean_end;
use crate::error::is_retryable;
use crate::error::resolve;
use crate::error::retryable;
use crate::error::spec_classify;
use crate::error::spec_resolve;
use crate::error::ENGINE_ERROR_SYSCALL;

verus! {

/// The lifecycle of a connection. `Failed` is absorbing for application
/// I/O: it is entered on any fatal engine error and never left.
#[derive(Clone, Copy, Debug, PartialEq, Eq, Structural)]
pub enum State {
    /// Instantiated from a configuration, configured as a client; no
    /// handshake step has run yet.
    Created,
    /// At least one handshake step has run and the handshake has not yet
    /// completed.
    Handshaking,
    /// The handshake completed; application data may flow.
    Established,
    /// Shutdown was initiated; this side's close-notify has been or is
    /// being sent.
    ShuttingDown,
    /// Terminal: both shutdown phases completed, or the engine session was
    /// released.
    Closed,
    /// Terminal: a fatal error was seen; every further operation fails fast.
    Failed,
}

/// What a successful shutdown call reports.
#[derive(Clone, Copy, Debug, PartialEq, Eq, Structural)]
pub enum ShutdownStatus {
    /// This side's close-notify has been sent; the peer's has not arrived.
    Sent,
    /// Close-notify has been both sent and received: fully shut down.
    Complete,
}

/// A transport binding over a caller-owned socket descriptor. The caller
/// keeps ownership of the descriptor: releasing the binding never closes it.
pub struct Bio {
    /// The bound descriptor.
    pub fd: i32,
}

impl Bio {
    /// Bind a caller-owned socket descriptor.
    ///
    /// `allocated` is the engine's verdict on allocating the binding
    /// object; on failure nothing is held.
    pub fn new_socket(fd: i32, allocated: bool) -> (r: Result<Bio, Error>)
        ensures
            allocated ==> r == Ok::<Bio, Error>(Bio { fd }),
            !allocated ==> r == Err::<Bio, Error>(Error::AllocationFailed),
    {
        if allocated {
            Ok(Bio { fd })
        } else {
            Err(Error::AllocationFailed)
        }
    }
}

/// The abstract state of a connection, over which every contract and law of
/// this module is stated.
#[verifier::ext_equal]
pub ghost struct ConnView {
    /// Position in the lifecycle.
    pub state: State,
    /// The bound transport descriptor, once bound.
    pub transport: Option<i32>,
    /// The policy captured from the configuration at creation.
    pub policy: Policy,
    /// The data of an unresolved write: after a retryable write failure the
    /// engine has committed to these bytes, and a retry must present them
    /// again as a prefix of its buffer.
    pub committed: Option<Seq<u8>>,
    /// The engine's last reported count of already-decrypted bytes buffered
    /// inside it, available without touching the transport.
    pub buffered: nat,
    /// The server name to advertise, once configured.
    pub hostname: Option<Seq<char>>,
    /// Whether the engine session object has been released.
    pub released: bool,
}

/// One TLS client connection overlaid on one transport binding.
pub struct Client {
    state: State,
    transport: Option<i32>,
    policy: Policy,
    committed: Option<Vec<u8>>,
    buffered: usize,
    hostname: Option<String>,
    released: bool,
}

impl View for Client {
    type V = ConnView;

    closed spec fn view(&self) -> ConnView {
        ConnView {
            state: self.state,
            transport: self.transport,
            policy: self.policy,
            committed: match self.committed {
                Some(ref v) => Some(v@),
                None => None,
            },
            buffered: self.buffered as nat,
            hostname: match self.hostname {
                Some(ref s) => Some(s@),
                None => None,
            },
            released: self.released,
        }
    }
}

/// The view of a connection just created from a configuration with policy
/// `p`: no transport, no unresolved write, nothing buffered.
pub open spec fn fresh_view(p: Policy) -> ConnView {
    ConnView {
        state: State::Created,
        transport: None,
        policy: p,
        committed: None,
        buffered: 0,
        hostname: None,
        released: false,
    }
}

/// Whether application I/O (handshake, read, write) may reach the engine: a
/// live, transport-bound connection that has neither failed, nor been shut
/// down, nor been released.
pub open spec fn can_io(v: ConnView) -> bool {
    &&& !v.released
    &&& v.transport is Some
    &&& (v.state == State::Created || v.state == State::Handshaking || v.state
        == State::Established)
}

/// The fast-fail decision for handshake and read: a forbidden operation
/// resolves to a fatal error with no engine call.
pub open spec fn io_guard(v: ConnView) -> Result<(), Error> {
    if can_io(v) {
        Ok(())
    } else {
        Err(Error::Ssl)
    }
}

/// `p` is a prefix of `s`.
pub open spec fn spec_is_prefix(p: Seq<u8>, s: Seq<u8>) -> bool {
    p.len() <= s.len() && p == s.subrange(0, p.len() as int)
}

/// Whether `buf` may be presented to the engine given the unresolved write:
/// either nothing is committed, or the committed bytes are a prefix of
/// `buf` (byte-identical counts as a prefix).
pub open spec fn retry_compatible(v: ConnView, buf: Seq<u8>) -> bool {
    match v.committed {
        Some(p) => spec_is_prefix(p, buf),
        None => true,
    }
}

/// The fast-fail decision for write: the state must admit I/O and the
/// buffer must honour the engine's commitment to an unresolved earlier
/// write. A mismatched retry is flagged as `RetryMismatch`, distinctly from
/// every legitimate outcome, and the engine is not called.
pub open spec fn write_guard(v: ConnView, buf: Seq<u8>) -> Result<(), Error> {
    if !can_io(v) {
        Err(Error::Ssl)
    } else if !retry_compatible(v, buf) {
        Err(Error::RetryMismatch)
    } else {
        Ok(())
    }
}

/// The fast-fail decision for shutdown: only an established connection, or
/// one already mid-shutdown, may drive the close exchange.
pub open spec fn shutdown_guard(v: ConnView) -> Result<(), Error> {
    if !v.released && v.transport is Some && (v.state == State::Established || v.state
        == State::ShuttingDown) {
        Ok(())
    } else {
        Err(Error::Ssl)
    }
}

/// The fast-fail decision for configuring the server name: it takes effect
/// only before or during the handshake.
pub open spec fn hostname_guard(v: ConnView) -> Result<(), Error> {
    if !v.released && (v.state == State::Created || v.state == State::Handshaking) {
        Ok(())
    } else {
        Err(Error::Ssl)
    }
}

/// The fast-fail decision for binding a transport: at most once, before any
/// handshake step.
pub open spec fn bind_guard(v: ConnView) -> Result<(), Error> {
    if !v.released && v.state == State::Created && v.transport is None {
        Ok(())
    } else {
        Err(Error::Ssl)
    }
}

/// Where a retryable signal leaves the lifecycle: an operation on a not yet
/// established connection was driving the handshake, so the connection is
/// mid-handshake; an established connection stays established.
pub open spec fn retry_state(pre: State) -> State {
    if pre == State::Established {
        State::Established
    } else {
        State::Handshaking
    }
}

/// The state after a permitted handshake step with raw outcome `ret` /
/// `err_code`: success establishes the session; a retryable signal leaves
/// the connection mid-handshake; a clean end — the peer's close-notify or
/// the transport's end-of-stream — changes nothing; every fatal kind moves
/// to `Failed`.
pub open spec fn handshake_post(v: ConnView, ret: i32, err_code: i32) -> ConnView {
    if ret == 1 {
        ConnView { state: State::Established, ..v }
    } else {
        let e = spec_resolve(ret, err_code);
        if retryable(e) {
            ConnView { state: retry_state(v.state), ..v }
        } else if clean_end(e) {
            v
        } else {
            ConnView { state: State::Failed, ..v }
        }
    }
}

/// The result of a permitted handshake step: success exactly when the
/// engine reports the handshake complete; otherwise the resolved status.
pub open spec fn handshake_res(v: ConnView, ret: i32, err_code: i32) -> Result<(), Error> {
    if ret == 1 {
        Ok(())
    } else {
        Err(spec_resolve(ret, err_code))
    }
}

/// The state after a permitted read with raw outcome `ret` / `err_code`
/// against a buffer of `buf_len` bytes. A positive return within the buffer
/// establishes the session (a read may implicitly complete handshake
/// steps); a positive return beyond the buffer breaks the engine's contract
/// and fails the connection; otherwise as for a handshake step.
pub open spec fn read_post(v: ConnView, buf_len: usize, ret: i32, err_code: i32) -> ConnView {
    if ret > 0 {
        if ret as int <= buf_len as int {
            ConnView { state: State::Established, ..v }
        } else {
            ConnView { state: State::Failed, ..v }
        }
    } else {
        let e = spec_resolve(ret, err_code);
        if retryable(e) {
            ConnView { state: retry_state(v.state), ..v }
        } else if clean_end(e) {
            v
        } else {
            ConnView { state: State::Failed, ..v }
        }
    }
}

/// The result of a permitted read: the byte count (always positive) exactly
/// when the engine reports one within the buffer; a count beyond the buffer
/// resolves to the fatal `Unrecognized`; a non-positive return resolves to
/// its structured kind, never to a byte count.
pub open spec fn read_res(v: ConnView, buf_len: usize, ret: i32, err_code: i32) -> Result<
    usize,
    Error,
> {
    if ret > 0 {
        if ret as int <= buf_len as int {
            Ok(ret as usize)
        } else {
            Err(Error::Unrecognized)
        }
    } else {
        Err(spec_resolve(ret, err_code))
    }
}

/// The state after a permitted write of `buf` with raw outcome `ret` /
/// `err_code`. Success resolves any unresolved write; a retryable signal
/// records that the engine has committed to `buf`, which every retry must
/// then extend; a clean end changes nothing; every fatal kind moves to
/// `Failed` and clears the commitment, since nothing may be retried on a
/// failed connection.
pub open spec fn write_post(v: ConnView, buf: Seq<u8>, ret: i32, err_code: i32) -> ConnView {
    if ret > 0 {
        if ret as int <= buf.len() {
            ConnView { state: State::Established, committed: None, ..v }
        } else {
            ConnView { state: State::Failed, committed: None, ..v }
        }
    } else {
        let e = spec_resolve(ret, err_code);
        if retryable(e) {
            ConnView { state: retry_state(v.state), committed: Some(buf), ..v }
        } else if clean_end(e) {
            v
        } else {
            ConnView { state: State::Failed, committed: None, ..v }
        }
    }
}

/// The result of a permitted write, mirroring `read_res`.
pub open spec fn write_res(v: ConnView, buf: Seq<u8>, ret: i32, err_code: i32) -> Result<
    usize,
    Error,
> {
    if ret > 0 {
        if ret as int <= buf.len() {
            Ok(ret as usize)
        } else {
            Err(Error::Unrecognized)
        }
    } else {
        Err(spec_resolve(ret, err_code))
    }
}

/// The state after a permitted shutdown step: return 0 means this side's
/// close-notify went out (uni-directional shutdown done); return 1 means
/// close-notify was both sent and received (fully closed — reached directly
/// when the peer's close arrived first); a retryable signal leaves the
/// connection mid-shutdown; every fatal kind moves to `Failed`.
pub open spec fn shutdown_post(v: ConnView, ret: i32, err_code: i32) -> ConnView {
    if ret == 0 {
        ConnView { state: State::ShuttingDown, ..v }
    } else if ret == 1 {
        ConnView { state: State::Closed, ..v }
    } else {
        let e = spec_resolve(ret, err_code);
        if retryable(e) {
            ConnView { state: State::ShuttingDown, ..v }
        } else if clean_end(e) {
            v
        } else {
            ConnView { state: State::Failed, ..v }
        }
    }
}

/// The result of a permitted shutdown step.
pub open spec fn shutdown_res(v: ConnView, ret: i32, err_code: i32) -> Result<
    ShutdownStatus,
    Error,
> {
    if ret == 0 {
        Ok(ShutdownStatus::Sent)
    } else if ret == 1 {
        Ok(ShutdownStatus::Complete)
    } else {
        Err(spec_resolve(ret, err_code))
    }
}

/// The release decision for the engine session object: the free call is
/// performed on the first release and never again; the connection is closed
/// for good.
pub open spec fn spec_client_release(v: ConnView) -> (ConnView, bool) {
    (ConnView { state: State::Closed, released: true, ..v }, !v.released)
}

impl Client {
    /// Create a client connection from a configuration, capturing its
    /// policy at this instant: later changes to the configuration do not
    /// reach this connection.
    ///
    /// `allocated` is the engine's verdict on allocating the session
    /// object; on failure nothing is held.
    pub fn new(ctx: &Context, allocated: bool) -> (r: Result<Client, Error>)
        requires
            !ctx.released,
        ensures
            allocated ==> r is Ok && r->Ok_0@ == fresh_view(ctx.policy),
            !allocated ==> r == Err::<Client, Error>(Error::AllocationFailed),
    {
        if allocated {
            Ok(
                Client {
                    state: State::Created,
                    transport: None,
                    policy: ctx.policy(),
                    committed: None,
                    buffered: 0,
                    hostname: None,
                    released: false,
                },
            )
        } else {
            Err(Error::AllocationFailed)
        }
    }

    /// Attach the transport binding: a caller-owned socket descriptor,
    /// bound at most once, before any handshake step.
    ///
    /// `wired` is the engine's verdict on wiring the descriptor in; on
    /// failure the connection is unchanged and may be bound again.
    pub fn bind_transport(&mut self, fd: i32, wired: bool) -> (r: Result<(), Error>)
        ensures
            bind_guard(old(self)@) matches Err(e) ==> r == Err::<(), Error>(e) && final(self)@
                == old(self)@,
            bind_guard(old(self)@) is Ok && wired ==> r == Ok::<(), Error>(()) && final(self)@
                == (ConnView { transport: Some(fd), ..old(self)@ }),
            bind_guard(old(self)@) is Ok && !wired ==> r == Err::<(), Error>(
                Error::AllocationFailed,
            ) && final(self)@ == old(self)@,
    {
        if self.released || !(matches!(self.state, State::Created)) || self.transport.is_some() {
            return Err(Error::Ssl);
        }
        if wired {
            self.transport = Some(fd);
            Ok(())
        } else {
            Err(Error::AllocationFailed)
        }
    }

    /// Create a client connection from a configuration and bind it to a
    /// caller-owned socket descriptor in one step.
    ///
    /// `allocated` and `wired` are the engine's verdicts on the two
    /// fallible steps (allocating the session, wiring the descriptor);
    /// either failure yields `AllocationFailed`.
    pub fn new_socket(ctx: &Context, fd: i32, allocated: bool, wired: bool) -> (r: Result<
        Client,
        Error,
    >)
        requires
            !ctx.released,
        ensures
            allocated && wired ==> r is Ok && r->Ok_0@ == (ConnView {
                transport: Some(fd),
                ..fresh_view(ctx.policy)
            }),
            !(allocated && wired) ==> r == Err::<Client, Error>(Error::AllocationFailed),
    {
        let mut conn = match Client::new(ctx, allocated) {
            Ok(c) => c,
            Err(e) => { return Err(e) },
        };
        match conn.bind_transport(fd, wired) {
            Ok(_) => Ok(conn),
            Err(e) => Err(e),
        }
    }

    /// Whether a handshake step may reach the engine now; a refusal is the
    /// fatal error the operation itself would return, decided without any
    /// engine call.
    pub fn check_handshake(&self) -> (r: Result<(), Error>)
        ensures
            r == io_guard(self@),
    {
        if self.io_allowed() {
            Ok(())
        } else {
            Err(Error::Ssl)
        }
    }

    /// Advance the handshake with the raw outcome of a permitted engine
    /// handshake step. On a retryable error the caller re-invokes the
    /// operation once the transport is ready in the signaled direction;
    /// completed steps are never redone.
    pub fn handshake(&mut self, ret: i32, err_code: i32) -> (r: Result<(), Error>)
        ensures
            io_guard(old(self)@) matches Err(e) ==> r == Err::<(), Error>(e) && final(self)@
                == old(self)@,
            io_guard(old(self)@) is Ok ==> r == handshake_res(old(self)@, ret, err_code) && final(self)@ == handshake_post(old(self)@, ret, err_code),
    {
        if !self.io_allowed() {
            return Err(Error::Ssl);
        }
        if ret == 1 {
            self.state = State::Established;
            Ok(())
        } else {
            let e = resolve(ret, err_code);
            self.absorb_failure(e);
            Err(e)
        }
    }

    /// Whether a read may reach the engine now.
    pub fn check_read(&self) -> (r: Result<(), Error>)
        ensures
            r == io_guard(self@),
    {
        if self.io_allowed() {
            Ok(())
        } else {
            Err(Error::Ssl)
        }
    }

    /// Resolve the raw outcome of a permitted engine read against a buffer
    /// of `buf_len` bytes. A read may implicitly drive pending handshake
    /// steps, including renegotiation, before delivering application data;
    /// the byte count is positive on success, and a non-positive engine
    /// return is never surfaced as a count.
    pub fn read(&mut self, buf_len: usize, ret: i32, err_code: i32) -> (r: Result<usize, Error>)
        ensures
            io_guard(old(self)@) matches Err(e) ==> r == Err::<usize, Error>(e) && final(self)@
                == old(self)@,
            io_guard(old(self)@) is Ok ==> r == read_res(old(self)@, buf_len, ret, err_code)
                && final(self)@ == read_post(old(self)@, buf_len, ret, err_code),
    {
        if !self.io_allowed() {
            return Err(Error::Ssl);
        }
        if ret > 0 {
            if ret as usize <= buf_len {
                self.state = State::Established;
                Ok(ret as usize)
            } else {
                self.state = State::Failed;
                Err(Error::Unrecognized)
            }
        } else {
            let e = resolve(ret, err_code);
            self.absorb_failure(e);
            Err(e)
        }
    }

    /// Whether a write of `buf` may reach the engine now: the state must
    /// admit I/O, and `buf` must honour an unresolved earlier write (equal
    /// to it, or extending it); a mismatched retry is flagged as
    /// `RetryMismatch` — a caller contract violation, never a silent
    /// resend — and the engine is not called.
    pub fn check_write(&self, buf: &[u8]) -> (r: Result<(), Error>)
        ensures
            r == write_guard(self@, buf@),
    {
        if !self.io_allowed() {
            return Err(Error::Ssl);
        }
        match self.committed {
            Some(ref p) => {
                if is_prefix_of(p, buf) {
                    Ok(())
                } else {
                    Err(Error::RetryMismatch)
                }
            },
            None => Ok(()),
        }
    }

    /// Resolve the raw outcome of a permitted engine write of `buf`. On a
    /// retryable error the engine has committed to `buf`: the connection
    /// records it, and every retry must present it again as a prefix.
    pub fn write(&mut self, buf: &[u8], ret: i32, err_code: i32) -> (r: Result<usize, Error>)
        ensures
            write_guard(old(self)@, buf@) matches Err(e) ==> r == Err::<usize, Error>(e) && final(self)@ == old(self)@,
            write_guard(old(self)@, buf@) is Ok ==> r == write_res(old(self)@, buf@, ret, err_code)
                && final(self)@ == write_post(old(self)@, buf@, ret, err_code),
    {
        match self.check_write(buf) {
            Ok(_) => (),
            Err(e) => { return Err(e) },
        }
        if ret > 0 {
            if ret as usize <= buf.len() {
                self.state = State::Established;
                self.committed = None;
                Ok(ret as usize)
            } else {
                self.state = State::Failed;
                self.committed = None;
                Err(Error::Unrecognized)
            }
        } else {
            let e = resolve(ret, err_code);
            if is_retryable(e) {
                if !(matches!(self.state, State::Established)) {
                    self.state = State::Handshaking;
                }
                self.committed = Some(slice_to_vec(buf));
            } else if is_clean_end(e) {
            } else {
                self.state = State::Failed;
                self.committed = None;
            }
            Err(e)
        }
    }

    /// Whether a shutdown step may reach the engine now.
    pub fn check_shutdown(&self) -> (r: Result<(), Error>)
        ensures
            r == shutdown_guard(self@),
    {
        if !self.released && self.transport.is_some() && (matches!(
            self.state,
            State::Established,
        ) || matches!(self.state, State::ShuttingDown)) {
            Ok(())
        } else {
            Err(Error::Ssl)
        }
    }

    /// Resolve the raw outcome of a permitted engine shutdown step of the
    /// two-phase close. `Sent` means this side's close-notify went out and
    /// a caller wanting only a uni-directional close may stop; a caller
    /// wanting bi-directional confirmation calls again until `Complete`,
    /// which is reached directly when the peer's close-notify arrived
    /// first.
    pub fn shutdown(&mut self, ret: i32, err_code: i32) -> (r: Result<ShutdownStatus, Error>)
        ensures
            shutdown_guard(old(self)@) matches Err(e) ==> r == Err::<ShutdownStatus, Error>(e)
                && final(self)@ == old(self)@,
            shutdown_guard(old(self)@) is Ok ==> r == shutdown_res(old(self)@, ret, err_code)
                && final(self)@ == shutdown_post(old(self)@, ret, err_code),
    {
        match self.check_shutdown() {
            Ok(_) => (),
            Err(e) => { return Err(e) },
        }
        if ret == 0 {
            self.state = State::ShuttingDown;
            Ok(ShutdownStatus::Sent)
        } else if ret == 1 {
            self.state = State::Closed;
            Ok(ShutdownStatus::Complete)
        } else {
            let e = resolve(ret, err_code);
            if is_retryable(e) {
                self.state = State::ShuttingDown;
            } else if is_clean_end(e) {
            } else {
                self.state = State::Failed;
            }
            Err(e)
        }
    }

    /// Whether the server name may be configured now: before or during the
    /// handshake, where it can still take effect.
    pub fn check_set_hostname(&self) -> (r: Result<(), Error>)
        ensures
            r == hostname_guard(self@),
    {
        if !self.released && (matches!(self.state, State::Created) || matches!(
            self.state,
            State::Handshaking,
        )) {
            Ok(())
        } else {
            Err(Error::Ssl)
        }
    }

    /// Record the server name to advertise in the server-name extension,
    /// with the engine's verdict `ret` on accepting it (1 is success). On
    /// failure the classified status is returned and nothing changes.
    pub fn set_hostname(&mut self, name: String, ret: i32, err_code: i32) -> (r: Result<(), Error>)
        ensures
            hostname_guard(old(self)@) matches Err(e) ==> r == Err::<(), Error>(e) && final(self)@
                == old(self)@,
            hostname_guard(old(self)@) is Ok && ret == 1 ==> r == Ok::<(), Error>(()) && final(self)@ == (ConnView { hostname: Some(name@), ..old(self)@ }),
            hostname_guard(old(self)@) is Ok && ret != 1 ==> r == Err::<(), Error>(
                spec_classify(err_code),
            ) && final(self)@ == old(self)@,
    {
        match self.check_set_hostname() {
            Ok(_) => (),
            Err(e) => { return Err(e) },
        }
        if ret == 1 {
            self.hostname = Some(name);
            Ok(())
        } else {
            Err(classify(err_code))
        }
    }

    /// The count of already-decrypted bytes the engine last reported as
    /// buffered internally. A pure query: it touches neither the transport
    /// nor any part of the connection state.
    pub fn pending(&self) -> (n: usize)
        ensures
            n == self@.buffered,
    {
        self.buffered
    }

    /// Record the engine's current count of internally buffered decrypted
    /// bytes, as reported by its (transport-free) buffer query.
    pub fn record_pending(&mut self, n: usize)
        requires
            !old(self)@.released,
        ensures
            final(self)@ == (ConnView { buffered: n as nat, ..old(self)@ }),
    {
        self.buffered = n;
    }

    /// Decide the release of the engine session object.
    ///
    /// Returns whether the engine's free call must now be performed: true
    /// on the first release, false ever after, so the session is released
    /// exactly once. The transport descriptor is the caller's and is never
    /// closed here.
    pub fn release(&mut self) -> (do_free: bool)
        ensures
            (final(self)@, do_free) == spec_client_release(old(self)@),
    {
        let was_released = self.released;
        self.released = true;
        self.state = State::Closed;
        !was_released
    }

    /// The current lifecycle state.
    pub fn state(&self) -> (s: State)
        ensures
            s == self@.state,
    {
        self.state
    }

    /// Whether a transport is bound.
    pub fn is_bound(&self) -> (b: bool)
        ensures
            b == (self@.transport is Some),
    {
        self.transport.is_some()
    }

    /// The policy captured from the configuration at creation.
    pub fn policy(&self) -> (p: Policy)
        ensures
            p == self@.policy,
    {
        self.policy
    }

    /// Whether an earlier write is unresolved, so that the next write must
    /// present its bytes again.
    pub fn has_unresolved_write(&self) -> (b: bool)
        ensures
            b == (self@.committed is Some),
    {
        self.committed.is_some()
    }

    /// Whether the engine session object has been released.
    pub fn is_released(&self) -> (b: bool)
        ensures
            b == self@.released,
    {
        self.released
    }

    /// The shared fast-path test behind the I/O guards.
    fn io_allowed(&self) -> (b: bool)
        ensures
            b == can_io(self@),
    {
        !self.released && self.transport.is_some() && (matches!(self.state, State::Created)
            || matches!(self.state, State::Handshaking) || matches!(
            self.state,
            State::Established,
        ))
    }

    /// Move to the state a classified non-success outcome dictates, for the
    /// operations whose retryable signals leave the connection
    /// mid-handshake.
    fn absorb_failure(&mut self, e: Error)
        ensures
            retryable(e) ==> final(self)@ == (ConnView {
                state: retry_state(old(self)@.state),
                ..old(self)@
            }),
            clean_end(e) ==> final(self)@ == old(self)@,
            !retryable(e) && !clean_end(e) ==> final(self)@ == (ConnView {
                state: State::Failed,
                ..old(self)@
            }),
    {
        if is_retryable(e) {
            if !(matches!(self.state, State::Established)) {
                self.state = State::Handshaking;
            }
        } else if is_clean_end(e) {
        } else {
            self.state = State::Failed;
        }
    }
}

/// Releasing a connection frees the engine session at most once: of any two
/// successive release decisions the second never frees, and from a live
/// connection the first always does.
pub proof fn lemma_client_release_exactly_once(v0: ConnView)
    ensures
        ({
            let (v1, did1) = spec_client_release(v0);
            let (v2, did2) = spec_client_release(v1);
            &&& !v0.released ==> did1
            &&& !did2
            &&& v1.state == State::Closed
        }),
{
}

/// Once a connection has failed or closed, every application operation —
/// handshake, read, write, shutdown — is refused by its guard with a fatal
/// error, so the engine is never called for it.
pub proof fn lemma_no_io_after_failure(v: ConnView, buf: Seq<u8>)
    requires
        v.state == State::Failed || v.state == State::Closed,
    ensures
        io_guard(v) == Err::<(), Error>(Error::Ssl),
        write_guard(v, buf) == Err::<(), Error>(Error::Ssl),
        shutdown_guard(v) == Err::<(), Error>(Error::Ssl),
        crate::error::fatal(Error::Ssl),
{
}

/// A fatal engine error on a handshake, read or write moves the connection
/// to `Failed`; a retryable signal keeps it live, with the guard still
/// open, so the caller can re-issue the operation; a clean end — the
/// peer's close-notify or the transport's end-of-stream — changes no
/// state.
pub proof fn lemma_failure_discipline(
    v: ConnView,
    buf_len: usize,
    buf: Seq<u8>,
    ret: i32,
    err_code: i32,
)
    requires
        can_io(v),
        ret <= 0,
    ensures
        crate::error::fatal(spec_resolve(ret, err_code)) ==> handshake_post(
            v,
            ret,
            err_code,
        ).state == State::Failed && read_post(v, buf_len, ret, err_code).state == State::Failed
            && write_post(v, buf, ret, err_code).state == State::Failed,
        retryable(spec_resolve(ret, err_code)) ==> io_guard(handshake_post(v, ret, err_code)) is Ok
            && io_guard(read_post(v, buf_len, ret, err_code)) is Ok && io_guard(
            write_post(v, buf, ret, err_code),
        ) is Ok,
        clean_end(spec_resolve(ret, err_code)) ==> handshake_post(v, ret, err_code) == v
            && read_post(v, buf_len, ret, err_code) == v && write_post(v, buf, ret, err_code) == v,
{
}

/// The transport's end-of-stream is clean EOF, not a transport failure: an
/// operation the engine answers with a zero return under the
/// external-failure status reports `TransportEof`, delivers no data, and
/// does not fail the connection — unlike a nonzero return under the same
/// status, which is fatal.
pub proof fn lemma_transport_eof_is_not_fatal(
    v: ConnView,
    buf_len: usize,
    buf: Seq<u8>,
    err_code: i32,
)
    requires
        can_io(v),
        err_code == ENGINE_ERROR_SYSCALL,
    ensures
        read_res(v, buf_len, 0, err_code) == Err::<usize, Error>(Error::TransportEof),
        read_post(v, buf_len, 0, err_code) == v,
        write_res(v, buf, 0, err_code) == Err::<usize, Error>(Error::TransportEof),
        write_post(v, buf, 0, err_code) == v,
        handshake_post(v, 0, err_code) == v,
        !crate::error::fatal(Error::TransportEof),
        read_res(v, buf_len, (-1) as i32, err_code) == Err::<usize, Error>(Error::Syscall),
        read_post(v, buf_len, (-1) as i32, err_code).state == State::Failed,
{
}

/// The transport binding and the captured policy are for the connection's
/// whole lifetime: no operation outcome, and not even release, ever changes
/// them.
pub proof fn lemma_binding_and_policy_are_stable(
    v: ConnView,
    buf_len: usize,
    buf: Seq<u8>,
    ret: i32,
    err_code: i32,
)
    ensures
        handshake_post(v, ret, err_code).transport == v.transport,
        read_post(v, buf_len, ret, err_code).transport == v.transport,
        write_post(v, buf, ret, err_code).transport == v.transport,
        shutdown_post(v, ret, err_code).transport == v.transport,
        spec_client_release(v).0.transport == v.transport,
        handshake_post(v, ret, err_code).policy == v.policy,
        read_post(v, buf_len, ret, err_code).policy == v.policy,
        write_post(v, buf, ret, err_code).policy == v.policy,
        shutdown_post(v, ret, err_code).policy == v.policy,
        spec_client_release(v).0.policy == v.policy,
{
}

/// One legal step of the lifecycle diagram: a state either holds, or moves
/// along one of its drawn edges — `Created` and `Handshaking` towards
/// `Established`, `Established` through `ShuttingDown` to `Closed`, and
/// `Failed` reachable from any state still doing I/O.
pub open spec fn lifecycle_step(pre: State, post: State) -> bool {
    ||| post == pre
    ||| (pre == State::Created && (post == State::Handshaking || post == State::Established
        || post == State::Failed))
    ||| (pre == State::Handshaking && (post == State::Established || post == State::Failed))
    ||| (pre == State::Established && (post == State::ShuttingDown || post == State::Closed
        || post == State::Failed))
    ||| (pre == State::ShuttingDown && (post == State::Closed || post == State::Failed))
}

/// Every permitted operation outcome moves the connection along the
/// lifecycle diagram; the terminal states are never left (their guards
/// refuse every operation, so no transition applies to them at all).
pub proof fn lemma_lifecycle_respects_state_diagram(
    v: ConnView,
    buf_len: usize,
    buf: Seq<u8>,
    ret: i32,
    err_code: i32,
)
    ensures
        can_io(v) ==> lifecycle_step(v.state, handshake_post(v, ret, err_code).state),
        can_io(v) ==> lifecycle_step(v.state, read_post(v, buf_len, ret, err_code).state),
        can_io(v) ==> lifecycle_step(v.state, write_post(v, buf, ret, err_code).state),
        shutdown_guard(v) is Ok ==> lifecycle_step(v.state, shutdown_post(v, ret, err_code).state),
{
}

/// Buffer identity on write retries: after a write of `b1` failed with a
/// retryable signal, a retry with `b2` passes the guard exactly when `b2`
/// is `b1` or extends it; a shortened or content-mismatched retry is
/// flagged as `RetryMismatch`, distinctly from every legitimate outcome.
pub proof fn lemma_write_retry_buffer_identity(
    v: ConnView,
    b1: Seq<u8>,
    b2: Seq<u8>,
    ret: i32,
    err_code: i32,
)
    requires
        write_guard(v, b1) is Ok,
        ret <= 0,
        retryable(spec_resolve(ret, err_code)),
    ensures
        ({
            let v1 = write_post(v, b1, ret, err_code);
            &&& write_res(v, b1, ret, err_code) == Err::<usize, Error>(spec_resolve(ret, err_code))
            &&& v1.committed == Some(b1)
            &&& (spec_is_prefix(b1, b2) ==> write_guard(v1, b2) is Ok)
            &&& (!spec_is_prefix(b1, b2) ==> write_guard(v1, b2) == Err::<(), Error>(
                Error::RetryMismatch,
            ))
        }),
{
}

/// Two-phase shutdown: from an established connection, an engine that
/// signals "sent, not received" and then "sent and received" completes the
/// close in exactly two calls, and a third attempt on the fully shut-down
/// connection is refused with an error, never performed.
pub proof fn lemma_two_phase_shutdown(v: ConnView, e1: i32, e2: i32)
    requires
        v.state == State::Established,
        shutdown_guard(v) is Ok,
    ensures
        ({
            let v1 = shutdown_post(v, 0, e1);
            let v2 = shutdown_post(v1, 1, e2);
            &&& shutdown_res(v, 0, e1) == Ok::<ShutdownStatus, Error>(ShutdownStatus::Sent)
            &&& v1.state == State::ShuttingDown
            &&& shutdown_guard(v1) is Ok
            &&& shutdown_res(v1, 1, e2) == Ok::<ShutdownStatus, Error>(ShutdownStatus::Complete)
            &&& v2.state == State::Closed
            &&& shutdown_guard(v2) == Err::<(), Error>(Error::Ssl)
        }),
{
}

/// When the peer's close-notify arrived first, the very first shutdown call
/// may report completion directly: the first phase is skipped and the
/// connection is closed at once.
pub proof fn lemma_shutdown_skips_first_phase(v: ConnView, e1: i32)
    requires
        v.state == State::Established,
        shutdown_guard(v) is Ok,
    ensures
        shutdown_res(v, 1, e1) == Ok::<ShutdownStatus, Error>(ShutdownStatus::Complete),
        shutdown_post(v, 1, e1).state == State::Closed,
{
}

/// A retryable handshake signal never strands the connection: the guard
/// stays open with nothing reconfigured, and a later step that the engine
/// reports complete establishes the session.
pub proof fn lemma_handshake_retry_completes(v: ConnView, ret1: i32, err1: i32, err2: i32)
    requires
        can_io(v),
        ret1 <= 0,
        retryable(spec_resolve(ret1, err1)),
    ensures
        ({
            let v1 = handshake_post(v, ret1, err1);
            &&& handshake_res(v, ret1, err1) == Err::<(), Error>(spec_resolve(ret1, err1))
            &&& io_guard(v1) is Ok
            &&& v1.policy == v.policy
            &&& v1.transport == v.transport
            &&& v1.hostname == v.hostname
            &&& handshake_res(v1, 1, err2) == Ok::<(), Error>(())
            &&& handshake_post(v1, 1, err2).state == State::Established
        }),
{
}

/// `p` is a prefix of `s`, decided byte by byte.
fn is_prefix_of(p: &Vec<u8>, s: &[u8]) -> (b: bool)
    ensures
        b == spec_is_prefix(p@, s@),
{
    if p.len() > s.len() {
        assert(!spec_is_prefix(p@, s@));
        return false;
    }
    let n = p.len();
    for i in 0..n
        invariant
            n == p@.len() <= s@.len(),
            forall|j: int| 0 <= j < i ==> p@[j] == s@[j],
    {
        if p[i] != s[i] {
            assert(p@[i as int] != s@[i as int]);
            assert(!spec_is_prefix(p@, s@));
            return false;
        }
    }
    proof {
        assert(p@ =~= s@.subrange(0, p@.len() as int));
    }
    true
}

} // verus!
