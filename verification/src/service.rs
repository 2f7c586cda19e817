//! Domain-service client: handshake, framing, and back-off.
//!
//! A domain service is a pluggable external capability provider reached over
//! a transport-agnostic channel.  This module holds the client-side rules:
//! version negotiation, the length-delimited correlated request/response
//! framing used on byte-stream transports, the capped exponential back-off
//! applied to connection failures, and the decision whether a transport
//! error leaves the connection reusable.  Actual socket or HTTP I/O is a
//! collaborator concern; everything here is a function of plain values.

use vstd::arithmetic::mul::lemma_mul_upper_bound;
use vstd::arithmetic::power2::{
    lemma2_to64, lemma_pow2_strictly_increases, lemma_pow2_unfold, pow2,
};
use vstd::bytes::{
    lemma_auto_spec_u32_to_from_le_bytes, lemma_auto_spec_u64_to_from_le_bytes,
    spec_u32_from_le_bytes, spec_u32_to_le_bytes, spec_u64_from_le_bytes, spec_u64_to_le_bytes,
    u32_from_le_bytes, u32_to_le_bytes, u64_from_le_bytes, u64_to_le_bytes,
};
use vstd::prelude::*;
use vstd::slice::slice_subrange;

use crate::errors::{ClassifiedError, CogWorksError, ErrorClass};
use crate::identifiers::DomainServiceName;
use crate::values::ApiVersion;

verus! {

/// The capability set a domain service offered during its handshake.
#[derive(Debug, Clone, PartialEq)]
pub struct Capabilities {
    /// The capability names, exactly as the service offered them.
    pub names: Vec<String>,
}

/// How a domain service is reached.  The client does not assume which: each
/// call is one correlated request/response exchange either way.
#[derive(Debug, Clone, Copy, PartialEq, Eq, Structural)]
pub enum Transport {
    /// A boundary-delimited byte stream over a local socket.
    LocalSocket,
    /// A single request/response over a remote connection.
    Remote,
}

/// Negotiates compatibility with a domain service.
///
/// The client sends its own API version; the remote returns its version and
/// capability set.  Compatibility requires an equal major version and a
/// remote minor version at least the local one.  An incompatible pair fails
/// with a non-retryable configuration error.
pub fn negotiate(
    local: ApiVersion,
    remote_version: ApiVersion,
    remote_capabilities: Vec<String>,
) -> (r: Result<Capabilities, CogWorksError>)
    ensures
        r is Ok <==> local.spec_compatible_with(remote_version),
        r matches Ok(c) ==> c == (Capabilities { names: remote_capabilities }),
        r matches Err(e) ==> e.spec_class() == ErrorClass::Configuration,
{
    if local.is_compatible_with(remote_version) {
        Ok(Capabilities { names: remote_capabilities })
    } else {
        Err(
            CogWorksError::ConfigurationError {
                message: String::from_str("incompatible domain service API version"),
            },
        )
    }
}

/// One domain service as the process knows it: its declared name and
/// transport, and what the handshake negotiated.  Established once per
/// service per process lifetime (or per reconnect), read thereafter.
#[derive(Debug, Clone, PartialEq)]
pub struct DomainServiceRegistration {
    /// The configuration key under which the service was declared.
    pub name: DomainServiceName,
    /// The declared transport selector.
    pub transport: Transport,
    /// The version and capability set the handshake negotiated, if one
    /// succeeded.
    pub negotiated: Option<(ApiVersion, Capabilities)>,
    /// Whether the service may be called.  A failed handshake marks the
    /// service unusable until it is reconfigured.
    pub usable: bool,
}

impl DomainServiceRegistration {
    /// A usable service always holds a negotiated version and capability
    /// set.
    pub open spec fn wf(self) -> bool {
        self.usable ==> self.negotiated is Some
    }

    /// Declares a service that has not yet completed its handshake.
    pub fn declare(name: DomainServiceName, transport: Transport) -> (r: Self)
        ensures
            r.wf(),
            r.name == name,
            r.transport == transport,
            r.negotiated is None,
            !r.usable,
    {
        DomainServiceRegistration { name, transport, negotiated: None, usable: false }
    }

    /// Applies the remote half of the handshake.
    ///
    /// On a compatible pair the registration records the remote version and
    /// capability set and becomes usable; otherwise it is marked unusable
    /// and the configuration error is returned.
    pub fn complete_handshake(
        &mut self,
        local: ApiVersion,
        remote_version: ApiVersion,
        remote_capabilities: Vec<String>,
    ) -> (r: Result<(), CogWorksError>)
        ensures
            final(self).wf(),
            final(self).name == old(self).name,
            final(self).transport == old(self).transport,
            r is Ok <==> local.spec_compatible_with(remote_version),
            r is Ok ==> final(self).usable && final(self).negotiated == Some(
                (remote_version, Capabilities { names: remote_capabilities }),
            ),
            r matches Err(e) ==> !final(self).usable && final(self).negotiated is None
                && e.spec_class() == ErrorClass::Configuration,
    {
        match negotiate(local, remote_version, remote_capabilities) {
            Ok(caps) => {
                self.negotiated = Some((remote_version, caps));
                self.usable = true;
                Ok(())
            },
            Err(e) => {
                self.negotiated = None;
                self.usable = false;
                Err(e)
            },
        }
    }
}

/// A length-delimited frame: four little-endian length bytes, then exactly
/// that many payload bytes.
pub open spec fn spec_frame(payload: Seq<u8>) -> Seq<u8> {
    spec_u32_to_le_bytes(payload.len() as u32) + payload
}

/// What decoding a byte stream yields: the first complete frame's payload
/// and how many bytes it occupied, or nothing while the frame is still
/// incomplete.
pub open spec fn spec_decode_frame(buf: Seq<u8>) -> Option<(Seq<u8>, int)> {
    if buf.len() < 4 {
        None
    } else {
        let n = spec_u32_from_le_bytes(buf.subrange(0, 4)) as int;
        if buf.len() < 4 + n {
            None
        } else {
            Some((buf.subrange(4, 4 + n), 4 + n))
        }
    }
}

/// Encodes one frame: the payload length, then the payload.
pub fn encode_frame(payload: &Vec<u8>) -> (out: Vec<u8>)
    requires
        payload@.len() <= u32::MAX as int,
    ensures
        out@ == spec_frame(payload@),
{
    let n: u32 = payload.len() as u32;
    let mut out = u32_to_le_bytes(n);
    let mut i: usize = 0;
    while i < payload.len()
        invariant
            i <= payload@.len() <= u32::MAX as int,
            n == payload@.len() as u32,
            out@ == spec_u32_to_le_bytes(n) + payload@.subrange(0, i as int),
        decreases payload@.len() - i,
    {
        out.push(payload[i]);
        i = i + 1;
        proof {
            assert(spec_u32_to_le_bytes(n) + payload@.subrange(0, i as int) =~= (
            spec_u32_to_le_bytes(n) + payload@.subrange(0, i as int - 1)).push(
                payload@[i as int - 1],
            ));
        }
    }
    proof {
        assert(payload@.subrange(0, payload@.len() as int) =~= payload@);
    }
    out
}

/// Decodes the first frame of `buf`, returning its payload and the number
/// of bytes consumed, or `None` while no complete frame has arrived yet.
pub fn decode_frame(buf: &Vec<u8>) -> (r: Option<(Vec<u8>, usize)>)
    ensures
        spec_decode_frame(buf@) is None ==> r is None,
        spec_decode_frame(buf@) matches Some((p, c)) ==> (r matches Some(pc) && pc.0@ == p
            && pc.1 as int == c),
{
    if buf.len() < 4 {
        return None;
    }
    let header = slice_subrange(buf.as_slice(), 0, 4);
    let n32 = u32_from_le_bytes(header);
    let n = n32 as usize;
    let blen: usize = buf.len();
    if blen - 4 < n {
        return None;
    }
    let mut payload: Vec<u8> = Vec::new();
    let mut i: usize = 0;
    while i < n
        invariant
            i <= n,
            n + 4 <= blen,
            blen == buf@.len(),
            payload@ == buf@.subrange(4, 4 + i as int),
        decreases n - i,
    {
        payload.push(buf[4 + i]);
        i = i + 1;
        proof {
            assert(buf@.subrange(4, 4 + i as int) =~= buf@.subrange(4, 4 + i as int - 1).push(
                buf@[4 + i as int - 1],
            ));
        }
    }
    Some((payload, 4 + n))
}

/// Decoding inverts encoding: a frame followed by any further bytes decodes
/// to exactly the framed payload, consuming exactly the frame.
pub proof fn lemma_frame_round_trip(payload: Seq<u8>, rest: Seq<u8>)
    requires
        payload.len() <= u32::MAX as int,
    ensures
        spec_decode_frame(spec_frame(payload) + rest) == Some(
            (payload, 4 + payload.len() as int),
        ),
{
    lemma_auto_spec_u32_to_from_le_bytes();
    let buf = spec_frame(payload) + rest;
    assert(buf.subrange(0, 4) =~= spec_u32_to_le_bytes(payload.len() as u32));
    assert(spec_u32_from_le_bytes(buf.subrange(0, 4)) == payload.len() as u32);
    assert(buf.subrange(4, 4 + payload.len() as int) =~= payload);
}

/// A correlated message: an eight-byte little-endian correlation identifier,
/// then the body.  Carried inside one frame, it ties a response back to the
/// request it answers.
pub open spec fn spec_message(correlation_id: u64, body: Seq<u8>) -> Seq<u8> {
    spec_u64_to_le_bytes(correlation_id) + body
}

/// What decoding a frame's payload as a correlated message yields.
pub open spec fn spec_decode_message(buf: Seq<u8>) -> Option<(u64, Seq<u8>, int)> {
    match spec_decode_frame(buf) {
        None => None,
        Some((p, c)) => {
            if p.len() < 8 {
                None
            } else {
                Some((spec_u64_from_le_bytes(p.subrange(0, 8)), p.subrange(8, p.len() as int), c))
            }
        },
    }
}

/// Encodes one correlated exchange message as a single frame.
pub fn encode_message(correlation_id: u64, body: &Vec<u8>) -> (out: Vec<u8>)
    requires
        body@.len() + 8 <= u32::MAX as int,
    ensures
        out@ == spec_frame(spec_message(correlation_id, body@)),
{
    let mut msg = u64_to_le_bytes(correlation_id);
    let mut i: usize = 0;
    proof {
        lemma_auto_spec_u64_to_from_le_bytes();
    }
    while i < body.len()
        invariant
            i <= body@.len() <= u32::MAX as int,
            msg@ == spec_u64_to_le_bytes(correlation_id) + body@.subrange(0, i as int),
            spec_u64_to_le_bytes(correlation_id).len() == 8,
        decreases body@.len() - i,
    {
        msg.push(body[i]);
        i = i + 1;
        proof {
            assert(spec_u64_to_le_bytes(correlation_id) + body@.subrange(0, i as int) =~= (
            spec_u64_to_le_bytes(correlation_id) + body@.subrange(0, i as int - 1)).push(
                body@[i as int - 1],
            ));
        }
    }
    proof {
        assert(body@.subrange(0, body@.len() as int) =~= body@);
    }
    encode_frame(&msg)
}

/// Decodes the first complete correlated message of `buf`.
pub fn decode_message(buf: &Vec<u8>) -> (r: Option<(u64, Vec<u8>, usize)>)
    ensures
        spec_decode_message(buf@) is None ==> r is None,
        spec_decode_message(buf@) matches Some((id, b, c)) ==> (r matches Some(m) && m.0 == id
            && m.1@ == b && m.2 as int == c),
{
    let frame = decode_frame(buf);
    match frame {
        None => None,
        Some((p, consumed)) => {
            if p.len() < 8 {
                return None;
            }
            let id = u64_from_le_bytes(slice_subrange(p.as_slice(), 0, 8));
            let mut body: Vec<u8> = Vec::new();
            let mut i: usize = 8;
            while i < p.len()
                invariant
                    8 <= i <= p@.len(),
                    body@ == p@.subrange(8, i as int),
                decreases p@.len() - i,
            {
                body.push(p[i]);
                i = i + 1;
                proof {
                    assert(p@.subrange(8, i as int) =~= p@.subrange(8, i as int - 1).push(
                        p@[i as int - 1],
                    ));
                }
            }
            Some((id, body, consumed))
        },
    }
}

/// Decoding inverts encoding for correlated messages.
pub proof fn lemma_message_round_trip(correlation_id: u64, body: Seq<u8>, rest: Seq<u8>)
    requires
        body.len() + 8 <= u32::MAX as int,
    ensures
        spec_decode_message(spec_frame(spec_message(correlation_id, body)) + rest) == Some(
            (correlation_id, body, 12 + body.len() as int),
        ),
{
    lemma_auto_spec_u64_to_from_le_bytes();
    let msg = spec_message(correlation_id, body);
    lemma_frame_round_trip(msg, rest);
    assert(msg.subrange(0, 8) =~= spec_u64_to_le_bytes(correlation_id));
    assert(msg.subrange(8, msg.len() as int) =~= body);
}

/// The largest exponent the back-off schedule ever applies: beyond it the
/// delay has long reached every sensible ceiling.
pub const BACKOFF_MAX_EXPONENT: u32 = 16;

/// The un-jittered back-off before re-attempt number `attempt`: the base
/// delay doubled per attempt, capped at the ceiling.
pub open spec fn spec_backoff_raw_ms(attempt: nat, base_ms: nat, cap_ms: nat) -> int {
    let e = if attempt <= BACKOFF_MAX_EXPONENT as nat {
        attempt
    } else {
        BACKOFF_MAX_EXPONENT as nat
    };
    if base_ms * pow2(e) <= cap_ms {
        (base_ms * pow2(e)) as int
    } else {
        cap_ms as int
    }
}

/// Computes the back-off before re-attempt number `attempt` of a connection.
///
/// The delay grows exponentially from `base_ms`, is capped at `cap_ms`, and
/// is stretched by a jitter of up to the raw delay, derived from the
/// caller-supplied entropy `jitter_seed`, so simultaneous clients do not
/// reconnect in lockstep.
pub fn backoff_delay_ms(attempt: u32, base_ms: u64, cap_ms: u64, jitter_seed: u64) -> (d: u64)
    requires
        1 <= base_ms <= cap_ms,
        cap_ms <= 0x100_0000_0000,
    ensures
        ({
            let raw = spec_backoff_raw_ms(attempt as nat, base_ms as nat, cap_ms as nat);
            &&& d as int == raw + jitter_seed as int % (raw + 1)
            &&& raw <= d as int <= 2 * raw
        }),
{
    let exp: u32 = if attempt > BACKOFF_MAX_EXPONENT {
        BACKOFF_MAX_EXPONENT
    } else {
        attempt
    };
    let mut factor: u64 = 1;
    let mut i: u32 = 0;
    proof {
        lemma2_to64();
    }
    while i < exp
        invariant
            i <= exp <= BACKOFF_MAX_EXPONENT,
            factor == pow2(i as nat),
        decreases exp - i,
    {
        proof {
            lemma_pow2_strictly_increases(i as nat, BACKOFF_MAX_EXPONENT as nat);
            lemma2_to64();
            lemma_pow2_unfold((i + 1) as nat);
        }
        factor = factor * 2;
        i = i + 1;
    }
    proof {
        if (exp as nat) < BACKOFF_MAX_EXPONENT as nat {
            lemma_pow2_strictly_increases(exp as nat, BACKOFF_MAX_EXPONENT as nat);
        }
        lemma2_to64();
        assert(factor <= 0x10000);
        lemma_mul_upper_bound(base_ms as int, 0x100_0000_0000, factor as int, 0x10000);
    }
    let uncapped = base_ms * factor;
    let raw = if uncapped > cap_ms {
        cap_ms
    } else {
        uncapped
    };
    let jitter = jitter_seed % (raw + 1);
    raw + jitter
}

/// How the transport reported a connection failure.
#[derive(Debug, Clone, Copy, PartialEq, Eq, Structural)]
pub enum TransportError {
    /// The call did not complete in time; the connection itself is intact.
    Timeout,
    /// The peer reset the connection.
    ConnectionReset,
    /// The connection was closed under the client.
    ConnectionClosed,
}

/// Whether an existing connection survives a transport error.
#[derive(Debug, Clone, Copy, PartialEq, Eq, Structural)]
pub enum ConnectionAction {
    /// Recoverable error: keep the existing connection.
    Reuse,
    /// Structural error: tear the connection down and recreate it.
    Reconnect,
}

/// The connection policy: a timeout is recoverable and the connection is
/// reused; a reset or closed connection is structural and is recreated.
pub open spec fn spec_connection_action(e: TransportError) -> ConnectionAction {
    match e {
        TransportError::Timeout => ConnectionAction::Reuse,
        TransportError::ConnectionReset => ConnectionAction::Reconnect,
        TransportError::ConnectionClosed => ConnectionAction::Reconnect,
    }
}

/// Decides what happens to the connection after a transport error.
pub fn connection_action(e: TransportError) -> (r: ConnectionAction)
    ensures
        r == spec_connection_action(e),
{
    match e {
        TransportError::Timeout => ConnectionAction::Reuse,
        TransportError::ConnectionReset => ConnectionAction::Reconnect,
        TransportError::ConnectionClosed => ConnectionAction::Reconnect,
    }
}

/// Classifies a transport error for the retry machinery: every transport
/// error is transient, carrying no minimum back-off of its own (the
/// client's own back-off schedule applies).
pub fn classify_transport(e: TransportError) -> (r: ClassifiedError)
    ensures
        r == (ClassifiedError { class: ErrorClass::Transient, retry_after_ms: None }),
{
    ClassifiedError { class: ErrorClass::Transient, retry_after_ms: None }
}

/// The client-side connection bookkeeping for one domain service: how many
/// connection failures in a row it has seen, and the back-off configuration.
#[derive(Debug, Clone, PartialEq)]
pub struct ServiceClient {
    /// The service this client reaches.
    pub registration: DomainServiceRegistration,
    /// Connection failures since the last successful exchange.
    pub consecutive_failures: u32,
    /// First back-off delay, in milliseconds.
    pub base_ms: u64,
    /// Back-off ceiling, in milliseconds.
    pub cap_ms: u64,
}

impl ServiceClient {
    /// A well-formed client has a positive base delay no larger than its
    /// ceiling, and a ceiling small enough that jittered delays cannot
    /// overflow the arithmetic.
    pub open spec fn wf(self) -> bool {
        &&& self.registration.wf()
        &&& 1 <= self.base_ms <= self.cap_ms
        &&& self.cap_ms <= 0x100_0000_0000
    }

    /// Creates a client for a declared service.
    pub fn new(registration: DomainServiceRegistration, base_ms: u64, cap_ms: u64) -> (r: Self)
        requires
            registration.wf(),
            1 <= base_ms <= cap_ms,
            cap_ms <= 0x100_0000_0000,
        ensures
            r.wf(),
            r.registration == registration,
            r.consecutive_failures == 0,
    {
        ServiceClient { registration, consecutive_failures: 0, base_ms, cap_ms }
    }

    /// Records a successful exchange: the failure streak is over.
    pub fn on_success(&mut self)
        requires
            old(self).wf(),
        ensures
            final(self).wf(),
            *final(self) == (ServiceClient { consecutive_failures: 0u32, ..*old(self) }),
    {
        self.consecutive_failures = 0;
    }

    /// Records a connection failure and decides what to do next: whether
    /// the connection is reused or recreated, and how long to back off,
    /// jittered from the caller-supplied entropy.
    pub fn on_transport_error(&mut self, e: TransportError, jitter_seed: u64) -> (r: (
        ConnectionAction,
        u64,
    ))
        requires
            old(self).wf(),
        ensures
            final(self).wf(),
            final(self).registration == old(self).registration,
            final(self).base_ms == old(self).base_ms,
            final(self).cap_ms == old(self).cap_ms,
            final(self).consecutive_failures as int == if old(self).consecutive_failures
                == u32::MAX {
                u32::MAX as int
            } else {
                old(self).consecutive_failures as int + 1
            },
            r.0 == spec_connection_action(e),
            ({
                let raw = spec_backoff_raw_ms(
                    old(self).consecutive_failures as nat,
                    old(self).base_ms as nat,
                    old(self).cap_ms as nat,
                );
                &&& r.1 as int == raw + jitter_seed as int % (raw + 1)
                &&& raw <= r.1 as int <= 2 * raw
            }),
    {
        let delay = backoff_delay_ms(self.consecutive_failures, self.base_ms, self.cap_ms, jitter_seed);
        if self.consecutive_failures < u32::MAX {
            self.consecutive_failures = self.consecutive_failures + 1;
        }
        (connection_action(e), delay)
    }
}

} // verus!
