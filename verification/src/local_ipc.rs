//! Authentication and framing for current-user local IPC.
//!
//! The transport supplies a connected byte stream. This layer authenticates
//! each direction independently with HMAC-SHA-256 over a direction label, a
//! sequence number and the payload, and rejects modified, replayed, reordered
//! or oversized frames.

use vstd::prelude::*;
use vstd::utf8::encode_utf8;

use crate::byte_io::{fill_step, FillStep, 
    flush, is_unexpected_eof, le_u64, le_u64_bytes, lemma_le_u64_bytes_of_value, lemma_le_u64_round_trip, read_exact,
    read_retrying, u32_from_le, u32_to_le, u64_from_le, u64_to_le, wipe_bytes, wipe_string, write_all,
};
use crate::protocol::TerminalResponse;

verus! {

/// Largest payload of one IPC frame.
pub const MAX_IPC_MESSAGE_BYTES: usize = 128 * 1024 * 1024;

/// Frame format version.
pub const FRAME_VERSION: u8 = 1;

/// Version byte and sequence number.
pub const HEADER_BYTES: usize = 1 + 8;

/// HMAC-SHA-256 tag length.
pub const TAG_BYTES: usize = 32;

/// Handshake magic `INKWELL1`, sent before the session key.
pub const HANDSHAKE_MAGIC: [u8; 8] = [0x49, 0x4e, 0x4b, 0x57, 0x45, 0x4c, 0x4c, 0x31];

/// What the host sends the desktop.
#[derive(Debug)]
pub enum HostCommand {
    Request(IpcRequest),
    Disconnect { request_id: String },
}

/// What the desktop sends the host.
#[derive(Debug)]
pub enum DesktopCommand {
    Terminal(TerminalResponse),
}

/// A validated request as it crosses from the host to the desktop.
#[derive(Debug)]
pub struct IpcRequest {
    pub request_id: String,
    pub website_origin: String,
    pub document_name: String,
    pub preview_pdf: Vec<u8>,
    pub byte_range_content: Vec<u8>,
}

impl IpcRequest {
    /// Overwrites and empties every field.
    pub fn clear(&mut self)
        ensures
            final(self).request_id@.len() == 0,
            final(self).website_origin@.len() == 0,
            final(self).document_name@.len() == 0,
            final(self).preview_pdf@.len() == 0,
            final(self).byte_range_content@.len() == 0,
    {
        wipe_string(&mut self.request_id);
        wipe_string(&mut self.website_origin);
        wipe_string(&mut self.document_name);
        wipe_bytes(&mut self.preview_pdf);
        wipe_bytes(&mut self.byte_range_content);
    }
}

/// Ephemeral authentication material for one host-to-desktop connection.
///
/// It is transferred through the current-user pipe handshake, never a process
/// argument, environment variable, log or persistent file.
pub struct SessionKey([u8; 32]);

impl View for SessionKey {
    type V = Seq<u8>;

    closed spec fn view(&self) -> Seq<u8> {
        self.0@
    }
}

/// `getrandom::Error`, carried through untouched.
#[verifier::external_type_specification]
#[verifier::external_body]
pub struct ExGetrandomError(getrandom::Error);

/// Calls `getrandom::fill`. Nothing is stated of the bytes: they come from
/// the operating system's random source.
#[verifier::external_body]
fn fill_random(key: &mut [u8; 32]) -> Result<(), getrandom::Error> {
    getrandom::fill(key)
}

impl SessionKey {
    /// A key from the operating system random source.
    pub fn generate() -> (r: Result<Self, getrandom::Error>)
        ensures
            r matches Ok(key) ==> key@.len() == 32,
    {
        let mut key = [0u8; 32];
        match fill_random(&mut key) {
            Ok(()) => Ok(SessionKey(key)),
            Err(e) => Err(e),
        }
    }

    /// A key with the given bytes.
    pub fn from_bytes(key: [u8; 32]) -> (r: Self)
        ensures
            r@ == key@,
    {
        SessionKey(key)
    }

    /// The text shown for a key in diagnostics; it never includes key bytes.
    pub fn debug_text(&self) -> (r: String)
        ensures
            r@ == "SessionKey([REDACTED])"@,
    {
        "SessionKey([REDACTED])".to_owned()
    }
}

/// The handshake the desktop sends inside the pipe: magic, then the key.
pub open spec fn handshake_bytes(key: Seq<u8>) -> Seq<u8> {
    HANDSHAKE_MAGIC@ + key
}

/// The handshake announcing `key`.
pub fn handshake_message(key: &SessionKey) -> (r: [u8; 40])
    ensures
        r@ == handshake_bytes(key@),
{
    let mut message = [0u8; 40];
    let mut i: usize = 0;
    while i < 8
        invariant
            i <= 8,
            message@.len() == 40,
            forall|j: int| 0 <= j < i ==> message@[j] == HANDSHAKE_MAGIC@[j],
        decreases 8 - i,
    {
        message[i] = HANDSHAKE_MAGIC[i];
        i = i + 1;
    }
    while i < 40
        invariant
            8 <= i <= 40,
            message@.len() == 40,
            key@.len() == 32,
            forall|j: int| 0 <= j < 8 ==> message@[j] == HANDSHAKE_MAGIC@[j],
            forall|j: int| 8 <= j < i ==> message@[j] == key@[j - 8],
        decreases 40 - i,
    {
        message[i] = key.0[i - 8];
        i = i + 1;
    }
    assert(message@ =~= handshake_bytes(key@));
    message
}

/// Why the current-user connection could not be set up.
#[derive(Debug)]
pub enum HandshakeError {
    Io(std::io::Error),
    Random(getrandom::Error),
    InvalidHandshake,
}

/// An input that ends inside the handshake is an invalid handshake; any
/// other read failure is kept as I/O.
pub fn map_handshake_io(error: std::io::Error) -> (r: HandshakeError)
    ensures
        r is InvalidHandshake || r == HandshakeError::Io(error),
{
    if is_unexpected_eof(&error) {
        HandshakeError::InvalidHandshake
    } else {
        HandshakeError::Io(error)
    }
}

/// Reads the key out of a received handshake, refusing any other magic.
pub fn parse_handshake(handshake: &[u8; 40]) -> (r: Result<SessionKey, HandshakeError>)
    ensures
        r is Ok <==> handshake@.subrange(0, 8) == HANDSHAKE_MAGIC@,
        r matches Ok(key) ==> key@ == handshake@.subrange(8, 40),
        r matches Err(e) ==> e is InvalidHandshake,
{
    let mut i: usize = 0;
    while i < 8
        invariant
            i <= 8,
            forall|j: int| 0 <= j < i ==> handshake@[j] == HANDSHAKE_MAGIC@[j],
        decreases 8 - i,
    {
        if handshake[i] != HANDSHAKE_MAGIC[i] {
            assert(handshake@.subrange(0, 8)[i as int] != HANDSHAKE_MAGIC@[i as int]);
            return Err(HandshakeError::InvalidHandshake);
        }
        i = i + 1;
    }
    assert(handshake@.subrange(0, 8) =~= HANDSHAKE_MAGIC@);
    let mut key = [0u8; 32];
    let mut k: usize = 0;
    while k < 32
        invariant
            k <= 32,
            key@.len() == 32,
            forall|j: int| 0 <= j < k ==> key@[j] == handshake@[j + 8],
        decreases 32 - k,
    {
        key[k] = handshake[k + 8];
        k = k + 1;
    }
    assert(key@ =~= handshake@.subrange(8, 40));
    Ok(SessionKey(key))
}

/// The handshake a desktop sends is read back by the host as the same key.
pub proof fn law_handshake_round_trips(key: Seq<u8>)
    requires
        key.len() == 32,
    ensures
        handshake_bytes(key).subrange(0, 8) == HANDSHAKE_MAGIC@,
        handshake_bytes(key).subrange(8, 40) == key,
{
    assert(handshake_bytes(key).subrange(0, 8) =~= HANDSHAKE_MAGIC@);
    assert(handshake_bytes(key).subrange(8, 40) =~= key);
}

/// `std::io::Error` with kind `InvalidInput` and the given message.
#[verifier::external_body]
fn invalid_input(message: &'static str) -> std::io::Error {
    std::io::Error::new(std::io::ErrorKind::InvalidInput, message)
}

/// An ASCII letter or digit, `-`, `_` or `.`.
pub open spec fn is_name_byte(b: u8) -> bool {
    (0x30 <= b <= 0x39) || (0x41 <= b <= 0x5a) || (0x61 <= b <= 0x7a) || b == 0x2d || b == 0x5f
        || b == 0x2e
}

/// Endpoint names are nonempty and use only letters, digits, `-`, `_` and `.`.
pub open spec fn endpoint_name_ok(name: Seq<u8>) -> bool {
    name.len() > 0 && forall|i: int| 0 <= i < name.len() ==> is_name_byte(#[trigger] name[i])
}

/// Refuses an endpoint name that the local transport could misread.
pub fn validate_name(name: &str) -> (r: Result<(), std::io::Error>)
    ensures
        r is Ok <==> endpoint_name_ok(encode_utf8(name@)),
{
    let bytes = name.as_bytes();
    if bytes.len() == 0 {
        return Err(invalid_input("local IPC name contains unsupported characters"));
    }
    let mut i: usize = 0;
    while i < bytes.len()
        invariant
            bytes@ == encode_utf8(name@),
            i <= bytes@.len(),
            forall|j: int| 0 <= j < i ==> is_name_byte(#[trigger] bytes@[j]),
        decreases bytes@.len() - i,
    {
        let b = bytes[i];
        let ok = (0x30u8 <= b && b <= 0x39u8) || (0x41u8 <= b && b <= 0x5au8) || (0x61u8 <= b
            && b <= 0x7au8) || b == 0x2du8 || b == 0x5fu8 || b == 0x2eu8;
        if !ok {
            return Err(invalid_input("local IPC name contains unsupported characters"));
        }
        i = i + 1;
    }
    Ok(())
}

/// Which side of the connection a stream belongs to.
#[derive(Clone, Copy, Debug, Eq, PartialEq)]
pub enum Endpoint {
    Host,
    Desktop,
}

/// Authentication label of frames sent by the host.
pub open spec fn host_to_desktop() -> Seq<u8> {
    encode_utf8("inkwell-ipc-v1:host-to-desktop"@)
}

/// Authentication label of frames sent by the desktop.
pub open spec fn desktop_to_host() -> Seq<u8> {
    encode_utf8("inkwell-ipc-v1:desktop-to-host"@)
}

impl Endpoint {
    /// The label this endpoint authenticates its own frames with.
    pub open spec fn spec_outgoing_domain(self) -> Seq<u8> {
        match self {
            Endpoint::Host => host_to_desktop(),
            Endpoint::Desktop => desktop_to_host(),
        }
    }

    /// The label this endpoint expects on frames it receives.
    pub open spec fn spec_incoming_domain(self) -> Seq<u8> {
        match self {
            Endpoint::Host => desktop_to_host(),
            Endpoint::Desktop => host_to_desktop(),
        }
    }

    /// The opposite side of the connection.
    pub open spec fn peer(self) -> Endpoint {
        match self {
            Endpoint::Host => Endpoint::Desktop,
            Endpoint::Desktop => Endpoint::Host,
        }
    }

    fn outgoing_domain(self) -> (r: &'static [u8])
        ensures
            r@ == self.spec_outgoing_domain(),
    {
        match self {
            Endpoint::Host => "inkwell-ipc-v1:host-to-desktop".as_bytes(),
            Endpoint::Desktop => "inkwell-ipc-v1:desktop-to-host".as_bytes(),
        }
    }

    fn incoming_domain(self) -> (r: &'static [u8])
        ensures
            r@ == self.spec_incoming_domain(),
    {
        match self {
            Endpoint::Host => "inkwell-ipc-v1:desktop-to-host".as_bytes(),
            Endpoint::Desktop => "inkwell-ipc-v1:host-to-desktop".as_bytes(),
        }
    }
}

/// Why an IPC frame was refused or could not be moved.
#[derive(Debug)]
pub enum IpcError {
    Io(std::io::Error),
    TooLarge,
    Truncated,
    UnsupportedVersion,
    AuthenticationFailed,
    UnexpectedSequence,
    SequenceExhausted,
    InvalidMessage,
}

/// HMAC-SHA-256 of `message` under `key`.
pub uninterp spec fn hmac_sha256(key: Seq<u8>, message: Seq<u8>) -> Seq<u8>;

/// The authenticated message of a frame: direction label, sequence, payload.
pub open spec fn authenticated_message(domain: Seq<u8>, sequence: u64, payload: Seq<u8>) -> Seq<
    u8,
> {
    domain + le_u64_bytes(sequence) + payload
}

/// Calls `hmac::Hmac::<sha2::Sha256>::new_from_slice`, `update` with the
/// label, the sequence bytes and the payload, then `finalize`. Trusted: the
/// tag is the name `hmac_sha256` of the key and the concatenated input.
#[verifier::external_body]
fn authenticate(key: &[u8; 32], domain: &[u8], sequence: [u8; 8], payload: &[u8]) -> (r: [u8; 32])
    ensures
        r@ == hmac_sha256(key@, domain@ + sequence@ + payload@),
{
    let mut mac = <hmac::Hmac<sha2::Sha256> as hmac::Mac>::new_from_slice(key).expect(
        "HMAC accepts a 32-byte key",
    );
    hmac::Mac::update(&mut mac, domain);
    hmac::Mac::update(&mut mac, &sequence);
    hmac::Mac::update(&mut mac, payload);
    hmac::Mac::finalize(mac).into_bytes().into()
}

/// Calls the same HMAC construction and `verify_slice`. Trusted: success
/// exactly when `tag` equals the HMAC of the key and the concatenated input
/// (a tag of another length never matches).
#[verifier::external_body]
fn verify(
    key: &[u8; 32],
    domain: &[u8],
    sequence: [u8; 8],
    payload: &[u8],
    tag: &[u8],
) -> (r: bool)
    ensures
        r == (tag@ == hmac_sha256(key@, domain@ + sequence@ + payload@)),
{
    let mut mac = <hmac::Hmac<sha2::Sha256> as hmac::Mac>::new_from_slice(key).expect(
        "HMAC accepts a 32-byte key",
    );
    hmac::Mac::update(&mut mac, domain);
    hmac::Mac::update(&mut mac, &sequence);
    hmac::Mac::update(&mut mac, payload);
    hmac::Mac::verify_slice(mac, tag).is_ok()
}

/// The bytes of a frame after its length prefix: version, sequence,
/// payload, tag.
pub open spec fn sealed_frame(key: Seq<u8>, domain: Seq<u8>, sequence: u64, payload: Seq<u8>) -> Seq<
    u8,
> {
    seq![FRAME_VERSION] + le_u64_bytes(sequence) + payload + hmac_sha256(
        key,
        authenticated_message(domain, sequence, payload),
    )
}

/// The outcome of opening the bytes of a frame that expects `sequence`.
pub open spec fn open_outcome(key: Seq<u8>, domain: Seq<u8>, sequence: u64, frame: Seq<u8>) -> Result<
    Seq<u8>,
    IpcError,
> {
    let payload = frame.subrange(9, frame.len() - 32);
    if frame[0] != FRAME_VERSION {
        Err(IpcError::UnsupportedVersion)
    } else if le_u64(frame.subrange(1, 9)) != sequence {
        Err(IpcError::UnexpectedSequence)
    } else if frame.subrange(frame.len() - 32, frame.len() as int) != hmac_sha256(
        key,
        domain + frame.subrange(1, 9) + payload,
    ) {
        Err(IpcError::AuthenticationFailed)
    } else if sequence == u64::MAX {
        Err(IpcError::SequenceExhausted)
    } else {
        Ok(payload)
    }
}

/// Both results agree: the same payload, or the same error (I/O aside).
pub open spec fn same_payload_outcome(
    actual: Result<Vec<u8>, IpcError>,
    expected: Result<Seq<u8>, IpcError>,
) -> bool {
    match (actual, expected) {
        (Ok(a), Ok(e)) => a@ == e,
        (Err(a), Err(e)) => a == e,
        _ => false,
    }
}

/// A sealed frame is opened, with its payload intact, by the peer endpoint
/// that holds the same key and expects the same sequence number. (An
/// HMAC-SHA-256 tag is 32 bytes long.)
pub proof fn law_sealed_frames_open_at_the_peer(
    key: Seq<u8>,
    sender: Endpoint,
    sequence: u64,
    payload: Seq<u8>,
)
    requires
        sequence < u64::MAX,
        hmac_sha256(
            key,
            authenticated_message(sender.spec_outgoing_domain(), sequence, payload),
        ).len() == TAG_BYTES,
    ensures
        open_outcome(
            key,
            sender.peer().spec_incoming_domain(),
            sequence,
            sealed_frame(key, sender.spec_outgoing_domain(), sequence, payload),
        ) == Ok::<Seq<u8>, IpcError>(payload),
{
    let frame = sealed_frame(key, sender.spec_outgoing_domain(), sequence, payload);
    let tag = hmac_sha256(key, authenticated_message(sender.spec_outgoing_domain(), sequence, payload));
    lemma_le_u64_round_trip(sequence);
    assert(frame.subrange(1, 9) =~= le_u64_bytes(sequence));
    assert(frame.subrange(9, frame.len() - 32) =~= payload);
    assert(frame.subrange(frame.len() - 32, frame.len() as int) =~= tag);
    assert(sender.peer().spec_incoming_domain() == sender.spec_outgoing_domain());
    assert(sender.spec_outgoing_domain() + frame.subrange(1, 9) + payload
        =~= authenticated_message(sender.spec_outgoing_domain(), sequence, payload));
}

/// A frame carrying any sequence number other than the expected one is
/// refused as replayed or out of order, whatever its tag. (An HMAC-SHA-256
/// tag is 32 bytes long.)
pub proof fn law_replayed_frames_are_refused(
    key: Seq<u8>,
    domain: Seq<u8>,
    sent: u64,
    expected: u64,
    payload: Seq<u8>,
)
    requires
        sent != expected,
        hmac_sha256(key, authenticated_message(domain, sent, payload)).len() == TAG_BYTES,
    ensures
        open_outcome(key, domain, expected, sealed_frame(key, domain, sent, payload))
            == Err::<Seq<u8>, IpcError>(IpcError::UnexpectedSequence),
{
    let frame = sealed_frame(key, domain, sent, payload);
    lemma_le_u64_round_trip(sent);
    assert(frame.subrange(1, 9) =~= le_u64_bytes(sent));
}

/// A byte stream with per-direction authentication and sequencing.
pub struct AuthenticatedStream<S> {
    stream: S,
    key: SessionKey,
    endpoint: Endpoint,
    outgoing_sequence: u64,
    incoming_sequence: u64,
    /// The frame length announced by the prefix the last `receive` read.
    announced: Ghost<Option<usize>>,
}

impl<S> AuthenticatedStream<S> {
    /// The sequence number of the next frame this side sends.
    pub closed spec fn outgoing(self) -> u64 {
        self.outgoing_sequence
    }

    /// The sequence number of the next frame this side accepts.
    pub closed spec fn incoming(self) -> u64 {
        self.incoming_sequence
    }

    /// The side this stream speaks for.
    pub closed spec fn side(self) -> Endpoint {
        self.endpoint
    }

    /// The session key's bytes.
    pub closed spec fn key_bytes(self) -> Seq<u8> {
        self.key@
    }

    /// The frame length, after the prefix, that the last `receive` read from
    /// its stream; `None` when it read no complete prefix.
    pub closed spec fn announced(self) -> Option<usize> {
        self.announced@
    }

    /// The underlying stream.
    pub closed spec fn inner(self) -> S {
        self.stream
    }

    /// A fresh stream: both sequences start at zero.
    pub fn new(stream: S, key: SessionKey, endpoint: Endpoint) -> (r: Self)
        ensures
            r.outgoing() == 0,
            r.incoming() == 0,
            r.side() == endpoint,
            r.key_bytes() == key@,
            r.inner() == stream,
    {
        AuthenticatedStream {
            stream,
            key,
            endpoint,
            outgoing_sequence: 0,
            incoming_sequence: 0,
            announced: Ghost(None),
        }
    }

    /// The underlying stream.
    pub fn into_inner(self) -> (r: S)
        ensures
            r == self.inner(),
    {
        self.stream
    }

    /// Splits the underlying stream with `halves` into a receiving and a
    /// sending half that share the key, the side and both sequence numbers.
    pub fn split<A, B, F: FnOnce(S) -> (A, B)>(self, halves: F) -> (r: (
        AuthenticatedStream<A>,
        AuthenticatedStream<B>,
    ))
        requires
            forall|s: S| halves.requires((s,)),
        ensures
            r.0.key_bytes() == self.key_bytes() && r.1.key_bytes() == self.key_bytes(),
            r.0.side() == self.side() && r.1.side() == self.side(),
            r.0.outgoing() == self.outgoing() && r.1.outgoing() == self.outgoing(),
            r.0.incoming() == self.incoming() && r.1.incoming() == self.incoming(),
    {
        let key = self.key.0;
        let endpoint = self.endpoint;
        let outgoing_sequence = self.outgoing_sequence;
        let incoming_sequence = self.incoming_sequence;
        let (receiver, sender) = halves(self.stream);
        (
            AuthenticatedStream {
                stream: receiver,
                key: SessionKey::from_bytes(key),
                endpoint,
                outgoing_sequence,
                incoming_sequence,
                announced: Ghost(None),
            },
            AuthenticatedStream {
                stream: sender,
                key: SessionKey::from_bytes(key),
                endpoint,
                outgoing_sequence,
                incoming_sequence,
                announced: Ghost(None),
            },
        )
    }

    /// Checks and consumes the bytes of one received frame (everything after
    /// its length prefix). The incoming sequence advances only on success.
    pub fn open_frame(&mut self, frame: Vec<u8>) -> (r: Result<Vec<u8>, IpcError>)
        requires
            frame@.len() >= HEADER_BYTES + TAG_BYTES,
        ensures
            same_payload_outcome(
                r,
                open_outcome(
                    old(self).key_bytes(),
                    old(self).side().spec_incoming_domain(),
                    old(self).incoming(),
                    frame@,
                ),
            ),
            r is Ok ==> final(self).incoming() == old(self).incoming() + 1,
            r is Err ==> final(self).incoming() == old(self).incoming(),
            final(self).outgoing() == old(self).outgoing(),
            final(self).side() == old(self).side(),
            final(self).key_bytes() == old(self).key_bytes(),
            final(self).announced() == old(self).announced(),
    {
        let mut frame = frame;
        let frame_len = frame.len();
        let payload_len = frame_len - HEADER_BYTES - TAG_BYTES;
        if frame[0] != FRAME_VERSION {
            wipe_bytes(&mut frame);
            return Err(IpcError::UnsupportedVersion);
        }
        let sequence = u64_from_le(&frame.as_slice()[1..9]);
        if sequence != self.incoming_sequence {
            wipe_bytes(&mut frame);
            return Err(IpcError::UnexpectedSequence);
        }
        let sequence_bytes = u64_to_le(sequence);
        proof {
            assert(sequence_bytes@ == frame@.subrange(1, 9)) by {
                lemma_le_u64_bytes_of_value(frame@.subrange(1, 9));
            }
        }
        let payload_end = HEADER_BYTES + payload_len;
        let verified = verify(
            &self.key.0,
            self.endpoint.incoming_domain(),
            sequence_bytes,
            &frame.as_slice()[HEADER_BYTES..payload_end],
            &frame.as_slice()[payload_end..frame_len],
        );
        if !verified {
            wipe_bytes(&mut frame);
            return Err(IpcError::AuthenticationFailed);
        }
        if self.incoming_sequence == u64::MAX {
            wipe_bytes(&mut frame);
            return Err(IpcError::SequenceExhausted);
        }
        self.incoming_sequence = self.incoming_sequence + 1;
        let payload = vstd::slice::slice_to_vec(&frame.as_slice()[HEADER_BYTES..payload_end]);
        wipe_bytes(&mut frame);
        Ok(payload)
    }
}

impl<S> AuthenticatedStream<S> {
    /// The bytes of the next outgoing frame after its length prefix:
    /// version, sequence number, payload and tag.
    pub fn seal(&self, payload: &[u8]) -> (r: Vec<u8>)
        requires
            payload@.len() <= MAX_IPC_MESSAGE_BYTES,
        ensures
            r@ == sealed_frame(
                self.key_bytes(),
                self.side().spec_outgoing_domain(),
                self.outgoing(),
                payload@,
            ),
    {
        let sequence_bytes = u64_to_le(self.outgoing_sequence);
        let tag = authenticate(&self.key.0, self.endpoint.outgoing_domain(), sequence_bytes, payload);
        let mut frame: Vec<u8> = Vec::new();
        frame.push(FRAME_VERSION);
        frame.extend_from_slice(&sequence_bytes);
        frame.extend_from_slice(payload);
        frame.extend_from_slice(&tag);
        proof {
            assert(authenticated_message(
                self.side().spec_outgoing_domain(),
                self.outgoing(),
                payload@,
            ) =~= self.side().spec_outgoing_domain() + sequence_bytes@ + payload@);
            assert(frame@ =~= sealed_frame(
                self.key_bytes(),
                self.side().spec_outgoing_domain(),
                self.outgoing(),
                payload@,
            ));
        }
        frame
    }
}

/// A frame sealed for a payload within `MAX_IPC_MESSAGE_BYTES` announces
/// the payload's length plus the header and the tag, so the receiving side
/// refuses it neither as truncated nor as too large: payloads up to the
/// limit cross. (An HMAC-SHA-256 tag is 32 bytes long.)
pub proof fn law_sealed_frames_are_within_the_receive_limits(
    key: Seq<u8>,
    domain: Seq<u8>,
    sequence: u64,
    payload: Seq<u8>,
)
    requires
        payload.len() <= MAX_IPC_MESSAGE_BYTES,
        hmac_sha256(key, authenticated_message(domain, sequence, payload)).len() == TAG_BYTES,
    ensures
        sealed_frame(key, domain, sequence, payload).len() == payload.len() + HEADER_BYTES
            + TAG_BYTES,
        sealed_frame(key, domain, sequence, payload).len() >= HEADER_BYTES + TAG_BYTES,
        sealed_frame(key, domain, sequence, payload).len() - HEADER_BYTES - TAG_BYTES
            <= MAX_IPC_MESSAGE_BYTES,
{
}

/// What one stream seals for its next frame, the stream at the other end
/// that holds the same key and expects that sequence number opens with the
/// payload intact. (An HMAC-SHA-256 tag is 32 bytes long.)
pub proof fn law_frames_cross_between_matched_streams<A, B>(
    sender: AuthenticatedStream<A>,
    receiver: AuthenticatedStream<B>,
    payload: Seq<u8>,
)
    requires
        sender.key_bytes() == receiver.key_bytes(),
        receiver.side() == sender.side().peer(),
        sender.outgoing() == receiver.incoming(),
        sender.outgoing() < u64::MAX,
        hmac_sha256(
            sender.key_bytes(),
            authenticated_message(sender.side().spec_outgoing_domain(), sender.outgoing(), payload),
        ).len() == TAG_BYTES,
    ensures
        open_outcome(
            receiver.key_bytes(),
            receiver.side().spec_incoming_domain(),
            receiver.incoming(),
            sealed_frame(
                sender.key_bytes(),
                sender.side().spec_outgoing_domain(),
                sender.outgoing(),
                payload,
            ),
        ) == Ok::<Seq<u8>, IpcError>(payload),
{
    law_sealed_frames_open_at_the_peer(sender.key_bytes(), sender.side(), sender.outgoing(), payload);
}

impl<S: std::io::Write> AuthenticatedStream<S> {
    /// Writes and flushes one authenticated frame: its little-endian length,
    /// then the bytes of `sealed_frame` for the next outgoing sequence number.
    pub fn send(&mut self, payload: &[u8]) -> (r: Result<(), IpcError>)
        ensures
            r matches Err(IpcError::TooLarge) <==> payload@.len() > MAX_IPC_MESSAGE_BYTES,
            r matches Err(IpcError::SequenceExhausted) <==> payload@.len() <= MAX_IPC_MESSAGE_BYTES
                && old(self).outgoing() == u64::MAX,
            r is Ok || r matches Err(IpcError::Io(_)) || r matches Err(IpcError::TooLarge)
                || r matches Err(IpcError::SequenceExhausted),
            (r matches Err(IpcError::TooLarge) || r matches Err(IpcError::SequenceExhausted))
                ==> *final(self) == *old(self),
            r is Ok ==> final(self).outgoing() == old(self).outgoing() + 1,
            r is Err ==> final(self).outgoing() == old(self).outgoing(),
            final(self).incoming() == old(self).incoming(),
            final(self).side() == old(self).side(),
            final(self).key_bytes() == old(self).key_bytes(),
    {
        if payload.len() > MAX_IPC_MESSAGE_BYTES {
            return Err(IpcError::TooLarge);
        }
        if self.outgoing_sequence == u64::MAX {
            return Err(IpcError::SequenceExhausted);
        }
        let frame = self.seal(payload);
        let prefix = u32_to_le(frame.len() as u32);
        match write_all(&mut self.stream, &prefix) {
            Ok(()) => {},
            Err(e) => return Err(IpcError::Io(e)),
        }
        match write_all(&mut self.stream, frame.as_slice()) {
            Ok(()) => {},
            Err(e) => return Err(IpcError::Io(e)),
        }
        match flush(&mut self.stream) {
            Ok(()) => {},
            Err(e) => return Err(IpcError::Io(e)),
        }
        self.outgoing_sequence = self.outgoing_sequence + 1;
        Ok(())
    }
}

/// What one read of a length prefix means: `Ok(Some(n))` when `n` of its
/// bytes are in place now, `Ok(None)` when the input ended cleanly before
/// it, `Truncated` when the input ended inside it, and the read's own
/// failure as I/O.
pub fn prefix_progress(step: FillStep) -> (r: Result<Option<usize>, IpcError>)
    ensures
        match step {
            FillStep::Filled(n) => r == Ok::<Option<usize>, IpcError>(Some(n)),
            FillStep::EndBeforeField => r == Ok::<Option<usize>, IpcError>(None),
            FillStep::EndInsideField => r matches Err(IpcError::Truncated),
            FillStep::Failed(e) => r == Err::<Option<usize>, IpcError>(IpcError::Io(e)),
        },
{
    match step {
        FillStep::Filled(n) => Ok(Some(n)),
        FillStep::EndBeforeField => Ok(None),
        FillStep::EndInsideField => Err(IpcError::Truncated),
        FillStep::Failed(e) => Err(IpcError::Io(e)),
    }
}

/// Reads a frame's little-endian length prefix: `None` at a clean end of
/// input, `Truncated` when the input ends inside the prefix.
fn read_length<R: std::io::Read>(reader: &mut R) -> (r: Result<Option<usize>, IpcError>)
    ensures
        r matches Ok(Some(n)) ==> n <= u32::MAX,
        r matches Err(e) ==> e is Truncated || e is Io,
{
    let mut prefix = [0u8; 4];
    let mut read: usize = 0;
    while read < 4
        invariant
            read <= 4,
            prefix@.len() == 4,
        decreases 4 - read,
    {
        match prefix_progress(fill_step(read, 4, read_retrying(reader, &mut prefix, read))) {
            Ok(Some(count)) => read = count,
            Ok(None) => return Ok(None),
            Err(error) => return Err(error),
        }
    }
    Ok(Some(u32_from_le(prefix) as usize))
}

/// An unexpected end of input inside a frame is a truncated frame.
fn map_truncation(error: std::io::Error) -> (r: IpcError)
    ensures
        r is Truncated || r == IpcError::Io(error),
{
    if is_unexpected_eof(&error) {
        IpcError::Truncated
    } else {
        IpcError::Io(error)
    }
}

/// The payload length of a frame that announces `frame_len` bytes after its
/// prefix: too short for a version, a sequence number and a tag is
/// `Truncated`, a payload above `MAX_IPC_MESSAGE_BYTES` is `TooLarge`; both
/// are decided before the frame is read.
pub fn payload_length_verdict(frame_len: usize) -> (r: Result<usize, IpcError>)
    ensures
        frame_len < HEADER_BYTES + TAG_BYTES ==> r matches Err(IpcError::Truncated),
        frame_len >= HEADER_BYTES + TAG_BYTES && frame_len - HEADER_BYTES - TAG_BYTES
            > MAX_IPC_MESSAGE_BYTES ==> r matches Err(IpcError::TooLarge),
        frame_len >= HEADER_BYTES + TAG_BYTES && frame_len - HEADER_BYTES - TAG_BYTES
            <= MAX_IPC_MESSAGE_BYTES ==> (r matches Ok(n) && n == frame_len - HEADER_BYTES
            - TAG_BYTES),
{
    if frame_len < HEADER_BYTES + TAG_BYTES {
        return Err(IpcError::Truncated);
    }
    let payload_len = frame_len - HEADER_BYTES - TAG_BYTES;
    if payload_len > MAX_IPC_MESSAGE_BYTES {
        return Err(IpcError::TooLarge);
    }
    Ok(payload_len)
}

impl<S: std::io::Read> AuthenticatedStream<S> {
    /// Reads one authenticated frame. A clean end of input is `None`,
    /// distinct from truncation; an announced payload above the limit is
    /// refused before it is read.
    ///
    /// Which outcome comes depends on the bytes the stream delivers, which
    /// the contract cannot name. The prefix reads are judged by `fill_step`
    /// and `prefix_progress`, the length by `payload_length_verdict` and the
    /// frame by `open_frame`; this function returns what they decide.
    pub fn receive(&mut self) -> (r: Result<Option<Vec<u8>>, IpcError>)
        ensures
            r matches Ok(Some(payload)) ==> payload@.len() <= MAX_IPC_MESSAGE_BYTES
                && final(self).incoming() == old(self).incoming() + 1,
            r matches Ok(Some(payload)) ==> exists|frame: Seq<u8>|
                open_outcome(
                    old(self).key_bytes(),
                    old(self).side().spec_incoming_domain(),
                    old(self).incoming(),
                    frame,
                ) == Ok::<Seq<u8>, IpcError>(payload@),
            !(r matches Ok(Some(_))) ==> final(self).incoming() == old(self).incoming(),
            r matches Ok(None) ==> final(self).announced() is None,
            r matches Ok(Some(payload)) ==> final(self).announced() == Some(
                (payload@.len() + HEADER_BYTES + TAG_BYTES) as usize,
            ),
            final(self).announced() matches Some(n) && n < HEADER_BYTES + TAG_BYTES ==> r matches Err(
                IpcError::Truncated,
            ),
            final(self).announced() matches Some(n) && n >= HEADER_BYTES + TAG_BYTES && n
                - HEADER_BYTES - TAG_BYTES > MAX_IPC_MESSAGE_BYTES ==> r matches Err(IpcError::TooLarge),
            r matches Err(IpcError::TooLarge) ==> (final(self).announced() matches Some(n) && n
                >= HEADER_BYTES + TAG_BYTES && n - HEADER_BYTES - TAG_BYTES > MAX_IPC_MESSAGE_BYTES),
            final(self).outgoing() == old(self).outgoing(),
            final(self).side() == old(self).side(),
            final(self).key_bytes() == old(self).key_bytes(),
    {
        self.announced = Ghost(None);
        let frame_len = match read_length(&mut self.stream) {
            Ok(Some(frame_len)) => frame_len,
            Ok(None) => return Ok(None),
            Err(e) => return Err(e),
        };
        self.announced = Ghost(Some(frame_len));
        match payload_length_verdict(frame_len) {
            Ok(_) => {},
            Err(e) => return Err(e),
        }
        let mut frame = vec![0u8; frame_len];
        match read_exact(&mut self.stream, frame.as_mut_slice()) {
            Ok(()) => {},
            Err(e) => return Err(map_truncation(e)),
        }
        let ghost bytes = frame@;
        match self.open_frame(frame) {
            Ok(payload) => {
                assert(open_outcome(
                    old(self).key_bytes(),
                    old(self).side().spec_incoming_domain(),
                    old(self).incoming(),
                    bytes,
                ) == Ok::<Seq<u8>, IpcError>(payload@));
                Ok(Some(payload))
            },
            Err(e) => Err(e),
        }
    }
}

} // verus!
