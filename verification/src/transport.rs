use vstd::prelude::*;

use crate::codec::append_bytes;
use crate::communication_value::{message_bytes, read_message, CommunicationValue, Message};
use crate::wire::{be_bytes, be_value, lemma_be_roundtrip, lemma_pow256_facts, push_be, read_be};

verus! {

/// The largest message, in bytes, that a connection sends or accepts.
pub const MAX_MESSAGE_SIZE: u64 = 1_000_000_000;

/// The length field that announces, in place of a message, that the peer closes.
pub const CLOSE_FRAME_LEN: u32 = 0xffff_ffff;

/// How many times a message is tried before the connection gives up on it.
pub const MAX_SEND_RETRIES: usize = 3;

/// The pause after the first failed try; each later one doubles it.
pub const SEND_RETRY_BASE_DELAY_MS: u64 = 20;

/// How many messages wait, in each direction, between the caller and the connection.
pub const CHANNEL_SIZE: usize = 100;

/// The application code a connection is closed with.
pub const APPLICATION_CLOSE_CODE: u32 = 0;

/// Why a connection failed or refused. The errors that the transport reports carry their
/// text.
#[derive(Debug)]
pub enum CommunicationError {
    UseAfterClosed,
    ClosedLocally,
    ClosedByPeer,
    ConnectionLost,
    Quinn(String),
    ParseCommunicationValue,
    CertificateParseFailed,
    CertificateLoadFailed,
    ParseBool(String),
    ParseInt(String),
    ParseFloat(String),
    ParseAddr(String),
    ConnectionError(String),
    ConnectingError(String),
    ReadToEndError(String),
    WriteError(String),
    ClosedError(String),
    MessageTooLarge,
    ReadExactError(String),
    StreamClosed,
    StreamError,
    StreamWriteError(String),
    StreamReadExactError(String),
    CryptoProviderInstallFailed,
    Other(String),
}

impl CommunicationError {
    /// A copy of the error, equal to it.
    pub fn duplicate(&self) -> (r: CommunicationError)
        ensures
            r == *self,
    {
        match self {
            CommunicationError::UseAfterClosed => CommunicationError::UseAfterClosed,
            CommunicationError::ClosedLocally => CommunicationError::ClosedLocally,
            CommunicationError::ClosedByPeer => CommunicationError::ClosedByPeer,
            CommunicationError::ConnectionLost => CommunicationError::ConnectionLost,
            CommunicationError::Quinn(s) => CommunicationError::Quinn(s.clone()),
            CommunicationError::ParseCommunicationValue => CommunicationError::ParseCommunicationValue,
            CommunicationError::CertificateParseFailed => CommunicationError::CertificateParseFailed,
            CommunicationError::CertificateLoadFailed => CommunicationError::CertificateLoadFailed,
            CommunicationError::ParseBool(s) => CommunicationError::ParseBool(s.clone()),
            CommunicationError::ParseInt(s) => CommunicationError::ParseInt(s.clone()),
            CommunicationError::ParseFloat(s) => CommunicationError::ParseFloat(s.clone()),
            CommunicationError::ParseAddr(s) => CommunicationError::ParseAddr(s.clone()),
            CommunicationError::ConnectionError(s) => CommunicationError::ConnectionError(s.clone()),
            CommunicationError::ConnectingError(s) => CommunicationError::ConnectingError(s.clone()),
            CommunicationError::ReadToEndError(s) => CommunicationError::ReadToEndError(s.clone()),
            CommunicationError::WriteError(s) => CommunicationError::WriteError(s.clone()),
            CommunicationError::ClosedError(s) => CommunicationError::ClosedError(s.clone()),
            CommunicationError::MessageTooLarge => CommunicationError::MessageTooLarge,
            CommunicationError::ReadExactError(s) => CommunicationError::ReadExactError(s.clone()),
            CommunicationError::StreamClosed => CommunicationError::StreamClosed,
            CommunicationError::StreamError => CommunicationError::StreamError,
            CommunicationError::StreamWriteError(s) => CommunicationError::StreamWriteError(s.clone()),
            CommunicationError::StreamReadExactError(s) => CommunicationError::StreamReadExactError(
                s.clone(),
            ),
            CommunicationError::CryptoProviderInstallFailed => CommunicationError::CryptoProviderInstallFailed,
            CommunicationError::Other(s) => CommunicationError::Other(s.clone()),
        }
    }
}

impl Clone for CommunicationError {
    fn clone(&self) -> (r: Self)
        ensures
            r == *self,
    {
        self.duplicate()
    }
}

/// The frame that carries a message on a stream: its length in four big-endian bytes,
/// then the message's own bytes.
pub open spec fn frame_bytes(m: Message) -> Seq<u8> {
    be_bytes(message_bytes(m).len(), 4) + message_bytes(m)
}

/// The frame of a message, or `MessageTooLarge` when its bytes are more than
/// `MAX_MESSAGE_SIZE`.
pub fn outgoing_frame(value: &CommunicationValue) -> (r: Result<Vec<u8>, CommunicationError>)
    ensures
        r is Ok <==> message_bytes(value@).len() <= MAX_MESSAGE_SIZE,
        r matches Ok(f) ==> f@ == frame_bytes(value@),
        r matches Err(e) ==> e == CommunicationError::MessageTooLarge,
{
    let bytes = value.to_bytes();
    let n = bytes.len();
    if n as u64 > MAX_MESSAGE_SIZE || n as u64 >= CLOSE_FRAME_LEN as u64 {
        return Err(CommunicationError::MessageTooLarge);
    }
    let mut frame: Vec<u8> = Vec::new();
    push_be(&mut frame, n as u64, 4);
    append_bytes(&mut frame, bytes.as_slice());
    Ok(frame)
}

/// The frame that tells the peer the connection closes: `CLOSE_FRAME_LEN` as a length.
pub fn close_frame() -> (r: Vec<u8>)
    ensures
        r@ == be_bytes(CLOSE_FRAME_LEN as nat, 4),
        r@ == seq![0xffu8, 0xffu8, 0xffu8, 0xffu8],
{
    let mut frame: Vec<u8> = Vec::new();
    push_be(&mut frame, CLOSE_FRAME_LEN as u64, 4);
    proof {
        reveal_with_fuel(be_bytes, 5);
        assert(frame@ =~= seq![0xffu8, 0xffu8, 0xffu8, 0xffu8]);
    }
    frame
}

/// What the length field at the head of an incoming frame announces.
#[derive(Debug, PartialEq, Eq, Structural)]
pub enum FrameHeader {
    /// The peer closes the connection.
    Close,
    /// A message of this many bytes follows.
    Body(usize),
    /// More bytes than `MAX_MESSAGE_SIZE` would follow.
    TooLarge,
}

/// What a length field announces.
pub open spec fn header_of(len: nat) -> FrameHeader {
    if len == CLOSE_FRAME_LEN {
        FrameHeader::Close
    } else if len > MAX_MESSAGE_SIZE {
        FrameHeader::TooLarge
    } else {
        FrameHeader::Body(len as usize)
    }
}

/// Reads the four-byte big-endian length field at the head of a frame.
pub fn frame_header(head: &[u8]) -> (r: FrameHeader)
    requires
        head@.len() == 4,
    ensures
        r == header_of(be_value(head@)),
{
    let len = read_be(head, 0, 4);
    proof {
        assert(head@.subrange(0, 4) =~= head@);
    }
    if len == CLOSE_FRAME_LEN as u64 {
        FrameHeader::Close
    } else if len > MAX_MESSAGE_SIZE {
        FrameHeader::TooLarge
    } else {
        FrameHeader::Body(len as usize)
    }
}

/// The message that the bytes after a frame's length field hold, or
/// `ParseCommunicationValue` when they hold none.
pub fn decode_frame_body(body: &[u8]) -> (r: Result<CommunicationValue, CommunicationError>)
    ensures
        r is Ok <==> read_message(body@) is Some,
        r matches Ok(cv) ==> read_message(body@) == Some(cv@),
        r matches Err(e) ==> e == CommunicationError::ParseCommunicationValue,
{
    match CommunicationValue::from_bytes(body) {
        Some(cv) => Ok(cv),
        None => Err(CommunicationError::ParseCommunicationValue),
    }
}

/// The error a failed read closes the connection with: a lost connection, a short read
/// and a closed stream all mean that the stream is closed; any other error stands.
pub open spec fn close_error_spec(e: CommunicationError) -> CommunicationError {
    match e {
        CommunicationError::ConnectionError(_) => CommunicationError::StreamClosed,
        CommunicationError::ReadExactError(_) => CommunicationError::StreamClosed,
        CommunicationError::ClosedError(_) => CommunicationError::StreamClosed,
        other => other,
    }
}

/// The error a failed read closes the connection with.
pub fn close_error(e: CommunicationError) -> (r: CommunicationError)
    ensures
        r == close_error_spec(e),
{
    match e {
        CommunicationError::ConnectionError(_) => CommunicationError::StreamClosed,
        CommunicationError::ReadExactError(_) => CommunicationError::StreamClosed,
        CommunicationError::ClosedError(_) => CommunicationError::StreamClosed,
        other => other,
    }
}

/// What one read from the peer gave: a message, or the peer's close frame.
#[derive(Debug)]
pub enum ReceivedFrame {
    Message(CommunicationValue),
    ClosedByPeer,
}

/// What the receiving side does with the outcome of a read: a message is handed on and
/// reading goes on; the peer's close frame ends the connection with `StreamClosed`; an
/// error ends it with `close_error` of that error. The result is the error that is handed
/// to the reader and that the connection closes with, `None` when reading goes on.
pub fn receive_outcome(read: &Result<ReceivedFrame, CommunicationError>) -> (r: Option<
    CommunicationError,
>)
    ensures
        r == (match *read {
            Ok(ReceivedFrame::Message(_)) => None,
            Ok(ReceivedFrame::ClosedByPeer) => Some(CommunicationError::StreamClosed),
            Err(e) => Some(close_error_spec(e)),
        }),
{
    match read {
        Ok(ReceivedFrame::Message(_)) => None,
        Ok(ReceivedFrame::ClosedByPeer) => Some(CommunicationError::StreamClosed),
        Err(e) => Some(close_error(e.duplicate())),
    }
}

/// Two to the power `n`.
pub open spec fn pow2(n: nat) -> nat
    decreases n,
{
    if n == 0 {
        1
    } else {
        2 * pow2((n - 1) as nat)
    }
}

/// The pause, in milliseconds, after try number `attempt` (counted from 1) failed, or
/// `None` when that was the last try: `SEND_RETRY_BASE_DELAY_MS` doubled once for each
/// earlier failed try.
pub fn retry_delay_ms(attempt: usize) -> (r: Option<u64>)
    requires
        attempt >= 1,
    ensures
        attempt >= MAX_SEND_RETRIES ==> r is None,
        attempt < MAX_SEND_RETRIES ==> r == Some(
            (SEND_RETRY_BASE_DELAY_MS * pow2((attempt - 1) as nat)) as u64,
        ),
{
    if attempt >= MAX_SEND_RETRIES {
        return None;
    }
    let mut delay: u64 = SEND_RETRY_BASE_DELAY_MS;
    let mut i: usize = 1;
    while i < attempt
        invariant
            1 <= i <= attempt,
            attempt < MAX_SEND_RETRIES,
            delay == SEND_RETRY_BASE_DELAY_MS * pow2((i - 1) as nat),
        decreases attempt - i,
    {
        proof {
            assert(pow2(i as nat) == 2 * pow2((i - 1) as nat));
        }
        delay = delay * 2;
        i = i + 1;
    }
    Some(delay)
}

/// Whether a connection is closed, and the error it was first closed with.
#[derive(Debug)]
pub struct ConnectionState {
    closed: bool,
    reason: Option<CommunicationError>,
}

/// A connection's state after a close with `reason`: the first close sets both the flag
/// and the reason; a later one changes nothing.
pub open spec fn closed_after(
    s: (bool, Option<CommunicationError>),
    reason: Option<CommunicationError>,
) -> (bool, Option<CommunicationError>) {
    if s.0 {
        s
    } else {
        (true, reason)
    }
}

impl View for ConnectionState {
    type V = (bool, Option<CommunicationError>);

    closed spec fn view(&self) -> (bool, Option<CommunicationError>) {
        (self.closed, self.reason)
    }
}

impl ConnectionState {
    #[verifier::type_invariant]
    spec fn reason_only_when_closed(self) -> bool {
        self.reason is Some ==> self.closed
    }

    /// An open connection.
    pub fn new() -> (r: Self)
        ensures
            r@ == (false, None::<CommunicationError>),
    {
        ConnectionState { closed: false, reason: None }
    }

    /// Whether the connection is open.
    pub fn is_open(&self) -> (r: bool)
        ensures
            r == !self@.0,
    {
        !self.closed
    }

    /// Whether the connection is closed.
    pub fn is_closed(&self) -> (r: bool)
        ensures
            r == self@.0,
    {
        self.closed
    }

    /// Closes the connection with `reason`, when it is open. The result tells whether this
    /// call closed it, that is, whether those waiting for the close are to be told.
    pub fn close(&mut self, reason: Option<CommunicationError>) -> (r: bool)
        ensures
            r == !old(self)@.0,
            final(self)@ == closed_after(old(self)@, reason),
    {
        if self.closed {
            false
        } else {
            self.closed = true;
            self.reason = reason;
            true
        }
    }

    /// The error the connection was closed with, if it is closed and one was given.
    pub fn close_reason(&self) -> (r: Option<CommunicationError>)
        ensures
            r == self@.1,
            r is Some ==> self@.0,
    {
        proof {
            use_type_invariant(self);
        }
        match &self.reason {
            Some(e) => Some(e.duplicate()),
            None => None,
        }
    }

    /// Why a message cannot be sent: on a closed connection, the error it was closed
    /// with, else `UseAfterClosed`; `None` while it is open.
    pub fn send_refusal(&self) -> (r: Option<CommunicationError>)
        ensures
            !self@.0 ==> r is None,
            self@.0 ==> r == Some(
                match self@.1 {
                    Some(e) => e,
                    None => CommunicationError::UseAfterClosed,
                },
            ),
    {
        if !self.closed {
            None
        } else {
            match self.close_reason() {
                Some(e) => Some(e),
                None => Some(CommunicationError::UseAfterClosed),
            }
        }
    }

    /// Why nothing more can be read: on a closed connection, the error it was closed
    /// with, else `StreamClosed`; `None` while it is open.
    pub fn receive_refusal(&self) -> (r: Option<CommunicationError>)
        ensures
            !self@.0 ==> r is None,
            self@.0 ==> r == Some(
                match self@.1 {
                    Some(e) => e,
                    None => CommunicationError::StreamClosed,
                },
            ),
    {
        if !self.closed {
            None
        } else {
            Some(self.lost_channel_error())
        }
    }

    /// The error a caller gets when the connection's queue has gone away: the error the
    /// connection was closed with, else `StreamClosed`.
    pub fn lost_channel_error(&self) -> (r: CommunicationError)
        ensures
            r == (match self@.1 {
                Some(e) => e,
                None => CommunicationError::StreamClosed,
            }),
    {
        match self.close_reason() {
            Some(e) => e,
            None => CommunicationError::StreamClosed,
        }
    }
}

/// Once a connection is closed, closing it again changes nothing: the reason it keeps is
/// the one it was first closed with.
pub proof fn lemma_first_close_wins(
    s: (bool, Option<CommunicationError>),
    first: Option<CommunicationError>,
    later: Option<CommunicationError>,
)
    ensures
        closed_after(closed_after(s, first), later) == closed_after(s, first),
        closed_after(s, first).0,
        !s.0 ==> closed_after(s, first).1 == first,
{
}

/// The frame a message is sent in announces a body of the message's length, and that
/// body reads back as the message, for every message whose sender and receiver fit in 48
/// bits, whose data fit the format, and whose bytes are at most `MAX_MESSAGE_SIZE`.
pub proof fn lemma_frame_roundtrip(m: Message)
    requires
        m.sender < 0x1_0000_0000_0000,
        m.receiver < 0x1_0000_0000_0000,
        crate::data_map::keys_ascending(m.data),
        crate::codec::entries_fit(m.data),
        message_bytes(m).len() <= MAX_MESSAGE_SIZE,
    ensures
        frame_bytes(m).len() == 4 + message_bytes(m).len(),
        header_of(be_value(frame_bytes(m).subrange(0, 4))) == FrameHeader::Body(
            message_bytes(m).len() as usize,
        ),
        read_message(frame_bytes(m).subrange(4, frame_bytes(m).len() as int)) == Some(m),
{
    let n = message_bytes(m).len();
    lemma_pow256_facts(4);
    lemma_be_roundtrip(n, 4);
    let f = frame_bytes(m);
    assert(f.subrange(0, 4) =~= be_bytes(n, 4));
    assert(f.subrange(4, f.len() as int) =~= message_bytes(m));
    crate::communication_value::lemma_message_roundtrip(m);
}

} // verus!
