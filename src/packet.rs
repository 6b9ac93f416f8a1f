//! Classification of packets received from the server: errors, replies and events.
use vstd::prelude::*;

use crate::codec::{ParseError, read_u32, u16_of, u32_of};

verus! {

/// Response kind of every error packet.
pub const ERROR_KIND: u8 = 0;

/// Response kind of every reply packet.
pub const REPLY: u8 = 1;

/// Response kind of the event that carries no sequence number.
pub const KEYMAP_NOTIFY_EVENT: u8 = 11;

/// Response kind of the generic event, whose length is variable.
pub const GE_GENERIC_EVENT: u8 = 35;

/// Size of every fixed-length packet, and the least size of any packet.
pub const PACKET_SIZE: usize = 32;

/// The kind of a packet: byte 0 without its top bit.
pub open spec fn kind_of(b: Seq<u8>) -> u8 {
    (b[0] & 0x7fu8) as u8
}

/// Whether the server itself made the packet: the top bit of byte 0 is clear.
pub open spec fn from_server(b: Seq<u8>) -> bool {
    b[0] & 0x80u8 == 0
}

/// The sequence number of a packet, which keymap-notify events lack.
pub open spec fn sequence_of(b: Seq<u8>) -> Option<u16> {
    if kind_of(b) == KEYMAP_NOTIFY_EVENT {
        None
    } else {
        Some(u16_of(b[2], b[3]))
    }
}

/// The length field at offset 4.
pub open spec fn length_field(b: Seq<u8>) -> u32 {
    u32_of(b.subrange(4, 8))
}

/// The length a packet must have: replies and generic events count their
/// extra 4-byte units at offset 4, every other packet has 32 bytes.
pub open spec fn expected_length(b: Seq<u8>) -> int {
    if kind_of(b) == REPLY || kind_of(b) == GE_GENERIC_EVENT {
        32 + 4 * length_field(b)
    } else {
        32
    }
}

/// Whether `b` is a well-framed packet.
pub open spec fn is_packet(b: Seq<u8>) -> bool {
    b.len() >= 32 && b.len() == expected_length(b)
}

/// Information common to events and errors.
pub trait Event {
    /// The bytes of the packet.
    spec fn packet(&self) -> Seq<u8>;

    /// The raw data of the packet.
    fn raw_bytes(&self) -> (r: &[u8])
        ensures
            r@ == self.packet(),
            r@.len() >= 32,
    ;

    /// Byte 0: the response type with the flag of artificial origin in its top bit.
    fn raw_response_type(&self) -> (r: u8)
        ensures
            r == self.packet()[0],
    {
        let b = self.raw_bytes();
        b[0]
    }

    /// The response type: 0 for errors, 1 for replies, an event's kind otherwise.
    fn response_type(&self) -> (r: u8)
        ensures
            r == kind_of(self.packet()),
    {
        let b = self.raw_bytes();
        b[0] & 0x7f
    }

    /// Whether the packet comes from the server rather than from another client.
    fn server_generated(&self) -> (r: bool)
        ensures
            r == from_server(self.packet()),
    {
        let b = self.raw_bytes();
        b[0] & 0x80 == 0
    }

    /// The sequence number, absent from keymap-notify events.
    fn raw_sequence_number(&self) -> (r: Option<u16>)
        ensures
            r == sequence_of(self.packet()),
    {
        let b = self.raw_bytes();
        if b[0] & 0x7f == KEYMAP_NOTIFY_EVENT {
            None
        } else {
            Some((b[2] as u16) | ((b[3] as u16) << 8u16))
        }
    }
}

/// A well-framed packet of any kind.
#[derive(Debug)]
pub struct GenericEvent {
    buf: Vec<u8>,
}

impl GenericEvent {
    #[verifier::type_invariant]
    spec fn inv(&self) -> bool {
        is_packet(self.buf@)
    }

    /// The bytes of the event.
    pub closed spec fn view(&self) -> Seq<u8> {
        self.buf@
    }

    /// Accepts `value` as a packet when its length is the one it declares.
    pub fn try_from(value: Vec<u8>) -> (r: Result<GenericEvent, ParseError>)
        ensures
            (r is Ok) == is_packet(value@),
            r is Ok ==> r->Ok_0.view() == value@,
            value@.len() < 32 ==> r == Err::<GenericEvent, ParseError>(ParseError::TruncatedInput),
            value@.len() >= 32 && !is_packet(value@) ==> r == Err::<GenericEvent, ParseError>(
                ParseError::MalformedPacket,
            ),
    {
        if value.len() < PACKET_SIZE {
            return Err(ParseError::TruncatedInput);
        }
        let length_field = read_u32(vstd::slice::slice_subrange(value.as_slice(), 4, 8));
        let kind = value[0] & 0x7f;
        let expected: u64 = if kind == GE_GENERIC_EVENT || kind == REPLY {
            32 + 4 * (length_field as u64)
        } else {
            32
        };
        if value.len() as u64 != expected {
            return Err(ParseError::MalformedPacket);
        }
        Ok(GenericEvent { buf: value })
    }

    /// Hands back the bytes of the event.
    pub fn into_buffer(self) -> (r: Vec<u8>)
        ensures
            r@ == self.view(),
            is_packet(r@),
    {
        proof {
            use_type_invariant(&self);
        }
        self.buf
    }
}

impl Clone for GenericEvent {
    fn clone(&self) -> (r: GenericEvent)
        ensures
            r.view() == self.view(),
    {
        proof {
            use_type_invariant(self);
        }
        GenericEvent { buf: self.buf.clone() }
    }
}

impl Event for GenericEvent {
    open spec fn packet(&self) -> Seq<u8> {
        self.view()
    }

    fn raw_bytes(&self) -> (r: &[u8]) {
        proof {
            use_type_invariant(self);
        }
        self.buf.as_slice()
    }
}


/// An error packet: a packet of kind 0, whose byte 1 tells which error it is.
#[derive(Debug)]
pub struct GenericError {
    event: GenericEvent,
}

impl GenericError {
    #[verifier::type_invariant]
    spec fn inv(&self) -> bool {
        kind_of(self.event.view()) == ERROR_KIND
    }

    /// The bytes of the error.
    pub closed spec fn view(&self) -> Seq<u8> {
        self.event.view()
    }

    /// The error code, byte 1, which tells which error this packet reports.
    pub fn error_code(&self) -> (r: u8)
        ensures
            r == self.view()[1],
    {
        let b = self.raw_bytes();
        b[1]
    }

    /// Narrows a packet to an error; fails unless its kind is 0.
    pub fn try_from_event(event: GenericEvent) -> (r: Result<GenericError, ParseError>)
        ensures
            (r is Ok) == (kind_of(event.view()) == ERROR_KIND),
            r is Ok ==> r->Ok_0.view() == event.view(),
            r is Err ==> r->Err_0 == ParseError::WrongPacketKind,
    {
        if event.response_type() != ERROR_KIND {
            return Err(ParseError::WrongPacketKind);
        }
        Ok(GenericError { event })
    }

    /// Accepts `value` as an error packet: well-framed and of kind 0.
    pub fn try_from(value: Vec<u8>) -> (r: Result<GenericError, ParseError>)
        ensures
            (r is Ok) == (is_packet(value@) && kind_of(value@) == ERROR_KIND),
            r is Ok ==> r->Ok_0.view() == value@,
            value@.len() < 32 ==> r == Err::<GenericError, ParseError>(ParseError::TruncatedInput),
            value@.len() >= 32 && !is_packet(value@) ==> r == Err::<GenericError, ParseError>(
                ParseError::MalformedPacket,
            ),
            is_packet(value@) && kind_of(value@) != ERROR_KIND ==> r == Err::<
                GenericError,
                ParseError,
            >(ParseError::WrongPacketKind),
    {
        match GenericEvent::try_from(value) {
            Ok(event) => GenericError::try_from_event(event),
            Err(e) => Err(e),
        }
    }

    /// Hands back the bytes of the error.
    pub fn into_buffer(self) -> (r: Vec<u8>)
        ensures
            r@ == self.view(),
    {
        self.event.into_buffer()
    }
}

impl Clone for GenericError {
    fn clone(&self) -> (r: GenericError)
        ensures
            r.view() == self.view(),
    {
        proof {
            use_type_invariant(self);
        }
        GenericError { event: self.event.clone() }
    }
}

impl Event for GenericError {
    open spec fn packet(&self) -> Seq<u8> {
        self.view()
    }

    fn raw_bytes(&self) -> (r: &[u8]) {
        self.event.raw_bytes()
    }
}

impl From<GenericError> for GenericEvent {
    fn from(value: GenericError) -> (r: GenericEvent)
        ensures
            r.view() == value.view(),
            kind_of(r.view()) == ERROR_KIND,
    {
        proof {
            use_type_invariant(&value);
        }
        value.event
    }
}

impl vstd::std_specs::convert::FromSpecImpl<GenericError> for GenericEvent {
    open spec fn obeys_from_spec() -> bool {
        true
    }

    closed spec fn from_spec(v: GenericError) -> GenericEvent {
        v.event
    }
}

} // verus!
