//! Encoding and decoding of the protocol's primitive values.
//!
//! Multi-byte integers travel least significant byte first, the byte order of
//! the hosts this library is built for.
use vstd::prelude::*;

verus! {

/// Why a sequence of bytes could not be turned into a value.
#[derive(Debug, Clone, Copy, PartialEq, Eq, Structural)]
pub enum ParseError {
    /// Fewer bytes were available than the value needs.
    TruncatedInput,
    /// The length a packet declares differs from its actual length.
    MalformedPacket,
    /// A packet was narrowed to a kind it does not have.
    WrongPacketKind,
}

/// A type that can be read from the front of a byte sequence.
pub trait TryParse: Sized {
    /// How many bytes one value takes on the wire.
    spec fn wire_width() -> nat;

    /// The value that `wire_width()` bytes stand for.
    spec fn from_wire(bytes: Seq<u8>) -> Self;

    /// Reads one value from the front of `value` and returns it with the bytes after it.
    fn try_parse(value: &[u8]) -> (r: Result<(Self, &[u8]), ParseError>)
        ensures
            (r is Err) == (value@.len() < Self::wire_width()),
            r is Err ==> r->Err_0 == ParseError::TruncatedInput,
            r is Ok ==> r->Ok_0.0 == Self::from_wire(value@.take(Self::wire_width() as int)),
            r is Ok ==> r->Ok_0.1@ == value@.skip(Self::wire_width() as int),
    ;
}

/// A type that can be written as protocol bytes.
pub trait Serialize {
    /// What `serialize` hands back: an array for fixed-size values, else a `Vec`.
    type Bytes: View<V = Seq<u8>>;

    /// The bytes that stand for this value.
    spec fn to_wire(&self) -> Seq<u8>;

    /// Writes this value as protocol bytes.
    fn serialize(&self) -> (r: Self::Bytes)
        ensures
            r@ == self.to_wire(),
    ;

    /// Appends this value's bytes to `bytes`.
    fn serialize_into(&self, bytes: &mut Vec<u8>)
        ensures
            final(bytes)@ == old(bytes)@ + self.to_wire(),
    ;
}

/// A fixed-width value whose bytes read back as the value itself.
pub trait Primitive: TryParse + Serialize {
    /// Writing a value and reading it back gives the value, and takes all of the bytes.
    proof fn lemma_round_trip(v: Self)
        ensures
            v.to_wire().len() == Self::wire_width(),
            Self::from_wire(v.to_wire()) == v,
    ;
}

/// Parsing the bytes of a serialized primitive gives the value back and leaves
/// nothing over.
pub proof fn lemma_parse_serialized<T: Primitive>(v: T)
    ensures
        v.to_wire().len() >= T::wire_width(),
        T::from_wire(v.to_wire().take(T::wire_width() as int)) == v,
        v.to_wire().skip(T::wire_width() as int) == Seq::<u8>::empty(),
{
    T::lemma_round_trip(v);
    assert(v.to_wire().take(T::wire_width() as int) =~= v.to_wire());
    assert(v.to_wire().skip(T::wire_width() as int) =~= Seq::<u8>::empty());
}

/// The 16-bit value of two bytes, least significant first.
pub open spec fn u16_of(b0: u8, b1: u8) -> u16 {
    ((b0 as u16) | ((b1 as u16) << 8u16)) as u16
}

/// The two bytes of a 16-bit value, least significant first.
pub open spec fn bytes_of_u16(v: u16) -> Seq<u8> {
    seq![(v & 0xffu16) as u8, ((v >> 8u16) & 0xffu16) as u8]
}

impl TryParse for u8 {
    open spec fn wire_width() -> nat {
        1
    }

    open spec fn from_wire(bytes: Seq<u8>) -> u8 {
        bytes[0]
    }

    fn try_parse(value: &[u8]) -> (r: Result<(u8, &[u8]), ParseError>) {
        if value.len() < 1 {
            Err(ParseError::TruncatedInput)
        } else {
            let rest = vstd::slice::slice_subrange(value, 1, value.len());
            Ok((value[0], rest))
        }
    }
}

impl Serialize for u8 {
    type Bytes = [u8; 1];

    open spec fn to_wire(&self) -> Seq<u8> {
        seq![*self]
    }

    fn serialize(&self) -> (r: [u8; 1]) {
        let r = [*self];
        assert(r@ =~= self.to_wire());
        r
    }

    fn serialize_into(&self, bytes: &mut Vec<u8>) {
        bytes.push(*self);
        assert(bytes@ =~= old(bytes)@ + self.to_wire());
    }
}

impl Primitive for u8 {
    proof fn lemma_round_trip(v: u8) {
    }
}

impl TryParse for u16 {
    open spec fn wire_width() -> nat {
        2
    }

    open spec fn from_wire(bytes: Seq<u8>) -> u16 {
        u16_of(bytes[0], bytes[1])
    }

    fn try_parse(value: &[u8]) -> (r: Result<(u16, &[u8]), ParseError>) {
        if value.len() < 2 {
            Err(ParseError::TruncatedInput)
        } else {
            let v = (value[0] as u16) | ((value[1] as u16) << 8u16);
            let rest = vstd::slice::slice_subrange(value, 2, value.len());
            Ok((v, rest))
        }
    }
}

impl Serialize for u16 {
    type Bytes = [u8; 2];

    open spec fn to_wire(&self) -> Seq<u8> {
        bytes_of_u16(*self)
    }

    fn serialize(&self) -> (r: [u8; 2]) {
        let v = *self;
        let r = [(v & 0xff) as u8, ((v >> 8u16) & 0xff) as u8];
        assert(r@ =~= self.to_wire());
        r
    }

    fn serialize_into(&self, bytes: &mut Vec<u8>) {
        let v = *self;
        bytes.push((v & 0xff) as u8);
        bytes.push(((v >> 8u16) & 0xff) as u8);
        assert(bytes@ =~= old(bytes)@ + self.to_wire());
    }
}

impl Primitive for u16 {
    proof fn lemma_round_trip(v: u16) {
        assert((((v & 0xffu16) as u8) as u16) | (((((v >> 8u16) & 0xffu16) as u8) as u16) << 8u16)
            == v) by (bit_vector);
    }
}


/// The 32-bit value of four bytes, least significant first.
pub open spec fn u32_of(b: Seq<u8>) -> u32 {
    ((b[0] as u32) | ((b[1] as u32) << 8u32) | ((b[2] as u32) << 16u32) | ((b[3] as u32)
        << 24u32)) as u32
}

/// The four bytes of a 32-bit value, least significant first.
pub open spec fn bytes_of_u32(v: u32) -> Seq<u8> {
    seq![
        (v & 0xffu32) as u8,
        ((v >> 8u32) & 0xffu32) as u8,
        ((v >> 16u32) & 0xffu32) as u8,
        ((v >> 24u32) & 0xffu32) as u8,
    ]
}

/// The 64-bit value of eight bytes, least significant first.
pub open spec fn u64_of(b: Seq<u8>) -> u64 {
    ((b[0] as u64) | ((b[1] as u64) << 8u64) | ((b[2] as u64) << 16u64) | ((b[3] as u64)
        << 24u64) | ((b[4] as u64) << 32u64) | ((b[5] as u64) << 40u64) | ((b[6] as u64)
        << 48u64) | ((b[7] as u64) << 56u64)) as u64
}

/// The eight bytes of a 64-bit value, least significant first.
pub open spec fn bytes_of_u64(v: u64) -> Seq<u8> {
    seq![
        (v & 0xffu64) as u8,
        ((v >> 8u64) & 0xffu64) as u8,
        ((v >> 16u64) & 0xffu64) as u8,
        ((v >> 24u64) & 0xffu64) as u8,
        ((v >> 32u64) & 0xffu64) as u8,
        ((v >> 40u64) & 0xffu64) as u8,
        ((v >> 48u64) & 0xffu64) as u8,
        ((v >> 56u64) & 0xffu64) as u8,
    ]
}

/// Reads a 32-bit value from the first four of `b`.
pub fn read_u32(b: &[u8]) -> (r: u32)
    requires
        b@.len() >= 4,
    ensures
        r == u32_of(b@),
{
    (b[0] as u32) | ((b[1] as u32) << 8u32) | ((b[2] as u32) << 16u32) | ((b[3] as u32) << 24u32)
}

/// Reads a 64-bit value from the first eight of `b`.
pub fn read_u64(b: &[u8]) -> (r: u64)
    requires
        b@.len() >= 8,
    ensures
        r == u64_of(b@),
{
    (b[0] as u64) | ((b[1] as u64) << 8u64) | ((b[2] as u64) << 16u64) | ((b[3] as u64) << 24u64)
        | ((b[4] as u64) << 32u64) | ((b[5] as u64) << 40u64) | ((b[6] as u64) << 48u64) | ((
    b[7] as u64) << 56u64)
}

impl TryParse for u32 {
    open spec fn wire_width() -> nat {
        4
    }

    open spec fn from_wire(bytes: Seq<u8>) -> u32 {
        u32_of(bytes)
    }

    fn try_parse(value: &[u8]) -> (r: Result<(u32, &[u8]), ParseError>) {
        if value.len() < 4 {
            Err(ParseError::TruncatedInput)
        } else {
            let v = read_u32(value);
            let rest = vstd::slice::slice_subrange(value, 4, value.len());
            assert(u32_of(value@) == u32_of(value@.take(4)));
            Ok((v, rest))
        }
    }
}

impl Serialize for u32 {
    type Bytes = [u8; 4];

    open spec fn to_wire(&self) -> Seq<u8> {
        bytes_of_u32(*self)
    }

    fn serialize(&self) -> (r: [u8; 4]) {
        let v = *self;
        let r = [
            (v & 0xff) as u8,
            ((v >> 8u32) & 0xff) as u8,
            ((v >> 16u32) & 0xff) as u8,
            ((v >> 24u32) & 0xff) as u8,
        ];
        assert(r@ =~= self.to_wire());
        r
    }

    fn serialize_into(&self, bytes: &mut Vec<u8>) {
        let r = self.serialize();
        bytes.push(r[0]);
        bytes.push(r[1]);
        bytes.push(r[2]);
        bytes.push(r[3]);
        assert(bytes@ =~= old(bytes)@ + self.to_wire());
    }
}

impl Primitive for u32 {
    proof fn lemma_round_trip(v: u32) {
        let b = bytes_of_u32(v);
        assert(((((v & 0xffu32) as u8) as u32) | (((((v >> 8u32) & 0xffu32) as u8) as u32)
            << 8u32) | (((((v >> 16u32) & 0xffu32) as u8) as u32) << 16u32) | (((((v >> 24u32)
            & 0xffu32) as u8) as u32) << 24u32)) == v) by (bit_vector);
    }
}

impl TryParse for u64 {
    open spec fn wire_width() -> nat {
        8
    }

    open spec fn from_wire(bytes: Seq<u8>) -> u64 {
        u64_of(bytes)
    }

    fn try_parse(value: &[u8]) -> (r: Result<(u64, &[u8]), ParseError>) {
        if value.len() < 8 {
            Err(ParseError::TruncatedInput)
        } else {
            let v = read_u64(value);
            let rest = vstd::slice::slice_subrange(value, 8, value.len());
            assert(u64_of(value@) == u64_of(value@.take(8)));
            Ok((v, rest))
        }
    }
}

impl Serialize for u64 {
    type Bytes = [u8; 8];

    open spec fn to_wire(&self) -> Seq<u8> {
        bytes_of_u64(*self)
    }

    fn serialize(&self) -> (r: [u8; 8]) {
        let v = *self;
        let r = [
            (v & 0xff) as u8,
            ((v >> 8u64) & 0xff) as u8,
            ((v >> 16u64) & 0xff) as u8,
            ((v >> 24u64) & 0xff) as u8,
            ((v >> 32u64) & 0xff) as u8,
            ((v >> 40u64) & 0xff) as u8,
            ((v >> 48u64) & 0xff) as u8,
            ((v >> 56u64) & 0xff) as u8,
        ];
        assert(r@ =~= self.to_wire());
        r
    }

    fn serialize_into(&self, bytes: &mut Vec<u8>) {
        let r = self.serialize();
        let mut i: usize = 0;
        while i < 8
            invariant
                i <= 8,
                r@ == self.to_wire(),
                bytes@ == old(bytes)@ + r@.take(i as int),
            decreases 8 - i,
        {
            bytes.push(r[i]);
            i = i + 1;
            assert(bytes@ =~= old(bytes)@ + r@.take(i as int));
        }
        assert(r@.take(8) =~= r@);
    }
}

impl Primitive for u64 {
    proof fn lemma_round_trip(v: u64) {
        assert(((((v & 0xffu64) as u8) as u64) | (((((v >> 8u64) & 0xffu64) as u8) as u64)
            << 8u64) | (((((v >> 16u64) & 0xffu64) as u8) as u64) << 16u64) | (((((v >> 24u64)
            & 0xffu64) as u8) as u64) << 24u64) | (((((v >> 32u64) & 0xffu64) as u8) as u64)
            << 32u64) | (((((v >> 40u64) & 0xffu64) as u8) as u64) << 40u64) | (((((v >> 48u64)
            & 0xffu64) as u8) as u64) << 48u64) | (((((v >> 56u64) & 0xffu64) as u8) as u64)
            << 56u64)) == v) by (bit_vector);
    }
}

impl TryParse for bool {
    open spec fn wire_width() -> nat {
        1
    }

    open spec fn from_wire(bytes: Seq<u8>) -> bool {
        bytes[0] != 0
    }

    fn try_parse(value: &[u8]) -> (r: Result<(bool, &[u8]), ParseError>) {
        match u8::try_parse(value) {
            Ok((data, remaining)) => Ok((data != 0, remaining)),
            Err(e) => Err(e),
        }
    }
}

impl Serialize for bool {
    type Bytes = [u8; 1];

    open spec fn to_wire(&self) -> Seq<u8> {
        seq![if *self { 1u8 } else { 0u8 }]
    }

    fn serialize(&self) -> (r: [u8; 1]) {
        let r = [if *self { 1u8 } else { 0u8 }];
        assert(r@ =~= self.to_wire());
        r
    }

    fn serialize_into(&self, bytes: &mut Vec<u8>) {
        bytes.push(if *self { 1u8 } else { 0u8 });
        assert(bytes@ =~= old(bytes)@ + self.to_wire());
    }
}

impl Primitive for bool {
    proof fn lemma_round_trip(v: bool) {
    }
}


impl TryParse for i8 {
    open spec fn wire_width() -> nat {
        1
    }

    open spec fn from_wire(bytes: Seq<u8>) -> i8 {
        bytes[0] as i8
    }

    fn try_parse(value: &[u8]) -> (r: Result<(i8, &[u8]), ParseError>) {
        match u8::try_parse(value) {
            Ok((data, remaining)) => Ok((data as i8, remaining)),
            Err(e) => Err(e),
        }
    }
}

impl Serialize for i8 {
    type Bytes = [u8; 1];

    open spec fn to_wire(&self) -> Seq<u8> {
        (*self as u8).to_wire()
    }

    fn serialize(&self) -> (r: [u8; 1]) {
        (*self as u8).serialize()
    }

    fn serialize_into(&self, bytes: &mut Vec<u8>) {
        (*self as u8).serialize_into(bytes)
    }
}

impl Primitive for i8 {
    proof fn lemma_round_trip(v: i8) {
        assert(((v as u8) as i8) == v) by (bit_vector);
    }
}

impl TryParse for i16 {
    open spec fn wire_width() -> nat {
        2
    }

    open spec fn from_wire(bytes: Seq<u8>) -> i16 {
        u16::from_wire(bytes) as i16
    }

    fn try_parse(value: &[u8]) -> (r: Result<(i16, &[u8]), ParseError>) {
        match u16::try_parse(value) {
            Ok((data, remaining)) => Ok((data as i16, remaining)),
            Err(e) => Err(e),
        }
    }
}

impl Serialize for i16 {
    type Bytes = [u8; 2];

    open spec fn to_wire(&self) -> Seq<u8> {
        (*self as u16).to_wire()
    }

    fn serialize(&self) -> (r: [u8; 2]) {
        (*self as u16).serialize()
    }

    fn serialize_into(&self, bytes: &mut Vec<u8>) {
        (*self as u16).serialize_into(bytes)
    }
}

impl Primitive for i16 {
    proof fn lemma_round_trip(v: i16) {
        u16::lemma_round_trip(v as u16);
        assert(((v as u16) as i16) == v) by (bit_vector);
    }
}

impl TryParse for i32 {
    open spec fn wire_width() -> nat {
        4
    }

    open spec fn from_wire(bytes: Seq<u8>) -> i32 {
        u32::from_wire(bytes) as i32
    }

    fn try_parse(value: &[u8]) -> (r: Result<(i32, &[u8]), ParseError>) {
        match u32::try_parse(value) {
            Ok((data, remaining)) => Ok((data as i32, remaining)),
            Err(e) => Err(e),
        }
    }
}

impl Serialize for i32 {
    type Bytes = [u8; 4];

    open spec fn to_wire(&self) -> Seq<u8> {
        (*self as u32).to_wire()
    }

    fn serialize(&self) -> (r: [u8; 4]) {
        (*self as u32).serialize()
    }

    fn serialize_into(&self, bytes: &mut Vec<u8>) {
        (*self as u32).serialize_into(bytes)
    }
}

impl Primitive for i32 {
    proof fn lemma_round_trip(v: i32) {
        u32::lemma_round_trip(v as u32);
        assert(((v as u32) as i32) == v) by (bit_vector);
    }
}

impl TryParse for i64 {
    open spec fn wire_width() -> nat {
        8
    }

    open spec fn from_wire(bytes: Seq<u8>) -> i64 {
        u64::from_wire(bytes) as i64
    }

    fn try_parse(value: &[u8]) -> (r: Result<(i64, &[u8]), ParseError>) {
        match u64::try_parse(value) {
            Ok((data, remaining)) => Ok((data as i64, remaining)),
            Err(e) => Err(e),
        }
    }
}

impl Serialize for i64 {
    type Bytes = [u8; 8];

    open spec fn to_wire(&self) -> Seq<u8> {
        (*self as u64).to_wire()
    }

    fn serialize(&self) -> (r: [u8; 8]) {
        (*self as u64).serialize()
    }

    fn serialize_into(&self, bytes: &mut Vec<u8>) {
        (*self as u64).serialize_into(bytes)
    }
}

impl Primitive for i64 {
    proof fn lemma_round_trip(v: i64) {
        u64::lemma_round_trip(v as u64);
        assert(((v as u64) as i64) == v) by (bit_vector);
    }
}

/// The bytes of each item of `items` in order, with nothing between them.
pub open spec fn concat_wire<T: Serialize>(items: Seq<T>) -> Seq<u8>
    decreases items.len(),
{
    if items.len() == 0 {
        Seq::empty()
    } else {
        concat_wire(items.drop_last()) + items.last().to_wire()
    }
}

impl<T: Serialize> Serialize for [T] {
    type Bytes = Vec<u8>;

    open spec fn to_wire(&self) -> Seq<u8> {
        concat_wire(self@)
    }

    fn serialize(&self) -> (r: Vec<u8>) {
        let mut result = Vec::new();
        self.serialize_into(&mut result);
        assert(result@ =~= self.to_wire());
        result
    }

    fn serialize_into(&self, bytes: &mut Vec<u8>) {
        let mut i: usize = 0;
        while i < self.len()
            invariant
                i <= self@.len(),
                bytes@ == old(bytes)@ + concat_wire(self@.take(i as int)),
            decreases self@.len() - i,
        {
            self[i].serialize_into(bytes);
            assert(self@.take(i + 1).drop_last() =~= self@.take(i as int));
            i = i + 1;
            assert(bytes@ =~= old(bytes)@ + concat_wire(self@.take(i as int)));
        }
        assert(self@.take(self@.len() as int) =~= self@);
    }
}

} // verus!
