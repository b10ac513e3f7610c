//! The frame header: its untyped record and its kind-indexed wrapper.
//!
//! A [`RawHeader`] is the record as it travels. A [`Header<T>`] wraps a raw
//! header whose discriminant is that of the kind `T`, and offers only the
//! constructors, flag setters and readers that the kind has. The model of a
//! `Header<T>` is its raw header; the model of [`Flags`] is the set of the
//! numbers of the bits that are set.

use std::marker::PhantomData;
use vstd::prelude::*;

use crate::frame::{Data, GoAway, Kind, Ping, WindowUpdate};
use crate::stream;

verus! {

/// The discriminant of a frame's kind.
#[derive(Copy, Clone, Debug, PartialEq, Eq, Structural)]
pub enum Type {
    Data,
    WindowUpdate,
    Ping,
    GoAway,
}

/// The protocol version that a header announces.
#[derive(Copy, Clone, Debug, PartialEq, Eq, Structural)]
pub struct Version(pub u8);

/// The 32-bit slot of a header. What it counts depends on the frame's kind.
#[derive(Copy, Clone, Debug, PartialEq, Eq, Structural)]
pub struct Len(pub u32);

/// A set of control flags, one bit per flag.
#[derive(Copy, Clone, Debug, PartialEq, Eq, Structural)]
pub struct Flags(pub u16);

/// Termination code for use with GoAway frames.
pub const CODE_TERM: u32 = 0;

/// Protocol error code for use with GoAway frames.
pub const ECODE_PROTO: u32 = 1;

/// Internal error code for use with GoAway frames.
pub const ECODE_INTERNAL: u32 = 2;

/// The bit of the flag that opens a stream.
pub const SYN: u16 = 1;

/// The bit of the flag that acknowledges the opening of a stream, or answers
/// a ping.
pub const ACK: u16 = 2;

/// The bit of the flag that closes the sender's half of a stream.
pub const FIN: u16 = 4;

/// The bit of the flag that aborts a stream.
pub const RST: u16 = 8;

/// Whether bit number `i` of `bits` is set, counting from the lowest bit.
pub open spec fn bit_of(bits: u16, i: u16) -> bool {
    (bits >> i) & 1 == 1
}

impl View for Flags {
    type V = Set<int>;

    /// The flags that are set, each named by the number of its bit.
    open spec fn view(&self) -> Set<int> {
        Set::new(|i: int| 0 <= i < 16 && bit_of(self.0, i as u16))
    }
}

impl Flags {
    /// Whether every flag of `other` is also a flag of `self`.
    pub open spec fn spec_contains(self, other: Flags) -> bool {
        other@.subset_of(self@)
    }

    /// The flags that are in `self`, in `other` or in both.
    pub open spec fn spec_and(self, other: Flags) -> Flags {
        Flags(self.0 | other.0)
    }

    /// Tests whether `self` has at least the flags of `other`. This is a
    /// superset test, not an equality test.
    #[verifier::when_used_as_spec(spec_contains)]
    pub fn contains(self, other: Flags) -> (b: bool)
        ensures
            b == self.spec_contains(other),
            b == (self.0 & other.0 == other.0),
    {
        proof {
            lemma_contains_is_mask_test(self, other);
        }
        self.0 & other.0 == other.0
    }

    /// Composes two flag sets: the result has the flags of `self` and those
    /// of `other`. Read "SYN and ACK".
    #[verifier::when_used_as_spec(spec_and)]
    pub fn and(self, other: Flags) -> (flags: Flags)
        ensures
            flags == self.spec_and(other),
            flags@ == self@.union(other@),
    {
        proof {
            lemma_and_is_union(self, other);
        }
        Flags(self.0 | other.0)
    }
}

proof fn lemma_bit_of_or(a: u16, b: u16, i: u16)
    by (bit_vector)
    requires
        i < 16,
    ensures
        bit_of(a | b, i) == (bit_of(a, i) || bit_of(b, i)),
{
}

proof fn lemma_bit_of_and(a: u16, b: u16, i: u16)
    by (bit_vector)
    requires
        i < 16,
    ensures
        bit_of(a & b, i) == (bit_of(a, i) && bit_of(b, i)),
{
}

/// Two words that agree on every bit from `n` upwards agree once their lower
/// bits are shifted out.
proof fn lemma_high_bits_equal(a: u16, b: u16, n: u16)
    requires
        n < 16,
        forall|i: u16| n <= i < 16 ==> bit_of(a, i) == bit_of(b, i),
    ensures
        a >> n == b >> n,
    decreases 16 - n,
{
    assert(bit_of(a, n) == bit_of(b, n));
    if n == 15 {
        assert(a >> 15 == b >> 15) by (bit_vector)
            requires
                bit_of(a, 15) == bit_of(b, 15),
        ;
    } else {
        let m: u16 = (n + 1) as u16;
        lemma_high_bits_equal(a, b, m);
        assert(a >> n == b >> n) by (bit_vector)
            requires
                n < 15,
                m == n + 1,
                a >> m == b >> m,
                bit_of(a, n) == bit_of(b, n),
        ;
    }
}

/// Two words that agree on every bit are equal.
proof fn lemma_equal_from_bits(a: u16, b: u16)
    requires
        forall|i: u16| i < 16 ==> bit_of(a, i) == bit_of(b, i),
    ensures
        a == b,
{
    lemma_high_bits_equal(a, b, 0);
    assert(a == b) by (bit_vector)
        requires
            a >> 0 == b >> 0,
    ;
}

/// Composing two flag sets yields their union.
pub proof fn lemma_and_is_union(a: Flags, b: Flags)
    ensures
        a.spec_and(b)@ == a@.union(b@),
{
    assert forall|i: int| a.spec_and(b)@.contains(i) <==> a@.union(b@).contains(i) by {
        if 0 <= i < 16 {
            lemma_bit_of_or(a.0, b.0, i as u16);
        }
    }
}

/// `a` contains `b` exactly when masking `a` with `b` gives back `b`.
pub proof fn lemma_contains_is_mask_test(a: Flags, b: Flags)
    ensures
        a.spec_contains(b) <==> a.0 & b.0 == b.0,
{
    if a.0 & b.0 == b.0 {
        assert forall|i: int| b@.contains(i) implies a@.contains(i) by {
            lemma_bit_of_and(a.0, b.0, i as u16);
        }
    }
    if b@.subset_of(a@) {
        assert forall|i: u16| i < 16 implies bit_of(a.0 & b.0, i) == bit_of(b.0, i) by {
            lemma_bit_of_and(a.0, b.0, i);
            if bit_of(b.0, i) {
                assert(b@.contains(i as int));
                assert(a@.contains(i as int));
            }
        }
        lemma_equal_from_bits(a.0 & b.0, b.0);
    }
}

/// Two flag sets with the same flags have the same bits.
pub proof fn lemma_flags_determined_by_view(a: Flags, b: Flags)
    requires
        a@ == b@,
    ensures
        a == b,
{
    assert forall|i: u16| i < 16 implies bit_of(a.0, i) == bit_of(b.0, i) by {
        if bit_of(a.0, i) {
            assert(a@.contains(i as int));
            assert(b@.contains(i as int));
        }
        if bit_of(b.0, i) {
            assert(b@.contains(i as int));
            assert(a@.contains(i as int));
        }
    }
    lemma_equal_from_bits(a.0, b.0);
}

/// A word with the single bit `n` set stands for the flag set with the one
/// flag `n`.
proof fn lemma_single_flag(bits: u16, n: u16)
    requires
        n < 16,
        bits == 1u16 << n,
    ensures
        Flags(bits)@ == set![n as int],
{
    assert forall|i: int| Flags(bits)@.contains(i) <==> i == n by {
        if 0 <= i < 16 {
            let k: u16 = i as u16;
            assert(bit_of(bits, k) == (k == n)) by (bit_vector)
                requires
                    k < 16,
                    n < 16,
                    bits == 1u16 << n,
            ;
        }
    }
    assert(Flags(bits)@ =~= set![n as int]);
}

/// The empty flag set has no flag, and each of the four flag constants names
/// one flag of its own: bits 0 to 3, in the order SYN, ACK, FIN, RST.
pub proof fn lemma_flag_constants()
    ensures
        Flags(0)@ == Set::<int>::empty(),
        Flags(SYN)@ == set![0int],
        Flags(ACK)@ == set![1int],
        Flags(FIN)@ == set![2int],
        Flags(RST)@ == set![3int],
{
    assert forall|i: int| !Flags(0)@.contains(i) by {
        if 0 <= i < 16 {
            let k: u16 = i as u16;
            assert(!bit_of(0, k)) by (bit_vector);
        }
    }
    assert(Flags(0)@ =~= Set::<int>::empty());
    assert(SYN == 1u16 << 0 && ACK == 1u16 << 1 && FIN == 1u16 << 2 && RST == 1u16 << 3)
        by (bit_vector);
    lemma_single_flag(SYN, 0);
    lemma_single_flag(ACK, 1);
    lemma_single_flag(FIN, 2);
    lemma_single_flag(RST, 3);
}

/// A header as it appears on the wire, with no claim about its kind.
#[derive(Debug, PartialEq, Eq, Structural)]
pub struct RawHeader {
    pub version: Version,
    pub typ: Type,
    pub flags: Flags,
    pub stream_id: stream::Id,
    pub length: Len,
}

impl Clone for RawHeader {
    fn clone(&self) -> (raw: Self)
        ensures
            raw == *self,
    {
        RawHeader {
            version: self.version,
            typ: self.typ,
            flags: self.flags,
            stream_id: self.stream_id,
            length: self.length,
        }
    }
}

/// The header that a constructor returns: version 0, no flags, and the
/// discriminant, stream and slot value that the constructor stands for.
pub open spec fn fresh_header(typ: Type, id: stream::Id, length: u32) -> RawHeader {
    RawHeader { version: Version(0), typ, flags: Flags(0), stream_id: id, length: Len(length) }
}

/// `raw` after a flag setter: the flags of `flags` are added to those it
/// has, and nothing else changes.
pub open spec fn with_flags(raw: RawHeader, flags: Flags) -> RawHeader {
    RawHeader { flags: raw.flags.spec_and(flags), ..raw }
}

/// Says that a raw header was offered as a header of one kind while its
/// discriminant names another.
#[derive(Copy, Clone, Debug, PartialEq, Eq, Structural)]
pub struct KindMismatch {
    /// The discriminant of the kind that was asked for.
    pub expected: Type,
    /// The discriminant that the raw header carries.
    pub found: Type,
}

/// A header whose discriminant is that of the kind `T`.
#[derive(Debug)]
pub struct Header<T: Kind> {
    raw_header: RawHeader,
    header_type: PhantomData<T>,
}

impl<T: Kind> View for Header<T> {
    type V = RawHeader;

    closed spec fn view(&self) -> RawHeader {
        self.raw_header
    }
}

impl<T: Kind> Clone for Header<T> {
    fn clone(&self) -> (h: Self)
        ensures
            h@ == self@,
    {
        proof {
            use_type_invariant(self);
        }
        Header { raw_header: self.raw_header.clone(), header_type: PhantomData }
    }
}

impl<T: Kind> Header<T> {
    #[verifier::type_invariant]
    spec fn well_typed(self) -> bool {
        Self::admits(self.raw_header)
    }

    /// Whether `raw` may stand as a header of kind `T`: its discriminant is
    /// the one of `T`.
    pub open spec fn admits(raw: RawHeader) -> bool {
        raw.typ == T::spec_typ()
    }

    /// The header of kind `T` that stands for `raw`.
    pub closed spec fn spec_from_raw(raw: RawHeader) -> Self {
        Header { raw_header: raw, header_type: PhantomData }
    }

    /// A header that is read back from its raw form has that raw form.
    pub proof fn lemma_from_raw_view(raw: RawHeader)
        ensures
            Self::spec_from_raw(raw)@ == raw,
    {
    }

    /// Takes `raw` as a header of kind `T` on the caller's word: the caller
    /// has looked at the discriminant already. For a raw header of unknown
    /// kind there is [`Header::try_from_raw`].
    pub fn from_raw(raw: RawHeader) -> (h: Self)
        requires
            Self::admits(raw),
        ensures
            h == Self::spec_from_raw(raw),
            h@ == raw,
    {
        Header { raw_header: raw, header_type: PhantomData }
    }

    /// Takes `raw` as a header of kind `T` if its discriminant says so, and
    /// reports the two discriminants if not.
    pub fn try_from_raw(raw: RawHeader) -> (r: Result<Self, KindMismatch>)
        ensures
            match r {
                Ok(h) => Self::admits(raw) && h == Self::spec_from_raw(raw) && h@ == raw,
                Err(e) => !Self::admits(raw) && e == (KindMismatch {
                    expected: T::spec_typ(),
                    found: raw.typ,
                }),
            },
    {
        let expected = T::typ();
        if raw.typ == expected {
            Ok(Self::from_raw(raw))
        } else {
            Err(KindMismatch { expected, found: raw.typ })
        }
    }

    /// The stream that the frame belongs to, or the connection's own
    /// identifier.
    pub fn id(&self) -> (id: stream::Id)
        ensures
            id == self@.stream_id,
    {
        self.raw_header.stream_id
    }

    /// The flags that have been set so far.
    pub fn flags(&self) -> (flags: Flags)
        ensures
            flags == self@.flags,
    {
        self.raw_header.flags
    }

    /// Gives up the kind and returns the raw header, whose discriminant is
    /// still that of `T`.
    pub fn into_raw(self) -> (raw: RawHeader)
        ensures
            raw == self@,
            Self::admits(raw),
    {
        proof {
            use_type_invariant(&self);
        }
        self.raw_header
    }

    /// Adds the flags in `bits` to those of the header.
    fn set(&mut self, bits: u16)
        ensures
            final(self)@ == with_flags(old(self)@, Flags(bits)),
    {
        proof {
            use_type_invariant(&*self);
        }
        self.raw_header.flags.0 |= bits
    }
}

impl Header<Data> {
    /// A header for `len` bytes of payload on stream `id`.
    pub fn data(id: stream::Id, len: u32) -> (h: Self)
        ensures
            h@ == fresh_header(Type::Data, id, len),
    {
        Header {
            raw_header: RawHeader {
                version: Version(0),
                typ: Type::Data,
                flags: Flags(0),
                stream_id: id,
                length: Len(len),
            },
            header_type: PhantomData,
        }
    }

    /// Sets SYN: the frame opens its stream.
    pub fn syn(&mut self)
        ensures
            final(self)@ == with_flags(old(self)@, Flags(SYN)),
    {
        self.set(SYN)
    }

    /// Sets ACK: the frame acknowledges the opening of its stream.
    pub fn ack(&mut self)
        ensures
            final(self)@ == with_flags(old(self)@, Flags(ACK)),
    {
        self.set(ACK)
    }

    /// Sets FIN: the frame closes the sender's half of its stream.
    pub fn fin(&mut self)
        ensures
            final(self)@ == with_flags(old(self)@, Flags(FIN)),
    {
        self.set(FIN)
    }

    /// Sets RST: the frame aborts its stream.
    pub fn rst(&mut self)
        ensures
            final(self)@ == with_flags(old(self)@, Flags(RST)),
    {
        self.set(RST)
    }

    /// The number of payload bytes that follow the header.
    pub fn len(&self) -> (len: u32)
        ensures
            len == self@.length.0,
    {
        self.raw_header.length.0
    }
}

impl Header<WindowUpdate> {
    /// A header that grants `credit` more bytes of window on stream `id`.
    pub fn window_update(id: stream::Id, credit: u32) -> (h: Self)
        ensures
            h@ == fresh_header(Type::WindowUpdate, id, credit),
    {
        Header {
            raw_header: RawHeader {
                version: Version(0),
                typ: Type::WindowUpdate,
                flags: Flags(0),
                stream_id: id,
                length: Len(credit),
            },
            header_type: PhantomData,
        }
    }

    /// Sets SYN: the frame opens its stream.
    pub fn syn(&mut self)
        ensures
            final(self)@ == with_flags(old(self)@, Flags(SYN)),
    {
        self.set(SYN)
    }

    /// Sets ACK: the frame acknowledges the opening of its stream.
    pub fn ack(&mut self)
        ensures
            final(self)@ == with_flags(old(self)@, Flags(ACK)),
    {
        self.set(ACK)
    }

    /// Sets FIN: the frame closes the sender's half of its stream.
    pub fn fin(&mut self)
        ensures
            final(self)@ == with_flags(old(self)@, Flags(FIN)),
    {
        self.set(FIN)
    }

    /// Sets RST: the frame aborts its stream.
    pub fn rst(&mut self)
        ensures
            final(self)@ == with_flags(old(self)@, Flags(RST)),
    {
        self.set(RST)
    }

    /// The number of bytes by which the window grows.
    pub fn credit(&self) -> (credit: u32)
        ensures
            credit == self@.length.0,
    {
        self.raw_header.length.0
    }
}

impl Header<Ping> {
    /// A keepalive header carrying `nonce`. It belongs to the connection, not
    /// to a stream.
    pub fn ping(nonce: u32) -> (h: Self)
        ensures
            h@ == fresh_header(Type::Ping, stream::Id::session(), nonce),
    {
        Header {
            raw_header: RawHeader {
                version: Version(0),
                typ: Type::Ping,
                flags: Flags(0),
                stream_id: stream::Id::new(0),
                length: Len(nonce),
            },
            header_type: PhantomData,
        }
    }

    /// Marks the ping as a request.
    pub fn syn(&mut self)
        ensures
            final(self)@ == with_flags(old(self)@, Flags(SYN)),
    {
        self.set(SYN)
    }

    /// Marks the ping as the answer to a request.
    pub fn ack(&mut self)
        ensures
            final(self)@ == with_flags(old(self)@, Flags(ACK)),
    {
        self.set(ACK)
    }

    /// The value that the answer has to echo.
    pub fn nonce(&self) -> (nonce: u32)
        ensures
            nonce == self@.length.0,
    {
        self.raw_header.length.0
    }
}

impl Header<GoAway> {
    /// The header that ends the connection for the reason `error_code`. It
    /// belongs to the connection, not to a stream, and takes no flags.
    pub fn go_away(error_code: u32) -> (h: Self)
        ensures
            h@ == fresh_header(Type::GoAway, stream::Id::session(), error_code),
    {
        Header {
            raw_header: RawHeader {
                version: Version(0),
                typ: Type::GoAway,
                flags: Flags(0),
                stream_id: stream::Id::new(0),
                length: Len(error_code),
            },
            header_type: PhantomData,
        }
    }

    /// The reason for which the connection ends.
    pub fn error_code(&self) -> (error_code: u32)
        ensures
            error_code == self@.length.0,
    {
        self.raw_header.length.0
    }
}

} // verus!
