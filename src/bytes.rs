//! Fixed-width little-endian encoding of primitives and the reader / writer
//! that aggregate records are built from.
//!
//! Floating-point fields are carried as their IEEE-754 bit patterns (`u32`),
//! so every encoding here is an exact bit-for-bit copy.
use vstd::bytes::*;
use vstd::prelude::*;
use vstd::slice::slice_subrange;

verus! {

/// Why a byte buffer could not be decoded.
#[derive(Clone, Copy, Debug, PartialEq, Eq, Structural)]
pub enum DecodeError {
    /// The buffer ends before the value does.
    Truncated,
    /// A boolean byte other than 0 or 1.
    InvalidBool,
    /// A team byte other than 0 (blue) or 1 (orange).
    InvalidTeam,
    /// A game mode byte outside the known modes.
    InvalidGameMode,
    /// A render primitive tag other than 0, 1 or 2.
    InvalidRenderKind,
    /// A render message kind other than 0 (add) or 1 (remove).
    InvalidMessageKind,
    /// A length field that disagrees with the bytes that follow it.
    LengthMismatch,
}

/// Values that can be decoded from a byte buffer.
pub trait FromBytes: Sized {
    fn from_bytes(bytes: &[u8]) -> Result<Self, DecodeError>;
}

/// Values whose encoding has a fixed width.
pub trait FromBytesExact: Sized {
    /// The width of the encoding.
    spec fn spec_num_bytes() -> nat;

    /// What a buffer of exactly `spec_num_bytes()` bytes decodes to.
    spec fn spec_from_bytes(bytes: Seq<u8>) -> Result<Self, DecodeError>;

    fn num_bytes() -> (n: usize)
        ensures
            n as nat == Self::spec_num_bytes(),
    ;

    fn from_exact_bytes(bytes: &[u8]) -> (r: Result<Self, DecodeError>)
        requires
            bytes@.len() == Self::spec_num_bytes(),
        ensures
            r == Self::spec_from_bytes(bytes@),
    ;
}

/// Fixed-width values that can be encoded; decoding an encoding gives the value back.
pub trait ToBytesExact: FromBytesExact {
    /// The encoding of `self`.
    spec fn spec_to_bytes(&self) -> Seq<u8>;

    proof fn lemma_round_trip(&self)
        ensures
            self.spec_to_bytes().len() == Self::spec_num_bytes(),
            Self::spec_from_bytes(self.spec_to_bytes()) == Ok::<Self, DecodeError>(*self),
    ;

    fn to_bytes(&self) -> (r: Vec<u8>)
        ensures
            r@ == self.spec_to_bytes(),
    ;
}

/// Decoding the encoding of any fixed-width value gives the value back, and
/// the encoding has the type's fixed width.
pub proof fn lemma_decode_encode<T: ToBytesExact>(x: T)
    ensures
        x.spec_to_bytes().len() == T::spec_num_bytes(),
        T::spec_from_bytes(x.spec_to_bytes()) == Ok::<T, DecodeError>(x),
        decode_prefix::<T>(x.spec_to_bytes()) == Ok::<T, DecodeError>(x),
{
    x.lemma_round_trip();
    assert(x.spec_to_bytes().subrange(0, T::spec_num_bytes() as int) =~= x.spec_to_bytes());
}

/// Values with an encoding of variable width.
pub trait ToBytes {
    fn to_bytes(&self) -> Vec<u8>;
}

/// What the first `T::spec_num_bytes()` bytes of `bytes` decode to.
pub open spec fn decode_prefix<T: FromBytesExact>(bytes: Seq<u8>) -> Result<T, DecodeError> {
    if bytes.len() < T::spec_num_bytes() {
        Err(DecodeError::Truncated)
    } else {
        T::spec_from_bytes(bytes.subrange(0, T::spec_num_bytes() as int))
    }
}

/// What the bytes at `at .. at + T::spec_num_bytes()` decode to.
pub open spec fn decode_at<T: FromBytesExact>(bytes: Seq<u8>, at: int) -> Result<T, DecodeError> {
    T::spec_from_bytes(bytes.subrange(at, at + T::spec_num_bytes()))
}

/// A cursor over a byte slice that hands out fixed-width values in order.
pub struct ByteReader<'a> {
    idx: usize,
    bytes: &'a [u8],
}

impl<'a> ByteReader<'a> {
    /// How many bytes have been consumed.
    pub closed spec fn position(&self) -> nat {
        self.idx as nat
    }

    /// The whole buffer being read.
    pub closed spec fn data(&self) -> Seq<u8> {
        self.bytes@
    }

    pub closed spec fn wf(&self) -> bool {
        self.idx <= self.bytes@.len()
    }

    pub fn new(bytes: &'a [u8]) -> (r: Self)
        ensures
            r.wf(),
            r.position() == 0,
            r.data() == bytes@,
    {
        ByteReader { idx: 0, bytes }
    }

    /// The number of bytes not yet consumed.
    pub fn remaining(&self) -> (n: usize)
        requires
            self.wf(),
        ensures
            n == self.data().len() - self.position(),
    {
        self.bytes.len() - self.idx
    }

    /// Decodes the next value; fails with `Truncated`, consuming nothing, when
    /// fewer bytes are left than the value needs.
    pub fn read<I: FromBytesExact>(&mut self) -> (r: Result<I, DecodeError>)
        requires
            old(self).wf(),
        ensures
            final(self).wf(),
            final(self).data() == old(self).data(),
            old(self).position() + I::spec_num_bytes() <= old(self).data().len() ==> {
                &&& final(self).position() == old(self).position() + I::spec_num_bytes()
                &&& r == decode_at::<I>(old(self).data(), old(self).position() as int)
            },
            old(self).position() + I::spec_num_bytes() > old(self).data().len() ==> {
                &&& final(self).position() == old(self).position()
                &&& r == Err::<I, DecodeError>(DecodeError::Truncated)
            },
    {
        let n = I::num_bytes();
        if self.bytes.len() - self.idx < n {
            return Err(DecodeError::Truncated);
        }
        let item = I::from_exact_bytes(slice_subrange(self.bytes, self.idx, self.idx + n));
        self.idx = self.idx + n;
        item
    }

    /// Decodes `n` consecutive values; the first failure in order is returned.
    pub fn read_many<I: FromBytesExact>(&mut self, n: usize) -> (r: Result<Vec<I>, DecodeError>)
        requires
            old(self).wf(),
            old(self).position() + n * I::spec_num_bytes() <= old(self).data().len(),
        ensures
            final(self).wf(),
            final(self).data() == old(self).data(),
            match r {
                Ok(items) => {
                    &&& decode_seq::<I>(old(self).data(), old(self).position() as int, n as nat)
                        == Ok::<Seq<I>, DecodeError>(items@)
                    &&& final(self).position() == old(self).position() + n * I::spec_num_bytes()
                },
                Err(e) => decode_seq::<I>(old(self).data(), old(self).position() as int, n as nat)
                    == Err::<Seq<I>, DecodeError>(e),
            },
    {
        let ghost start = self.idx as int;
        let ghost w = I::spec_num_bytes() as int;
        let mut items: Vec<I> = Vec::new();
        let mut i: usize = 0;
        while i < n
            invariant
                self.wf(),
                self.data() == old(self).data(),
                i <= n,
                start == old(self).position(),
                w == I::spec_num_bytes(),
                start + n * w <= self.data().len(),
                self.position() == start + i * w,
                decode_seq::<I>(self.data(), start, i as nat) == Ok::<Seq<I>, DecodeError>(items@),
            decreases n - i,
        {
            proof {
                assert((i + 1) * w == i * w + w) by (nonlinear_arith);
                assert((i + 1) * w <= n * w) by (nonlinear_arith)
                    requires
                        i < n,
                        0 <= w,
                ;
            }
            let item = match self.read::<I>() {
                Ok(v) => v,
                Err(e) => {
                    proof {
                        lemma_decode_seq_err::<I>(self.data(), start, (i + 1) as nat, n as nat);
                    }
                    return Err(e);
                },
            };
            items.push(item);
            i = i + 1;
        }
        Ok(items)
    }

    /// Whether exactly `num_bytes` bytes have been consumed.
    pub fn debug_assert_num_bytes(&self, num_bytes: usize) -> (r: bool)
        ensures
            r == (self.position() == num_bytes),
    {
        self.idx == num_bytes
    }
}

/// An output buffer that fixed-width values are appended to in order.
pub struct ByteWriter {
    bytes: Vec<u8>,
}

impl ByteWriter {
    /// The bytes written so far.
    pub closed spec fn written(&self) -> Seq<u8> {
        self.bytes@
    }

    pub fn new() -> (r: Self)
        ensures
            r.written() == Seq::<u8>::empty(),
    {
        ByteWriter { bytes: Vec::new() }
    }

    pub fn write<I: ToBytesExact>(&mut self, item: &I)
        ensures
            final(self).written() == old(self).written() + item.spec_to_bytes(),
    {
        let mut encoded = item.to_bytes();
        self.bytes.append(&mut encoded);
    }

    pub fn write_many<I: ToBytesExact>(&mut self, items: &[I])
        ensures
            final(self).written() == old(self).written() + concat_bytes(items@),
    {
        let mut i: usize = 0;
        while i < items.len()
            invariant
                i <= items@.len(),
                self.written() == old(self).written() + concat_bytes(items@.take(i as int)),
            decreases items@.len() - i,
        {
            let ghost before = self.written();
            self.write(&items[i]);
            proof {
                let next = items@.take(i + 1);
                assert(next.drop_last() =~= items@.take(i as int));
                assert(next.last() == items@[i as int]);
                let c = concat_bytes(items@.take(i as int));
                let f = items@[i as int].spec_to_bytes();
                assert(old(self).written() + c + f =~= old(self).written() + (c + f));
            }
            i = i + 1;
        }
        proof {
            assert(items@.take(items@.len() as int) =~= items@);
        }
    }

    pub fn inner(self) -> (r: Vec<u8>)
        ensures
            r@ == self.written(),
    {
        self.bytes
    }
}

/// The encodings of `items`, one after another.
pub open spec fn concat_bytes<T: ToBytesExact>(items: Seq<T>) -> Seq<u8>
    decreases items.len(),
{
    if items.len() == 0 {
        Seq::empty()
    } else {
        concat_bytes(items.drop_last()) + items.last().spec_to_bytes()
    }
}

/// Decoding `n` consecutive values starting at `at`; the first failure in order wins.
pub open spec fn decode_seq<T: FromBytesExact>(b: Seq<u8>, at: int, n: nat) -> Result<
    Seq<T>,
    DecodeError,
>
    decreases n,
{
    if n == 0 {
        Ok(Seq::empty())
    } else {
        match decode_seq::<T>(b, at, (n - 1) as nat) {
            Err(e) => Err(e),
            Ok(s) => match decode_at::<T>(b, at + (n - 1) * T::spec_num_bytes()) {
                Err(e) => Err(e),
                Ok(x) => Ok(s.push(x)),
            },
        }
    }
}

pub proof fn lemma_concat_len<T: ToBytesExact>(items: Seq<T>)
    ensures
        concat_bytes(items).len() == items.len() * T::spec_num_bytes(),
    decreases items.len(),
{
    if items.len() > 0 {
        lemma_concat_len(items.drop_last());
        items.last().lemma_round_trip();
        let n = items.len() - 1;
        let w = T::spec_num_bytes();
        assert((n + 1) * w == n * w + w) by (nonlinear_arith);
    }
}

/// Decoding the concatenated encodings of `items` gives `items` back.
pub proof fn lemma_decode_seq<T: ToBytesExact>(b: Seq<u8>, at: int, items: Seq<T>)
    requires
        0 <= at,
        at + items.len() * T::spec_num_bytes() <= b.len(),
        b.subrange(at, at + items.len() * T::spec_num_bytes()) == concat_bytes(items),
    ensures
        decode_seq::<T>(b, at, items.len()) == Ok::<Seq<T>, DecodeError>(items),
    decreases items.len(),
{
    if items.len() > 0 {
        let n = items.len() - 1;
        let w = T::spec_num_bytes();
        let init = items.drop_last();
        let last = items.last();
        lemma_concat_len(init);
        last.lemma_round_trip();
        assert((n + 1) * w == n * w + w) by (nonlinear_arith);
        assert(0 <= n * w) by (nonlinear_arith)
            requires
                0 <= n,
                0 <= w,
        ;
        let c = b.subrange(at, at + items.len() * w);
        lemma_whole(c);
        lemma_split_prefix(c, concat_bytes(init), last.spec_to_bytes());
        assert(b.subrange(at, at + n * w) =~= c.subrange(0, n * w));
        assert(b.subrange(at + n * w, at + n * w + w) =~= c.subrange(n * w, n * w + w));
        lemma_decode_seq(b, at, init);
        assert(init.push(last) =~= items);
    } else {
        assert(items =~= Seq::<T>::empty());
    }
}

/// Once a prefix of the items fails to decode, every longer run fails the same way.
pub proof fn lemma_decode_seq_err<T: FromBytesExact>(b: Seq<u8>, at: int, i: nat, m: nat)
    requires
        i <= m,
        decode_seq::<T>(b, at, i) is Err,
    ensures
        decode_seq::<T>(b, at, m) == decode_seq::<T>(b, at, i),
    decreases m - i,
{
    if i < m {
        lemma_decode_seq_err::<T>(b, at, i, (m - 1) as nat);
    }
}

/// Splitting a known prefix `p + f` of `b` into its two parts.
pub proof fn lemma_split_prefix(b: Seq<u8>, p: Seq<u8>, f: Seq<u8>)
    requires
        p.len() + f.len() <= b.len(),
        b.subrange(0, (p.len() + f.len()) as int) == p + f,
    ensures
        b.subrange(0, p.len() as int) == p,
        b.subrange(p.len() as int, (p.len() + f.len()) as int) == f,
{
    assert(b.subrange(0, p.len() as int) =~= p) by {
        assert forall|i: int| 0 <= i < p.len() implies b.subrange(0, p.len() as int)[i] == p[i] by {
            assert(b.subrange(0, (p.len() + f.len()) as int)[i] == (p + f)[i]);
        }
    }
    assert(b.subrange(p.len() as int, (p.len() + f.len()) as int) =~= f) by {
        assert forall|i: int| 0 <= i < f.len() implies b.subrange(
            p.len() as int,
            (p.len() + f.len()) as int,
        )[i] == f[i] by {
            assert(b.subrange(0, (p.len() + f.len()) as int)[p.len() + i] == (p + f)[p.len() + i]);
            assert(b.subrange(0, (p.len() + f.len()) as int)[p.len() + i] == b[p.len() + i]);
            assert((p + f)[p.len() + i] == f[i]);
        }
    }
}

pub proof fn lemma_whole(b: Seq<u8>)
    ensures
        b.subrange(0, b.len() as int) == b,
{
    assert(b.subrange(0, b.len() as int) =~= b);
}

pub proof fn lemma_empty_concat(s: Seq<u8>)
    ensures
        Seq::<u8>::empty() + s == s,
{
    assert(Seq::<u8>::empty() + s =~= s);
}

impl FromBytesExact for bool {
    open spec fn spec_num_bytes() -> nat {
        1
    }

    open spec fn spec_from_bytes(bytes: Seq<u8>) -> Result<bool, DecodeError> {
        if bytes[0] == 0 {
            Ok(false)
        } else if bytes[0] == 1 {
            Ok(true)
        } else {
            Err(DecodeError::InvalidBool)
        }
    }

    fn num_bytes() -> (n: usize) {
        1
    }

    fn from_exact_bytes(bytes: &[u8]) -> (r: Result<bool, DecodeError>) {
        if bytes[0] == 0 {
            Ok(false)
        } else if bytes[0] == 1 {
            Ok(true)
        } else {
            Err(DecodeError::InvalidBool)
        }
    }
}

impl ToBytesExact for bool {
    open spec fn spec_to_bytes(&self) -> Seq<u8> {
        seq![if *self { 1u8 } else { 0u8 }]
    }

    proof fn lemma_round_trip(&self) {
    }

    fn to_bytes(&self) -> (r: Vec<u8>) {
        let b: u8 = if *self { 1 } else { 0 };
        vec![b]
    }
}

impl FromBytesExact for u8 {
    open spec fn spec_num_bytes() -> nat {
        1
    }

    open spec fn spec_from_bytes(bytes: Seq<u8>) -> Result<u8, DecodeError> {
        Ok(bytes[0])
    }

    fn num_bytes() -> (n: usize) {
        1
    }

    fn from_exact_bytes(bytes: &[u8]) -> (r: Result<u8, DecodeError>) {
        Ok(bytes[0])
    }
}

impl ToBytesExact for u8 {
    open spec fn spec_to_bytes(&self) -> Seq<u8> {
        seq![*self]
    }

    proof fn lemma_round_trip(&self) {
    }

    fn to_bytes(&self) -> (r: Vec<u8>) {
        vec![*self]
    }
}

impl FromBytesExact for u16 {
    open spec fn spec_num_bytes() -> nat {
        2
    }

    open spec fn spec_from_bytes(bytes: Seq<u8>) -> Result<u16, DecodeError> {
        Ok(spec_u16_from_le_bytes(bytes))
    }

    fn num_bytes() -> (n: usize) {
        2
    }

    fn from_exact_bytes(bytes: &[u8]) -> (r: Result<u16, DecodeError>) {
        Ok(u16_from_le_bytes(bytes))
    }
}

impl ToBytesExact for u16 {
    open spec fn spec_to_bytes(&self) -> Seq<u8> {
        spec_u16_to_le_bytes(*self)
    }

    proof fn lemma_round_trip(&self) {
        lemma_auto_spec_u16_to_from_le_bytes();
        assert(spec_u16_to_le_bytes(*self).len() == 2);
    }

    fn to_bytes(&self) -> (r: Vec<u8>) {
        u16_to_le_bytes(*self)
    }
}

impl FromBytesExact for u32 {
    open spec fn spec_num_bytes() -> nat {
        4
    }

    open spec fn spec_from_bytes(bytes: Seq<u8>) -> Result<u32, DecodeError> {
        Ok(spec_u32_from_le_bytes(bytes))
    }

    fn num_bytes() -> (n: usize) {
        4
    }

    fn from_exact_bytes(bytes: &[u8]) -> (r: Result<u32, DecodeError>) {
        Ok(u32_from_le_bytes(bytes))
    }
}

impl ToBytesExact for u32 {
    open spec fn spec_to_bytes(&self) -> Seq<u8> {
        spec_u32_to_le_bytes(*self)
    }

    proof fn lemma_round_trip(&self) {
        lemma_auto_spec_u32_to_from_le_bytes();
        assert(spec_u32_to_le_bytes(*self).len() == 4);
    }

    fn to_bytes(&self) -> (r: Vec<u8>) {
        u32_to_le_bytes(*self)
    }
}

impl FromBytesExact for u64 {
    open spec fn spec_num_bytes() -> nat {
        8
    }

    open spec fn spec_from_bytes(bytes: Seq<u8>) -> Result<u64, DecodeError> {
        Ok(spec_u64_from_le_bytes(bytes))
    }

    fn num_bytes() -> (n: usize) {
        8
    }

    fn from_exact_bytes(bytes: &[u8]) -> (r: Result<u64, DecodeError>) {
        Ok(u64_from_le_bytes(bytes))
    }
}

impl ToBytesExact for u64 {
    open spec fn spec_to_bytes(&self) -> Seq<u8> {
        spec_u64_to_le_bytes(*self)
    }

    proof fn lemma_round_trip(&self) {
        lemma_auto_spec_u64_to_from_le_bytes();
        assert(spec_u64_to_le_bytes(*self).len() == 8);
    }

    fn to_bytes(&self) -> (r: Vec<u8>) {
        u64_to_le_bytes(*self)
    }
}

impl FromBytesExact for i32 {
    open spec fn spec_num_bytes() -> nat {
        4
    }

    open spec fn spec_from_bytes(bytes: Seq<u8>) -> Result<i32, DecodeError> {
        Ok(spec_u32_from_le_bytes(bytes) as i32)
    }

    fn num_bytes() -> (n: usize) {
        4
    }

    fn from_exact_bytes(bytes: &[u8]) -> (r: Result<i32, DecodeError>) {
        Ok(u32_from_le_bytes(bytes) as i32)
    }
}

impl ToBytesExact for i32 {
    open spec fn spec_to_bytes(&self) -> Seq<u8> {
        spec_u32_to_le_bytes(*self as u32)
    }

    proof fn lemma_round_trip(&self) {
        lemma_auto_spec_u32_to_from_le_bytes();
        assert(spec_u32_to_le_bytes(*self as u32).len() == 4);
        let x = *self;
        assert((x as u32) as i32 == x) by (bit_vector);
    }

    fn to_bytes(&self) -> (r: Vec<u8>) {
        u32_to_le_bytes(*self as u32)
    }
}

/// The array of four flags whose contents are `s`.
pub open spec fn flags_of(s: Seq<bool>) -> [bool; 4] {
    choose|a: [bool; 4]| #[trigger] a@ == s
}

impl FromBytesExact for [bool; 4] {
    open spec fn spec_num_bytes() -> nat {
        4
    }

    open spec fn spec_from_bytes(b: Seq<u8>) -> Result<[bool; 4], DecodeError> {
        if b[0] <= 1 && b[1] <= 1 && b[2] <= 1 && b[3] <= 1 {
            Ok(flags_of(seq![b[0] == 1, b[1] == 1, b[2] == 1, b[3] == 1]))
        } else {
            Err(DecodeError::InvalidBool)
        }
    }

    fn num_bytes() -> (n: usize) {
        4
    }

    fn from_exact_bytes(bytes: &[u8]) -> (r: Result<[bool; 4], DecodeError>) {
        let mut reader = ByteReader::new(bytes);
        let a = match reader.read::<bool>() {
            Ok(v) => v,
            Err(e) => return Err(e),
        };
        let b = match reader.read::<bool>() {
            Ok(v) => v,
            Err(e) => return Err(e),
        };
        let c = match reader.read::<bool>() {
            Ok(v) => v,
            Err(e) => return Err(e),
        };
        let d = match reader.read::<bool>() {
            Ok(v) => v,
            Err(e) => return Err(e),
        };
        let flags = [a, b, c, d];
        proof {
            let s = seq![bytes@[0] == 1, bytes@[1] == 1, bytes@[2] == 1, bytes@[3] == 1];
            assert(flags@ =~= s);
            let chosen = flags_of(s);
            assert(chosen@ =~= flags@);
            assert(chosen =~= flags);
        }
        Ok(flags)
    }
}

impl ToBytesExact for [bool; 4] {
    open spec fn spec_to_bytes(&self) -> Seq<u8> {
        self@[0].spec_to_bytes() + self@[1].spec_to_bytes() + self@[2].spec_to_bytes()
            + self@[3].spec_to_bytes()
    }

    proof fn lemma_round_trip(&self) {
        let b = self.spec_to_bytes();
        let s = seq![b[0] == 1, b[1] == 1, b[2] == 1, b[3] == 1];
        assert(self@ =~= s);
        let chosen = flags_of(s);
        assert(chosen@ =~= self@);
        assert(chosen =~= *self);
    }

    fn to_bytes(&self) -> (r: Vec<u8>) {
        let mut w = ByteWriter::new();
        w.write(&self[0]);
        w.write(&self[1]);
        w.write(&self[2]);
        w.write(&self[3]);
        proof {
            lemma_empty_concat(self@[0].spec_to_bytes());
        }
        w.inner()
    }
}

} // verus!
