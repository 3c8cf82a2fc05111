//! Bytes on their way to and from the transport.
use bytes::BytesMut;

use crate::utils::SBox;

use vstd::prelude::*;
use vstd::std_specs::convert::FromSpecImpl;
use vstd::slice::{slice_subrange, slice_to_vec};
use vstd::utf8::encode_utf8;

verus! {

/// Bytes that are borrowed.
pub struct QBuffRef<'a> {
    pub data: &'a [u8],
}

/// A buffer as the transport describes it: where its memory starts, and a length of 32 bits.
#[derive(Clone, Copy)]
pub struct Buffer<'a> {
    length: u32,
    buffer: &'a [u8],
}

impl<'a> Buffer<'a> {
    /// The length does not go beyond the memory.
    #[verifier::type_invariant]
    spec fn wf(self) -> bool {
        self.length <= self.buffer@.len()
    }

    /// The bytes that the buffer describes.
    pub closed spec fn bytes(self) -> Seq<u8> {
        self.buffer@.take(self.length as int)
    }

    /// The number of bytes.
    pub fn length(&self) -> (res: u32)
        ensures
            res == self.bytes().len(),
    {
        proof {
            use_type_invariant(self);
        }
        self.length
    }
}

/// The part of `data` that a length of 32 bits describes: all of it, or else as many of its first
/// bytes as the low 32 bits of its length say.
pub open spec fn described(data: Seq<u8>) -> Seq<u8> {
    data.take(data.len() as int % 0x1_0000_0000)
}

impl<'a> From<&QBuffRef<'a>> for Buffer<'a> {
    fn from(value: &QBuffRef<'a>) -> (res: Self)
        ensures
            res.bytes() == described(value.data@),
    {
        let n: u64 = value.data.len() as u64;
        assert(n as u32 == n % 0x1_0000_0000 && n as u32 <= n) by (bit_vector);
        #[verifier::truncate]
        let length: u32 = n as u32;
        Buffer { length, buffer: value.data }
    }
}

impl<'a> FromSpecImpl<&QBuffRef<'a>> for Buffer<'a> {
    open spec fn obeys_from_spec() -> bool {
        false
    }

    open spec fn from_spec(value: &QBuffRef<'a>) -> Self {
        arbitrary()
    }
}

impl<'a> From<&Buffer<'a>> for QBuffRef<'a> {
    fn from(value: &Buffer<'a>) -> (res: Self)
        ensures
            res.data@ == value.bytes(),
    {
        proof {
            use_type_invariant(value);
        }
        QBuffRef { data: slice_subrange(value.buffer, 0, value.length as usize) }
    }
}

impl<'a> FromSpecImpl<&Buffer<'a>> for QBuffRef<'a> {
    open spec fn obeys_from_spec() -> bool {
        false
    }

    open spec fn from_spec(value: &Buffer<'a>) -> Self {
        arbitrary()
    }
}

/// A buffer that owns its bytes.
pub trait QOwnedBuffer: Sized {
    /// The bytes of the buffer.
    spec fn bytes(&self) -> Seq<u8>;

    /// Whether a buffer of this type can hold `data`.
    spec fn fits(data: Seq<u8>) -> bool;

    /// Borrows the bytes.
    fn as_buff_ref(&self) -> (res: QBuffRef<'_>)
        ensures
            res.data@ == self.bytes(),
    ;

    /// Copies the bytes.
    fn from_buff_ref(buff: &QBuffRef<'_>) -> (res: Self)
        requires
            Self::fits(buff.data@),
        ensures
            res.bytes() == buff.data@,
    ;
}

/// A buffer of exactly `N` bytes.
pub struct QArrayBuffer<const N: usize> {
    data: [u8; N],
}

impl<const N: usize> QOwnedBuffer for QArrayBuffer<N> {
    closed spec fn bytes(&self) -> Seq<u8> {
        self.data@
    }

    open spec fn fits(data: Seq<u8>) -> bool {
        data.len() == N
    }

    fn as_buff_ref(&self) -> (res: QBuffRef<'_>) {
        QBuffRef { data: self.data.as_slice() }
    }

    fn from_buff_ref(buff: &QBuffRef<'_>) -> (res: Self) {
        let mut data: [u8; N] = vstd::array::array_fill_for_copy_types(0u8);
        let mut i: usize = 0;
        while i < N
            invariant
                i <= N,
                buff.data@.len() == N,
                data@.len() == N,
                forall|j: int| 0 <= j < i ==> data@[j] == buff.data@[j],
            decreases N - i,
        {
            data[i] = buff.data[i];
            i += 1;
        }
        assert(data@ =~= buff.data@);
        QArrayBuffer { data }
    }
}

impl<'a, const N: usize> From<&'a QArrayBuffer<N>> for QBuffRef<'a> {
    fn from(value: &'a QArrayBuffer<N>) -> (res: Self)
        ensures
            res.data@ == value.bytes(),
    {
        value.as_buff_ref()
    }
}

impl<'a, const N: usize> FromSpecImpl<&'a QArrayBuffer<N>> for QBuffRef<'a> {
    open spec fn obeys_from_spec() -> bool {
        false
    }

    open spec fn from_spec(value: &'a QArrayBuffer<N>) -> Self {
        arbitrary()
    }
}

/// A buffer of any number of bytes.
#[derive(PartialEq, Debug, Default)]
pub struct QVecBuffer {
    pub data: Vec<u8>,
}

impl QOwnedBuffer for QVecBuffer {
    open spec fn bytes(&self) -> Seq<u8> {
        self.data@
    }

    open spec fn fits(data: Seq<u8>) -> bool {
        true
    }

    fn as_buff_ref(&self) -> (res: QBuffRef<'_>) {
        QBuffRef::from(self)
    }

    fn from_buff_ref(buff: &QBuffRef<'_>) -> (res: Self) {
        QVecBuffer::from(buff)
    }
}

impl From<&str> for QVecBuffer {
    /// The bytes of the text in UTF-8.
    fn from(value: &str) -> (res: Self)
        ensures
            res.data@ == encode_utf8(value@),
    {
        QVecBuffer { data: slice_to_vec(value.as_bytes()) }
    }
}

impl FromSpecImpl<&str> for QVecBuffer {
    open spec fn obeys_from_spec() -> bool {
        false
    }

    open spec fn from_spec(value: &str) -> Self {
        arbitrary()
    }
}

impl<'a> From<&'a QVecBuffer> for QBuffRef<'a> {
    fn from(value: &'a QVecBuffer) -> (res: Self)
        ensures
            res.data@ == value.data@,
    {
        QBuffRef { data: value.data.as_slice() }
    }
}

impl<'a> FromSpecImpl<&'a QVecBuffer> for QBuffRef<'a> {
    open spec fn obeys_from_spec() -> bool {
        false
    }

    open spec fn from_spec(value: &'a QVecBuffer) -> Self {
        arbitrary()
    }
}

impl From<&QBuffRef<'_>> for QVecBuffer {
    fn from(value: &QBuffRef<'_>) -> (res: Self)
        ensures
            res.data@ == value.data@,
    {
        QVecBuffer { data: slice_to_vec(value.data) }
    }
}

impl FromSpecImpl<&QBuffRef<'_>> for QVecBuffer {
    open spec fn obeys_from_spec() -> bool {
        false
    }

    open spec fn from_spec(value: &QBuffRef<'_>) -> Self {
        arbitrary()
    }
}

/// The buffers of several owned ones, in the form that the transport takes.
pub struct QBufferVec<'a> {
    data: Vec<Buffer<'a>>,
}

impl<'a> QBufferVec<'a> {
    /// The bytes of each buffer.
    pub closed spec fn bytes(self) -> Seq<Seq<u8>> {
        self.data@.map_values(|b: Buffer<'a>| b.bytes())
    }

    pub fn as_buffers(&self) -> (res: &[Buffer<'a>])
        ensures
            res@.map_values(|b: Buffer<'a>| b.bytes()) == self.bytes(),
    {
        self.data.as_slice()
    }
}

impl<'a> From<&'a [QVecBuffer]> for QBufferVec<'a> {
    fn from(value: &'a [QVecBuffer]) -> (res: Self)
        ensures
            res.bytes() == value@.map_values(|b: QVecBuffer| described(b.data@)),
    {
        let mut data: Vec<Buffer<'a>> = Vec::new();
        let mut i: usize = 0;
        while i < value.len()
            invariant
                i <= value@.len(),
                data@.len() == i,
                forall|j: int|
                    0 <= j < i ==> (#[trigger] data@[j]).bytes() == described(value@[j].data@),
            decreases value@.len() - i,
        {
            let r = QBuffRef::from(&value[i]);
            data.push(Buffer::from(&r));
            i += 1;
        }
        let res = QBufferVec { data };
        assert(res.bytes() =~= value@.map_values(|b: QVecBuffer| described(b.data@)));
        res
    }
}

impl<'a> FromSpecImpl<&'a [QVecBuffer]> for QBufferVec<'a> {
    open spec fn obeys_from_spec() -> bool {
        false
    }

    open spec fn from_spec(value: &'a [QVecBuffer]) -> Self {
        arbitrary()
    }
}

/// A buffer description that is handed between threads.
pub struct SBuffer<'a> {
    data: SBox<Buffer<'a>>,
}

impl<'a> SBuffer<'a> {
    /// The buffer inside.
    pub closed spec fn buffer(self) -> Buffer<'a> {
        self.data.inner
    }
}

impl<'a> From<&Buffer<'a>> for SBuffer<'a> {
    fn from(value: &Buffer<'a>) -> (res: Self)
        ensures
            res.buffer() == *value,
    {
        SBuffer { data: SBox::new(*value) }
    }
}

impl<'a> FromSpecImpl<&Buffer<'a>> for SBuffer<'a> {
    open spec fn obeys_from_spec() -> bool {
        false
    }

    open spec fn from_spec(value: &Buffer<'a>) -> Self {
        arbitrary()
    }
}

impl<'a> From<&SBuffer<'a>> for Buffer<'a> {
    fn from(value: &SBuffer<'a>) -> (res: Self) {
        value.data.inner
    }
}

impl<'a> FromSpecImpl<&SBuffer<'a>> for Buffer<'a> {
    open spec fn obeys_from_spec() -> bool {
        true
    }

    open spec fn from_spec(value: &SBuffer<'a>) -> Self {
        value.buffer()
    }
}

/// What a `bytes::BytesMut` holds.
pub uninterp spec fn bytes_mut_contents(b: BytesMut) -> Seq<u8>;

/// `bytes::BytesMut`, a growable buffer.
#[verifier::external_type_specification]
#[verifier::external_body]
pub struct ExBytesMut(BytesMut);

/// Calls `BytesMut::from` on a slice, which copies its bytes.
#[verifier::external_body]
fn bytes_mut_from(data: &[u8]) -> (res: BytesMut)
    ensures
        bytes_mut_contents(res) == data@,
{
    BytesMut::from(data)
}

/// A chunk of received bytes.
pub struct QBytesMut(pub BytesMut);

/// The bytes of several buffers, one after the other.
pub open spec fn concatenation(buffs: Seq<Buffer>) -> Seq<u8>
    decreases buffs.len(),
{
    if buffs.len() == 0 {
        Seq::empty()
    } else {
        concatenation(buffs.drop_last()) + buffs.last().bytes()
    }
}

impl QBytesMut {
    /// The bytes of the chunk.
    pub open spec fn bytes(self) -> Seq<u8> {
        bytes_mut_contents(self.0)
    }

    /// Copies the bytes of several buffers into one chunk.
    pub fn from_buffs(buffs: &[Buffer]) -> (res: Self)
        ensures
            res.bytes() == concatenation(buffs@),
            res.bytes().len() == length_before(buffs@, buffs@.len() as int),
            forall|k: int, j: int|
                0 <= k < buffs@.len() && 0 <= j < buffs@[k].bytes().len()
                    ==> res.bytes()[length_before(buffs@, k) + j] == #[trigger] buffs@[k].bytes()[j],
    {
        let mut all: Vec<u8> = Vec::new();
        let mut i: usize = 0;
        while i < buffs.len()
            invariant
                i <= buffs@.len(),
                all@ == concatenation(buffs@.take(i as int)),
            decreases buffs@.len() - i,
        {
            let r = QBuffRef::from(&buffs[i]);
            all.extend_from_slice(r.data);
            i += 1;
            assert(buffs@.take(i as int).drop_last() =~= buffs@.take(i - 1));
        }
        assert(buffs@.take(i as int) =~= buffs@);
        proof {
            concatenation_has_all_bytes(buffs@);
            assert forall|k: int, j: int|
                0 <= k < buffs@.len() && 0 <= j
                    < buffs@[k].bytes().len() implies concatenation(buffs@)[length_before(buffs@, k)
                + j] == #[trigger] buffs@[k].bytes()[j] by {
                concatenation_keeps_each_byte(buffs@, k, j);
            }
        }
        QBytesMut(bytes_mut_from(all.as_slice()))
    }
}

/// How many bytes stand in the first `k` of `buffs`.
pub open spec fn length_before(buffs: Seq<Buffer>, k: int) -> int
    decreases k,
{
    if k <= 0 {
        0
    } else {
        length_before(buffs, k - 1) + buffs[k - 1].bytes().len()
    }
}

/// The bytes of one buffer are its own, and those of several are those of the first ones followed
/// by those of the others, wherever they are parted.
pub proof fn concatenation_joins(a: Seq<Buffer>, b: Seq<Buffer>)
    ensures
        concatenation(a + b) == concatenation(a) + concatenation(b),
        a.len() == 0 ==> concatenation(a) == Seq::<u8>::empty(),
        a.len() == 1 ==> concatenation(a) == a[0].bytes(),
    decreases b.len(),
{
    if a.len() == 1 {
        reveal_with_fuel(concatenation, 2);
        assert(concatenation(a) =~= a[0].bytes());
    }
    if b.len() == 0 {
        assert(a + b =~= a);
        assert(concatenation(a) + concatenation(b) =~= concatenation(a));
    } else {
        concatenation_joins(a, b.drop_last());
        assert((a + b).drop_last() =~= a + b.drop_last());
        assert(concatenation(a + b) =~= concatenation(a) + concatenation(b));
    }
}

/// No byte is lost or added when buffers are joined: their lengths add up.
pub proof fn concatenation_has_all_bytes(buffs: Seq<Buffer>)
    ensures
        concatenation(buffs).len() == length_before(buffs, buffs.len() as int),
    decreases buffs.len(),
{
    if buffs.len() > 0 {
        concatenation_has_all_bytes(buffs.drop_last());
        lengths_agree(buffs.drop_last(), buffs, buffs.len() - 1);
    }
}

proof fn lengths_agree(a: Seq<Buffer>, b: Seq<Buffer>, k: int)
    requires
        k <= a.len(),
        k <= b.len(),
        forall|i: int| 0 <= i < k ==> (#[trigger] a[i]) == b[i],
    ensures
        length_before(a, k) == length_before(b, k),
    decreases k,
{
    if k > 0 {
        lengths_agree(a, b, k - 1);
        assert(a[k - 1] == b[k - 1]);
    }
}

proof fn lengths_grow(buffs: Seq<Buffer>, j: int, k: int)
    requires
        0 <= j <= k,
    ensures
        0 <= length_before(buffs, j) <= length_before(buffs, k),
    decreases k,
{
    if j < k {
        lengths_grow(buffs, j, k - 1);
    } else if j > 0 {
        lengths_grow(buffs, j - 1, k - 1);
    }
}

/// Each byte of each buffer stands where it belongs when buffers are joined: behind all bytes of
/// the buffers before, and as far from them as in its own.
pub proof fn concatenation_keeps_each_byte(buffs: Seq<Buffer>, k: int, j: int)
    requires
        0 <= k < buffs.len(),
        0 <= j < buffs[k].bytes().len(),
    ensures
        0 <= length_before(buffs, k) + j < concatenation(buffs).len(),
        concatenation(buffs)[length_before(buffs, k) + j] == buffs[k].bytes()[j],
    decreases buffs.len(),
{
    let init = buffs.drop_last();
    concatenation_has_all_bytes(buffs);
    concatenation_has_all_bytes(init);
    lengths_grow(buffs, k + 1, buffs.len() as int);
    lengths_grow(buffs, k, k);
    lengths_agree(init, buffs, k);
    if k < init.len() {
        concatenation_keeps_each_byte(init, k, j);
    }
}

/// A description has as many bytes as a length of 32 bits says, and they are the first ones.
pub proof fn description_is_a_prefix(data: Seq<u8>, i: int)
    ensures
        described(data).len() == data.len() % 0x1_0000_0000,
        0 <= i < described(data).len() ==> described(data)[i] == data[i],
{
}

/// A buffer description gives back the bytes that it was made from, where their number fits in
/// 32 bits.
pub proof fn description_keeps_the_bytes(data: Seq<u8>)
    requires
        data.len() <= u32::MAX,
    ensures
        described(data) == data,
{
    assert(data.take(data.len() as int) =~= data);
}

} // verus!
