use byteorder::ByteOrder;
use vstd::prelude::*;

verus! {

/// The four bytes of `n`, least significant first.
pub open spec fn le_u32_bytes(n: u32) -> Seq<u8> {
    seq![n as u8, (n >> 8u32) as u8, (n >> 16u32) as u8, (n >> 24u32) as u8]
}

/// The eight bytes of `n`, least significant first.
pub open spec fn le_u64_bytes(n: u64) -> Seq<u8> {
    seq![
        n as u8,
        (n >> 8u64) as u8,
        (n >> 16u64) as u8,
        (n >> 24u64) as u8,
        (n >> 32u64) as u8,
        (n >> 40u64) as u8,
        (n >> 48u64) as u8,
        (n >> 56u64) as u8,
    ]
}

/// Relies on byteorder's `LittleEndian::write_u32`, which stores `n.to_le_bytes()`
/// in the first four bytes of the buffer.
#[verifier::external_body]
fn write_le_u32(n: u32) -> (r: [u8; 4])
    ensures
        r@ == le_u32_bytes(n),
{
    let mut buf = [0u8; 4];
    byteorder::LittleEndian::write_u32(&mut buf, n);
    buf
}

/// Relies on byteorder's `LittleEndian::write_u64`, which stores `n.to_le_bytes()`
/// in the first eight bytes of the buffer.
#[verifier::external_body]
fn write_le_u64(n: u64) -> (r: [u8; 8])
    ensures
        r@ == le_u64_bytes(n),
{
    let mut buf = [0u8; 8];
    byteorder::LittleEndian::write_u64(&mut buf, n);
    buf
}

/// A byte sequence of at most `MAX` bytes, held inline without allocation.
pub struct FlexBytes<const MAX: usize> {
    bytes: [u8; MAX],
    len: usize,
}

impl<const MAX: usize> View for FlexBytes<MAX> {
    type V = Seq<u8>;

    /// The bytes in use, the first `len` of the storage.
    closed spec fn view(&self) -> Seq<u8> {
        self.bytes@.subrange(0, self.len as int)
    }
}

impl<const MAX: usize> FlexBytes<MAX> {
    #[verifier::type_invariant]
    spec fn inv(self) -> bool {
        self.len <= MAX
    }

    /// A buffer of `len` zero bytes.
    pub fn new(len: usize) -> (r: Self)
        requires
            len <= MAX,
        ensures
            r@ == Seq::new(len as nat, |i: int| 0u8),
    {
        let r = FlexBytes { bytes: [0u8; MAX], len };
        assert(r@ =~= Seq::new(len as nat, |i: int| 0u8));
        r
    }

    /// A buffer of `len` zero bytes, or `None` where `len` exceeds the capacity.
    pub fn try_new(len: usize) -> (r: Option<Self>)
        ensures
            r is Some <==> len <= MAX,
            r matches Some(b) ==> b@ == Seq::new(len as nat, |i: int| 0u8),
    {
        if len <= MAX {
            Some(FlexBytes::new(len))
        } else {
            None
        }
    }

    pub fn len(&self) -> (r: usize)
        ensures
            r == self@.len(),
            r <= MAX,
    {
        proof {
            use_type_invariant(self);
        }
        self.len
    }

    pub fn is_empty(&self) -> (r: bool)
        ensures
            r == (self@.len() == 0),
    {
        self.len() == 0
    }

    pub fn bytes(&self) -> (r: &[u8])
        ensures
            r@ == self@,
    {
        proof {
            use_type_invariant(self);
        }
        &self.bytes[0..self.len]
    }

    /// The bytes in use, for writing in place.
    pub fn bytes_mut(&mut self) -> (r: &mut [u8])
        ensures
            r@ == old(self)@,
            final(self)@ == final(r)@,
    {
        proof {
            use_type_invariant(&*self);
        }
        let len = self.len;
        let (head, _tail) = self.bytes.split_at_mut(len);
        head
    }

    /// Overwrites the byte at `i`.
    pub fn set(&mut self, i: usize, b: u8)
        requires
            i < old(self)@.len(),
        ensures
            final(self)@ == old(self)@.update(i as int, b),
    {
        proof {
            use_type_invariant(&*self);
        }
        self.bytes[i] = b;
        assert(self@ =~= old(self)@.update(i as int, b));
    }

    /// Copies `src` over the bytes from `pos` on and returns the position after it.
    pub fn write_at(&mut self, pos: usize, src: &[u8]) -> (end: usize)
        requires
            pos + src@.len() <= old(self)@.len(),
        ensures
            end == pos + src@.len(),
            final(self)@ == old(self)@.subrange(0, pos as int) + src@ + old(self)@.subrange(
                end as int,
                old(self)@.len() as int,
            ),
    {
        proof {
            use_type_invariant(&*self);
        }
        let mut i: usize = 0;
        while i < src.len()
            invariant
                pos + src@.len() <= old(self)@.len(),
                old(self)@.len() <= MAX,
                i <= src@.len(),
                self@.len() == old(self)@.len(),
                forall|j: int| 0 <= j < pos ==> self@[j] == old(self)@[j],
                forall|j: int| 0 <= j < i ==> self@[pos + j] == src@[j],
                forall|j: int| pos + src@.len() <= j < self@.len() ==> self@[j] == old(self)@[j],
            decreases src@.len() - i,
        {
            self.set(pos + i, src[i]);
            i += 1;
        }
        assert(self@ =~= old(self)@.subrange(0, pos as int) + src@ + old(self)@.subrange(
            (pos + src@.len()) as int,
            old(self)@.len() as int,
        ));
        pos + src.len()
    }

    /// A buffer holding the bytes of `array`.
    pub fn from_array<const N: usize>(array: [u8; N]) -> (r: Self)
        requires
            N <= MAX,
        ensures
            r@ == array@,
    {
        let mut r = FlexBytes::new(N);
        let mut i: usize = 0;
        while i < N
            invariant
                N <= MAX,
                i <= N,
                r@.len() == N,
                forall|j: int| 0 <= j < i ==> r@[j] == array@[j],
            decreases N - i,
        {
            r.set(i, array[i]);
            i += 1;
        }
        assert(r@ =~= array@);
        r
    }

    /// A buffer holding the single byte `n`.
    pub fn from_u8(n: u8) -> (r: Self)
        requires
            MAX >= 1,
        ensures
            r@ == seq![n],
    {
        let r = FlexBytes::from_array([n]);
        assert(r@ =~= seq![n]);
        r
    }

    /// A buffer holding the four little-endian bytes of `n`.
    pub fn from_u32(n: u32) -> (r: Self)
        requires
            MAX >= 4,
        ensures
            r@ == le_u32_bytes(n),
    {
        FlexBytes::from_array(write_le_u32(n))
    }

    /// A buffer holding the eight little-endian bytes of `n`.
    pub fn from_u64(n: u64) -> (r: Self)
        requires
            MAX >= 8,
        ensures
            r@ == le_u64_bytes(n),
    {
        FlexBytes::from_array(write_le_u64(n))
    }
}

} // verus!
