use vstd::prelude::*;

verus! {

/// A symmetric key of exactly `N` bytes.
///
/// The value is owned by one holder at a time: storing it moves it into the
/// store, and reading it from a store yields a fresh value.
pub struct KeyMaterial<const N: usize> {
    bytes: [u8; N],
}

impl<const N: usize> View for KeyMaterial<N> {
    type V = Seq<u8>;

    closed spec fn view(&self) -> Seq<u8> {
        self.bytes@
    }
}

impl<const N: usize> KeyMaterial<N> {
    /// Takes ownership of `bytes` as key material.
    pub fn from_bytes(bytes: [u8; N]) -> (r: Self)
        ensures
            r@ == bytes@,
    {
        KeyMaterial { bytes }
    }

    /// Builds key material from a byte sequence of length `N`.
    pub fn from_slice(src: &[u8]) -> (r: Self)
        requires
            src@.len() == N,
        ensures
            r@ == src@,
    {
        let mut bytes: [u8; N] = [0u8; N];
        let mut i: usize = 0;
        while i < N
            invariant
                src@.len() == N,
                bytes@.len() == N,
                0 <= i <= N,
                forall|j: int| 0 <= j < i ==> bytes@[j] == src@[j],
            decreases N - i,
        {
            bytes[i] = src[i];
            i = i + 1;
        }
        assert(bytes@ =~= src@);
        KeyMaterial { bytes }
    }

    /// The key's bytes.
    pub fn as_bytes(&self) -> (r: &[u8; N])
        ensures
            r@ == self@,
    {
        &self.bytes
    }

    /// Gives up the key's bytes.
    pub fn into_bytes(self) -> (r: [u8; N])
        ensures
            r@ == self@,
    {
        self.bytes
    }

    /// Copies the key's bytes into a buffer of their own.
    pub fn to_vec(&self) -> (r: Vec<u8>)
        ensures
            r@ == self@,
    {
        let mut out: Vec<u8> = Vec::new();
        let mut i: usize = 0;
        while i < N
            invariant
                self.bytes@.len() == N,
                0 <= i <= N,
                out@ == self.bytes@.subrange(0, i as int),
            decreases N - i,
        {
            out.push(self.bytes[i]);
            i = i + 1;
        }
        assert(out@ =~= self.bytes@);
        out
    }
}

} // verus!
