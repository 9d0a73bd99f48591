use vstd::prelude::*;

verus! {

/// Behaviour shared by every memory region: the region owns one contiguous
/// slice of the 16-bit address space, from `spec_start()` for `spec_size()`
/// bytes, and answers byte and word accesses addressed globally.  A word is
/// little-endian: the low byte sits at the lower address.
pub trait Memory: Sized {
    /// First global address the region claims.
    spec fn spec_start() -> u16;

    /// Number of bytes the region claims.
    spec fn spec_size() -> nat;

    /// The bytes the region currently holds, in address order.
    spec fn contents(&self) -> Seq<u8>;

    /// The region's structural invariant: it holds exactly its size in bytes.
    spec fn wf(&self) -> bool;

    /// begin of memory
    fn start() -> (r: u16)
        ensures
            r == Self::spec_start(),
    ;

    /// end of memory (inclusive)
    fn end() -> (r: u16)
        ensures
            r == Self::spec_start() + Self::spec_size() - 1,
    ;

    /// transmute a global address into a local offset
    fn local_address(address: u16) -> (r: u16)
        requires
            Self::spec_start() <= address,
        ensures
            r == address - Self::spec_start(),
    ;

    /// read the byte at a global address inside the region
    fn read_byte(&self, address: u16) -> (r: u8)
        requires
            self.wf(),
            Self::spec_start() <= address < Self::spec_start() + Self::spec_size(),
        ensures
            r == self.contents()[address - Self::spec_start()],
    ;

    /// write the byte at a global address inside the region
    fn write_byte(&mut self, address: u16, content: u8)
        requires
            old(self).wf(),
            Self::spec_start() <= address < Self::spec_start() + Self::spec_size(),
        ensures
            final(self).wf(),
            final(self).contents() == old(self).contents().update(
                address - Self::spec_start(),
                content,
            ),
    ;

    /// read the little-endian word whose low byte sits at a global address
    fn read_word(&self, address: u16) -> (r: u16)
        requires
            self.wf(),
            Self::spec_start() <= address,
            address + 1 < Self::spec_start() + Self::spec_size(),
        ensures
            r == self.contents()[address - Self::spec_start()] + self.contents()[address + 1
                - Self::spec_start()] * 256,
    ;

    /// write a little-endian word: the low byte to the given global address,
    /// the high byte to the one after it
    fn write_word(&mut self, address: u16, content: u16)
        requires
            old(self).wf(),
            Self::spec_start() <= address,
            address + 1 < Self::spec_start() + Self::spec_size(),
        ensures
            final(self).wf(),
            final(self).contents() == old(self).contents().update(
                address - Self::spec_start(),
                (content % 256) as u8,
            ).update(address + 1 - Self::spec_start(), (content / 256) as u8),
    ;
}

/// A buffer of `n` zero bytes, the reset state of every region.
pub fn zero_buffer(n: usize) -> (r: Vec<u8>)
    ensures
        r@ == Seq::new(n as nat, |i: int| 0u8),
{
    let mut v: Vec<u8> = Vec::new();
    let mut i: usize = 0;
    while i < n
        invariant
            i == v.len() <= n,
            v@ =~= Seq::new(i as nat, |j: int| 0u8),
        decreases n - i,
    {
        v.push(0);
        i += 1;
    }
    proof {
        assert(v@ =~= Seq::new(n as nat, |i: int| 0u8));
    }
    v
}

/// Read the byte of a flat buffer that backs a region starting at `start`.
pub(crate) fn buf_read(buffer: &Vec<u8>, start: u16, address: u16) -> (r: u8)
    requires
        start <= address,
        address - start < buffer.len(),
    ensures
        r == buffer[address - start],
{
    buffer[(address - start) as usize]
}

/// Overwrite one byte of a flat buffer that backs a region starting at `start`.
pub(crate) fn buf_write(buffer: &mut Vec<u8>, start: u16, address: u16, content: u8)
    requires
        start <= address,
        address - start < old(buffer).len(),
    ensures
        final(buffer)@ == old(buffer)@.update(address - start, content),
{
    let i = (address - start) as usize;
    buffer[i] = content;
}

} // verus!
