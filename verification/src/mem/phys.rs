//! Buffers for devices that read and write memory by physical address: such a buffer must
//! occupy one contiguous range of physical memory.
use vstd::prelude::*;

verus! {

/// A buffer for a device, known to occupy one contiguous range of physical memory.
pub struct PhysBuf {
    pub buf: Vec<u8>,
    /// The physical address of the first byte.
    pub phys_addr: u64,
}

/// Whether a buffer of `len` bytes whose first byte is at physical address `begin` and whose
/// last byte is at `end` lies in one contiguous range.
pub open spec fn spans_contiguously(len: nat, begin: u64, end: u64) -> bool {
    begin <= end && end - begin == len - 1
}

/// `len` zero bytes, the contents of a fresh device buffer.
pub fn zeroed_bytes(len: usize) -> (r: Vec<u8>)
    ensures
        r@ == Seq::new(len as nat, |i: int| 0u8),
{
    let mut buf: Vec<u8> = Vec::new();
    let mut i: usize = 0;
    while i < len
        invariant
            i <= len,
            buf@ == Seq::new(i as nat, |j: int| 0u8),
        decreases len - i,
    {
        buf.push(0u8);
        i = i + 1;
        assert(buf@ =~= Seq::new(i as nat, |j: int| 0u8));
    }
    buf
}

impl PhysBuf {
    /// Takes `vec` as the device buffer if its first byte, at physical address `phys_begin`,
    /// and its last byte, at `phys_end`, are as far apart as in virtual memory; otherwise hands
    /// `vec` back, to be copied into a fresh allocation and tried again.
    pub fn from(vec: Vec<u8>, phys_begin: u64, phys_end: u64) -> (r: Result<PhysBuf, Vec<u8>>)
        requires
            vec@.len() > 0,
        ensures
            r is Ok <==> spans_contiguously(vec@.len(), phys_begin, phys_end),
            r matches Ok(b) ==> b.buf@ == vec@ && b.phys_addr == phys_begin,
            r matches Err(v) ==> v@ == vec@,
    {
        let buffer_end = vec.len() - 1;
        if phys_begin <= phys_end && phys_end - phys_begin == buffer_end as u64 {
            Ok(PhysBuf { buf: vec, phys_addr: phys_begin })
        } else {
            Err(vec)
        }
    }

    /// The physical address of the buffer's first byte, which the device is given.
    pub fn addr(&self) -> (r: u64)
        ensures
            r == self.phys_addr,
    {
        self.phys_addr
    }
}

} // verus!
