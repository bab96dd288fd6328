//! Memory regions: fixed-capacity byte buffers, each tagged with a memory
//! domain and a set of access tags. The host-visible region is the only one
//! the controlling process reads or writes directly; the device-local
//! region is touched only by the accelerator's transfer and compute stages.
//! Capacity is fixed at allocation and never resized.

use vstd::prelude::*;
use crate::CipherError;
use crate::params::spec_zero_bytes;
use crate::selector::MemoryClass;

verus! {

/// The memory domain a region lives in.
#[derive(Debug, Clone, Copy, PartialEq, Eq, Structural)]
pub enum MemoryDomain {
    /// Directly addressable by the controlling process.
    HostVisible,
    /// Addressable only by the device's execution units.
    DeviceLocal,
}

/// The access patterns a region is allocated for; a region may carry
/// several tags at once.
#[derive(Debug, Clone, Copy, PartialEq, Eq, Structural)]
pub struct AccessTags {
    /// The region may be the source of a bulk transfer.
    pub transfer_src: bool,
    /// The region may be the destination of a bulk transfer.
    pub transfer_dst: bool,
    /// The region may be bound to a kernel as storage.
    pub kernel_storage: bool,
}

/// A fixed-capacity byte buffer in one memory domain.
pub struct MemoryRegion {
    i_domain: MemoryDomain,
    i_tags: AccessTags,
    i_bytes: Vec<u8>,
}

/// Whether memory type `c` can back a region of domain `d`.
pub open spec fn spec_class_supports(c: MemoryClass, d: MemoryDomain) -> bool {
    match d {
        MemoryDomain::HostVisible => c.host_visible,
        MemoryDomain::DeviceLocal => c.device_local,
    }
}

/// Whether some memory type of the device can back domain `d`.
pub open spec fn spec_can_allocate(classes: Seq<MemoryClass>, d: MemoryDomain) -> bool {
    exists|i: int| 0 <= i < classes.len() && spec_class_supports(classes[i], d)
}

impl MemoryRegion {
    /// The region's domain.
    pub closed spec fn domain(&self) -> MemoryDomain {
        self.i_domain
    }

    /// The region's access tags.
    pub closed spec fn tags(&self) -> AccessTags {
        self.i_tags
    }

    /// The region's current contents; their length is the fixed capacity.
    pub closed spec fn contents(&self) -> Seq<u8> {
        self.i_bytes@
    }

    /// The region's fixed capacity in bytes.
    pub open spec fn capacity(&self) -> nat {
        self.contents().len()
    }

    /// Reserve a zero-filled region of `capacity` bytes in domain `domain`.
    ///
    /// Succeeds if and only if one of the device's memory types supports
    /// the requested domain; fails with `AllocationFailure` otherwise.
    pub fn allocate(
        capacity: u64,
        domain: MemoryDomain,
        tags: AccessTags,
        classes: &Vec<MemoryClass>,
    ) -> (r: Result<MemoryRegion, CipherError>)
        requires
            capacity <= usize::MAX,
        ensures
            r is Ok <==> spec_can_allocate(classes@, domain),
            r is Ok ==> {
                &&& r->Ok_0.domain() == domain
                &&& r->Ok_0.tags() == tags
                &&& r->Ok_0.capacity() == capacity
                &&& r->Ok_0.contents() == spec_zero_bytes(capacity as nat)
            },
            r is Err ==> r->Err_0 == CipherError::AllocationFailure,
    {
        let mut i: usize = 0;
        let mut found: bool = false;
        while i < classes.len()
            invariant
                i <= classes@.len(),
                found <==> exists|j: int| 0 <= j < i && spec_class_supports(classes@[j], domain),
            decreases classes@.len() - i,
        {
            let c = classes[i];
            let supports = match domain {
                MemoryDomain::HostVisible => c.host_visible,
                MemoryDomain::DeviceLocal => c.device_local,
            };
            if supports {
                found = true;
            }
            i = i + 1;
        }
        if !found {
            return Err(CipherError::AllocationFailure);
        }

        let mut bytes: Vec<u8> = Vec::new();
        let mut k: usize = 0;
        while k < capacity as usize
            invariant
                k <= capacity <= usize::MAX,
                bytes@ =~= spec_zero_bytes(k as nat),
            decreases capacity - k,
        {
            bytes.push(0u8);
            assert(bytes@ =~= spec_zero_bytes((k + 1) as nat));
            k = k + 1;
        }
        Ok(MemoryRegion { i_domain: domain, i_tags: tags, i_bytes: bytes })
    }

    /// Overwrite the region's contents with `src`, which must fill the
    /// whole fixed capacity. Only the host-visible region may be written
    /// by the process; the writes become visible to the device's reads
    /// through the barrier-guarded copy stage of the command sequence.
    pub fn fill_from(&mut self, src: &[u8])
        requires
            old(self).domain() is HostVisible,
            src@.len() == old(self).capacity(),
        ensures
            final(self).contents() == src@,
            final(self).domain() == old(self).domain(),
            final(self).tags() == old(self).tags(),
            final(self).capacity() == old(self).capacity(),
    {
        self.i_bytes.clear();
        let mut k: usize = 0;
        while k < src.len()
            invariant
                k <= src@.len(),
                self.i_bytes@ =~= src@.take(k as int),
                self.i_domain == old(self).domain(),
                self.i_tags == old(self).tags(),
            decreases src@.len() - k,
        {
            self.i_bytes.push(src[k]);
            k = k + 1;
            assert(self.i_bytes@ =~= src@.take(k as int));
        }
        assert(self.i_bytes@ =~= src@);
    }

    /// Replace the region's contents wholesale, as the device's transfer
    /// stage does when it copies a transformed chunk back.
    pub fn replace_contents(&mut self, src: Vec<u8>)
        requires
            src@.len() == old(self).capacity(),
        ensures
            final(self).contents() == src@,
            final(self).domain() == old(self).domain(),
            final(self).tags() == old(self).tags(),
            final(self).capacity() == old(self).capacity(),
    {
        self.i_bytes = src;
    }

    /// The fixed capacity, in bytes.
    pub fn size(&self) -> (r: usize)
        ensures
            r == self.capacity(),
    {
        self.i_bytes.len()
    }

    /// An immutable copy of the current contents, valid as of this read;
    /// only the host-visible region is readable by the process.
    pub fn read_bytes(&self) -> (r: Vec<u8>)
        requires
            self.domain() is HostVisible,
        ensures
            r@ == self.contents(),
    {
        let mut out: Vec<u8> = Vec::new();
        let mut k: usize = 0;
        while k < self.i_bytes.len()
            invariant
                k <= self.i_bytes@.len(),
                out@ =~= self.i_bytes@.take(k as int),
            decreases self.i_bytes@.len() - k,
        {
            out.push(self.i_bytes[k]);
            k = k + 1;
            assert(out@ =~= self.i_bytes@.take(k as int));
        }
        assert(out@ =~= self.i_bytes@);
        out
    }
}

} // verus!
