//! The worker: one accelerator pipeline instance. Construction validates
//! the key against the cipher variant, allocates the host-visible and
//! device-local regions, encodes the parameter block, and records and
//! submits the command sequence — all exactly once. Thereafter the
//! sequence is replayed, one replay at a time: stage a chunk into the
//! host-visible region, hand the staged bytes to the device, and accept
//! the device's response back into the region. The binding never changes
//! between replays; only the host-visible contents do.

use vstd::prelude::*;
use crate::CipherError;
use crate::cipher_type::CipherType;
use crate::cipher_type::lemma_key_size_fits_prefix;
use crate::cipher_type::spec_key_size;
use crate::commands::CommandSequence;
use crate::commands::spec_staged_commands;
use crate::params::encode_parameter_block;
use crate::params::spec_parameter_block;
use crate::params::spec_zero_bytes;
use crate::regions::AccessTags;
use crate::regions::MemoryDomain;
use crate::regions::MemoryRegion;
use crate::regions::spec_can_allocate;
use crate::selector::DeviceProfile;

verus! {

/// Construction descriptor for one worker: which kernel artifact to bind,
/// how large the bounded memory regions are, which cipher variant the
/// kernel implements, and the key bytes to inject.
pub struct WorkerType<'b> {
    /// Path of the precompiled kernel artifact.
    pub shader_path: &'b str,
    /// Byte capacity of each memory region; one replay processes exactly
    /// this many bytes, so callers size it to the kernel's dispatch bound.
    pub buffer_size: u32,
    /// The cipher variant the kernel implements.
    pub cipher_type: CipherType,
    /// The key bytes; their length must equal the variant's key size.
    pub key: &'b [u8],
}

/// A reference to the opaque precompiled kernel artifact: its path and its
/// entry-point name. Loading and compatibility checking belong to the
/// external kernel-loader collaborator; the pipeline treats the artifact
/// as immutable binary content.
pub struct KernelProgram {
    i_path: String,
    i_entry: String,
}

impl KernelProgram {
    /// The artifact's path.
    pub closed spec fn path(&self) -> Seq<char> {
        self.i_path@
    }

    /// The kernel's entry-point name.
    pub closed spec fn entry(&self) -> Seq<char> {
        self.i_entry@
    }

    /// Refer to the artifact at `path` with entry point `entry`.
    pub fn new(path: &str, entry: &str) -> (r: KernelProgram)
        ensures
            r.path() == path@,
            r.entry() == entry@,
    {
        KernelProgram { i_path: path.to_owned(), i_entry: entry.to_owned() }
    }
}

/// The worker's lifecycle state. Device binding and sequence recording
/// happen inside construction, so a live worker starts `Ready`; `Executing`
/// is entered only while one replay is in flight, and no second replay may
/// begin before the first completes.
#[derive(Debug, Clone, Copy, PartialEq, Eq, Structural)]
pub enum WorkerState {
    /// Between replays; the host-visible region may be read and written.
    Ready,
    /// One replay is in flight; the device owns the regions.
    Executing,
    /// The worker's resources are released; no further replay is possible.
    TornDown,
}

/// What the device reported for one replay.
pub enum ReplayOutcome {
    /// The round trip completed; the host-visible region now holds these
    /// bytes, exactly one region's worth.
    Completed(Vec<u8>),
    /// The timeout elapsed before the device reported completion.
    TimedOut,
    /// The device reported an execution error.
    DeviceError,
}

/// One accelerator pipeline instance: a fixed region pair, a kernel
/// reference, and the command sequence recorded against them.
pub struct Worker {
    i_host: MemoryRegion,
    i_device: MemoryRegion,
    i_kernel: KernelProgram,
    i_sequence: CommandSequence,
    i_cipher: CipherType,
    i_state: WorkerState,
}

impl Worker {
    /// The host-visible region.
    pub closed spec fn host(&self) -> MemoryRegion {
        self.i_host
    }

    /// The device-local region.
    pub closed spec fn device_region(&self) -> MemoryRegion {
        self.i_device
    }

    /// The bound kernel reference.
    pub closed spec fn kernel(&self) -> KernelProgram {
        self.i_kernel
    }

    /// The recorded command sequence.
    pub closed spec fn sequence(&self) -> CommandSequence {
        self.i_sequence
    }

    /// The cipher variant the worker was built for.
    pub closed spec fn cipher(&self) -> CipherType {
        self.i_cipher
    }

    /// The lifecycle state.
    pub closed spec fn state(&self) -> WorkerState {
        self.i_state
    }

    /// The fixed byte capacity of each region: the chunk size one replay
    /// processes.
    pub open spec fn capacity(&self) -> nat {
        self.host().capacity()
    }

    /// Well-formedness: the regions have the right domains and one common
    /// fixed capacity, the sequence is the staged order recorded against
    /// that capacity and was submitted exactly once, and the parameter
    /// block has the declared size `4 + key_size`.
    pub open spec fn wf(&self) -> bool {
        &&& self.host().domain() is HostVisible
        &&& self.device_region().domain() is DeviceLocal
        &&& self.host().capacity() == self.sequence().bound_capacity()
        &&& self.device_region().capacity() == self.sequence().bound_capacity()
        &&& self.sequence().commands() == spec_staged_commands()
        &&& self.sequence().submitted()
        &&& self.sequence().param_block().len() == 4 + spec_key_size(self.cipher())
    }

    /// Build one worker: validate the key length, allocate both regions,
    /// encode the parameter block, and record and submit the command
    /// sequence against the fixed binding.
    ///
    /// Succeeds if and only if the key's length equals the variant's
    /// declared key size and the device offers memory types for both
    /// domains. A wrong-size key fails with `KeyLengthMismatch` before any
    /// resource is touched, so no pipeline is ever constructed from it; a
    /// missing memory type fails with `AllocationFailure`.
    pub fn new(profile: &DeviceProfile, create_info: &WorkerType) -> (r: Result<Worker, CipherError>)
        ensures
            r is Ok <==> {
                &&& create_info.key@.len() == spec_key_size(create_info.cipher_type)
                &&& spec_can_allocate(profile.memory_classes@, MemoryDomain::HostVisible)
                &&& spec_can_allocate(profile.memory_classes@, MemoryDomain::DeviceLocal)
            },
            create_info.key@.len() != spec_key_size(create_info.cipher_type)
                ==> r is Err && r->Err_0 == CipherError::KeyLengthMismatch,
            r is Err && create_info.key@.len() == spec_key_size(create_info.cipher_type)
                ==> r->Err_0 == CipherError::AllocationFailure,
            r is Ok ==> {
                let w = r->Ok_0;
                &&& w.wf()
                &&& w.state() is Ready
                &&& w.cipher() == create_info.cipher_type
                &&& w.capacity() == create_info.buffer_size
                &&& w.host().contents() == spec_zero_bytes(create_info.buffer_size as nat)
                &&& w.sequence().param_block() == spec_parameter_block(
                        create_info.key@,
                        (4 + spec_key_size(create_info.cipher_type)) as nat,
                    )
                &&& w.sequence().bound_capacity() == create_info.buffer_size
                &&& w.kernel().path() == create_info.shader_path@
                &&& w.kernel().entry() == "main"@
                &&& w.host().tags() == (AccessTags {
                        transfer_src: true,
                        transfer_dst: true,
                        kernel_storage: true,
                    })
                &&& w.device_region().tags() == (AccessTags {
                        transfer_src: true,
                        transfer_dst: true,
                        kernel_storage: true,
                    })
            },
    {
        let key_size: u64 = create_info.cipher_type.key_size();
        if create_info.key.len() as u64 != key_size {
            return Err(CipherError::KeyLengthMismatch);
        }
        proof {
            lemma_key_size_fits_prefix(create_info.cipher_type);
        }

        let tags = AccessTags { transfer_src: true, transfer_dst: true, kernel_storage: true };
        let host = match MemoryRegion::allocate(
            create_info.buffer_size as u64,
            MemoryDomain::HostVisible,
            tags,
            &profile.memory_classes,
        ) {
            Ok(region) => region,
            Err(e) => {
                return Err(e);
            },
        };
        let device = match MemoryRegion::allocate(
            create_info.buffer_size as u64,
            MemoryDomain::DeviceLocal,
            tags,
            &profile.memory_classes,
        ) {
            Ok(region) => region,
            Err(e) => {
                return Err(e);
            },
        };

        let kernel = KernelProgram::new(create_info.shader_path, "main");
        let params = encode_parameter_block(create_info.key, 4 + key_size);
        let sequence = CommandSequence::record(params, create_info.buffer_size as u64);

        Ok(Worker {
            i_host: host,
            i_device: device,
            i_kernel: kernel,
            i_sequence: sequence,
            i_cipher: create_info.cipher_type,
            i_state: WorkerState::Ready,
        })
    }

    /// Write one region's worth of payload bytes into the host-visible
    /// region, between replays. Nothing but the region's contents changes.
    pub fn write_into(&mut self, buffer: &[u8])
        requires
            old(self).wf(),
            old(self).state() is Ready,
            buffer@.len() == old(self).capacity(),
        ensures
            final(self).wf(),
            final(self).host().contents() == buffer@,
            final(self).state() == old(self).state(),
            final(self).sequence() == old(self).sequence(),
            final(self).device_region() == old(self).device_region(),
            final(self).kernel() == old(self).kernel(),
            final(self).cipher() == old(self).cipher(),
            final(self).capacity() == old(self).capacity(),
    {
        self.i_host.fill_from(buffer);
    }

    /// Read the host-visible region's current contents into `buffer`,
    /// between replays.
    pub fn copy_into(&self, buffer: &mut Vec<u8>)
        requires
            self.wf(),
            self.state() is Ready,
        ensures
            final(buffer)@ == self.host().contents(),
    {
        *buffer = self.i_host.read_bytes();
    }

    /// Enter a replay: hand the host-visible contents to the device's
    /// round trip and mark the worker `Executing`. The staged bytes are
    /// exactly the host-visible contents — replay adds nothing and carries
    /// no state of its own.
    pub fn begin_replay(&mut self) -> (staged: Vec<u8>)
        requires
            old(self).wf(),
            old(self).state() is Ready,
        ensures
            final(self).wf(),
            staged@ == old(self).host().contents(),
            final(self).state() is Executing,
            final(self).host() == old(self).host(),
            final(self).sequence() == old(self).sequence(),
            final(self).device_region() == old(self).device_region(),
            final(self).kernel() == old(self).kernel(),
            final(self).cipher() == old(self).cipher(),
            final(self).capacity() == old(self).capacity(),
    {
        let staged = self.i_host.read_bytes();
        self.i_state = WorkerState::Executing;
        staged
    }

    /// Complete the in-flight replay with what the device reported. On
    /// completion the host-visible region holds exactly the device's
    /// response; a timeout fails with `ExecutionTimeout` and a device
    /// error with `ExecutionFailure`, each leaving the contents untouched.
    /// In every case the binding — sequence, parameter block, kernel,
    /// capacities — is unchanged and the worker returns to `Ready`:
    /// replays carry no hidden state from one to the next.
    pub fn complete_replay(&mut self, outcome: ReplayOutcome) -> (r: Result<(), CipherError>)
        requires
            old(self).wf(),
            old(self).state() is Executing,
            outcome matches ReplayOutcome::Completed(b) ==> b@.len() == old(self).capacity(),
        ensures
            final(self).wf(),
            final(self).state() is Ready,
            final(self).sequence() == old(self).sequence(),
            final(self).device_region() == old(self).device_region(),
            final(self).kernel() == old(self).kernel(),
            final(self).cipher() == old(self).cipher(),
            final(self).capacity() == old(self).capacity(),
            outcome matches ReplayOutcome::Completed(b) ==> {
                &&& r is Ok
                &&& final(self).host().contents() == b@
            },
            outcome is TimedOut ==> {
                &&& r is Err && r->Err_0 == CipherError::ExecutionTimeout
                &&& final(self).host() == old(self).host()
            },
            outcome is DeviceError ==> {
                &&& r is Err && r->Err_0 == CipherError::ExecutionFailure
                &&& final(self).host() == old(self).host()
            },
    {
        self.i_state = WorkerState::Ready;
        match outcome {
            ReplayOutcome::Completed(bytes) => {
                self.i_host.replace_contents(bytes);
                Ok(())
            },
            ReplayOutcome::TimedOut => Err(CipherError::ExecutionTimeout),
            ReplayOutcome::DeviceError => Err(CipherError::ExecutionFailure),
        }
    }

    /// The worker's current lifecycle state.
    pub fn current_state(&self) -> (r: WorkerState)
        ensures
            r == self.state(),
    {
        self.i_state
    }

    /// The fixed byte capacity of each region.
    pub fn region_capacity(&self) -> (r: usize)
        ensures
            r == self.capacity(),
    {
        self.i_host.size()
    }

    /// Release the worker: no replay may follow. The device handle and the
    /// regions live exactly as long as the worker instance.
    pub fn tear_down(&mut self)
        requires
            old(self).state() is Ready,
        ensures
            final(self).state() is TornDown,
            final(self).host() == old(self).host(),
            final(self).sequence() == old(self).sequence(),
            final(self).device_region() == old(self).device_region(),
            final(self).kernel() == old(self).kernel(),
            final(self).cipher() == old(self).cipher(),
    {
        self.i_state = WorkerState::TornDown;
    }
}

} // verus!
