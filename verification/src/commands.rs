//! The command sequence: an ordered, immutable list of pipeline operations
//! recorded exactly once against a fixed binding of memory regions, kernel
//! and parameter-block size, submitted once, and replayed on demand. Only
//! the contents of the host-visible region may change between replays; the
//! binding — the operations, the parameter block, the bound capacity —
//! never does.

use vstd::prelude::*;
use crate::regions::MemoryDomain;

verus! {

/// A point in the device's execution pipeline a barrier can scope to.
#[derive(Debug, Clone, Copy, PartialEq, Eq, Structural)]
pub enum StageKind {
    /// The controlling process.
    Host,
    /// The bulk-transfer stage.
    Transfer,
    /// The compute-dispatch stage.
    ComputeShader,
}

/// A kind of memory access a barrier orders.
#[derive(Debug, Clone, Copy, PartialEq, Eq, Structural)]
pub enum AccessKind {
    /// A write by the controlling process.
    HostWrite,
    /// A read by the controlling process.
    HostRead,
    /// A write by the transfer stage.
    TransferWrite,
    /// A read by the transfer stage.
    TransferRead,
    /// A write by the kernel.
    ShaderWrite,
    /// A read by the kernel.
    ShaderRead,
}

/// One recorded pipeline operation.
#[derive(Debug, Clone, Copy, PartialEq, Eq, Structural)]
pub enum Command {
    /// Bulk transfer of the host-visible region into the device-local one.
    CopyHostToDevice,
    /// Bulk transfer of the device-local region back into the host-visible one.
    CopyDeviceToHost,
    /// A synchronization barrier: the `src_access` done by `src_stage` on
    /// `region` completes and becomes visible before `dst_stage` performs
    /// `dst_access`.
    Barrier {
        /// The region whose visibility transitions.
        region: MemoryDomain,
        /// The access that must complete.
        src_access: AccessKind,
        /// The access that must wait.
        dst_access: AccessKind,
        /// The stage that performed the completed access.
        src_stage: StageKind,
        /// The stage that performs the dependent access.
        dst_stage: StageKind,
    },
    /// Upload the sequence's parameter block for the kernel invocation.
    UploadParams,
    /// Bind the kernel to the device-local region.
    BindKernel,
    /// Dispatch the kernel with the given work-group counts.
    Dispatch {
        /// Work groups along the first axis.
        x: u32,
        /// Work groups along the second axis.
        y: u32,
        /// Work groups along the third axis.
        z: u32,
    },
}

/// The fixed operation order every replay executes: copy in, make the copy
/// visible to the kernel, upload the parameter block and dispatch one unit
/// of work, make the kernel's writes visible to the transfer stage, copy
/// out, and make the result visible to the host. Dispatch granularity is
/// fixed at one unit regardless of the region's capacity; the kernel
/// covers the whole bound region per dispatch.
pub open spec fn spec_staged_commands() -> Seq<Command> {
    seq![
        Command::CopyHostToDevice,
        Command::Barrier {
            region: MemoryDomain::DeviceLocal,
            src_access: AccessKind::TransferWrite,
            dst_access: AccessKind::ShaderRead,
            src_stage: StageKind::Transfer,
            dst_stage: StageKind::ComputeShader,
        },
        Command::UploadParams,
        Command::BindKernel,
        Command::Dispatch { x: 1, y: 1, z: 1 },
        Command::Barrier {
            region: MemoryDomain::DeviceLocal,
            src_access: AccessKind::ShaderWrite,
            dst_access: AccessKind::TransferRead,
            src_stage: StageKind::ComputeShader,
            dst_stage: StageKind::Transfer,
        },
        Command::CopyDeviceToHost,
        Command::Barrier {
            region: MemoryDomain::HostVisible,
            src_access: AccessKind::TransferWrite,
            dst_access: AccessKind::HostRead,
            src_stage: StageKind::Transfer,
            dst_stage: StageKind::Host,
        },
    ]
}

/// A recorded, submitted command sequence together with its immutable
/// binding: the parameter block it uploads and the byte capacity of the
/// regions it was recorded against.
pub struct CommandSequence {
    i_cmds: Vec<Command>,
    i_param_block: Vec<u8>,
    i_capacity: u64,
    i_submitted: bool,
}

/// The barrier `c` transitions `region` from `src_stage` to `dst_stage`.
pub open spec fn spec_barrier_matches(
    c: Command,
    a_region: MemoryDomain,
    a_src_stage: StageKind,
    a_dst_stage: StageKind,
) -> bool {
    c matches Command::Barrier { region, src_stage, dst_stage, .. }
        && region == a_region
        && src_stage == a_src_stage
        && dst_stage == a_dst_stage
}

/// The operations of `s` at positions `ci < b1 < d < b2 < co < b3` form a
/// correctly barriered round trip: copy in, then a device-local
/// transfer-to-compute barrier, then the dispatch, then a device-local
/// compute-to-transfer barrier, then the copy out, then a host-visible
/// transfer-to-host barrier.
pub open spec fn spec_well_barriered_at(
    s: Seq<Command>,
    ci: int,
    b1: int,
    d: int,
    b2: int,
    co: int,
    b3: int,
) -> bool {
    &&& 0 <= ci < b1 < d < b2 < co < b3 < s.len()
    &&& s[ci] == Command::CopyHostToDevice
    &&& spec_barrier_matches(s[b1], MemoryDomain::DeviceLocal, StageKind::Transfer,
            StageKind::ComputeShader)
    &&& (s[d] matches Command::Dispatch { .. })
    &&& spec_barrier_matches(s[b2], MemoryDomain::DeviceLocal, StageKind::ComputeShader,
            StageKind::Transfer)
    &&& s[co] == Command::CopyDeviceToHost
    &&& spec_barrier_matches(s[b3], MemoryDomain::HostVisible, StageKind::Transfer,
            StageKind::Host)
}

/// `s` orders its operations correctly somewhere: some barriered round
/// trip as in `spec_well_barriered_at` occurs in program order. Barriers
/// are the only mechanism keeping the kernel from reading stale data and
/// the host from reading partial results.
pub open spec fn spec_well_barriered(s: Seq<Command>) -> bool {
    exists|ci: int, b1: int, d: int, b2: int, co: int, b3: int|
        #[trigger] spec_well_barriered_at(s, ci, b1, d, b2, co, b3)
}

impl CommandSequence {
    /// The recorded operations, in program order.
    pub closed spec fn commands(&self) -> Seq<Command> {
        self.i_cmds@
    }

    /// The parameter block each replay uploads to the kernel.
    pub closed spec fn param_block(&self) -> Seq<u8> {
        self.i_param_block@
    }

    /// The byte capacity of the regions the sequence was recorded against.
    pub closed spec fn bound_capacity(&self) -> u64 {
        self.i_capacity
    }

    /// Whether the sequence was submitted to the execution queue.
    pub closed spec fn submitted(&self) -> bool {
        self.i_submitted
    }

    /// Record the fixed replay sequence against a region pair of
    /// `region_capacity` bytes and the given parameter block, and submit
    /// it once. The recorded operations are exactly `spec_staged_commands`;
    /// recording is deterministic in the binding.
    pub fn record(param_block: Vec<u8>, region_capacity: u64) -> (r: CommandSequence)
        ensures
            r.commands() == spec_staged_commands(),
            r.param_block() == param_block@,
            r.bound_capacity() == region_capacity,
            r.submitted(),
    {
        let mut cmds: Vec<Command> = Vec::new();
        cmds.push(Command::CopyHostToDevice);
        cmds.push(Command::Barrier {
            region: MemoryDomain::DeviceLocal,
            src_access: AccessKind::TransferWrite,
            dst_access: AccessKind::ShaderRead,
            src_stage: StageKind::Transfer,
            dst_stage: StageKind::ComputeShader,
        });
        cmds.push(Command::UploadParams);
        cmds.push(Command::BindKernel);
        cmds.push(Command::Dispatch { x: 1, y: 1, z: 1 });
        cmds.push(Command::Barrier {
            region: MemoryDomain::DeviceLocal,
            src_access: AccessKind::ShaderWrite,
            dst_access: AccessKind::TransferRead,
            src_stage: StageKind::ComputeShader,
            dst_stage: StageKind::Transfer,
        });
        cmds.push(Command::CopyDeviceToHost);
        cmds.push(Command::Barrier {
            region: MemoryDomain::HostVisible,
            src_access: AccessKind::TransferWrite,
            dst_access: AccessKind::HostRead,
            src_stage: StageKind::Transfer,
            dst_stage: StageKind::Host,
        });
        assert(cmds@ =~= spec_staged_commands());
        CommandSequence {
            i_cmds: cmds,
            i_param_block: param_block,
            i_capacity: region_capacity,
            i_submitted: true,
        }
    }

    /// The recorded operations, for inspection from outside the library.
    pub fn command_list(&self) -> (r: &Vec<Command>)
        ensures
            r@ == self.commands(),
    {
        &self.i_cmds
    }

    /// The parameter block bytes, for the device's upload stage.
    pub fn param_block_bytes(&self) -> (r: &[u8])
        ensures
            r@ == self.param_block(),
    {
        self.i_param_block.as_slice()
    }

    /// The capacity the sequence was bound to, in bytes.
    pub fn capacity(&self) -> (r: u64)
        ensures
            r == self.bound_capacity(),
    {
        self.i_capacity
    }
}

/// The staged command order upholds the barrier protocol: every replay's
/// kernel reads only fully transferred data and the host reads only fully
/// written results, in strict program order.
pub proof fn lemma_staged_commands_well_barriered()
    ensures
        spec_well_barriered(spec_staged_commands()),
{
    let s = spec_staged_commands();
    assert(spec_well_barriered_at(s, 0, 1, 4, 5, 6, 7));
}

} // verus!
