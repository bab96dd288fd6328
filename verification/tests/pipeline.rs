//! Tests for the pipeline's building blocks: the cipher descriptor
//! registry, the key loader, the parameter-block codec, the device
//! selector, the memory regions, and the recorded command sequence.

use gpu_cipher::CipherError;
use gpu_cipher::cipher_type::CipherType;
use gpu_cipher::commands::Command;
use gpu_cipher::commands::CommandSequence;
use gpu_cipher::key_manager::Key;
use gpu_cipher::params::encode_parameter_block;
use gpu_cipher::regions::AccessTags;
use gpu_cipher::regions::MemoryDomain;
use gpu_cipher::regions::MemoryRegion;
use gpu_cipher::selector::DeviceProfile;
use gpu_cipher::selector::MemoryClass;
use gpu_cipher::selector::QueueClass;
use gpu_cipher::selector::select_device;

fn test_key() -> Vec<u8> {
    vec![
        0x00, 0x01, 0x02, 0x03, 0x04, 0x05, 0x06, 0x07, 0x08, 0x09, 0x0a, 0x0b, 0x0c, 0x0d,
        0x0e, 0x0f,
    ]
}

fn queue(compute: bool) -> QueueClass {
    QueueClass { supports_compute: compute }
}

fn both_domains() -> MemoryClass {
    MemoryClass { host_visible: true, device_local: true }
}

#[test]
fn speck_descriptor_sizes() {
    let c = CipherType::Speck128_128;
    assert_eq!(c.key_size(), 16);
    assert_eq!(c.block_size(), 16);
}

#[test]
fn registry_looks_up_known_variant() {
    let variant = CipherType::from_name("speck_128_128").unwrap();
    assert_eq!(variant, CipherType::Speck128_128);
}

#[test]
fn registry_rejects_unknown_variant() {
    let err = CipherType::from_name("simon_64_96").unwrap_err();
    assert_eq!(err, CipherError::UnknownCipherVariant);
}

#[test]
fn key_accepts_exact_length() {
    let bytes = test_key();
    let key = Key::from_bytes(bytes.clone(), 16).unwrap();
    assert_eq!(key.data(), bytes.as_slice());
    assert_eq!(key.len(), 16);
}

#[test]
fn key_rejects_short() {
    let bytes = vec![0u8; 15];
    let err = match Key::from_bytes(bytes, 16) {
        Ok(_) => panic!("a short key must be rejected"),
        Err(e) => e,
    };
    assert_eq!(err, CipherError::KeyLengthMismatch);
}

#[test]
fn key_rejects_long() {
    let bytes = vec![0u8; 17];
    let err = match Key::from_bytes(bytes, 16) {
        Ok(_) => panic!("a long key must be rejected"),
        Err(e) => e,
    };
    assert_eq!(err, CipherError::KeyLengthMismatch);
}

#[test]
fn key_rejects_empty() {
    let bytes: Vec<u8> = Vec::new();
    let err = match Key::from_bytes(bytes, 16) {
        Ok(_) => panic!("an empty key must be rejected"),
        Err(e) => e,
    };
    assert_eq!(err, CipherError::KeyLengthMismatch);
}

#[test]
fn parameter_block_layout() {
    let key = test_key();
    let block = encode_parameter_block(&key, 20);
    assert_eq!(block.len(), 20);
    // Big-endian 32-bit key length, then the raw key bytes.
    assert_eq!(&block[0..4], &[0x00, 0x00, 0x00, 0x10]);
    assert_eq!(&block[4..20], key.as_slice());
}

#[test]
fn parameter_block_zero_padding() {
    let key = test_key();
    let block = encode_parameter_block(&key, 24);
    assert_eq!(block.len(), 24);
    assert_eq!(&block[0..4], &[0x00, 0x00, 0x00, 0x10]);
    assert_eq!(&block[4..20], key.as_slice());
    assert_eq!(&block[20..24], &[0x00, 0x00, 0x00, 0x00]);
}

#[test]
fn parameter_block_size_independent_of_content() {
    let all_zero = vec![0u8; 16];
    let all_ones = vec![0xffu8; 16];
    assert_eq!(encode_parameter_block(&all_zero, 20).len(), 20);
    assert_eq!(encode_parameter_block(&all_ones, 20).len(), 20);
}

#[test]
fn selector_prefers_dedicated() {
    let list = vec![
        DeviceProfile {
            dedicated: false,
            queue_classes: vec![queue(true)],
            memory_classes: vec![both_domains()],
        },
        DeviceProfile {
            dedicated: true,
            queue_classes: vec![queue(true)],
            memory_classes: vec![both_domains()],
        },
    ];
    let sel = select_device(&list).unwrap();
    assert_eq!(sel.device, 1);
    assert_eq!(sel.queue, 0);
}

#[test]
fn selector_falls_back_to_integrated() {
    let list = vec![
        DeviceProfile {
            dedicated: true,
            queue_classes: vec![queue(false)],
            memory_classes: vec![both_domains()],
        },
        DeviceProfile {
            dedicated: false,
            queue_classes: vec![queue(true)],
            memory_classes: vec![both_domains()],
        },
    ];
    let sel = select_device(&list).unwrap();
    assert_eq!(sel.device, 1);
    assert_eq!(sel.queue, 0);
}

#[test]
fn selector_picks_first_compute_queue() {
    let list = vec![DeviceProfile {
        dedicated: true,
        queue_classes: vec![queue(false), queue(false), queue(true), queue(true)],
        memory_classes: vec![both_domains()],
    }];
    let sel = select_device(&list).unwrap();
    assert_eq!(sel.device, 0);
    assert_eq!(sel.queue, 2);
}

#[test]
fn selector_fails_without_compute() {
    let list = vec![DeviceProfile {
        dedicated: true,
        queue_classes: vec![queue(false)],
        memory_classes: vec![both_domains()],
    }];
    assert_eq!(select_device(&list).unwrap_err(), CipherError::NoSuitableDevice);
}

#[test]
fn selector_fails_on_empty_list() {
    let list: Vec<DeviceProfile> = Vec::new();
    assert_eq!(select_device(&list).unwrap_err(), CipherError::NoSuitableDevice);
}

#[test]
fn selector_is_stable() {
    let make_list = || {
        vec![
            DeviceProfile {
                dedicated: false,
                queue_classes: vec![queue(true), queue(true)],
                memory_classes: vec![both_domains()],
            },
            DeviceProfile {
                dedicated: true,
                queue_classes: vec![queue(false), queue(true)],
                memory_classes: vec![both_domains()],
            },
        ]
    };
    let first = select_device(&make_list()).unwrap();
    let second = select_device(&make_list()).unwrap();
    assert_eq!(first, second);
    assert_eq!(first.device, 1);
    assert_eq!(first.queue, 1);
}

#[test]
fn region_allocation_zero_fills() {
    let tags = AccessTags { transfer_src: true, transfer_dst: true, kernel_storage: true };
    let classes = vec![both_domains()];
    let region = MemoryRegion::allocate(32, MemoryDomain::HostVisible, tags, &classes).unwrap();
    assert_eq!(region.size(), 32);
    assert_eq!(region.read_bytes(), vec![0u8; 32]);
}

#[test]
fn region_allocation_needs_matching_memory_type() {
    let tags = AccessTags { transfer_src: true, transfer_dst: true, kernel_storage: true };
    let host_only = vec![MemoryClass { host_visible: true, device_local: false }];
    let err = match MemoryRegion::allocate(32, MemoryDomain::DeviceLocal, tags, &host_only) {
        Ok(_) => panic!("device-local allocation must fail without such a memory type"),
        Err(e) => e,
    };
    assert_eq!(err, CipherError::AllocationFailure);
    assert!(MemoryRegion::allocate(32, MemoryDomain::HostVisible, tags, &host_only).is_ok());
}

#[test]
fn region_write_then_read_round_trips() {
    let tags = AccessTags { transfer_src: true, transfer_dst: true, kernel_storage: true };
    let classes = vec![both_domains()];
    let mut region =
        MemoryRegion::allocate(16, MemoryDomain::HostVisible, tags, &classes).unwrap();
    let data: Vec<u8> = (0u8..16u8).collect();
    region.fill_from(&data);
    assert_eq!(region.read_bytes(), data);
}

#[test]
fn command_sequence_records_staged_order() {
    let key = test_key();
    let params = encode_parameter_block(&key, 20);
    let seq = CommandSequence::record(params.clone(), 64000);
    assert_eq!(seq.param_block_bytes(), params.as_slice());
    assert_eq!(seq.capacity(), 64000);

    let cmds = seq.command_list();
    assert_eq!(cmds.len(), 8);
    assert_eq!(cmds[0], Command::CopyHostToDevice);
    assert!(matches!(cmds[1], Command::Barrier { region: MemoryDomain::DeviceLocal, .. }));
    assert_eq!(cmds[2], Command::UploadParams);
    assert_eq!(cmds[3], Command::BindKernel);
    // One unit of parallel work per replay, whatever the region capacity.
    assert_eq!(cmds[4], Command::Dispatch { x: 1, y: 1, z: 1 });
    assert!(matches!(cmds[5], Command::Barrier { region: MemoryDomain::DeviceLocal, .. }));
    assert_eq!(cmds[6], Command::CopyDeviceToHost);
    assert!(matches!(cmds[7], Command::Barrier { region: MemoryDomain::HostVisible, .. }));
}

#[test]
fn command_sequence_recording_is_deterministic() {
    let key = test_key();
    let a = CommandSequence::record(encode_parameter_block(&key, 20), 1024);
    let b = CommandSequence::record(encode_parameter_block(&key, 20), 1024);
    assert_eq!(a.command_list(), b.command_list());
    assert_eq!(a.param_block_bytes(), b.param_block_bytes());
    assert_eq!(a.capacity(), b.capacity());
}
