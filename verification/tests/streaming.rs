//! Tests for the worker's replay protocol and the streaming controller:
//! chunked processing reproduces single-region processing, replays carry
//! no hidden state, and a failed replay leaves exactly the chunks that
//! completed before it.

use gpu_cipher::CipherError;
use gpu_cipher::cipher_type::CipherType;
use gpu_cipher::selector::DeviceProfile;
use gpu_cipher::selector::MemoryClass;
use gpu_cipher::selector::QueueClass;
use gpu_cipher::stream::StreamJob;
use gpu_cipher::stream::chunk_count;
use gpu_cipher::worker::ReplayOutcome;
use gpu_cipher::worker::Worker;
use gpu_cipher::worker::WorkerState;
use gpu_cipher::worker::WorkerType;

const BLOCK_SIZE: usize = 16;

fn test_key() -> Vec<u8> {
    (0u8..16u8).collect()
}

fn test_profile() -> DeviceProfile {
    DeviceProfile {
        dedicated: true,
        queue_classes: vec![QueueClass { supports_compute: true }],
        memory_classes: vec![
            MemoryClass { host_visible: true, device_local: false },
            MemoryClass { host_visible: false, device_local: true },
        ],
    }
}

fn make_worker(buffer_size: u32, key: &[u8]) -> Result<Worker, CipherError> {
    let profile = test_profile();
    let info = WorkerType {
        shader_path: "compiled_shaders/speck_128_128.spv",
        buffer_size,
        cipher_type: CipherType::Speck128_128,
        key,
    };
    Worker::new(&profile, &info)
}

/// A stand-in for a kernel's per-replay work: a stateless, deterministic
/// transform applied independently to each 16-byte block of the staged
/// region, so block and chunk boundaries matter to the result.
fn device_transform(staged: &[u8]) -> Vec<u8> {
    assert_eq!(staged.len() % BLOCK_SIZE, 0);
    let mut out = Vec::with_capacity(staged.len());
    for block in staged.chunks(BLOCK_SIZE) {
        for (i, b) in block.iter().rev().enumerate() {
            out.push(*b ^ (i as u8) ^ 0xa5);
        }
    }
    out
}

/// Run one full replay cycle against the stand-in transform.
fn replay_once(worker: &mut Worker) -> Result<(), CipherError> {
    let staged = worker.begin_replay();
    let response = device_transform(&staged);
    worker.complete_replay(ReplayOutcome::Completed(response))
}

#[test]
fn worker_construction_rejects_wrong_key() {
    let short_key = vec![0u8; 8];
    let err = match make_worker(64, &short_key) {
        Ok(_) => panic!("a wrong-size key must not construct a pipeline"),
        Err(e) => e,
    };
    assert_eq!(err, CipherError::KeyLengthMismatch);
}

#[test]
fn worker_construction_needs_device_local_memory() {
    let key = test_key();
    let profile = DeviceProfile {
        dedicated: true,
        queue_classes: vec![QueueClass { supports_compute: true }],
        memory_classes: vec![MemoryClass { host_visible: true, device_local: false }],
    };
    let info = WorkerType {
        shader_path: "compiled_shaders/speck_128_128.spv",
        buffer_size: 64,
        cipher_type: CipherType::Speck128_128,
        key: &key,
    };
    let err = match Worker::new(&profile, &info) {
        Ok(_) => panic!("allocation must fail without device-local memory"),
        Err(e) => e,
    };
    assert_eq!(err, CipherError::AllocationFailure);
}

#[test]
fn worker_starts_ready_and_zeroed() {
    let key = test_key();
    let worker = make_worker(32, &key).unwrap();
    assert_eq!(worker.current_state(), WorkerState::Ready);
    assert_eq!(worker.region_capacity(), 32);
    let mut contents = Vec::new();
    worker.copy_into(&mut contents);
    assert_eq!(contents, vec![0u8; 32]);
}

#[test]
fn worker_write_then_read_round_trips() {
    let key = test_key();
    let mut worker = make_worker(16, &key).unwrap();
    let data: Vec<u8> = (100u8..116u8).collect();
    worker.write_into(&data);
    let mut contents = Vec::new();
    worker.copy_into(&mut contents);
    assert_eq!(contents, data);
}

#[test]
fn replay_stages_host_contents_and_accepts_response() {
    let key = test_key();
    let mut worker = make_worker(16, &key).unwrap();
    let plaintext: Vec<u8> = (0u8..16u8).collect();
    worker.write_into(&plaintext);

    let staged = worker.begin_replay();
    assert_eq!(staged, plaintext);
    assert_eq!(worker.current_state(), WorkerState::Executing);

    let response = device_transform(&staged);
    worker.complete_replay(ReplayOutcome::Completed(response.clone())).unwrap();
    assert_eq!(worker.current_state(), WorkerState::Ready);

    let mut contents = Vec::new();
    worker.copy_into(&mut contents);
    assert_eq!(contents, response);
}

#[test]
fn replay_timeout_surfaces_and_preserves_contents() {
    let key = test_key();
    let mut worker = make_worker(16, &key).unwrap();
    let data: Vec<u8> = (50u8..66u8).collect();
    worker.write_into(&data);

    let _staged = worker.begin_replay();
    let err = worker.complete_replay(ReplayOutcome::TimedOut).unwrap_err();
    assert_eq!(err, CipherError::ExecutionTimeout);
    assert_eq!(worker.current_state(), WorkerState::Ready);

    let mut contents = Vec::new();
    worker.copy_into(&mut contents);
    assert_eq!(contents, data);
}

#[test]
fn replay_device_error_surfaces() {
    let key = test_key();
    let mut worker = make_worker(16, &key).unwrap();
    let _staged = worker.begin_replay();
    let err = worker.complete_replay(ReplayOutcome::DeviceError).unwrap_err();
    assert_eq!(err, CipherError::ExecutionFailure);
}

#[test]
fn replay_is_deterministic() {
    // The same host-visible contents, replayed repeatedly through the same
    // recorded sequence, stage the same bytes and yield the same output:
    // the worker carries no state from one replay to the next.
    let key = test_key();
    let mut worker = make_worker(16, &key).unwrap();
    let data: Vec<u8> = (10u8..26u8).collect();

    worker.write_into(&data);
    let staged_first = worker.begin_replay();
    worker
        .complete_replay(ReplayOutcome::Completed(device_transform(&staged_first)))
        .unwrap();
    let mut first = Vec::new();
    worker.copy_into(&mut first);

    worker.write_into(&data);
    let staged_second = worker.begin_replay();
    assert_eq!(staged_second, staged_first);
    worker
        .complete_replay(ReplayOutcome::Completed(device_transform(&staged_second)))
        .unwrap();
    let mut second = Vec::new();
    worker.copy_into(&mut second);

    assert_eq!(first, second);
}

#[test]
fn worker_tear_down() {
    let key = test_key();
    let mut worker = make_worker(16, &key).unwrap();
    worker.tear_down();
    assert_eq!(worker.current_state(), WorkerState::TornDown);
}

#[test]
fn chunked_processing_matches_single_region() {
    // Chunk invariance: a block-aligned payload processed as one region
    // yields byte-identical output to the same payload processed as four
    // independent region-sized chunks.
    let key = test_key();
    let payload: Vec<u8> = (0u8..64u8).collect();

    let mut whole_worker = make_worker(64, &key).unwrap();
    whole_worker.write_into(&payload);
    replay_once(&mut whole_worker).unwrap();
    let mut single_region = Vec::new();
    whole_worker.copy_into(&mut single_region);

    let mut chunk_worker = make_worker(16, &key).unwrap();
    let mut job = StreamJob::new(payload.clone(), 16);
    while !job.done() {
        job.stage_into(&mut chunk_worker);
        replay_once(&mut chunk_worker).unwrap();
        job.accept_from(&chunk_worker);
    }
    let chunked = job.into_output();

    assert_eq!(chunked, single_region);
    assert_eq!(chunked.len(), payload.len());
}

#[test]
fn stream_delivers_chunks_in_payload_order() {
    let key = test_key();
    let payload: Vec<u8> = (0u8..48u8).collect();
    let mut worker = make_worker(16, &key).unwrap();
    let mut job = StreamJob::new(payload.clone(), 16);
    while !job.done() {
        job.stage_into(&mut worker);
        replay_once(&mut worker).unwrap();
        job.accept_from(&worker);
    }
    let output = job.into_output();

    let mut expected = Vec::new();
    for chunk in payload.chunks(16) {
        expected.extend_from_slice(&device_transform(chunk));
    }
    assert_eq!(output, expected);
}

#[test]
fn stream_failure_keeps_chunks_delivered_before_it() {
    // A failure during chunk k aborts the job: chunks before k were
    // already delivered, chunk k and later are never processed.
    let key = test_key();
    let payload: Vec<u8> = (0u8..64u8).collect();
    let mut worker = make_worker(16, &key).unwrap();
    let mut job = StreamJob::new(payload.clone(), 16);

    for _completed in 0..2 {
        job.stage_into(&mut worker);
        replay_once(&mut worker).unwrap();
        job.accept_from(&worker);
    }

    job.stage_into(&mut worker);
    let _staged = worker.begin_replay();
    let err = worker.complete_replay(ReplayOutcome::TimedOut).unwrap_err();
    assert_eq!(err, CipherError::ExecutionTimeout);

    let mut expected = Vec::new();
    expected.extend_from_slice(&device_transform(&payload[0..16]));
    expected.extend_from_slice(&device_transform(&payload[16..32]));
    assert_eq!(job.output_so_far().as_slice(), expected.as_slice());
}

#[test]
fn chunk_count_rounds_up() {
    assert_eq!(chunk_count(64000, 16000), 4);
    assert_eq!(chunk_count(64001, 16000), 5);
    assert_eq!(chunk_count(1, 16000), 1);
    assert_eq!(chunk_count(0, 16000), 0);
    assert_eq!(chunk_count(15999, 16000), 1);
}

#[test]
fn empty_payload_streams_to_empty_output() {
    let payload: Vec<u8> = Vec::new();
    let job = StreamJob::new(payload, 16);
    let output = job.into_output();
    assert!(output.is_empty());
}
