use dictato::aggregate::GroqState;
use dictato::aggregate::MAX_BUFFER_SIZE;
use dictato::errors::BufferError;
use dictato::pipeline::downmix;
use dictato::pipeline::peak_level;
use dictato::pipeline::process_block;
use dictato::pipeline::SampleBuffer;
use dictato::process::pad_block;

#[test]
fn append_over_cap_rejected_buffer_unchanged() {
    let mut state = GroqState::default();
    let big = vec![7u8; MAX_BUFFER_SIZE - 1];
    assert!(state.append_audio(big).is_ok());
    assert_eq!(state.buffer_size(), MAX_BUFFER_SIZE - 1);
    // the next append would exceed the cap: rejected whole, contents kept
    let r = state.append_audio(vec![1, 2]);
    assert_eq!(r, Err(BufferError::Overflow));
    assert_eq!(state.buffer_size(), MAX_BUFFER_SIZE - 1);
    assert!(state.get_buffer().iter().all(|&b| b == 7));
    // an exactly fitting append still succeeds
    assert!(state.append_audio(vec![9]).is_ok());
    assert_eq!(state.buffer_size(), MAX_BUFFER_SIZE);
}

#[test]
fn append_and_clear_keep_order() {
    let mut state = GroqState::default();
    state.append_audio(vec![1, 2]).unwrap();
    state.append_audio(vec![3]).unwrap();
    assert_eq!(state.get_buffer(), vec![1, 2, 3]);
    state.clear_buffer();
    assert_eq!(state.buffer_size(), 0);
    assert_eq!(state.get_buffer(), Vec::<u8>::new());
}

#[test]
fn downmix_averages_frames() {
    assert_eq!(downmix(&vec![1, 3, 5, 7], 2), vec![2, 6]);
    assert_eq!(downmix(&vec![10, 20, 30], 1), vec![10, 20, 30]);
    // truncation toward zero on negative sums
    assert_eq!(downmix(&vec![-3, 0], 2), vec![-1]);
    // a trailing partial frame is averaged over the full channel count
    assert_eq!(downmix(&vec![1, 2, 3], 2), vec![1, 1]);
}

#[test]
fn peak_level_is_max_abs() {
    assert_eq!(peak_level(&vec![-5, 3, 4]), 5);
    assert_eq!(peak_level(&vec![]), 0);
    assert_eq!(peak_level(&vec![i32::MIN]), 2147483648u32);
}

#[test]
fn sample_buffer_drops_excess() {
    let mut buf = SampleBuffer::new(4);
    buf.append_limited(&vec![1, 2, 3]);
    assert_eq!(buf.len(), 3);
    // only one slot left: the rest of the block is silently dropped
    buf.append_limited(&vec![4, 5, 6]);
    assert_eq!(buf.len(), 4);
    let drained = buf.drain_all();
    assert_eq!(drained, vec![1, 2, 3, 4]);
    assert_eq!(buf.len(), 0);
}

#[test]
fn sample_buffer_recover_clears() {
    let mut buf = SampleBuffer::new(8);
    buf.append_limited(&vec![1, 2]);
    buf.recover();
    assert_eq!(buf.len(), 0);
    buf.append_limited(&vec![5]);
    assert_eq!(buf.drain_all(), vec![5]);
}

#[test]
fn process_block_downmixes_meters_buffers() {
    let mut buf = SampleBuffer::new(8);
    let level = process_block(&vec![1, 3, -9, 1], 2, &mut buf);
    // mono frames: (1+3)/2 = 2, (-9+1)/2 = -4; peak |.| = 4
    assert_eq!(level, 4);
    assert_eq!(buf.drain_all(), vec![2, -4]);
}

#[test]
fn pad_block_pads_and_truncates() {
    assert_eq!(pad_block(vec![1, 2], 4), vec![1, 2, 0, 0]);
    assert_eq!(pad_block(vec![1, 2, 3], 2), vec![1, 2]);
    assert_eq!(pad_block(vec![], 3), vec![0, 0, 0]);
}
