use synth_bridge::audio::{interleave_blocks, BLOCK_SIZE, CHANNEL_COUNT, SAMPLE_RATE};

#[test]
fn interleave_alternates_left_and_right() {
    let left: Vec<f32> = vec![1.0, 2.0, 3.0];
    let right: Vec<f32> = vec![4.0, 5.0, 6.0];
    let out = interleave_blocks(&left, &right);
    assert_eq!(out, vec![1.0, 4.0, 2.0, 5.0, 3.0, 6.0]);
}

#[test]
fn interleave_length_is_twice_the_block_length() {
    let left: Vec<i32> = (0..BLOCK_SIZE as i32).collect();
    let right: Vec<i32> = (0..BLOCK_SIZE as i32).map(|v| -v).collect();
    let out = interleave_blocks(&left, &right);
    assert_eq!(out.len(), 2 * BLOCK_SIZE);
    for i in 0..BLOCK_SIZE {
        assert_eq!(out[2 * i], left[i]);
        assert_eq!(out[2 * i + 1], right[i]);
    }
}

#[test]
fn interleave_of_empty_blocks_is_empty() {
    let left: Vec<f32> = Vec::new();
    let right: Vec<f32> = Vec::new();
    assert_eq!(interleave_blocks(&left, &right), Vec::<f32>::new());
}

#[test]
fn device_parameters_are_stereo() {
    assert_eq!(CHANNEL_COUNT, 2);
    assert_eq!(BLOCK_SIZE, 64);
    assert_eq!(SAMPLE_RATE, 44100);
}
