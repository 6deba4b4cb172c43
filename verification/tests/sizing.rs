use rtl_scanner::sizing::{calculate_aligned_buffer_size, capture_len, BLOCK_BYTES, MAX_CAPTURE_BYTES};

#[test]
fn buffer_of_nothing_is_empty() {
    assert_eq!(0, calculate_aligned_buffer_size(0));
}

#[test]
fn buffer_is_padded_to_whole_blocks() {
    assert_eq!(512, calculate_aligned_buffer_size(1));
    assert_eq!(512, calculate_aligned_buffer_size(255));
    assert_eq!(512, calculate_aligned_buffer_size(256));
    assert_eq!(1024, calculate_aligned_buffer_size(257));
    assert_eq!(1024, calculate_aligned_buffer_size(512));
    assert_eq!(1536, calculate_aligned_buffer_size(513));
}

#[test]
fn buffer_that_fills_its_blocks_is_not_padded() {
    assert_eq!(64_000, calculate_aligned_buffer_size(32_000));
}

#[test]
fn buffer_is_even_and_a_multiple_of_the_block() {
    for samples in 0..2_000usize {
        let bytes = calculate_aligned_buffer_size(samples);
        assert_eq!(0, bytes % BLOCK_BYTES);
        assert!(bytes >= 2 * samples);
        assert!(bytes < 2 * samples + BLOCK_BYTES);
    }
}

#[test]
fn capture_of_sixteen_milliseconds() {
    assert_eq!(Some(64_000), capture_len(16, 2_000_000));
}

#[test]
fn started_sample_counts_as_a_whole_one() {
    // 1 ms at 256_001 samples a second is 256.001 samples: 257 samples, 514 bytes, 2 blocks.
    assert_eq!(Some(1024), capture_len(1, 256_001));
    assert_eq!(Some(512), capture_len(1, 256_000));
    assert_eq!(Some(512), capture_len(1, 1));
}

#[test]
fn capture_of_no_time_is_empty() {
    assert_eq!(Some(0), capture_len(0, 2_000_000));
    assert_eq!(Some(0), capture_len(16, 0));
}

#[test]
fn longest_capture() {
    // 0x3fff_ff00 samples are 0x7fff_fe00 bytes, the last whole block below the limit.
    assert_eq!(Some(0x7fff_fe00), capture_len(1000, 0x3fff_ff00));
    assert!(0x7fff_fe00 <= MAX_CAPTURE_BYTES);
    assert_eq!(None, capture_len(1000, 0x3fff_ff01));
    assert_eq!(None, capture_len(usize::MAX, usize::MAX));
}
