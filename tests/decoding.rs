use perlin_terrain::frame_pacing::{swap_mode_for, SwapMode};
use perlin_terrain::index_data::{read_u16_indices, read_u32_indices};

#[test]
fn reads_little_endian_u16_indices() {
    let buffer: Vec<u8> = vec![1, 0, 0, 1, 255, 255];
    assert_eq!(read_u16_indices(&buffer, 0, 3), Some(vec![1, 256, 65535]));
}

#[test]
fn reads_u16_indices_from_offset() {
    let buffer: Vec<u8> = vec![9, 9, 9, 2, 1, 7, 0];
    assert_eq!(read_u16_indices(&buffer, 3, 2), Some(vec![258, 7]));
}

#[test]
fn u16_indices_past_the_end_are_refused() {
    let buffer: Vec<u8> = vec![1, 0, 2];
    assert_eq!(read_u16_indices(&buffer, 0, 2), None);
    assert_eq!(read_u16_indices(&buffer, 2, 1), None);
    assert_eq!(read_u16_indices(&buffer, usize::MAX, 1), None);
    assert_eq!(read_u16_indices(&buffer, 0, usize::MAX), None);
}

#[test]
fn zero_indices_are_always_read() {
    let buffer: Vec<u8> = vec![];
    assert_eq!(read_u16_indices(&buffer, 10, 0), Some(vec![]));
    assert_eq!(read_u32_indices(&buffer, 10, 0), Some(vec![]));
}

#[test]
fn reads_little_endian_u32_indices() {
    let buffer: Vec<u8> = vec![1, 0, 0, 0, 0, 0, 0, 1, 255, 255, 255, 255, 4, 3, 2, 1];
    assert_eq!(
        read_u32_indices(&buffer, 0, 4),
        Some(vec![1, 16_777_216, u32::MAX, 0x0102_0304])
    );
    assert_eq!(read_u32_indices(&buffer, 12, 1), Some(vec![0x0102_0304]));
}

#[test]
fn u32_indices_past_the_end_are_refused() {
    let buffer: Vec<u8> = vec![0; 7];
    assert_eq!(read_u32_indices(&buffer, 0, 2), None);
    assert_eq!(read_u32_indices(&buffer, 4, 1), None);
    assert_eq!(read_u32_indices(&buffer, 3, 1), Some(vec![0]));
}

#[test]
fn swap_modes_for_frame_rate_settings() {
    assert_eq!(swap_mode_for(-1), SwapMode::Adaptive);
    assert_eq!(swap_mode_for(0), SwapMode::Immediate);
    assert_eq!(swap_mode_for(1), SwapMode::EveryFrames(1));
    assert_eq!(swap_mode_for(3), SwapMode::EveryFrames(3));
    assert_eq!(swap_mode_for(-7), SwapMode::EveryFrames(1));
    assert_eq!(swap_mode_for(i32::MIN), SwapMode::EveryFrames(1));
}
