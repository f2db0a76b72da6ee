use whispering::frame::{FrameAssembler, ASSEMBLER_CAPACITY};
use whispering::vad::N_SAMPLES;

fn ramp(from: u32, count: usize) -> Vec<u32> {
    (from..from + count as u32).collect()
}

#[test]
fn a_new_assembler_is_empty() {
    let mut assembler = FrameAssembler::new();
    assert_eq!(assembler.len(), 0);
    let mut frame = [7u32; N_SAMPLES];
    assert!(!assembler.next_frame(&mut frame));
    assert_eq!(frame, [7u32; N_SAMPLES]);
}

#[test]
fn frames_come_out_in_arrival_order() {
    let mut assembler = FrameAssembler::new();
    assert_eq!(assembler.push(&ramp(0, 300)), 0);
    let mut frame = [0u32; N_SAMPLES];
    assert!(!assembler.next_frame(&mut frame));
    assert_eq!(assembler.len(), 300);
    assert_eq!(assembler.push(&ramp(300, 1000)), 0);
    assert_eq!(assembler.len(), 1300);
    assert!(assembler.next_frame(&mut frame));
    assert_eq!(frame.to_vec(), ramp(0, 512));
    assert!(assembler.next_frame(&mut frame));
    assert_eq!(frame.to_vec(), ramp(512, 512));
    assert!(!assembler.next_frame(&mut frame));
    assert_eq!(frame.to_vec(), ramp(512, 512));
    assert_eq!(assembler.len(), 276);
    assert_eq!(assembler.push(&ramp(1300, 236)), 0);
    assert!(assembler.next_frame(&mut frame));
    assert_eq!(frame.to_vec(), ramp(1024, 512));
    assert_eq!(assembler.len(), 0);
}

#[test]
fn an_overrun_drops_the_oldest_samples() {
    let mut assembler = FrameAssembler::new();
    assert_eq!(assembler.push(&ramp(0, ASSEMBLER_CAPACITY - 10)), 0);
    assert_eq!(assembler.push(&ramp(ASSEMBLER_CAPACITY as u32 - 10, 110)), 100);
    assert_eq!(assembler.len(), ASSEMBLER_CAPACITY);
    let mut frame = [0u32; N_SAMPLES];
    assert!(assembler.next_frame(&mut frame));
    assert_eq!(frame.to_vec(), ramp(100, 512));
}

#[test]
fn a_chunk_larger_than_the_assembler_keeps_its_end() {
    let mut assembler = FrameAssembler::new();
    assert_eq!(assembler.push(&ramp(0, 5)), 0);
    let dropped = assembler.push(&ramp(5, ASSEMBLER_CAPACITY + 20));
    assert_eq!(dropped, 25);
    assert_eq!(assembler.len(), ASSEMBLER_CAPACITY);
    let mut frame = [0u32; N_SAMPLES];
    assert!(assembler.next_frame(&mut frame));
    assert_eq!(frame.to_vec(), ramp(25, 512));
}

#[test]
fn a_full_assembler_takes_an_exact_fit() {
    let mut assembler = FrameAssembler::new();
    assert_eq!(assembler.push(&ramp(0, ASSEMBLER_CAPACITY)), 0);
    assert_eq!(assembler.len(), ASSEMBLER_CAPACITY);
    assert_eq!(assembler.push(&[]), 0);
    assert_eq!(assembler.push(&[1, 2, 3]), 3);
    let mut frame = [0u32; N_SAMPLES];
    assert!(assembler.next_frame(&mut frame));
    assert_eq!(frame.to_vec(), ramp(3, 512));
}

#[test]
fn the_largest_queue_fills_a_quarter_of_the_address_space() {
    assert_eq!(whispering::ring::max_capacity(), (isize::MAX / 4) as usize);
    assert!(whispering::ring::max_capacity() >= ASSEMBLER_CAPACITY);
}
