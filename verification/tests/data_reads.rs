//! The blocking word read, its exact polling behaviour, the unconditional
//! data-register read, and the word-to-byte streaming adapter.

use trng_driver::{BusGate, Clk48Source, ClockDescriptor, Rng, RngExt, RngPeripheral};

fn enabled_driver(words: Vec<u32>, ready_delay: u64) -> Rng {
    let p = RngPeripheral::new(words, ready_delay);
    let mut gate = BusGate::new(0, 0);
    let clocks = ClockDescriptor::new(Some(Clk48Source::Hsi48), None);
    p.enable(&mut gate, clocks).unwrap_or_else(|_| panic!())
}

#[test]
fn get_random_data_polls_exactly_latency_plus_one_times() {
    // A status register that reports ready after exactly 3 poll cycles:
    // 4 status reads, 1 data read, never more.
    let mut driver = enabled_driver(vec![0xDEAD_BEEF], 3);
    let w = driver.get_random_data();
    assert_eq!(w, 0xDEAD_BEEF);
    assert_eq!(driver.peripheral().sr_reads, 4);
    assert_eq!(driver.peripheral().dr_reads, 1);
}

#[test]
fn get_random_data_with_no_latency_polls_once() {
    let mut driver = enabled_driver(vec![42], 0);
    assert_eq!(driver.get_random_data(), 42);
    assert_eq!(driver.peripheral().sr_reads, 1);
    assert_eq!(driver.peripheral().dr_reads, 1);
}

#[test]
fn is_data_ready_follows_the_latency_countdown() {
    let mut driver = enabled_driver(vec![1], 2);
    assert!(!driver.is_data_ready());
    assert!(!driver.is_data_ready());
    assert!(driver.is_data_ready());
}

#[test]
fn possibly_invalid_read_returns_zero_when_nothing_is_ready() {
    let mut driver = enabled_driver(vec![], 0);
    assert_eq!(driver.possibly_invalid_random_data(), 0);
    assert_eq!(driver.peripheral().dr_reads, 1);

    let mut delayed = enabled_driver(vec![77], 4);
    // The word exists but its latency has not elapsed: still nothing ready.
    assert_eq!(delayed.possibly_invalid_random_data(), 0);
}

#[test]
fn possibly_invalid_read_consumes_a_ready_word() {
    let mut driver = enabled_driver(vec![123, 456], 0);
    assert_eq!(driver.possibly_invalid_random_data(), 123);
    assert_eq!(driver.possibly_invalid_random_data(), 456);
    assert_eq!(driver.peripheral().sr_reads, 0);
    assert_eq!(driver.peripheral().dr_reads, 2);
}

#[test]
fn next_u64_combines_two_words_low_word_first() {
    let mut driver = enabled_driver(vec![0x1111_2222, 0x3333_4444], 0);
    assert_eq!(driver.next_u64(), 0x3333_4444_1111_2222);
    assert_eq!(driver.peripheral().dr_reads, 2);
}

#[test]
fn filling_an_empty_buffer_reads_no_word() {
    let mut driver = enabled_driver(vec![5, 6], 7);
    let mut buffer: Vec<u8> = vec![];
    driver.fill_bytes(&mut buffer);
    assert_eq!(buffer.len(), 0);
    assert_eq!(driver.peripheral().dr_reads, 0);
    assert_eq!(driver.peripheral().sr_reads, 0);
    assert_eq!(driver.peripheral().words, vec![5, 6]);
}

#[test]
fn filling_one_byte_reads_one_word() {
    let mut driver = enabled_driver(vec![0xDDCC_BBAA], 0);
    let mut buffer = vec![0u8; 1];
    driver.fill_bytes(&mut buffer);
    assert_eq!(buffer, vec![0xAA]);
    assert_eq!(driver.peripheral().dr_reads, 1);
}

#[test]
fn filling_four_bytes_reads_one_word() {
    let mut driver = enabled_driver(vec![0xDDCC_BBAA], 0);
    let mut buffer = vec![0u8; 4];
    driver.fill_bytes(&mut buffer);
    assert_eq!(buffer, vec![0xAA, 0xBB, 0xCC, 0xDD]);
    assert_eq!(driver.peripheral().dr_reads, 1);
}

#[test]
fn filling_five_bytes_reads_two_words() {
    let mut driver = enabled_driver(vec![0x0403_0201, 0x0807_0605], 0);
    let mut buffer = vec![0u8; 5];
    driver.fill_bytes(&mut buffer);
    assert_eq!(buffer, vec![0x01, 0x02, 0x03, 0x04, 0x05]);
    assert_eq!(driver.peripheral().dr_reads, 2);
    assert_eq!(driver.peripheral().words.len(), 0);
}

#[test]
fn read_fills_the_buffer_and_always_succeeds() {
    let mut driver = enabled_driver(vec![0x4433_2211, 0x8877_6655], 2);
    let mut buffer = vec![0u8; 7];
    let outcome = driver.read(&mut buffer);
    assert!(outcome.is_ok());
    assert_eq!(buffer, vec![0x11, 0x22, 0x33, 0x44, 0x55, 0x66, 0x77]);
    // First word costs the 2-cycle latency plus its ready poll; the second
    // is announced ready immediately.
    assert_eq!(driver.peripheral().sr_reads, 4);
    assert_eq!(driver.peripheral().dr_reads, 2);
}

#[test]
fn try_fill_bytes_always_succeeds() {
    let mut driver = enabled_driver(vec![0x0A0B_0C0D], 0);
    let mut buffer = vec![0u8; 2];
    assert!(driver.try_fill_bytes(&mut buffer).is_ok());
    assert_eq!(buffer, vec![0x0D, 0x0C]);
}

#[test]
fn next_u32_returns_the_front_word() {
    let mut driver = enabled_driver(vec![314, 159], 1);
    assert_eq!(driver.next_u32(), 314);
    assert_eq!(driver.next_u32(), 159);
    assert_eq!(driver.peripheral().sr_reads, 3);
}
