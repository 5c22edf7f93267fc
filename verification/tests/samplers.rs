use opendp::error::ErrorVariant;
use opendp::samplers::{fill_bytes, sampled, GeneratorOpenDP, Shuffle};

#[test]
fn fill_bytes_writes_random_bits() {
    let mut buffer = [0u8; 64];
    fill_bytes(&mut buffer).unwrap();
    assert_eq!(buffer.len(), 64);
    assert!(buffer.iter().any(|byte| *byte != 0));

    let mut other = [0u8; 64];
    fill_bytes(&mut other).unwrap();
    assert_ne!(buffer, other);

    let mut empty: [u8; 0] = [];
    fill_bytes(&mut empty).unwrap();
}

#[test]
fn a_generator_goes_on_where_it_stopped() {
    let mut generator = GeneratorOpenDP::new();
    assert!(generator.error.is_ok());
    let mut first = [0u8; 32];
    let mut second = [0u8; 32];
    generator.fill_bytes(&mut first);
    generator.fill_bytes(&mut second);
    assert!(generator.error.is_ok());
    assert_ne!(first, second);
    assert!(first.iter().any(|byte| *byte != 0));
    generator.try_fill_bytes(&mut first).unwrap();
    assert!(GeneratorOpenDP::default().error.is_ok());
}

#[test]
fn shuffle_keeps_the_items() {
    let mut items: Vec<u32> = (0..200).collect();
    items.shuffle().unwrap();
    assert_eq!(items.len(), 200);
    let mut sorted = items.clone();
    sorted.sort();
    assert_eq!(sorted, (0..200).collect::<Vec<u32>>());
    assert_ne!(items, sorted);

    let mut empty: Vec<u32> = vec![];
    empty.shuffle().unwrap();
    assert!(empty.is_empty());
}

#[test]
fn a_source_that_gave_out_is_a_failed_function() {
    assert!(sampled(Ok(())).is_ok());
    let error = sampled(Err("Loop Error".to_string())).err().unwrap();
    assert_eq!(error.variant, ErrorVariant::FailedFunction);
    assert_eq!(error.message.unwrap(), "failed to sample bits: Loop Error");
}

#[test]
fn the_first_draw_seeds_the_cipher() {
    let mut generator = GeneratorOpenDP::new();
    assert!(generator.stream.is_none());
    let mut bytes = [0u8; 16];
    generator.try_fill_bytes(&mut bytes).unwrap();
    assert!(generator.stream.is_some());
    generator.fill_bytes(&mut bytes);
    assert!(generator.error.is_ok());
    assert!(generator.stream.is_some());

    let mut other = GeneratorOpenDP::new();
    other.fill_bytes(&mut bytes);
    assert!(other.error.is_ok());
    assert!(other.stream.is_some());
}
