use create2_vanity::salts::{generate_batch_salts, regenerate_in_place};

#[test]
fn generation_fills_requested_size() {
    assert_eq!(generate_batch_salts(0).len(), 0);
    assert_eq!(generate_batch_salts(1).len(), 1);
    assert_eq!(generate_batch_salts(1000).len(), 1000);
}

#[test]
fn regeneration_keeps_length() {
    let mut batch = generate_batch_salts(1000);
    regenerate_in_place(&mut batch);
    assert_eq!(batch.len(), 1000);
    let mut empty = generate_batch_salts(0);
    regenerate_in_place(&mut empty);
    assert_eq!(empty.len(), 0);
}

#[test]
fn regeneration_changes_content() {
    let mut batch = generate_batch_salts(1000);
    let before = batch.clone();
    regenerate_in_place(&mut batch);
    let unchanged = before
        .iter()
        .zip(batch.iter())
        .filter(|(a, b)| a == b)
        .count();
    // Statistically, a repeated 32-byte value is astronomically unlikely;
    // allow under 1% to keep the test robust.
    assert!(unchanged < 10, "{} salts unchanged", unchanged);
}

#[test]
fn generated_salts_are_not_all_equal() {
    let batch = generate_batch_salts(100);
    let first = batch[0];
    assert!(batch.iter().any(|s| *s != first));
}
