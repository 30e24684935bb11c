use sel4_bridge::stats::latency_percentiles;

#[test]
fn percentiles_of_shuffled_hundred() {
    let mut samples: Vec<u128> = Vec::new();
    for i in 0..100u128 {
        samples.push((i * 37) % 100 + 1);
    }
    assert_eq!(latency_percentiles(samples), (51, 96, 100));
}

#[test]
fn percentiles_of_single_sample() {
    assert_eq!(latency_percentiles(vec![42]), (42, 42, 42));
}

#[test]
fn percentiles_with_repeated_values() {
    assert_eq!(latency_percentiles(vec![5, 1, 5, 1]), (5, 5, 5));
    assert_eq!(latency_percentiles(vec![3, 9, 1]), (3, 9, 9));
}
