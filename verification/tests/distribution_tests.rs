use zjit::distribution::Distribution;

#[test]
fn start_empty() {
    let dist: Distribution<usize> = Distribution::new(4);
    assert!(dist.buckets.is_empty());
    assert!(dist.counts.is_empty());
    assert_eq!(dist.other, 0);
}

#[test]
fn observe_adds_record() {
    let mut dist: Distribution<usize> = Distribution::new(4);
    dist.observe(10);
    assert_eq!(dist.buckets.len(), 1);
    assert_eq!(dist.counts.len(), 1);
    assert_eq!(dist.buckets[0], 10);
    assert_eq!(dist.counts[0], 1);
    assert_eq!(dist.other, 0);
}

#[test]
fn observe_increments_record() {
    let mut dist: Distribution<usize> = Distribution::new(4);
    dist.observe(10);
    dist.observe(10);
    assert_eq!(dist.buckets.len(), 1);
    assert_eq!(dist.counts.len(), 1);
    assert_eq!(dist.buckets[0], 10);
    assert_eq!(dist.counts[0], 2);
    assert_eq!(dist.other, 0);
}

#[test]
fn observe_two() {
    let mut dist: Distribution<usize> = Distribution::new(4);
    dist.observe(10);
    dist.observe(10);
    dist.observe(11);
    dist.observe(11);
    dist.observe(11);
    assert_eq!(dist.buckets.len(), 2);
    assert_eq!(dist.counts.len(), 2);
    assert_eq!(dist.buckets[0], 10);
    assert_eq!(dist.counts[0], 2);
    assert_eq!(dist.buckets[1], 11);
    assert_eq!(dist.counts[1], 3);
    assert_eq!(dist.other, 0);
}

#[test]
fn observe_with_max_increments_other() {
    let mut dist: Distribution<usize> = Distribution::new(0);
    dist.observe(10);
    assert!(dist.buckets.is_empty());
    assert!(dist.counts.is_empty());
    assert_eq!(dist.other, 1);
}

#[test]
fn most_common_no_entries() {
    let dist: Distribution<usize> = Distribution::new(4);
    assert_eq!(dist.most_common(), None);
}

#[test]
fn most_common_only_other() {
    let mut dist: Distribution<usize> = Distribution::new(0);
    dist.observe(10);
    assert_eq!(dist.most_common(), None);
}

#[test]
fn most_common() {
    let mut dist: Distribution<usize> = Distribution::new(4);
    dist.observe(10);
    dist.observe(10);
    dist.observe(11);
    dist.observe(11);
    dist.observe(11);
    dist.observe(12);
    dist.observe(12);
    assert_eq!(dist.most_common(), Some(11));
}

#[test]
fn most_common_first_on_tie() {
    let mut dist: Distribution<usize> = Distribution::new(4);
    dist.observe(10);
    dist.observe(11);
    dist.observe(11);
    dist.observe(10);
    assert_eq!(dist.most_common(), Some(10));
}

#[test]
fn observe_past_capacity_keeps_buckets() {
    let mut dist: Distribution<usize> = Distribution::new(2);
    dist.observe(10);
    dist.observe(11);
    dist.observe(12);
    dist.observe(11);
    assert_eq!(dist.buckets.len(), 2);
    assert_eq!(dist.buckets[0], 10);
    assert_eq!(dist.buckets[1], 11);
    assert_eq!(dist.counts[0], 1);
    assert_eq!(dist.counts[1], 2);
    assert_eq!(dist.other, 1);
    assert_eq!(dist.most_common(), Some(11));
}
