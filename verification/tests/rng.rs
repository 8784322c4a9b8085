use offset_estimator::check_sample_count;
use offset_estimator::resolve_seed;
use offset_estimator::EstimateError;
use offset_estimator::LcgRng;

#[test]
fn test_lcg_rng_consistency() {
    let mut rng1 = LcgRng::new(12345);
    let mut rng2 = LcgRng::new(12345);
    for _ in 0..100 {
        assert_eq!(rng1.next_u64(), rng2.next_u64());
    }
}

#[test]
fn test_next_u64_known_values() {
    let mut rng = LcgRng::new(0);
    assert_eq!(rng.next_u64(), 1442695040888963407);
    assert_eq!(rng.next_u64(), 1876011003808476466);
    assert_eq!(rng.next_u64(), 11166244414315200793);

    let mut rng = LcgRng::new(12345);
    assert_eq!(rng.next_u64(), 2021368500568277588);
    assert_eq!(rng.next_u64(), 4895494634720187923);
}

#[test]
fn test_draw_many_matches_repeated_next() {
    let mut block = LcgRng::new(500);
    let mut single = LcgRng::new(500);
    let values = block.draw_many(5);
    assert_eq!(values.len(), 5);
    for v in values {
        assert_eq!(v, single.next_u64());
    }
    // both generators end in the same state
    assert_eq!(block.next_u64(), single.next_u64());
}

#[test]
fn test_resolve_seed_prefers_caller_seed() {
    assert_eq!(resolve_seed(Some(43)), 43);
}

#[test]
fn test_resolve_seed_default_is_first_draw_from_zero() {
    let mut rng = LcgRng::new(0);
    let expected = rng.next_u64();
    assert_eq!(resolve_seed(None), expected);
    assert_eq!(resolve_seed(None), 1442695040888963407);
}

#[test]
fn test_check_sample_count() {
    assert_eq!(
        check_sample_count(0),
        Err(EstimateError::InsufficientSamples)
    );
    assert_eq!(
        check_sample_count(1),
        Err(EstimateError::InsufficientSamples)
    );
    assert_eq!(check_sample_count(2), Ok(()));
    assert_eq!(check_sample_count(10000), Ok(()));
}
