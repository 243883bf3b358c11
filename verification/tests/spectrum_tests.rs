use spectral_renderer::spectrum::{halved_length, resample_passes, valid_sample_count};

#[test]
fn sample_counts_must_be_multiples_of_eight_up_to_128() {
    for good in [8usize, 16, 24, 32, 64, 96, 120, 128] {
        assert!(valid_sample_count(good));
    }
    for bad in [0usize, 1, 2, 4, 7, 9, 12, 130, 136, 1024] {
        assert!(!valid_sample_count(bad));
    }
}

#[test]
fn halving_rounds_up_to_multiples_of_eight() {
    assert_eq!(halved_length(16), 8);
    assert_eq!(halved_length(24), 16);
    assert_eq!(halved_length(32), 16);
    assert_eq!(halved_length(128), 64);
    assert_eq!(halved_length(9), 8);
    assert_eq!(halved_length(10), 8);
}

#[test]
fn resampling_to_the_same_count_plans_no_pass() {
    for n in [8usize, 16, 64, 128] {
        assert!(resample_passes(n, n).is_empty());
    }
}

#[test]
fn upsampling_is_one_pass() {
    assert_eq!(resample_passes(8, 64), vec![64]);
    assert_eq!(resample_passes(64, 128), vec![128]);
}

#[test]
fn downsampling_halves_until_within_twice_the_goal() {
    assert_eq!(resample_passes(16, 8), vec![8]);
    assert_eq!(resample_passes(24, 8), vec![16, 8]);
    assert_eq!(resample_passes(64, 8), vec![32, 16, 8]);
    assert_eq!(resample_passes(128, 8), vec![64, 32, 16, 8]);
    assert_eq!(resample_passes(128, 120), vec![120]);
    assert_eq!(resample_passes(128, 32), vec![64, 32]);
}

#[test]
fn downsampling_passes_respect_interpolation_bounds() {
    for (from, to) in [(128usize, 8usize), (128, 16), (120, 8), (104, 24), (64, 8)] {
        let passes = resample_passes(from, to);
        assert_eq!(*passes.last().unwrap(), to);
        let mut before = from;
        for &after in &passes {
            assert!(after < before, "a pass must shrink: {before} -> {after}");
            assert!(before <= 2 * after, "a pass may at most halve: {before} -> {after}");
            assert!(valid_sample_count(after));
            before = after;
        }
    }
}
