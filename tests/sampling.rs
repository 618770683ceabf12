use montecarlo_pi::{
    batch_estimate, count_inside_points, is_inside, run_samples, CHUNK_POINTS, ONE, PI_FIXED,
};

#[test]
fn run_samples_stays_within_zero_and_four() {
    for n in [1u32, 2, 3, 7, 100, 1000, 12345] {
        for _ in 0..20 {
            let r = run_samples(&n);
            assert!(r <= 4 * ONE, "n = {}, r = {}", n, r);
        }
    }
}

#[test]
fn run_samples_single_point_is_zero_or_four() {
    for _ in 0..100 {
        let r = run_samples(&1);
        assert!(r == 0 || r == 4 * ONE, "r = {}", r);
    }
}

#[test]
fn run_samples_mean_is_near_pi() {
    let batches: u64 = 1000;
    let mut total: u64 = 0;
    for _ in 0..batches {
        total += run_samples(&10_000);
    }
    let mean = total / batches;
    let tolerance = ONE / 20;
    assert!(mean.abs_diff(PI_FIXED) <= tolerance, "mean = {}", mean);
}

#[test]
fn run_samples_varies_between_batches() {
    let first = run_samples(&1000);
    let mut differs = false;
    for _ in 0..50 {
        if run_samples(&1000) != first {
            differs = true;
        }
    }
    assert!(differs);
}

#[test]
fn batch_estimate_exact_values() {
    assert_eq!(batch_estimate(1, 1), 4 * ONE);
    assert_eq!(batch_estimate(0, 5), 0);
    assert_eq!(batch_estimate(3, 4), 3 * ONE);
    assert_eq!(batch_estimate(785, 1000), 13486197309);
    assert_eq!(batch_estimate(u32::MAX, u32::MAX), 4 * ONE);
    assert_eq!(batch_estimate(1, 3), 5726623061);
}

#[test]
fn is_inside_origin_and_far_corner() {
    assert!(is_inside(0, 0));
    assert!(!is_inside(u32::MAX, u32::MAX));
}

#[test]
fn is_inside_on_the_axes() {
    assert!(is_inside(u32::MAX, 0));
    assert!(is_inside(0, u32::MAX));
}

#[test]
fn is_inside_near_the_diagonal_boundary() {
    assert!(is_inside(3037000499, 3037000499));
    assert!(!is_inside(3037000500, 3037000500));
}

#[test]
fn count_inside_points_exact_values() {
    assert_eq!(count_inside_points(&vec![], &vec![]), 0);
    let xs = vec![0, u32::MAX, 5, 3037000499, 3037000500];
    let ys = vec![0, u32::MAX, 7, 3037000499, 3037000500];
    assert_eq!(count_inside_points(&xs, &ys), 3);
    assert_eq!(count_inside_points(&vec![u32::MAX; 10], &vec![u32::MAX; 10]), 0);
    assert_eq!(count_inside_points(&vec![1; 10], &vec![2; 10]), 10);
}

#[test]
fn moving_one_point_inside_raises_estimate_by_four_over_n() {
    let xs = vec![0, u32::MAX, 17, u32::MAX];
    let mut ys = vec![0, u32::MAX, 17, 1 << 31];
    let before = count_inside_points(&xs, &ys);
    ys[1] = 0;
    let after = count_inside_points(&xs, &ys);
    assert_eq!(after, before + 1);
    assert_eq!(batch_estimate(before, 4), 2 * ONE);
    assert_eq!(batch_estimate(after, 4), 3 * ONE);
}

#[test]
fn run_samples_across_several_chunks_stays_within_zero_and_four() {
    for n in [CHUNK_POINTS - 1, CHUNK_POINTS, CHUNK_POINTS + 1, 3 * CHUNK_POINTS + 5] {
        let r = run_samples(&n);
        assert!(r <= 4 * ONE, "n = {}, r = {}", n, r);
    }
}
