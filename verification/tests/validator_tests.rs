use mandelbrot_core::validator::bucket_of;
use mandelbrot_core::validator::build_histogram;
use mandelbrot_core::validator::histogram_accepts;
use mandelbrot_core::validator::is_interesting_region;
use mandelbrot_core::validator::BUCKET_COUNT;
use mandelbrot_core::validator::GRID_POINTS;
use mandelbrot_core::validator::GRID_SIZE;
use mandelbrot_core::MAX_ITERATIONS;
use num_complex::Complex64;

fn escape_count(c: Complex64) -> u32 {
    let mut z = Complex64::new(0.0, 0.0);
    let mut iterations = 0;
    while iterations < MAX_ITERATIONS && z.norm_sqr() <= 4.0 {
        z = z * z + c;
        iterations += 1;
    }
    iterations
}

fn grid_counts(center_re: f64, center_im: f64, zoom: f64) -> Vec<u32> {
    let scale = 4.0 / zoom;
    let re_min = center_re - scale / 2.0;
    let im_min = center_im - scale / 2.0;
    let mut counts = Vec::new();
    for x in 0..GRID_SIZE {
        for y in 0..GRID_SIZE {
            let c = Complex64::new(
                re_min + (x as f64 / GRID_SIZE as f64) * scale,
                im_min + (y as f64 / GRID_SIZE as f64) * scale,
            );
            counts.push(escape_count(c));
        }
    }
    counts
}

fn grid_with_members(members: usize, total: usize) -> Vec<u32> {
    let mut counts = vec![MAX_ITERATIONS; members];
    counts.resize(total, 17);
    counts
}

#[test]
fn grid_has_thirty_by_thirty_points() {
    assert_eq!(GRID_SIZE, 30);
    assert_eq!(GRID_POINTS, 900);
    assert_eq!(BUCKET_COUNT, 5);
}

#[test]
fn bucket_of_member_is_zero() {
    assert_eq!(bucket_of(MAX_ITERATIONS), 0);
}

#[test]
fn bucket_bands_are_equal_quarters() {
    assert_eq!(bucket_of(0), 1);
    assert_eq!(bucket_of(1), 1);
    assert_eq!(bucket_of(249), 1);
    assert_eq!(bucket_of(250), 2);
    assert_eq!(bucket_of(499), 2);
    assert_eq!(bucket_of(500), 3);
    assert_eq!(bucket_of(749), 3);
    assert_eq!(bucket_of(750), 4);
    assert_eq!(bucket_of(999), 4);
}

#[test]
fn every_count_has_a_bucket() {
    for count in 0..=MAX_ITERATIONS {
        let bucket = bucket_of(count);
        assert!(bucket < BUCKET_COUNT);
        assert_eq!(bucket == 0, count == MAX_ITERATIONS);
    }
}

#[test]
fn histogram_counts_each_bucket() {
    let counts = vec![1000, 0, 249, 250, 1000, 500, 999, 750, 751, 1000];
    assert_eq!(build_histogram(&counts), vec![3, 2, 1, 1, 3]);
}

#[test]
fn histogram_of_nothing_is_empty() {
    assert_eq!(build_histogram(&Vec::new()), vec![0, 0, 0, 0, 0]);
}

#[test]
fn all_inside_is_rejected() {
    let counts = vec![MAX_ITERATIONS; GRID_POINTS];
    assert!(!is_interesting_region(&counts));
}

#[test]
fn all_outside_is_rejected() {
    let counts = vec![1; GRID_POINTS];
    assert!(!is_interesting_region(&counts));
    let slow = vec![MAX_ITERATIONS - 1; GRID_POINTS];
    assert!(!is_interesting_region(&slow));
}

#[test]
fn empty_grid_is_rejected() {
    assert!(!is_interesting_region(&Vec::new()));
}

#[test]
fn five_percent_is_accepted_and_just_below_is_not() {
    assert!(is_interesting_region(&grid_with_members(45, GRID_POINTS)));
    assert!(!is_interesting_region(&grid_with_members(44, GRID_POINTS)));
}

#[test]
fn ninety_five_percent_is_accepted_and_just_above_is_not() {
    assert!(is_interesting_region(&grid_with_members(855, GRID_POINTS)));
    assert!(!is_interesting_region(&grid_with_members(856, GRID_POINTS)));
}

#[test]
fn half_inside_is_accepted() {
    assert!(is_interesting_region(&grid_with_members(450, GRID_POINTS)));
}

#[test]
fn share_rule_agrees_with_the_ratio_on_the_grid() {
    for members in 0..=GRID_POINTS {
        let ratio = members as f64 / GRID_POINTS as f64;
        let expected = !(ratio < 0.05 || ratio > 0.95) && members < GRID_POINTS;
        assert_eq!(
            is_interesting_region(&grid_with_members(members, GRID_POINTS)),
            expected,
            "members = {}",
            members
        );
    }
}

#[test]
fn histogram_rule_needs_an_escaped_bucket() {
    assert!(!histogram_accepts(&vec![10, 0, 0, 0, 0], 20));
    assert!(histogram_accepts(&vec![10, 0, 0, 0, 10], 20));
    assert!(histogram_accepts(&vec![10, 10, 0, 0, 0], 20));
    assert!(histogram_accepts(&vec![1, 0, 19, 0, 0], 20));
    assert!(histogram_accepts(&vec![19, 0, 0, 1, 0], 20));
    assert!(!histogram_accepts(&vec![0, 5, 5, 5, 5], 20));
    assert!(!histogram_accepts(&vec![20, 0, 0, 0, 0], 20));
}

#[test]
fn histogram_rule_does_not_overflow_on_large_totals() {
    let half = usize::MAX / 2;
    assert!(histogram_accepts(&vec![half, usize::MAX - half, 0, 0, 0], usize::MAX));
    assert!(!histogram_accepts(&vec![usize::MAX, 0, 0, 0, 0], usize::MAX));
}

#[test]
fn viewport_deep_inside_the_set_is_rejected() {
    let counts = grid_counts(0.0, 0.0, 1000.0);
    assert!(counts.iter().all(|&c| c == MAX_ITERATIONS));
    assert!(!is_interesting_region(&counts));
}

#[test]
fn viewport_far_outside_the_set_is_rejected() {
    let counts = grid_counts(100.0, 100.0, 1.0);
    assert!(counts.iter().all(|&c| c < MAX_ITERATIONS));
    assert!(!is_interesting_region(&counts));
}

#[test]
fn viewport_on_the_boundary_is_accepted() {
    let counts = grid_counts(-0.75, 0.1, 500.0);
    let members = counts.iter().filter(|&&c| c == MAX_ITERATIONS).count();
    let expected = 20 * members >= GRID_POINTS && 20 * members <= 19 * GRID_POINTS;
    assert_eq!(is_interesting_region(&counts), expected);
}
