use rand::rngs::StdRng;
use rand::SeedableRng;
use rpt::filter::{window, Filter};
use rpt::hit::closest_hit_index;
use rpt::lens::{surface_walk, SurfaceStep};
use rpt::path::next_bounce;
use rpt::polygon::{even_odd_inside, heart_sample_degrees, polygon_edges, star_layout, StarVertex};
use rpt::schedule::Progress;
use rpt::screen::pixel_center;
use rpt::spectrum::RgbColor;

fn drive(num_samples: u32, interval: u32) -> (Vec<u32>, Vec<u32>) {
    let mut p = Progress::new(num_samples, interval);
    let mut batches = Vec::new();
    let mut reports = Vec::new();
    while let Some(steps) = p.next_batch() {
        batches.push(steps);
        reports.push(p.completed);
    }
    (batches, reports)
}

#[test]
fn schedule_batches_capped_by_interval() {
    let (batches, reports) = drive(10, 3);
    assert_eq!(batches, vec![3, 3, 3, 1]);
    assert_eq!(reports, vec![3, 6, 9, 10]);
}

#[test]
fn schedule_single_batch_when_interval_exceeds_budget() {
    let (batches, reports) = drive(4, 100);
    assert_eq!(batches, vec![4]);
    assert_eq!(reports, vec![4]);
}

#[test]
fn schedule_empty_budget_reports_nothing() {
    let (batches, reports) = drive(0, 5);
    assert!(batches.is_empty());
    assert!(reports.is_empty());
    assert!(Progress::new(0, 5).is_done());
}

#[test]
fn schedule_zero_interval_makes_no_progress() {
    let mut p = Progress::new(5, 0);
    assert_eq!(p.next_batch(), Some(0));
    assert_eq!(p.completed, 0);
    assert!(!p.is_done());
}

#[test]
fn schedule_total_matches_budget() {
    for n in 0..40u32 {
        for k in 1..12u32 {
            let (batches, reports) = drive(n, k);
            assert_eq!(batches.iter().sum::<u32>(), n);
            assert_eq!(batches.len() as u32, (n + k - 1) / k);
            assert!(batches.iter().all(|&b| 1 <= b && b <= k));
            assert!(reports.windows(2).all(|w| w[0] < w[1]));
            if n > 0 {
                assert_eq!(*reports.last().unwrap(), n);
            }
        }
    }
}

#[test]
fn pixel_center_corner_pixels() {
    let p = pixel_center(0, 0, 800, 600);
    assert_eq!((p.x_num, p.y_num, p.scale), (-799, 599, 800));
    let q = pixel_center(799, 599, 800, 600);
    assert_eq!((q.x_num, q.y_num, q.scale), (799, -599, 800));
}

#[test]
fn pixel_center_portrait_uses_height() {
    let p = pixel_center(1, 2, 3, 5);
    assert_eq!((p.x_num, p.y_num, p.scale), (0, 0, 5));
}

#[test]
fn pixel_center_inside_box_and_centered() {
    let (w, h) = (7u32, 4u32);
    for y in 0..h {
        for x in 0..w {
            let p = pixel_center(x, y, w, h);
            let m = pixel_center(w - 1 - x, h - 1 - y, w, h);
            assert!(p.x_num.abs() < p.scale as i64);
            assert!(p.y_num.abs() < p.scale as i64);
            assert_eq!(p.x_num, -m.x_num);
            assert_eq!(p.y_num, -m.y_num);
        }
    }
}

#[test]
fn no_indirect_bounce_at_zero_limit() {
    assert_eq!(next_bounce(0, 0), None);
    assert_eq!(next_bounce(7, 0), None);
}

#[test]
fn bounce_chain_length_is_limit() {
    let mut depth = 0u32;
    let mut bounces = 0u32;
    while let Some(d) = next_bounce(depth, 3) {
        assert_eq!(d, depth + 1);
        depth = d;
        bounces += 1;
    }
    assert_eq!(bounces, 3);
    assert_eq!(next_bounce(3, 3), None);
    assert_eq!(next_bounce(4, 3), None);
}

#[test]
fn channel_indices_round_trip() {
    for i in 0..3u32 {
        assert_eq!(RgbColor::from_index(i).index(), i);
    }
    assert_eq!(RgbColor::from_index(0), RgbColor::Red);
    assert_eq!(RgbColor::from_index(1), RgbColor::Green);
    assert_eq!(RgbColor::from_index(2), RgbColor::Blue);
}

#[test]
fn channel_unit_triples() {
    assert_eq!(RgbColor::Red.as_vec(), [1, 0, 0]);
    assert_eq!(RgbColor::Green.as_vec(), [0, 1, 0]);
    assert_eq!(RgbColor::Blue.as_vec(), [0, 0, 1]);
}

#[test]
fn random_channel_reaches_every_channel() {
    let mut rng = StdRng::seed_from_u64(17);
    let mut seen = [0u32; 3];
    for _ in 0..600 {
        let c = RgbColor::random(&mut rng);
        seen[c.index() as usize] += 1;
    }
    assert!(seen.iter().all(|&n| n > 100));
}

fn square() -> Vec<[f64; 2]> {
    vec![[-1.0, -1.0], [1.0, -1.0], [1.0, 1.0], [-1.0, 1.0]]
}

fn contains(pts: &[[f64; 2]], x: f64, y: f64) -> bool {
    let crossed: Vec<bool> = polygon_edges(pts.len())
        .into_iter()
        .map(|(j, i)| {
            let (prev, curr) = (pts[j], pts[i]);
            ((curr[1] > y) != (prev[1] > y))
                && (x < (prev[0] - curr[0]) * (y - curr[1]) / (prev[1] - curr[1]) + curr[0])
        })
        .collect();
    even_odd_inside(&crossed)
}

#[test]
fn square_polygon_contains() {
    let sq = square();
    assert!(contains(&sq, 0.0, 0.0));
    assert!(!contains(&sq, 2.0, 2.0));
}

#[test]
fn polygon_edges_close_the_loop() {
    assert_eq!(polygon_edges(4), vec![(3, 0), (0, 1), (1, 2), (2, 3)]);
    assert_eq!(polygon_edges(1), vec![(0, 0)]);
    assert!(polygon_edges(0).is_empty());
}

#[test]
fn even_odd_counts_parity() {
    assert!(!even_odd_inside(&vec![]));
    assert!(even_odd_inside(&vec![false, true, false]));
    assert!(!even_odd_inside(&vec![true, true]));
    assert!(even_odd_inside(&vec![true, true, true]));
}

#[test]
fn five_point_star_has_ten_vertices_in_unit_disc() {
    let n = 5.0f64;
    let layout = star_layout(5);
    assert_eq!(layout.len(), 10);
    let angle = 2.0 * std::f64::consts::PI / n;
    for v in &layout {
        let mut a = angle * (v.step / 2) as f64;
        let r = if v.outer { 1.0 } else { 0.5 };
        if !v.outer {
            a += std::f64::consts::PI / n;
        }
        let (x, y) = (r * a.cos(), r * a.sin());
        assert!((x * x + y * y).sqrt() <= 1.0 + 1e-12);
    }
    assert_eq!(layout[0], StarVertex { step: 0, outer: true });
    assert_eq!(layout[9], StarVertex { step: 9, outer: false });
}

#[test]
fn star_with_no_points_is_empty() {
    assert!(star_layout(0).is_empty());
}

#[test]
fn heart_sampled_every_ten_degrees() {
    let d = heart_sample_degrees();
    assert_eq!(d.len(), 36);
    assert_eq!(d[0], -180);
    assert_eq!(d[18], 0);
    assert_eq!(d[35], 170);
}

#[test]
fn closest_hit_is_last_tightening_object() {
    assert_eq!(closest_hit_index(&vec![true, false, true, false]), Some(2));
    assert_eq!(closest_hit_index(&vec![false, false]), None);
    assert_eq!(closest_hit_index(&vec![]), None);
}

fn scan(times: &[Option<f64>]) -> Option<usize> {
    let t_min = 1e-12;
    let mut best = f64::INFINITY;
    let tightened: Vec<bool> = times
        .iter()
        .map(|t| match t {
            Some(t) if *t > t_min && *t < best => {
                best = *t;
                true
            }
            _ => false,
        })
        .collect();
    closest_hit_index(&tightened)
}

#[test]
fn closer_object_wins_in_either_order() {
    let (a, b) = (Some(5.0), Some(3.0));
    assert_eq!(scan(&[a, b]), Some(1));
    assert_eq!(scan(&[b, a]), Some(0));
    assert_eq!(scan(&[None, b, a, None]), Some(1));
}

#[test]
fn surface_walk_goes_rear_to_front() {
    assert_eq!(
        surface_walk(2),
        vec![
            SurfaceStep { surface: 1, beyond: Some(0) },
            SurfaceStep { surface: 0, beyond: None }
        ]
    );
    assert_eq!(surface_walk(6).len(), 6);
    assert!(surface_walk(0).is_empty());
}

#[test]
fn filter_windows_clip_at_border() {
    assert_eq!(Filter::default(), Filter::Plain);
    assert_eq!(window(Filter::Plain, 4, 10), (4, 4));
    assert_eq!(window(Filter::Box(2), 4, 10), (2, 6));
    assert_eq!(window(Filter::Box(2), 0, 10), (0, 2));
    assert_eq!(window(Filter::Box(2), 9, 10), (7, 9));
    assert_eq!(window(Filter::Box(u32::MAX), 3, 5), (0, 4));
}
