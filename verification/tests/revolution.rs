use gl385::{sample_positions, Angle, Error, Revolution};

const PI: f32 = std::f32::consts::PI;

/// Evaluate an exact angle in radians.
fn radians(a: &Angle) -> f32 {
    a.num as f32 / a.den as f32 * PI
}

/// The sweep projection of one emitted vertex: rotate the curve point about
/// the x axis.
fn project(v: &(f32, f32, Angle)) -> (f32, f32, f32) {
    let (px, py, theta) = v;
    let theta = radians(theta);
    (*px, py * theta.cos(), py * theta.sin())
}

/// The generatrix sampled for the parabola `f(x) = (x, x * x)`.
fn parabola(samples: i32) -> Vec<(f32, f32)> {
    sample_positions(samples)
        .iter()
        .map(|&(num, den)| {
            let x = num as f32 / den as f32;
            (x, x * x)
        })
        .collect()
}

#[test]
fn revolution_update_signals_once() {
    let mut surface = Revolution::new(vec![(0.0f32, 1.0f32), (1.0, 1.0)]);
    assert!(surface.update());
    for _ in 0..10 {
        assert!(!surface.update());
    }
}

#[test]
fn revolution_parabola_four_samples_count() {
    let curve = parabola(4);
    assert_eq!(curve.len(), 4);
    let smoothness = 5u32;
    let mesh = Revolution::new(curve).smoothness(smoothness).render().unwrap();
    assert_eq!(mesh.len() as u32, 6 * smoothness * 3);
}

#[test]
fn revolution_sample_positions_cover_domain() {
    let positions = sample_positions(4);
    assert_eq!(positions, vec![(-4, 4), (-2, 4), (0, 4), (2, 4)]);
    // As values: -1, -0.5, 0, 0.5 — the right endpoint is excluded.
    let values: Vec<f32> = positions.iter().map(|&(n, d)| n as f32 / d as f32).collect();
    assert_eq!(values, vec![-1.0, -0.5, 0.0, 0.5]);
}

#[test]
fn revolution_sample_positions_degenerate_counts() {
    assert!(sample_positions(0).is_empty());
    assert!(sample_positions(1).is_empty());
    assert!(sample_positions(-6).is_empty());
    // An odd count rounds down to the nearest even number of samples.
    assert_eq!(sample_positions(5).len(), 4);
}

#[test]
fn revolution_short_curve_is_degenerate() {
    let empty: Vec<(f32, f32)> = Vec::new();
    assert!(matches!(Revolution::new(empty).render(), Err(Error::DegenerateSurface)));
    let single = vec![(0.0f32, 1.0f32)];
    assert!(matches!(Revolution::new(single).render(), Err(Error::DegenerateSurface)));
}

#[test]
fn revolution_zero_smoothness_is_degenerate() {
    let surface = Revolution::new(vec![(0.0f32, 1.0f32), (1.0, 1.0)]).smoothness(0);
    assert!(matches!(surface.render(), Err(Error::DegenerateSurface)));
}

#[test]
fn revolution_render_is_deterministic() {
    let surface = Revolution::new(parabola(6)).smoothness(4);
    let first = surface.render().unwrap();
    let second = surface.render().unwrap();
    assert_eq!(first, second);
}

#[test]
fn revolution_winding_matches_corner_samples() {
    let curve = vec![(0.0f32, 1.0f32), (1.0, 2.0), (2.0, 3.0)];
    let n = 4u32;
    let mesh = Revolution::new(curve.clone()).smoothness(n).render().unwrap();
    assert_eq!(mesh.len() as u32, 6 * n * 2);
    for i in 0..n {
        for p in 0..curve.len() as u32 - 1 {
            let corner = |q: u32, a: u32| {
                let point = curve[q as usize];
                (point.0, point.1, Angle { num: 2 * a as u64, den: n as u64 })
            };
            let p0 = corner(p, i);
            let p1 = corner(p, i + 1);
            let p2 = corner(p + 1, i);
            let p3 = corner(p + 1, i + 1);
            let c = ((i * (curve.len() as u32 - 1) + p) * 6) as usize;
            // Triangle A: (p0, p2, p1); triangle B: (p3, p1, p2).
            assert_eq!(mesh[c], p0);
            assert_eq!(mesh[c + 1], p2);
            assert_eq!(mesh[c + 2], p1);
            assert_eq!(mesh[c + 3], p3);
            assert_eq!(mesh[c + 4], p1);
            assert_eq!(mesh[c + 5], p2);
        }
    }
}

#[test]
fn revolution_seam_wraps_to_start() {
    let n = 4u32;
    let surface = Revolution::new(vec![(0.0f32, 1.0f32), (1.0, 2.0)]).smoothness(n);
    let mesh = surface.render().unwrap();
    // Slot 2 of the cell at the last sweep step samples theta at grid index n.
    let wrapped = &mesh[(((n - 1) * 1) * 6 + 2) as usize];
    assert_eq!(wrapped.2, Angle { num: 2 * n as u64, den: n as u64 });
    let start = (wrapped.0, wrapped.1, Angle { num: 0, den: n as u64 });
    let a = project(wrapped);
    let b = project(&start);
    assert!((a.0 - b.0).abs() <= 1e-6 && (a.1 - b.1).abs() <= 1e-6 && (a.2 - b.2).abs() <= 1e-6);
}

#[test]
fn revolution_negative_y_sweeps_mirrored() {
    // A curve point with negative y is swept as documented, not rejected.
    let mesh = Revolution::new(vec![(0.0f32, -1.0f32), (1.0, -2.0)]).smoothness(2).render().unwrap();
    assert_eq!(mesh.len(), 12);
    assert_eq!(mesh[0], (0.0, -1.0, Angle { num: 0, den: 2 }));
}
