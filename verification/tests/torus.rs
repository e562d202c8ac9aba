use gl385::{Angle, Error, Torus};

const PI: f32 = std::f32::consts::PI;

/// Evaluate an exact angle in radians.
fn radians(a: &Angle) -> f32 {
    a.num as f32 / a.den as f32 * PI
}

/// The toroidal projection of one emitted vertex: the tube radius is
/// `major + minor * cos(phi)`, and the z offset uses `minor * sin(phi)` so
/// the tube's cross-section stays circular.
fn project(v: &(f32, f32, Angle, Angle)) -> (f32, f32, f32) {
    let (major, minor, theta, phi) = v;
    let theta = radians(theta);
    let phi = radians(phi);
    let tube = major + minor * phi.cos();
    (tube * theta.cos(), tube * theta.sin(), minor * phi.sin())
}

fn close(a: (f32, f32, f32), b: (f32, f32, f32), tol: f32) -> bool {
    (a.0 - b.0).abs() <= tol && (a.1 - b.1).abs() <= tol && (a.2 - b.2).abs() <= tol
}

#[test]
fn torus_cross_section_point() {
    let mesh = Torus::new(0.7f32, 0.3f32).smoothness(4).render().unwrap();
    // The first vertex of the first cell samples (theta(0), phi(0)).
    assert_eq!(mesh[0].2, Angle { num: 0, den: 4 });
    assert_eq!(mesh[0].3, Angle { num: 0, den: 4 });
    let outer = project(&mesh[0]);
    assert!(close(outer, (1.0, 0.0, 0.0), 1e-6));
}

#[test]
fn torus_triangle_count_matches_cells() {
    for n in 1u32..8 {
        let mesh = Torus::new(0.7f32, 0.3f32).smoothness(n).render().unwrap();
        assert_eq!(mesh.len() as u32, 6 * n * n);
        assert_eq!(mesh.len() % 3, 0);
    }
}

#[test]
fn torus_render_is_deterministic() {
    let torus = Torus::new(0.7f32, 0.3f32).smoothness(6);
    let first = torus.render().unwrap();
    let second = torus.render().unwrap();
    assert_eq!(first, second);
}

#[test]
fn torus_update_always_signals_redraw() {
    let mut torus = Torus::new(0.7f32, 0.3f32);
    for _ in 0..5 {
        assert!(torus.update());
    }
}

#[test]
fn torus_zero_smoothness_is_degenerate() {
    let r = Torus::new(0.7f32, 0.3f32).smoothness(0).render();
    assert!(matches!(r, Err(Error::DegenerateSurface)));
}

#[test]
fn torus_winding_matches_corner_samples() {
    let n = 3u32;
    let mesh = Torus::new(0.7f32, 0.3f32).smoothness(n).render().unwrap();
    for i in 0..n {
        for j in 0..n {
            let corner = |a: u32, b: u32| {
                (
                    0.7f32,
                    0.3f32,
                    Angle { num: 2 * a as u64, den: n as u64 },
                    Angle { num: 2 * b as u64, den: n as u64 },
                )
            };
            let p0 = corner(i, j);
            let p1 = corner(i, j + 1);
            let p2 = corner(i + 1, j);
            let p3 = corner(i + 1, j + 1);
            let c = ((i * n + j) * 6) as usize;
            // Triangle A: (p0, p2, p1); triangle B: (p3, p1, p2).
            assert_eq!(mesh[c], p0);
            assert_eq!(mesh[c + 1], p2);
            assert_eq!(mesh[c + 2], p1);
            assert_eq!(mesh[c + 3], p3);
            assert_eq!(mesh[c + 4], p1);
            assert_eq!(mesh[c + 5], p2);
        }
    }
}

#[test]
fn torus_seam_wraps_to_start() {
    let n = 4u32;
    let mesh = Torus::new(0.7f32, 0.3f32).smoothness(n).render().unwrap();
    // Slot 1 of the cell (n - 1, 1) samples the major angle at grid index n;
    // slot 2 of the cell (1, n - 1) samples the minor angle at grid index n.
    let wrapped_major = &mesh[(((n - 1) * n + 1) * 6 + 1) as usize];
    assert_eq!(wrapped_major.2, Angle { num: 2 * n as u64, den: n as u64 });
    let major_start = (
        wrapped_major.0,
        wrapped_major.1,
        Angle { num: 0, den: n as u64 },
        wrapped_major.3,
    );
    assert!(close(project(wrapped_major), project(&major_start), 1e-6));

    let wrapped_minor = &mesh[((n + (n - 1)) * 6 + 2) as usize];
    assert_eq!(wrapped_minor.3, Angle { num: 2 * n as u64, den: n as u64 });
    let minor_start = (
        wrapped_minor.0,
        wrapped_minor.1,
        wrapped_minor.2,
        Angle { num: 0, den: n as u64 },
    );
    assert!(close(project(wrapped_minor), project(&minor_start), 1e-6));
}

#[test]
fn torus_builder_overrides_fields() {
    let mesh = Torus::new(0.7f32, 0.3f32)
        .major_radius(2.0)
        .minor_radius(0.5)
        .smoothness(2)
        .render()
        .unwrap();
    assert_eq!(mesh.len(), 24);
    assert!(mesh.iter().all(|v| v.0 == 2.0 && v.1 == 0.5));
}
