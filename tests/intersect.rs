use raytracer::hit::{closest_hit, order_key, select_root, Root};

fn key(t: f64) -> u64 {
    order_key(t.to_bits())
}

#[test]
fn order_key_follows_numeric_order() {
    let values = [-1e9, -2.5, -1.0, -1e-300, 0.0, 1e-3, 0.5, 1.0, 2.0, 1e9, f64::INFINITY];
    for i in 0..values.len() {
        for j in 0..values.len() {
            assert_eq!(values[i] < values[j], key(values[i]) < key(values[j]), "{} {}", values[i], values[j]);
        }
    }
}

#[test]
fn order_key_changes_bits() {
    assert_eq!(order_key(0), 0x8000_0000_0000_0000);
    assert_eq!(order_key(0x8000_0000_0000_0000), 0x7fff_ffff_ffff_ffff);
    assert_eq!(order_key(1.0f64.to_bits()), 0xbff0_0000_0000_0000);
}

#[test]
fn negative_discriminant_misses() {
    assert_eq!(select_root(true, key(1.0), key(2.0), key(1e-3), key(f64::INFINITY)), None);
}

#[test]
fn near_root_in_front_is_taken() {
    // ray from (0,0,0) towards a unit sphere at (0,0,-3): roots 2 and 4
    assert_eq!(select_root(false, key(2.0), key(4.0), key(1e-3), key(f64::INFINITY)), Some(Root::Near));
}

#[test]
fn inside_sphere_takes_far_root() {
    // origin inside: roots -1 and 1
    assert_eq!(select_root(false, key(-1.0), key(1.0), key(1e-3), key(f64::INFINITY)), Some(Root::Far));
}

#[test]
fn self_intersection_rejected() {
    // starting on the surface: near root 0 lies below t_min, far root is the other side
    assert_eq!(select_root(false, key(0.0), key(1.0), key(1e-3), key(f64::INFINITY)), Some(Root::Far));
    // leaving the surface outward: both roots at or behind the origin
    assert_eq!(select_root(false, key(-1.0), key(0.0), key(1e-3), key(f64::INFINITY)), None);
}

#[test]
fn roots_beyond_t_max_miss() {
    assert_eq!(select_root(false, key(5.0), key(6.0), key(1e-3), key(4.0)), None);
}

#[test]
fn range_is_inclusive() {
    assert_eq!(select_root(false, key(4.0), key(6.0), key(1e-3), key(4.0)), Some(Root::Near));
    assert_eq!(select_root(false, key(1e-3), key(6.0), key(1e-3), key(4.0)), Some(Root::Near));
}

#[test]
fn closest_of_several() {
    let hits = vec![Some(key(3.0)), None, Some(key(1.5)), Some(key(2.0))];
    assert_eq!(closest_hit(&hits, key(1e-3), key(f64::INFINITY)), Some(2));
}

#[test]
fn closest_of_none() {
    let hits: Vec<Option<u64>> = vec![None, None];
    assert_eq!(closest_hit(&hits, key(1e-3), key(f64::INFINITY)), None);
    assert_eq!(closest_hit(&Vec::new(), key(1e-3), key(f64::INFINITY)), None);
}

#[test]
fn closest_ignores_out_of_range() {
    let hits = vec![Some(key(0.0)), Some(key(10.0)), Some(key(5.0))];
    assert_eq!(closest_hit(&hits, key(1e-3), key(6.0)), Some(2));
    assert_eq!(closest_hit(&hits, key(1e-3), key(4.0)), None);
}

#[test]
fn closest_tie_goes_to_later() {
    let hits = vec![Some(key(2.0)), Some(key(2.0)), Some(key(3.0))];
    assert_eq!(closest_hit(&hits, key(1e-3), key(f64::INFINITY)), Some(1));
}

#[test]
fn narrowing_scan_agrees_with_full_range() {
    // (discriminant negative, near, far) of four spheres along one ray
    let spheres = [(false, 5.0, 7.0), (true, 0.0, 0.0), (false, -1.0, 3.0), (false, 2.0, 4.0)];
    let (t_min, t_max) = (key(1e-3), key(f64::INFINITY));
    let pick = |s: &(bool, f64, f64), hi: u64| match select_root(s.0, key(s.1), key(s.2), t_min, hi) {
        Some(Root::Near) => Some(key(s.1)),
        Some(Root::Far) => Some(key(s.2)),
        None => None,
    };
    let mut closest = t_max;
    let mut best = None;
    for (i, s) in spheres.iter().enumerate() {
        if let Some(t) = pick(s, closest) {
            closest = t;
            best = Some(i);
        }
    }
    let full: Vec<Option<u64>> = spheres.iter().map(|s| pick(s, t_max)).collect();
    assert_eq!(best, Some(3));
    assert_eq!(closest_hit(&full, t_min, t_max), best);
}
