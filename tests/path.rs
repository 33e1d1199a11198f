use raytracer::path::{advance, start, Event, Step};

#[test]
fn zero_depth_is_black() {
    assert_eq!(start(0), Step::Black);
}

#[test]
fn start_traces_with_full_depth() {
    assert_eq!(start(50), Step::Trace { depth_left: 50 });
}

#[test]
fn miss_shades_sky() {
    assert_eq!(advance(1, Event::Missed), Step::Sky);
    assert_eq!(advance(10, Event::Missed), Step::Sky);
}

#[test]
fn absorption_is_black() {
    assert_eq!(advance(10, Event::Absorbed), Step::Black);
}

#[test]
fn scatter_spends_one_depth() {
    assert_eq!(advance(10, Event::Scattered), Step::Trace { depth_left: 9 });
    assert_eq!(advance(1, Event::Scattered), Step::Black);
}

#[test]
fn endless_scattering_stops_at_max_depth() {
    let mut step = start(5);
    let mut rays = 0;
    while let Step::Trace { depth_left } = step {
        rays += 1;
        step = advance(depth_left, Event::Scattered);
    }
    assert_eq!(rays, 5);
    assert_eq!(step, Step::Black);
}

#[test]
fn one_depth_sees_sky_directly() {
    let step = start(1);
    match step {
        Step::Trace { depth_left } => assert_eq!(advance(depth_left, Event::Missed), Step::Sky),
        _ => panic!("expected a traced ray"),
    }
}
