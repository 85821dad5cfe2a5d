use pathtracer::integrator::{Action, Segment, Tracer, MAX_DEPTH};

#[test]
fn miss_shows_the_sky() {
    assert_eq!(Tracer::new(MAX_DEPTH).on_segment(Segment::Miss), Action::Background);
    assert_eq!(
        Tracer::at_depth(MAX_DEPTH, MAX_DEPTH).on_segment(Segment::Miss),
        Action::Background
    );
}

#[test]
fn hit_with_depth_left_scatters() {
    assert_eq!(Tracer::new(MAX_DEPTH).on_segment(Segment::Hit), Action::Scatter);
    assert_eq!(
        Tracer::at_depth(MAX_DEPTH - 1, MAX_DEPTH).on_segment(Segment::Hit),
        Action::Scatter
    );
}

#[test]
fn hit_at_max_depth_is_black() {
    assert_eq!(
        Tracer::at_depth(MAX_DEPTH, MAX_DEPTH).on_segment(Segment::Hit),
        Action::Absorb
    );
    assert_eq!(Tracer::new(0).on_segment(Segment::Hit), Action::Absorb);
}

#[test]
fn redirected_scatter_goes_one_level_deeper() {
    let mut t = Tracer::new(MAX_DEPTH);
    assert!(t.on_scatter(true));
    assert_eq!(t, Tracer::at_depth(1, MAX_DEPTH));
}

#[test]
fn absorbed_scatter_ends_the_path() {
    let mut t = Tracer::at_depth(4, MAX_DEPTH);
    assert!(!t.on_scatter(false));
    assert_eq!(t.depth, 4);
}

#[test]
fn path_between_mirrors_ends_black_after_max_depth_scatters() {
    let mut t = Tracer::new(MAX_DEPTH);
    let mut scatters = 0;
    loop {
        match t.on_segment(Segment::Hit) {
            Action::Scatter => {
                assert!(t.on_scatter(true));
                scatters += 1;
            }
            other => {
                assert_eq!(other, Action::Absorb);
                break;
            }
        }
    }
    assert_eq!(scatters, 50);
    assert_eq!(t.depth, MAX_DEPTH);
}
