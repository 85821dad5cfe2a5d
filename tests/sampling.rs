use pathtracer::sampling::{
    ball_candidate, disk_candidate, random_in_unit_disk, random_in_unit_sphere, BallPoint,
    DiskPoint, UNIT,
};
use rand::rngs::StdRng;
use rand::SeedableRng;

fn ball_norm_sq(p: &BallPoint) -> i64 {
    let (x, y, z) = (p.x as i64, p.y as i64, p.z as i64);
    x * x + y * y + z * z
}

fn disk_norm_sq(p: &DiskPoint) -> i64 {
    let (x, y) = (p.x as i64, p.y as i64);
    x * x + y * y
}

#[test]
fn ball_candidate_accepts_the_centre() {
    assert_eq!(ball_candidate(0, 0, 0), Some(BallPoint { x: 0, y: 0, z: 0 }));
}

#[test]
fn ball_candidate_accepts_a_point_just_inside() {
    assert_eq!(
        ball_candidate(UNIT - 1, 0, 0),
        Some(BallPoint { x: UNIT - 1, y: 0, z: 0 })
    );
}

#[test]
fn ball_candidate_rejects_the_surface() {
    assert_eq!(ball_candidate(-UNIT, 0, 0), None);
    assert_eq!(ball_candidate(0, -UNIT, 0), None);
}

#[test]
fn ball_candidate_rejects_a_cube_corner() {
    assert_eq!(ball_candidate(UNIT - 1, UNIT - 1, 0), None);
    assert_eq!(ball_candidate(-UNIT / 2 - 1, UNIT / 2, UNIT / 2 + 1), Some(BallPoint {
        x: -UNIT / 2 - 1,
        y: UNIT / 2,
        z: UNIT / 2 + 1
    }));
    assert_eq!(ball_candidate(UNIT - 1, UNIT - 1, UNIT - 1), None);
}

#[test]
fn ball_candidate_rejects_points_outside_the_cube() {
    assert_eq!(ball_candidate(UNIT, 0, 0), None);
    assert_eq!(ball_candidate(0, 0, i32::MIN), None);
    assert_eq!(ball_candidate(i32::MAX, i32::MAX, i32::MAX), None);
}

#[test]
fn disk_candidate_accepts_and_rejects() {
    assert_eq!(disk_candidate(0, 0), Some(DiskPoint { x: 0, y: 0 }));
    assert_eq!(disk_candidate(0, UNIT - 1), Some(DiskPoint { x: 0, y: UNIT - 1 }));
    assert_eq!(disk_candidate(-UNIT, 0), None);
    assert_eq!(disk_candidate(UNIT - 1, UNIT - 1), None);
    assert_eq!(disk_candidate(UNIT, 0), None);
}

#[test]
fn sphere_samples_lie_inside_the_unit_ball() {
    let mut rng = StdRng::seed_from_u64(7);
    let bound = (UNIT as i64) * (UNIT as i64);
    let mut distinct = std::collections::HashSet::new();
    for _ in 0..2000 {
        let p = random_in_unit_sphere(&mut rng);
        assert!(ball_norm_sq(&p) < bound);
        distinct.insert((p.x, p.y, p.z));
    }
    assert!(distinct.len() > 1900);
}

#[test]
fn sphere_samples_cover_every_octant() {
    let mut rng = StdRng::seed_from_u64(11);
    let mut octants = [0u32; 8];
    for _ in 0..4000 {
        let p = random_in_unit_sphere(&mut rng);
        let o = (p.x < 0) as usize * 4 + (p.y < 0) as usize * 2 + (p.z < 0) as usize;
        octants[o] += 1;
    }
    for count in octants {
        assert!(count > 300);
    }
}

#[test]
fn disk_samples_lie_inside_the_unit_disk() {
    let mut rng = StdRng::seed_from_u64(3);
    let bound = (UNIT as i64) * (UNIT as i64);
    let mut far = 0;
    for _ in 0..2000 {
        let p = random_in_unit_disk(&mut rng);
        assert!(disk_norm_sq(&p) < bound);
        if disk_norm_sq(&p) > bound / 4 {
            far += 1;
        }
    }
    // three quarters of the disk's area lies beyond half its radius
    assert!(far > 1300);
}

#[test]
fn seeded_samplers_repeat() {
    let mut a = StdRng::seed_from_u64(42);
    let mut b = StdRng::seed_from_u64(42);
    for _ in 0..100 {
        assert_eq!(random_in_unit_sphere(&mut a), random_in_unit_sphere(&mut b));
        assert_eq!(random_in_unit_disk(&mut a), random_in_unit_disk(&mut b));
    }
}
