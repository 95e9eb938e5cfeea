use geng_utils::torus::axis::{shortest_between, wrap_coord};
use geng_utils::torus::camera::CameraTorus;
use geng_utils::torus::position::PositionTorus;
use geng_utils::vector::Vec2;
use rand::rngs::StdRng;
use rand::SeedableRng;

fn world() -> Vec2 {
    Vec2::new(20, 10)
}

fn at(x: i64, y: i64) -> PositionTorus {
    PositionTorus::from_world(Vec2::new(x, y), world())
}

#[test]
fn test_delta() {
    let world_size = Vec2::new(20, 10);
    let a = PositionTorus::from_world(Vec2::new(15, 1), world_size);
    let b = PositionTorus::from_world(Vec2::new(10, 5), world_size);
    let c = PositionTorus::from_world(Vec2::new(2, 7), world_size);
    assert_eq!(a.delta_to(b), Vec2::new(-5, 4));
    assert_eq!(a.delta_to(c), Vec2::new(7, -4));
    assert_eq!(b.delta_to(c), Vec2::new(-8, 2));
}

#[test]
fn camera_projects_into_unwrapped_frame() {
    let mut camera = CameraTorus::new(5, world());
    camera.center = at(15, 1);
    let object = at(2, 7);
    assert_eq!(camera.center.delta_to(object), Vec2::new(7, -4));
    assert_eq!(camera.project(object), Vec2::new(22, -3));
}

#[test]
fn new_camera_looks_at_zero_without_rotation() {
    let camera = CameraTorus::new(5, world());
    assert_eq!(camera.center, PositionTorus::zero(world()));
    assert_eq!(camera.center.to_world(), Vec2::new(0, 0));
    assert_eq!(camera.center.world_size(), world());
    assert_eq!(camera.fov, 5);
    assert_eq!(camera.rotation, 0);
}

#[test]
fn projection_of_the_center_is_the_center() {
    let mut camera = CameraTorus::new(5, world());
    camera.center = at(20, 10);
    assert_eq!(camera.project(camera.center), Vec2::new(20, 10));
    assert_eq!(camera.project(at(0, 0)), Vec2::new(20, 10));
    assert_eq!(camera.project(at(9, 4)), Vec2::new(29, 14));
}

#[test]
fn from_world_keeps_canonical_coordinates() {
    assert_eq!(at(0, 0).to_world(), Vec2::new(0, 0));
    assert_eq!(at(15, 1).to_world(), Vec2::new(15, 1));
    assert_eq!(at(7, 3).world_size(), world());
}

#[test]
fn from_world_keeps_the_upper_bound() {
    assert_eq!(at(20, 10).to_world(), Vec2::new(20, 10));
    assert_eq!(at(20, 0).to_world(), Vec2::new(20, 0));
    assert_eq!(at(0, 10).to_world(), Vec2::new(0, 10));
}

#[test]
fn from_world_wraps_one_period() {
    assert_eq!(at(21, 11).to_world(), Vec2::new(1, 1));
    assert_eq!(at(-1, -1).to_world(), Vec2::new(19, 9));
    assert_eq!(at(-20, -10).to_world(), Vec2::new(0, 0));
    assert_eq!(at(40, 20).to_world(), Vec2::new(20, 10));
}

#[test]
fn from_world_wraps_many_periods() {
    assert_eq!(at(-45, 31).to_world(), Vec2::new(15, 1));
    assert_eq!(at(2015, -993).to_world(), Vec2::new(15, 7));
    assert_eq!(at(-2000, 1000).to_world(), Vec2::new(0, 10));
    assert_eq!(at(2000, -1000).to_world(), Vec2::new(20, 0));
}

#[test]
fn from_world_wraps_the_extremes() {
    let p = PositionTorus::from_world(Vec2::new(i64::MIN, i64::MAX), Vec2::new(7, 3));
    assert_eq!(p.to_world(), Vec2::new(6, 1));
    let q = PositionTorus::from_world(Vec2::new(i64::MAX, i64::MIN), Vec2::new(1, i64::MAX));
    assert_eq!(q.to_world(), Vec2::new(1, i64::MAX - 1));
    let r = PositionTorus::from_world(Vec2::new(i64::MAX, 5), Vec2::new(i64::MAX, i64::MAX));
    assert_eq!(r.to_world(), Vec2::new(i64::MAX, 5));
}

#[test]
fn from_world_lands_in_the_canonical_range() {
    for x in -65..=65 {
        for y in -35..=35 {
            let pos = at(x, y).to_world();
            assert!(0 <= pos.x && pos.x <= 20);
            assert!(0 <= pos.y && pos.y <= 10);
            assert_eq!((pos.x - x).rem_euclid(20), 0);
            assert_eq!((pos.y - y).rem_euclid(10), 0);
        }
    }
}

#[test]
fn from_world_is_idempotent() {
    for x in -65..=65 {
        for y in -35..=35 {
            let once = at(x, y);
            let twice = PositionTorus::from_world(once.to_world(), world());
            assert_eq!(twice, once);
        }
    }
}

#[test]
fn wrap_coord_agrees_with_stepping() {
    for size in 1..=6i64 {
        for p in -40..=40i64 {
            let mut stepped = p;
            while stepped < 0 {
                stepped += size;
            }
            while stepped > size {
                stepped -= size;
            }
            assert_eq!(wrap_coord(p as i128, size), stepped);
        }
    }
}

#[test]
fn wrap_coord_takes_wide_coordinates() {
    assert_eq!(wrap_coord(i128::MIN, 10), 2);
    assert_eq!(wrap_coord(i128::MAX, 10), 7);
    assert_eq!(wrap_coord(i64::MAX as i128 + i64::MAX as i128, i64::MAX), i64::MAX);
    assert_eq!(wrap_coord(-1, i64::MAX), i64::MAX - 1);
}

#[test]
fn zero_is_at_the_origin() {
    let zero = PositionTorus::zero(world());
    assert_eq!(zero.to_world(), Vec2::new(0, 0));
    assert_eq!(zero.world_size(), world());
    assert_eq!(zero, at(0, 0));
}

#[test]
fn delta_is_antisymmetric() {
    for ax in 0..=20 {
        for bx in 0..=20 {
            let a = at(ax, (ax * 7) % 11);
            let b = at(bx, (bx * 5) % 11);
            let there = a.delta_to(b);
            let back = b.delta_to(a);
            assert_eq!(there, Vec2::new(-back.x, -back.y));
        }
    }
}

#[test]
fn delta_covers_at_most_half_the_world() {
    for ax in 0..=20 {
        for ay in 0..=10 {
            for bx in 0..=20 {
                for by in 0..=10 {
                    let d = at(ax, ay).delta_to(at(bx, by));
                    assert!(d.x.abs() * 2 <= 20);
                    assert!(d.y.abs() * 2 <= 10);
                    assert_eq!((ax + d.x - bx).rem_euclid(20), 0);
                    assert_eq!((ay + d.y - by).rem_euclid(10), 0);
                }
            }
        }
    }
}

#[test]
fn delta_at_exactly_half_the_world_keeps_its_sign() {
    assert_eq!(at(0, 0).delta_to(at(10, 5)), Vec2::new(10, 5));
    assert_eq!(at(10, 5).delta_to(at(0, 0)), Vec2::new(-10, -5));
    assert_eq!(at(5, 10).delta_to(at(15, 5)), Vec2::new(10, -5));
}

#[test]
fn delta_just_over_half_the_world_goes_the_other_way() {
    assert_eq!(at(0, 0).delta_to(at(11, 6)), Vec2::new(-9, -4));
    assert_eq!(at(11, 6).delta_to(at(0, 0)), Vec2::new(9, 4));
    assert_eq!(at(0, 0).delta_to(at(20, 10)), Vec2::new(0, 0));
}

#[test]
fn delta_to_self_is_zero() {
    assert_eq!(at(15, 1).delta_to(at(15, 1)), Vec2::new(0, 0));
    assert_eq!(at(20, 10).delta_to(at(20, 10)), Vec2::new(0, 0));
}

#[test]
fn delta_in_an_odd_world() {
    let size = Vec2::new(7, 1);
    let a = PositionTorus::from_world(Vec2::new(0, 0), size);
    let b = PositionTorus::from_world(Vec2::new(3, 1), size);
    let c = PositionTorus::from_world(Vec2::new(4, 1), size);
    assert_eq!(a.delta_to(b), Vec2::new(3, 0));
    assert_eq!(a.delta_to(c), Vec2::new(-3, 0));
}

#[test]
fn delta_in_the_largest_world() {
    let size = Vec2::new(i64::MAX, i64::MAX);
    let a = PositionTorus::from_world(Vec2::new(0, i64::MAX), size);
    let b = PositionTorus::from_world(Vec2::new(i64::MAX, 0), size);
    assert_eq!(a.delta_to(b), Vec2::new(0, 0));
    let c = PositionTorus::from_world(Vec2::new(i64::MAX - 1, 1), size);
    assert_eq!(a.delta_to(c), Vec2::new(-1, 1));
}

#[test]
fn shortest_between_along_one_axis() {
    assert_eq!(shortest_between(15, 10, 20), -5);
    assert_eq!(shortest_between(15, 2, 20), 7);
    assert_eq!(shortest_between(1, 7, 10), -4);
    assert_eq!(shortest_between(0, 5, 10), 5);
    assert_eq!(shortest_between(5, 0, 10), -5);
}

#[test]
fn positions_of_different_worlds_do_not_meet_the_precondition_of_delta() {
    let a = PositionTorus::from_world(Vec2::new(1, 1), Vec2::new(20, 10));
    let b = PositionTorus::from_world(Vec2::new(1, 1), Vec2::new(5, 5));
    assert_ne!(a.world_size(), b.world_size());
    assert_ne!(a, b);
}

#[test]
fn as_dir_is_the_delta_from_zero() {
    assert_eq!(at(15, 1).as_dir(), Vec2::new(-5, 1));
    assert_eq!(at(2, 7).as_dir(), Vec2::new(2, -3));
    assert_eq!(at(10, 5).as_dir(), Vec2::new(10, 5));
    assert_eq!(at(20, 10).as_dir(), Vec2::new(0, 0));
    for x in 0..=20 {
        for y in 0..=10 {
            assert_eq!(at(x, y).as_dir(), PositionTorus::zero(world()).delta_to(at(x, y)));
        }
    }
}

#[test]
fn shifted_is_from_world_of_the_sum() {
    for x in 0..=20 {
        for dx in -50..=50 {
            let p = at(x, 3);
            let d = Vec2::new(dx, -2 * dx);
            let expected = PositionTorus::from_world(Vec2::new(x + dx, 3 - 2 * dx), world());
            assert_eq!(p.shifted(d), expected);
            assert_eq!(p.shifted(d).world_size(), world());
        }
    }
}

#[test]
fn shifted_examples() {
    assert_eq!(at(15, 1).shifted(Vec2::new(10, -2)).to_world(), Vec2::new(5, 9));
    assert_eq!(at(15, 1).shifted(Vec2::new(5, 9)).to_world(), Vec2::new(20, 10));
    assert_eq!(at(15, 1).shifted(Vec2::new(-15, -1)).to_world(), Vec2::new(0, 0));
    assert_eq!(at(15, 1).shifted(Vec2::new(0, 0)).to_world(), Vec2::new(15, 1));
}

#[test]
fn shift_changes_the_position_in_place() {
    let mut p = at(15, 1);
    p.shift(Vec2::new(10, -2));
    assert_eq!(p, at(15, 1).shifted(Vec2::new(10, -2)));
    assert_eq!(p.to_world(), Vec2::new(5, 9));
    p.shift(Vec2::new(-5, 1));
    assert_eq!(p.to_world(), Vec2::new(0, 10));
    assert_eq!(p.world_size(), world());
}

#[test]
fn shifted_by_the_extremes_does_not_overflow() {
    let p = at(20, 10);
    assert_eq!(p.shifted(Vec2::new(i64::MAX, i64::MIN)).to_world(), Vec2::new(7, 2));
    let q = PositionTorus::from_world(Vec2::new(i64::MAX, 0), Vec2::new(i64::MAX, i64::MAX));
    assert_eq!(
        q.shifted(Vec2::new(i64::MAX, i64::MIN)).to_world(),
        Vec2::new(i64::MAX, i64::MAX - 1)
    );
}

#[test]
fn random_positions_are_canonical() {
    let mut rng = StdRng::seed_from_u64(7);
    for _ in 0..500 {
        let p = PositionTorus::random(&mut rng, world());
        let pos = p.to_world();
        assert!(0 <= pos.x && pos.x <= 20);
        assert!(0 <= pos.y && pos.y <= 10);
        assert_eq!(p.world_size(), world());
    }
}

#[test]
fn random_positions_vary_and_reach_both_ends() {
    let mut rng = StdRng::seed_from_u64(11);
    let size = Vec2::new(3, 2);
    let mut seen_x = [false; 4];
    let mut seen_y = [false; 3];
    for _ in 0..500 {
        let pos = PositionTorus::random(&mut rng, size).to_world();
        seen_x[pos.x as usize] = true;
        seen_y[pos.y as usize] = true;
    }
    assert_eq!(seen_x, [true; 4]);
    assert_eq!(seen_y, [true; 3]);
}

#[test]
fn random_positions_follow_the_seed() {
    let mut first = StdRng::seed_from_u64(3);
    let mut second = StdRng::seed_from_u64(3);
    for _ in 0..50 {
        assert_eq!(
            PositionTorus::random(&mut first, world()),
            PositionTorus::random(&mut second, world())
        );
    }
}
