use hungry_pixel::edible::Edible;
use hungry_pixel::geometry::{div_unit, rect_of_square, to_pixel, Rect, UNIT};
use hungry_pixel::random::random_in;
use hungry_pixel::settings::GameSettings;
use hungry_pixel::spike::Spike;

#[test]
fn edible_decays_to_zero_at_most() {
    let mut e = Edible::new(10, 20, 3 * UNIT);
    e.deteriorate(UNIT);
    assert_eq!(e.nutrition, 2 * UNIT);
    assert_eq!(e.rect, Rect { x: 10, y: 20, w: 2, h: 2 });
    e.deteriorate(5 * UNIT);
    assert_eq!(e.nutrition, 0);
    assert_eq!(e.rect.w, 1);
}

#[test]
fn spike_moves_and_turns_at_walls() {
    let mut s = Spike::new(90, 0, 10, 10, (1, 0), 1000);
    s.update(5, (100, 100));
    assert_eq!(s.x, 90 * UNIT);
    assert_eq!(s.direction, (-1, 0));
    s.update(10, (100, 100));
    assert_eq!(s.x, 89_990_000);
    assert_eq!(s.rect.x, 89);
    let mut t = Spike::new(1, 5, 10, 10, (0, -1), 2000);
    t.update(3000, (100, 100));
    assert_eq!(t.y, 0);
    assert_eq!(t.direction, (0, 1));
    t.set_speed(7);
    assert_eq!(t.speed, 7);
}

#[test]
fn random_spike_sits_on_an_edge() {
    for _ in 0..50 {
        let s = Spike::random(1024, 768, 15, 55);
        let on_edge = (s.direction == (1, 0) && s.y == 0)
            || (s.direction == (0, 1) && s.x == (1024 - s.dimensions.0 as i64) * UNIT)
            || (s.direction == (-1, 0) && s.y == (768 - s.dimensions.1 as i64) * UNIT)
            || (s.direction == (0, -1) && s.x == 0);
        assert!(on_edge);
    }
}

#[test]
fn random_values_vary_within_range() {
    let draws: Vec<i64> = (0..60).map(|_| random_in(0, 1000)).collect();
    assert!(draws.iter().all(|&v| (0..1000).contains(&v)));
    assert!(draws.iter().any(|&v| v != 0));
    assert_eq!(random_in(7, 7), 7);
}

#[test]
fn rectangles_overlap_only_with_shared_interior() {
    let a = Rect::new(0, 0, 10, 10);
    assert!(a.intersects(&Rect::new(9, 9, 5, 5)));
    assert!(!a.intersects(&Rect::new(10, 0, 5, 5)));
    assert!(!a.intersects(&Rect::new(-5, 0, 5, 5)));
    assert_eq!(Rect::new(1, 2, 0, 0), Rect { x: 1, y: 2, w: 1, h: 1 });
}

#[test]
fn pixels_truncate_toward_zero() {
    assert_eq!(div_unit(1_999_999), 1);
    assert_eq!(div_unit(-1_999_999), -1);
    assert_eq!(to_pixel(-500_000), 0);
    assert_eq!(rect_of_square(2_500_000, -3_500_000, 4_900_000), Rect { x: 2, y: -3, w: 4, h: 4 });
}

#[test]
fn default_settings() {
    let s = GameSettings::new();
    assert_eq!(s.deterioration_rate, 750);
    assert_eq!(s.edible_bounds, (15, 25));
    assert_eq!(s.spikes_bounds, (15, 55));
    assert_eq!(s.edibles_spawn_rate, 3000);
}
