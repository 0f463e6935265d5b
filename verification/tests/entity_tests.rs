use asteroids::asteroid::{Asteroid, Size};
use asteroids::missile::Missile;
use asteroids::spaceship::Spaceship;
use asteroids::stellarobject::{collide, circle_overlap};
use asteroids::vec2::Vec2;

#[test]
fn test_asteroid_split_large() {
    let asteroid = Asteroid::with_size(Size::Large, Vec2::new(50, 50));
    let children = asteroid.split();
    assert_eq!(children.len(), 2);
    assert_eq!(children[0].size, Size::Medium);
    assert_eq!(children[1].size, Size::Medium);
}

#[test]
fn test_asteroid_split_small() {
    let asteroid = Asteroid::with_size(Size::Small, Vec2::new(50, 50));
    let children = asteroid.split();
    assert!(children.is_empty());
}

#[test]
fn test_bound_to() {
    assert_eq!(Asteroid::bound_to(-10, 100), 110);
    assert_eq!(Asteroid::bound_to(110, 100), 10);
    assert_eq!(Asteroid::bound_to(50, 100), 50);
}

#[test]
fn test_missile_new() {
    let spaceship_position = Vec2::new(100, 200);
    let velocity = Vec2::new(3, 3);
    let missile = Missile::new(spaceship_position, velocity);
    assert_eq!(missile.get_position(), spaceship_position);
    assert_eq!(missile.velocity, velocity);
    assert!(missile.is_active());
}

#[test]
fn test_split_child_positions() {
    let asteroid = Asteroid::with_size(Size::Medium, Vec2::new(50, 50));
    let children = asteroid.split();
    assert_eq!(children.len(), 2);
    assert_eq!(children[0].get_position(), Vec2::new(70, 70));
    assert_eq!(children[1].get_position(), Vec2::new(30, 30));
    assert_eq!(children[0].get_size(), Size::Small);
    assert_eq!(children[1].get_size(), Size::Small);
}

#[test]
fn test_bound_to_edges() {
    // An in-bounds coordinate is untouched, including both endpoints.
    assert_eq!(Asteroid::bound_to(0, 100), 0);
    assert_eq!(Asteroid::bound_to(100, 100), 100);
    // The ship uses the same rule.
    assert_eq!(Spaceship::bound_to(-10, 100), 110);
    assert_eq!(Spaceship::bound_to(110, 100), 10);
    assert_eq!(Spaceship::bound_to(50, 100), 50);
}

#[test]
fn test_collision_symmetry() {
    let a = Asteroid::with_size(Size::Medium, Vec2::new(100, 100));
    let b = Asteroid::with_size(Size::Large, Vec2::new(120, 110));
    assert_eq!(collide(&a, &b), collide(&b, &a));
    assert!(collide(&a, &b));
    let far = Asteroid::with_size(Size::Small, Vec2::new(500, 500));
    assert_eq!(collide(&a, &far), collide(&far, &a));
    assert!(!collide(&a, &far));
}

#[test]
fn test_collision_threshold_strict() {
    // Radii are 15 + 15, so a centre distance of exactly 30 is no hit...
    let p = Vec2::new(0, 0);
    let q = Vec2::new(30, 0);
    assert!(!circle_overlap(p, 30, q, 30));
    // ...while one unit below the threshold is.
    let r = Vec2::new(29, 0);
    assert!(circle_overlap(p, 30, r, 30));
}

#[test]
fn test_missile_leaves_screen() {
    let mut missile = Missile::new(Vec2::new(95, 50), Vec2::new(10, 0));
    missile.update(100, 100);
    assert_eq!(missile.get_position(), Vec2::new(105, 50));
    assert!(!missile.is_active());
    // Once inactive it never moves again.
    missile.update(100, 100);
    assert_eq!(missile.get_position(), Vec2::new(105, 50));
    assert!(!missile.is_active());
}

#[test]
fn test_missile_stays_active_inside() {
    let mut missile = Missile::new(Vec2::new(50, 50), Vec2::new(10, 0));
    missile.update(100, 100);
    assert_eq!(missile.get_position(), Vec2::new(60, 50));
    assert!(missile.is_active());
    missile.deactivate();
    assert!(!missile.is_active());
}

#[test]
fn test_asteroid_move_wraps() {
    let mut a = Asteroid::with_size(Size::Small, Vec2::new(95, 5));
    a.speed = Vec2::new(10, -10);
    let p = a.move_object(100, 100);
    // 105 wraps to 5; -5 re-reflects to 105.
    assert_eq!(p, Vec2::new(5, 105));
    assert_eq!(a.get_position(), Vec2::new(5, 105));
    assert_eq!(a.get_size(), Size::Small);
}

#[test]
fn test_asteroid_new_spawns_near_edge() {
    for _ in 0..20 {
        let a = Asteroid::new(1000, 800);
        assert_eq!(a.get_size(), Size::Large);
        let p = a.get_position();
        assert!(0 <= p.x && p.x <= 1000);
        assert!(0 <= p.y && p.y <= 800);
        // The spawn hugs one of the four edges, half to one large
        // diameter away from it, never the screen centre.
        assert!(
            (30 <= p.x && p.x <= 60)
                || (940 <= p.x && p.x <= 970)
                || (30 <= p.y && p.y <= 60)
                || (740 <= p.y && p.y <= 770)
        );
        assert!(-1 <= a.speed.x && a.speed.x <= 1);
        assert!(-1 <= a.speed.y && a.speed.y <= 1);
        assert!(!(a.speed.x == 0 && a.speed.y == 0));
    }
}

#[test]
fn test_spaceship_new_centered() {
    let ship = Spaceship::new(1000, 800);
    assert_eq!(ship.get_position(), Vec2::new(500, 400));
    assert_eq!(ship.velocity, Vec2::new(0, 0));
    assert_eq!(ship.get_direction(), 0);
    assert!(!ship.push);
}

#[test]
fn test_spaceship_thrust_and_drag() {
    let mut ship = Spaceship::new(1000, 1000);
    ship.set_push(true);
    ship.update(Vec2::new(100, 0), 1000, 1000);
    // Thrust accumulates first, the position moves by the new velocity,
    // then drag takes 99/100 of it.
    assert_eq!(ship.get_position(), Vec2::new(600, 500));
    assert_eq!(ship.velocity, Vec2::new(99, 0));
    // Without thrust the velocity only decays.
    ship.set_push(false);
    ship.update(Vec2::new(100, 0), 1000, 1000);
    assert_eq!(ship.get_position(), Vec2::new(699, 500));
    assert_eq!(ship.velocity, Vec2::new(98, 0));
}

#[test]
fn test_spaceship_rotation() {
    let mut ship = Spaceship::new(1000, 1000);
    ship.rotate_right();
    ship.rotate_right();
    assert_eq!(ship.get_direction(), 2);
    ship.rotate_left();
    assert_eq!(ship.get_direction(), 1);
}
