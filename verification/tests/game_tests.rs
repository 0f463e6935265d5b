use asteroids::asteroid::{Asteroid, Size};
use asteroids::game::{
    handle_asteroid_collisions, handle_collisions, handle_input, handle_missile_asteroid_collisions,
    handle_spaceship_asteroid_collision, handle_win, remove_collided_asteroids, update_model,
    InputState,
};
use asteroids::missile::Missile;
use asteroids::spaceship::Spaceship;
use asteroids::vec2::Vec2;

#[test]
fn test_asteroid_collision_handling() {
    let asteroids = vec![
        Asteroid::with_size(Size::Medium, Vec2::new(100, 100)),
        Asteroid::with_size(Size::Medium, Vec2::new(105, 100)),
    ];
    let mut new_asteroids = Vec::new();
    let mut to_remove = Vec::new();

    handle_asteroid_collisions(&asteroids, &mut new_asteroids, &mut to_remove);

    assert_eq!(to_remove.len(), 2);
    assert!(new_asteroids.len() > 0);
}

#[test]
fn test_missile_asteroid_collision() {
    let asteroids = vec![Asteroid::with_size(Size::Medium, Vec2::new(100, 100))];

    let missile_position = Vec2::new(100, 100);
    // A missile fired at heading zero flies along the x axis.
    let mut missiles = vec![Missile::new(missile_position, Vec2::new(5, 0))];

    let mut new_asteroids = Vec::new();
    let mut to_remove = Vec::new();

    handle_missile_asteroid_collisions(
        &mut missiles,
        &asteroids,
        &mut new_asteroids,
        &mut to_remove,
    );

    assert_eq!(to_remove.len(), 1);
    assert!(new_asteroids.len() > 0 || asteroids.is_empty());
}

#[test]
fn test_remove_collided_asteroids() {
    let mut asteroids = vec![
        Asteroid::with_size(Size::Medium, Vec2::new(100, 100)),
        Asteroid::with_size(Size::Medium, Vec2::new(200, 200)),
    ];
    let to_remove = vec![0];

    remove_collided_asteroids(&mut asteroids, &to_remove);

    assert_eq!(asteroids.len(), 1);
    assert_eq!(asteroids[0].get_position(), Vec2::new(200, 200));
}

#[test]
fn test_remove_tolerates_stale_indices() {
    let mut asteroids = vec![
        Asteroid::with_size(Size::Small, Vec2::new(10, 10)),
        Asteroid::with_size(Size::Small, Vec2::new(20, 20)),
        Asteroid::with_size(Size::Small, Vec2::new(30, 30)),
    ];
    // Duplicate and out-of-range indices are skipped silently.
    let to_remove = vec![1, 1, 7];
    remove_collided_asteroids(&mut asteroids, &to_remove);
    assert_eq!(asteroids.len(), 2);
    assert_eq!(asteroids[0].get_position(), Vec2::new(10, 10));
    assert_eq!(asteroids[1].get_position(), Vec2::new(30, 30));
}

#[test]
fn test_equal_size_mutual_destruction() {
    // Two medium asteroids in range: both go, four children appear.
    let mut asteroids = vec![
        Asteroid::with_size(Size::Medium, Vec2::new(100, 100)),
        Asteroid::with_size(Size::Medium, Vec2::new(105, 100)),
    ];
    let spaceship = Spaceship::new(2000, 2000);
    let mut missiles: Vec<Missile> = Vec::new();

    let hit = handle_collisions(&mut asteroids, &spaceship, &mut missiles);

    assert!(!hit);
    assert_eq!(asteroids.len(), 4);
    assert_eq!(asteroids[0].get_position(), Vec2::new(120, 120));
    assert_eq!(asteroids[1].get_position(), Vec2::new(80, 80));
    assert_eq!(asteroids[2].get_position(), Vec2::new(125, 120));
    assert_eq!(asteroids[3].get_position(), Vec2::new(85, 80));
    for a in &asteroids {
        assert_eq!(a.get_size(), Size::Small);
    }
}

#[test]
fn test_unequal_size_asymmetric_destruction() {
    // A large and a medium asteroid in range: only the medium one goes.
    let mut asteroids = vec![
        Asteroid::with_size(Size::Large, Vec2::new(100, 100)),
        Asteroid::with_size(Size::Medium, Vec2::new(105, 100)),
    ];
    let spaceship = Spaceship::new(2000, 2000);
    let mut missiles: Vec<Missile> = Vec::new();

    let hit = handle_collisions(&mut asteroids, &spaceship, &mut missiles);

    assert!(!hit);
    assert_eq!(asteroids.len(), 3);
    assert_eq!(asteroids[0].get_position(), Vec2::new(100, 100));
    assert_eq!(asteroids[0].get_size(), Size::Large);
    assert_eq!(asteroids[1].get_position(), Vec2::new(125, 120));
    assert_eq!(asteroids[2].get_position(), Vec2::new(85, 80));
    assert_eq!(asteroids[1].get_size(), Size::Small);
    assert_eq!(asteroids[2].get_size(), Size::Small);
}

#[test]
fn test_spaceship_collision_signal() {
    let mut asteroids = vec![Asteroid::with_size(Size::Medium, Vec2::new(1010, 1000))];
    let spaceship = Spaceship::new(2000, 2000);
    let mut new_asteroids = Vec::new();
    let mut to_remove = Vec::new();

    let hit = handle_spaceship_asteroid_collision(
        &asteroids,
        &spaceship,
        &mut new_asteroids,
        &mut to_remove,
    );

    assert!(hit);
    assert_eq!(to_remove, vec![0]);
    assert_eq!(new_asteroids.len(), 2);

    // A full frame with the same layout ends with only the two children.
    let mut missiles: Vec<Missile> = Vec::new();
    let hit2 = handle_collisions(&mut asteroids, &spaceship, &mut missiles);
    assert!(hit2);
    assert_eq!(asteroids.len(), 2);
}

#[test]
fn test_inactive_missile_ignored() {
    let asteroids = vec![Asteroid::with_size(Size::Medium, Vec2::new(100, 100))];
    let mut spent = Missile::new(Vec2::new(100, 100), Vec2::new(5, 0));
    spent.deactivate();
    let mut missiles = vec![spent];
    let mut new_asteroids = Vec::new();
    let mut to_remove = Vec::new();

    handle_missile_asteroid_collisions(
        &mut missiles,
        &asteroids,
        &mut new_asteroids,
        &mut to_remove,
    );

    assert!(to_remove.is_empty());
    assert!(new_asteroids.is_empty());
    assert!(!missiles[0].is_active());
    assert_eq!(missiles[0].get_position(), Vec2::new(100, 100));
}

#[test]
fn test_update_model_moves_and_purges() {
    let mut asteroids = vec![Asteroid::with_size(Size::Small, Vec2::new(50, 50))];
    asteroids[0].speed = Vec2::new(1, 0);
    let mut spaceship = Spaceship::new(1000, 1000);
    let mut inactive = Missile::new(Vec2::new(10, 10), Vec2::new(1, 0));
    inactive.deactivate();
    let live = Missile::new(Vec2::new(20, 20), Vec2::new(0, 5));
    let mut missiles = vec![inactive, live];

    update_model(
        &mut asteroids,
        &mut spaceship,
        &mut missiles,
        Vec2::new(0, 0),
        1000,
        1000,
    );

    assert_eq!(asteroids[0].get_position(), Vec2::new(51, 50));
    // The spent missile is purged before motion; the live one advances.
    assert_eq!(missiles.len(), 1);
    assert_eq!(missiles[0].get_position(), Vec2::new(20, 25));
    assert!(missiles[0].is_active());
}

#[test]
fn test_handle_input_actions() {
    let mut spaceship = Spaceship::new(1000, 1000);
    let mut missiles: Vec<Missile> = Vec::new();

    let quit = handle_input(
        &mut spaceship,
        &mut missiles,
        InputState {
            rotate_left: false,
            rotate_right: true,
            thrust: true,
            fire: true,
            quit: false,
        },
        Vec2::new(5, 0),
    );

    assert!(!quit);
    assert_eq!(spaceship.get_direction(), 1);
    assert!(spaceship.push);
    assert_eq!(missiles.len(), 1);
    assert_eq!(missiles[0].get_position(), Vec2::new(500, 500));
    assert_eq!(missiles[0].velocity, Vec2::new(5, 0));

    let quit2 = handle_input(
        &mut spaceship,
        &mut missiles,
        InputState {
            rotate_left: true,
            rotate_right: false,
            thrust: false,
            fire: false,
            quit: true,
        },
        Vec2::new(5, 0),
    );
    // A quit request changes nothing else.
    assert!(quit2);
    assert_eq!(spaceship.get_direction(), 1);
    assert!(spaceship.push);
    assert_eq!(missiles.len(), 1);
}

#[test]
fn test_single_small_asteroid_round() {
    // One small asteroid at rest, far from everything.
    let mut asteroids = vec![Asteroid::with_size(Size::Small, Vec2::new(100, 100))];
    asteroids[0].speed = Vec2::new(0, 0);
    let mut spaceship = Spaceship::new(1000, 1000);
    let mut missiles: Vec<Missile> = Vec::new();

    // One frame of motion with zero velocity leaves the position alone.
    update_model(
        &mut asteroids,
        &mut spaceship,
        &mut missiles,
        Vec2::new(0, 0),
        1000,
        1000,
    );
    assert_eq!(asteroids[0].get_position(), Vec2::new(100, 100));
    let hit = handle_collisions(&mut asteroids, &spaceship, &mut missiles);
    assert!(!hit);
    assert!(!handle_win(&asteroids));

    // A missile on top of it destroys it; the round is won.
    missiles.push(Missile::new(Vec2::new(100, 100), Vec2::new(5, 0)));
    let hit2 = handle_collisions(&mut asteroids, &spaceship, &mut missiles);
    assert!(!hit2);
    assert!(!missiles[0].is_active());
    assert!(asteroids.is_empty());
    assert!(handle_win(&asteroids));
}
