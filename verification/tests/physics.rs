use breakout::ball::Ball;
use breakout::entity::Entity;
use breakout::physics::{get_elastic_box, Collider, Physics, RigidBody};
use breakout::player::{Paddle, Player};
use breakout::units::{Point, Size};
use breakout::world::block::Block;
use breakout::world::{Border, Side};

const ORIGIN: Point = Point { x: 0, y: 0 };

#[test]
fn a_ball_is_a_weightless_elastic_circle() {
    let ball = Ball { entity: Entity(0), position: ORIGIN };
    assert_eq!(
        ball.physics(),
        Physics {
            body: RigidBody::Dynamic,
            collider: Collider::Circle { radius: 16_000 },
            restitution: 1000,
            friction: 0,
            gravity_scale: Some(0),
            lock_rotation: false,
            lock_translation_y: false,
            collision_events: false,
        }
    );
}

#[test]
fn a_paddle_is_a_kinematic_box_locked_to_its_line() {
    let paddle = Paddle {
        entity: Entity(1),
        player: Player::Second,
        position: ORIGIN,
        size: Size { width: 160_000, height: 10_000 },
    };
    assert_eq!(
        paddle.physics(),
        Physics {
            body: RigidBody::Kinematic,
            collider: Collider::Rectangle { width: 160_000, height: 10_000 },
            restitution: 1000,
            friction: 0,
            gravity_scale: None,
            lock_rotation: true,
            lock_translation_y: true,
            collision_events: false,
        }
    );
}

#[test]
fn a_wall_is_a_static_box() {
    let wall = Border {
        entity: Entity(2),
        side: Side::Left,
        position: ORIGIN,
        size: Size { width: 5_000, height: 720_000 },
    };
    assert_eq!(
        wall.physics(),
        Physics {
            body: RigidBody::Static,
            collider: Collider::Rectangle { width: 5_000, height: 720_000 },
            restitution: 1000,
            friction: 0,
            gravity_scale: None,
            lock_rotation: false,
            lock_translation_y: false,
            collision_events: false,
        }
    );
    assert_eq!(wall.physics(), get_elastic_box(RigidBody::Static, wall.size));
}

#[test]
fn a_brick_is_a_static_box_that_reports_contacts() {
    let brick = Block {
        entity: Entity(3),
        row: 0,
        column: 0,
        position: ORIGIN,
        size: Size { width: 101_666, height: 20_000 },
    };
    assert_eq!(
        brick.physics(),
        Physics {
            body: RigidBody::Static,
            collider: Collider::Rectangle { width: 101_666, height: 20_000 },
            restitution: 1000,
            friction: 0,
            gravity_scale: None,
            lock_rotation: false,
            lock_translation_y: false,
            collision_events: true,
        }
    );
}
