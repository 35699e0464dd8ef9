use rusty_shooter::handle::{ActorHandle, NodeHandle};
use rusty_shooter::projectile::{first_hit, ActorBody, ProjectileHit, RayHit};
use rusty_shooter::weapon::laser_dot_hit;

fn node(index: u32) -> NodeHandle {
    NodeHandle { index, generation: 1 }
}

fn actor(index: u32) -> ActorHandle {
    ActorHandle { index, generation: 1 }
}

fn body_hit(index: u32) -> RayHit {
    RayHit { body: node(index), is_level_geometry: false }
}

fn wall() -> RayHit {
    RayHit { body: node(100), is_level_geometry: true }
}

fn actors() -> Vec<ActorBody> {
    vec![
        ActorBody { actor: actor(1), body: node(10) },
        ActorBody { actor: actor(2), body: node(20) },
    ]
}

#[test]
fn projectile_passes_its_shooter_and_hits_the_next_actor() {
    let hits = [body_hit(10), body_hit(20), wall()];
    assert_eq!(
        first_hit(&hits, &actors(), Some(actor(1))),
        ProjectileHit::Actor { hit: 1, actor: actor(2), who: actor(1) }
    );
}

#[test]
fn projectile_stops_at_the_level() {
    let hits = [body_hit(10), wall(), body_hit(20)];
    assert_eq!(
        first_hit(&hits, &actors(), Some(actor(1))),
        ProjectileHit::Geometry { hit: 1 }
    );
}

#[test]
fn projectile_of_a_removed_weapon_passes_through_actors() {
    let hits = [body_hit(10), body_hit(20)];
    assert_eq!(first_hit(&hits, &actors(), None), ProjectileHit::Miss);
    let hits = [body_hit(20), wall()];
    assert_eq!(
        first_hit(&hits, &actors(), None),
        ProjectileHit::Geometry { hit: 1 }
    );
}

#[test]
fn projectile_ignores_bodies_of_no_actor() {
    let hits = [body_hit(55)];
    assert_eq!(first_hit(&hits, &actors(), Some(actor(2))), ProjectileHit::Miss);
    assert_eq!(first_hit(&[], &actors(), Some(actor(2))), ProjectileHit::Miss);
}

#[test]
fn laser_dot_sits_on_the_last_hit_off_the_owner() {
    let owner = Some(node(10));
    assert_eq!(laser_dot_hit(&[Some(node(10)), None, Some(node(20))], owner), Some(2));
    assert_eq!(laser_dot_hit(&[None, Some(node(10))], owner), Some(0));
    assert_eq!(laser_dot_hit(&[Some(node(10)), Some(node(10))], owner), None);
    assert_eq!(laser_dot_hit(&[Some(node(10))], None), Some(0));
    assert_eq!(laser_dot_hit(&[], owner), None);
}
