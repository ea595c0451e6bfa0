use midgard::models::player::Player;
use midgard::spatial::Position;
use midgard::world::{Combatant, Entity, World};

fn bare(x: i32) -> Combatant {
    Combatant {
        position: Position { x, y: 0, z: 0 },
        collider: None,
        comp_attribs: None,
        attack_timer: None,
        player: None,
        enemy: None,
    }
}

#[test]
fn empty_world() {
    let world = World::new();
    assert!(world.entities().is_empty());
    assert!(!world.contains(Entity { index: 0, generation: 0 }));
    assert!(world.get(Entity::placeholder()).is_none());
    assert_eq!(world.single_player(false), None);
}

#[test]
fn placeholder_is_the_last_reference() {
    assert_eq!(Entity::placeholder(), Entity { index: u32::MAX, generation: u32::MAX });
}

#[test]
fn spawn_hands_out_fresh_references() {
    let mut world = World::new();
    let a = world.spawn(bare(1)).unwrap();
    let b = world.spawn(bare(2)).unwrap();
    assert_ne!(a, b);
    assert_eq!(a, Entity { index: 0, generation: 0 });
    assert_eq!(b, Entity { index: 1, generation: 0 });
    assert_eq!(world.get(a), Some(bare(1)));
    assert_eq!(world.get(b), Some(bare(2)));
    assert_eq!(world.entities(), vec![a, b]);
}

#[test]
fn despawn_removes_for_good() {
    let mut world = World::new();
    let a = world.spawn(bare(1)).unwrap();
    let b = world.spawn(bare(2)).unwrap();
    assert!(world.despawn(a));
    assert!(!world.despawn(a));
    assert!(!world.contains(a));
    assert!(world.contains(b));
    assert_eq!(world.entities(), vec![b]);
    let c = world.spawn(bare(3)).unwrap();
    assert_eq!(c, Entity { index: 0, generation: 1 });
    assert!(!world.contains(a));
    assert_eq!(world.get(a), None);
    assert_eq!(world.get(c), Some(bare(3)));
    assert_eq!(world.entities(), vec![c, b]);
    assert!(!world.replace(a, bare(9)));
    assert_eq!(world.get(c), Some(bare(3)));
}

#[test]
fn replace_changes_one_record() {
    let mut world = World::new();
    let a = world.spawn(bare(1)).unwrap();
    let b = world.spawn(bare(2)).unwrap();
    assert!(world.replace(a, bare(7)));
    assert_eq!(world.get(a), Some(bare(7)));
    assert_eq!(world.get(b), Some(bare(2)));
    assert!(!world.replace(Entity { index: 5, generation: 0 }, bare(0)));
    assert!(!world.replace(Entity { index: 0, generation: 3 }, bare(0)));
}

#[test]
fn single_player_needs_exactly_one() {
    let mut world = World::new();
    let player = Combatant { player: Some(Player::default()), ..bare(0) };
    world.spawn(bare(1)).unwrap();
    assert_eq!(world.single_player(false), None);
    let p = world.spawn(player).unwrap();
    assert_eq!(world.single_player(false), Some(p));
    assert_eq!(world.single_player(true), None);
    let q = world.spawn(player).unwrap();
    assert_eq!(world.single_player(false), None);
    world.despawn(p);
    assert_eq!(world.single_player(false), Some(q));
}
