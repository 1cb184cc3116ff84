use harvest::geometry::Point;
use harvest::target::{locate, select_target, Sighting};
use harvest::unit::Faction;

fn enemy(id: u64, x: i32, y: i32) -> Sighting {
    Sighting { id, pos: Point::new(x, y), faction: Faction::Enemy, high_value: false }
}

fn base(id: u64, x: i32, y: i32) -> Sighting {
    Sighting { id, pos: Point::new(x, y), faction: Faction::Friendly, high_value: true }
}

fn friend(id: u64, x: i32, y: i32) -> Sighting {
    Sighting { id, pos: Point::new(x, y), faction: Faction::Friendly, high_value: false }
}

fn pick(entities: &Vec<Sighting>, radius: u32, faction: Faction) -> Option<u64> {
    select_target(entities, Point::origin(), radius, Point::origin(), 100_000, faction)
}

#[test]
fn nothing_to_select_from() {
    assert_eq!(pick(&Vec::new(), 25_000, Faction::Enemy), None);
}

#[test]
fn the_nearest_is_selected() {
    let entities = vec![enemy(1, 20_000, 0), enemy(2, 0, -10_000), enemy(3, 15_000, 0)];
    assert_eq!(pick(&entities, 25_000, Faction::Enemy), Some(2));
}

#[test]
fn of_equally_near_the_first_found_is_selected() {
    let entities = vec![enemy(5, 3_000, 4_000), enemy(6, 5_000, 0), enemy(7, 0, -5_000)];
    assert_eq!(pick(&entities, 25_000, Faction::Enemy), Some(5));
    let entities = vec![enemy(7, 0, -5_000), enemy(6, 5_000, 0), enemy(5, 3_000, 4_000)];
    assert_eq!(pick(&entities, 25_000, Faction::Enemy), Some(7));
}

#[test]
fn the_other_faction_is_not_selected() {
    let entities = vec![friend(1, 1_000, 0), enemy(2, 20_000, 0)];
    assert_eq!(pick(&entities, 25_000, Faction::Enemy), Some(2));
    assert_eq!(pick(&entities, 25_000, Faction::Friendly), Some(1));
}

#[test]
fn the_radius_includes_its_rim() {
    let entities = vec![enemy(1, 25_000, 0)];
    assert_eq!(pick(&entities, 25_000, Faction::Enemy), Some(1));
    assert_eq!(pick(&entities, 24_999, Faction::Enemy), None);
}

#[test]
fn the_leash_excludes_its_rim() {
    let entities = vec![enemy(1, 10_000, 0)];
    let origin = Point::origin();
    let anchor = Point::new(-20_000, 0);
    assert_eq!(select_target(&entities, origin, 25_000, anchor, 30_000, Faction::Enemy), None);
    assert_eq!(select_target(&entities, origin, 25_000, anchor, 30_001, Faction::Enemy), Some(1));
}

#[test]
fn the_home_base_is_preferred_to_closer_targets() {
    let entities = vec![friend(1, 1_000, 0), base(2, 90_000, 0), friend(3, 500, 0)];
    assert_eq!(pick(&entities, 100_000, Faction::Friendly), Some(2));
    let entities = vec![base(2, 90_000, 0), friend(1, 1_000, 0)];
    assert_eq!(pick(&entities, 100_000, Faction::Friendly), Some(2));
}

#[test]
fn the_home_base_out_of_reach_is_not_preferred() {
    let entities = vec![friend(1, 1_000, 0), base(2, 90_000, 0)];
    assert_eq!(pick(&entities, 50_000, Faction::Friendly), Some(1));
}

#[test]
fn of_two_home_bases_the_nearer_is_selected() {
    let entities = vec![base(1, 9_000, 0), base(2, 8_000, 0), friend(3, 1, 0)];
    assert_eq!(pick(&entities, 100_000, Faction::Friendly), Some(2));
}

#[test]
fn locate_finds_the_first_with_the_id() {
    let entities = vec![enemy(1, 1, 1), enemy(2, 2, 2), enemy(2, 3, 3)];
    assert_eq!(locate(&entities, 2), Some(Point::new(2, 2)));
    assert_eq!(locate(&entities, 1), Some(Point::new(1, 1)));
}

#[test]
fn locate_misses_what_is_gone() {
    let entities = vec![enemy(1, 1, 1)];
    assert_eq!(locate(&entities, 9), None);
    assert_eq!(locate(&Vec::new(), 1), None);
}
