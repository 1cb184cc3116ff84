use harvest::geometry::Point;
use harvest::health::HealthChange;
use harvest::target::Sighting;
use harvest::unit::{Act, Faction, Steering, Unit, UnitCommand, UnitState};

fn carrot() -> Unit {
    Unit::new(50_000, 25_000, 50_000, 10_000, 100_000, 1_000_000, 4_000)
}

fn enemy(id: u64, x: i32, y: i32) -> Sighting {
    Sighting { id, pos: Point::new(x, y), faction: Faction::Enemy, high_value: false }
}

fn origin() -> Point {
    Point::origin()
}

#[test]
fn a_new_unit_idles_at_the_origin_with_a_full_cooldown() {
    let unit = carrot();
    assert_eq!(
        unit,
        Unit {
            state: UnitState::Idle,
            command: None,
            move_speed: 50_000,
            aggro_range: 25_000,
            chase_range: 50_000,
            attack_range: 10_000,
            leash_range: 100_000,
            attack_period: 1_000_000,
            attack_cooldown: 1_000_000,
            damage: 4_000,
            last_destination: Point::new(0, 0),
            leash_origin: Point::new(0, 0),
        }
    );
}

#[test]
fn factions_oppose_each_other() {
    assert_eq!(Faction::Friendly.opposing(), Faction::Enemy);
    assert_eq!(Faction::Enemy.opposing(), Faction::Friendly);
}

#[test]
fn an_idle_unit_chases_then_gives_up() {
    let mut unit = carrot();
    unit.update_state(origin(), Faction::Friendly, &vec![enemy(7, 20_000, 0)]);
    assert_eq!(unit.state, UnitState::Chase(7));
    assert_eq!(unit.leash_origin, origin());

    unit.update_state(origin(), Faction::Friendly, &vec![enemy(7, 60_000, 0)]);
    assert_eq!(unit.state, UnitState::Move(unit.last_destination));
    assert_eq!(unit.last_destination, origin());
}

#[test]
fn an_idle_unit_ignores_what_is_beyond_its_aggro_range() {
    let mut unit = carrot();
    unit.update_state(origin(), Faction::Friendly, &vec![enemy(7, 25_001, 0)]);
    assert_eq!(unit, carrot());
}

#[test]
fn an_idle_unit_ignores_its_own_side() {
    let mut unit = carrot();
    unit.update_state(origin(), Faction::Enemy, &vec![enemy(7, 1_000, 0)]);
    assert_eq!(unit, carrot());
}

#[test]
fn an_idle_unit_ties_its_leash_where_it_stands_when_it_engages() {
    let mut unit = carrot();
    let here = Point::new(30_000, 40_000);
    unit.update_state(here, Faction::Friendly, &vec![enemy(7, 30_000, 41_000)]);
    assert_eq!(unit.state, UnitState::Chase(7));
    assert_eq!(unit.leash_origin, here);
    assert_eq!(unit.last_destination, here);
}

#[test]
fn a_chase_goes_on_between_attack_range_and_chase_range() {
    let mut unit = carrot();
    unit.state = UnitState::Chase(7);
    unit.update_state(origin(), Faction::Friendly, &vec![enemy(7, 10_001, 0)]);
    assert_eq!(unit.state, UnitState::Chase(7));
    unit.update_state(origin(), Faction::Friendly, &vec![enemy(7, 50_000, 0)]);
    assert_eq!(unit.state, UnitState::Chase(7));
}

#[test]
fn a_chase_turns_to_attack_within_attack_range() {
    let mut unit = carrot();
    unit.state = UnitState::Chase(7);
    unit.update_state(origin(), Faction::Friendly, &vec![enemy(7, 6_000, 8_000)]);
    assert_eq!(unit.state, UnitState::Attack(7));
}

#[test]
fn a_chase_ends_when_the_target_is_gone() {
    let mut unit = carrot();
    unit.state = UnitState::Chase(7);
    unit.last_destination = Point::new(5, 6);
    unit.update_state(origin(), Faction::Friendly, &vec![enemy(8, 1_000, 0)]);
    assert_eq!(unit.state, UnitState::Move(Point::new(5, 6)));
}

#[test]
fn a_chase_ends_beyond_the_leash_even_with_the_target_in_reach() {
    let mut unit = carrot();
    unit.state = UnitState::Chase(7);
    unit.leash_origin = Point::new(0, 0);
    unit.last_destination = Point::new(1, 1);
    let here = Point::new(100_001, 0);
    unit.update_state(here, Faction::Friendly, &vec![enemy(7, 100_002, 0)]);
    assert_eq!(unit.state, UnitState::Move(Point::new(1, 1)));
    let mut unit = carrot();
    unit.state = UnitState::Chase(7);
    let here = Point::new(100_000, 0);
    unit.update_state(here, Faction::Friendly, &vec![enemy(7, 100_002, 0)]);
    assert_eq!(unit.state, UnitState::Attack(7));
}

#[test]
fn an_attacking_unit_holds_until_its_strike() {
    let mut unit = carrot();
    unit.state = UnitState::Attack(7);
    unit.update_state(origin(), Faction::Friendly, &Vec::new());
    assert_eq!(unit.state, UnitState::Attack(7));
    unit.command = Some(UnitCommand::AttackMove(Point::new(500_000, 0)));
    unit.update_state(origin(), Faction::Friendly, &Vec::new());
    assert_eq!(unit.state, UnitState::Attack(7));
}

#[test]
fn a_move_order_overrides_whatever_the_unit_does() {
    let dest = Point::new(200_000, 0);
    for state in [
        UnitState::Idle,
        UnitState::Move(Point::new(1, 1)),
        UnitState::Chase(7),
        UnitState::Attack(7),
    ] {
        let mut unit = carrot();
        unit.state = state;
        unit.command = Some(UnitCommand::Move(dest));
        unit.update_state(origin(), Faction::Friendly, &vec![enemy(7, 1_000, 0)]);
        assert_eq!(unit.state, UnitState::Move(dest));
        assert_eq!(unit.command, Some(UnitCommand::Move(dest)));
    }
}

#[test]
fn a_move_order_ends_on_arrival_within_the_slop() {
    let dest = Point::new(200_000, 0);
    let mut unit = carrot();
    unit.command = Some(UnitCommand::Move(dest));
    unit.state = UnitState::Move(dest);
    unit.update_state(Point::new(183_999, 0), Faction::Friendly, &Vec::new());
    assert_eq!(unit.state, UnitState::Move(dest));
    unit.update_state(Point::new(184_000, 0), Faction::Friendly, &Vec::new());
    assert_eq!(unit.state, UnitState::Idle);
    assert_eq!(unit.command, None);
    assert_eq!(unit.last_destination, dest);
    assert_eq!(unit.leash_origin, dest);
}

#[test]
fn an_attack_move_engages_on_the_way_and_remembers_where_it_was_going() {
    let dest = Point::new(500_000, 0);
    let here = Point::new(100_000, 0);
    let mut unit = carrot();
    unit.command = Some(UnitCommand::AttackMove(dest));
    unit.update_state(here, Faction::Friendly, &vec![enemy(7, 140_000, 0)]);
    assert_eq!(unit.state, UnitState::Move(dest));
    // Walking now: within chase range, but the leash is still tied at
    // the origin, and the target is farther from it than the leash.
    unit.update_state(here, Faction::Friendly, &vec![enemy(7, 140_000, 0)]);
    assert_eq!(unit.state, UnitState::Move(dest));
    unit.update_state(here, Faction::Friendly, &vec![enemy(7, 99_000, 0)]);
    assert_eq!(unit.state, UnitState::Chase(7));
    assert_eq!(unit.last_destination, dest);
    assert_eq!(unit.leash_origin, here);
    assert_eq!(unit.command, Some(UnitCommand::AttackMove(dest)));
    // The target escapes: the unit resumes its way.
    unit.update_state(here, Faction::Friendly, &vec![enemy(7, 150_001, 0)]);
    assert_eq!(unit.state, UnitState::Move(dest));
}

#[test]
fn an_attack_move_ends_on_arrival() {
    let dest = Point::new(10_000, 0);
    let mut unit = carrot();
    unit.command = Some(UnitCommand::AttackMove(dest));
    unit.state = UnitState::Chase(7);
    unit.update_state(origin(), Faction::Friendly, &vec![enemy(7, 1_000, 0)]);
    assert_eq!(unit.state, UnitState::Idle);
    assert_eq!(unit.command, None);
    assert_eq!(unit.leash_origin, dest);
    assert_eq!(unit.last_destination, dest);
}

#[test]
fn a_returning_unit_settles_where_it_stands() {
    let dest = Point::new(10_000, 0);
    let mut unit = carrot();
    unit.state = UnitState::Move(dest);
    let here = Point::new(0, 12_000);
    unit.update_state(here, Faction::Friendly, &Vec::new());
    assert_eq!(unit.state, UnitState::Idle);
    assert_eq!(unit.leash_origin, here);
    assert_eq!(unit.last_destination, here);
}

#[test]
fn a_returning_unit_engages_without_moving_its_leash() {
    let dest = Point::new(90_000, 0);
    let mut unit = carrot();
    unit.state = UnitState::Move(dest);
    unit.leash_origin = Point::new(80_000, 0);
    unit.last_destination = dest;
    unit.update_state(origin(), Faction::Friendly, &vec![enemy(7, 5_000, 0)]);
    assert_eq!(unit.state, UnitState::Chase(7));
    assert_eq!(unit.leash_origin, Point::new(80_000, 0));
    assert_eq!(unit.last_destination, dest);
}

#[test]
fn one_strike_after_exactly_one_period() {
    let mut unit = carrot();
    unit.state = UnitState::Attack(9);
    let living = vec![enemy(9, 1_000, 0)];
    let mut blows = 0;
    for _ in 0..9 {
        let act = unit.process_state(&living, 100_000);
        assert_eq!(act, Act { steering: Steering::Hold, blow: None });
        assert_eq!(unit.state, UnitState::Attack(9));
    }
    assert_eq!(unit.attack_cooldown, 100_000);
    let act = unit.process_state(&living, 100_000);
    if act.blow.is_some() {
        blows += 1;
    }
    assert_eq!(act.blow, Some(HealthChange { target: 9, amount: -4_000 }));
    assert_eq!(act.steering, Steering::Hold);
    assert_eq!(unit.attack_cooldown, 1_000_000);
    assert_eq!(unit.state, UnitState::Chase(9));
    let act = unit.process_state(&living, 100_000);
    assert_eq!(act.blow, None);
    assert_eq!(blows, 1);
}

#[test]
fn the_cooldown_counts_down_in_every_state_and_stops_at_zero() {
    let mut unit = carrot();
    unit.process_state(&Vec::new(), 400_000);
    assert_eq!(unit.attack_cooldown, 600_000);
    unit.state = UnitState::Chase(1);
    unit.process_state(&Vec::new(), 700_000);
    assert_eq!(unit.attack_cooldown, 0);
    unit.state = UnitState::Move(Point::new(1, 1));
    unit.process_state(&Vec::new(), u64::MAX);
    assert_eq!(unit.attack_cooldown, 0);
    unit.state = UnitState::Attack(1);
    let act = unit.process_state(&Vec::new(), 0);
    assert_eq!(act.blow, Some(HealthChange { target: 1, amount: -4_000 }));
}

#[test]
fn steering_follows_the_state() {
    let living = vec![enemy(7, 30_000, 0)];
    let mut unit = carrot();
    assert_eq!(unit.process_state(&living, 1).steering, Steering::Hold);
    unit.state = UnitState::Move(Point::new(3, 4));
    assert_eq!(unit.process_state(&living, 1).steering, Steering::Toward(Point::new(3, 4)));
    unit.state = UnitState::Chase(7);
    assert_eq!(unit.process_state(&living, 1).steering, Steering::Toward(Point::new(30_000, 0)));
    unit.state = UnitState::Chase(8);
    assert_eq!(unit.process_state(&living, 1).steering, Steering::Hold);
    unit.state = UnitState::Attack(7);
    assert_eq!(unit.process_state(&living, 1).steering, Steering::Hold);
}

#[test]
fn the_largest_damage_is_dealt_whole() {
    let mut unit = Unit::new(0, 0, 0, 0, 0, 0, u32::MAX);
    unit.state = UnitState::Attack(1);
    let act = unit.process_state(&Vec::new(), 0);
    assert_eq!(act.blow, Some(HealthChange { target: 1, amount: -(u32::MAX as i64) }));
}

#[test]
fn a_pest_is_sent_to_the_origin() {
    let mut unit = carrot();
    unit.state = UnitState::Chase(3);
    unit.enemy_spawn();
    assert_eq!(unit.command, Some(UnitCommand::AttackMove(Point::new(0, 0))));
    assert_eq!(unit.state, UnitState::Chase(3));
}

#[test]
fn attack_follows_only_from_within_range_on_a_grid() {
    // Every way into attack on a grid of positions has the target within
    // the attack range at that tick.
    for x in (-60_000..=60_000).step_by(5_000) {
        for state in [UnitState::Idle, UnitState::Move(Point::new(90_000, 0)), UnitState::Chase(7)] {
            for command in [None, Some(UnitCommand::AttackMove(Point::new(90_000, 0)))] {
                let mut unit = carrot();
                unit.state = state;
                unit.command = command;
                let target = Point::new(x, 0);
                unit.update_state(origin(), Faction::Friendly, &vec![enemy(7, x, 0)]);
                if unit.state == UnitState::Attack(7) {
                    assert!(origin().is_within(&target, unit.attack_range));
                }
            }
        }
    }
}

#[test]
fn the_leash_holds_while_a_pursuit_goes_on_on_a_grid() {
    for x in (0..=150_000).step_by(10_000) {
        let mut unit = carrot();
        unit.state = UnitState::Chase(7);
        let here = Point::new(x, 0);
        unit.update_state(here, Faction::Friendly, &vec![enemy(7, x + 20_000, 0)]);
        match unit.state {
            UnitState::Chase(_) | UnitState::Attack(_) => {
                assert!(unit.leash_origin.is_within(&here, unit.leash_range));
            }
            _ => assert!(x > 100_000),
        }
    }
}
