use harvest::arena::{
    crop_decay, process_command, process_unit_state, resolve_combat, update_unit_state, wilting,
    Agent, Strike, Wilting,
};
use harvest::geometry::Point;
use harvest::health::HealthChange;
use harvest::plot::Crop;
use harvest::target::Sighting;
use harvest::unit::{Faction, Steering, Unit, UnitCommand, UnitState};

fn unit() -> Unit {
    Unit::new(50_000, 25_000, 50_000, 10_000, 100_000, 1_000_000, 4_000)
}

fn agent(id: u64, faction: Faction, x: i32, selected: bool) -> Agent {
    Agent { id, faction, pos: Point::new(x, 0), selected, unit: unit() }
}

fn sightings(agents: &Vec<Agent>) -> Vec<Sighting> {
    agents
        .iter()
        .map(|a| Sighting { id: a.id, pos: a.pos, faction: a.faction, high_value: false })
        .collect()
}

#[test]
fn a_right_click_orders_the_selected_to_move() {
    let mut agents = vec![
        agent(1, Faction::Friendly, 0, true),
        agent(2, Faction::Friendly, 10, false),
        agent(3, Faction::Friendly, 20, true),
    ];
    let cursor = Point::new(7, 8);
    process_command(&mut agents, true, false, cursor);
    assert_eq!(agents[0].unit.command, Some(UnitCommand::Move(cursor)));
    assert_eq!(agents[1].unit.command, None);
    assert_eq!(agents[2].unit.command, Some(UnitCommand::Move(cursor)));
}

#[test]
fn the_attack_key_orders_the_selected_to_attack_move() {
    let mut agents = vec![agent(1, Faction::Friendly, 0, true)];
    let cursor = Point::new(7, 8);
    process_command(&mut agents, false, true, cursor);
    assert_eq!(agents[0].unit.command, Some(UnitCommand::AttackMove(cursor)));
}

#[test]
fn a_right_click_wins_over_the_attack_key() {
    let mut agents = vec![agent(1, Faction::Friendly, 0, true)];
    let cursor = Point::new(7, 8);
    process_command(&mut agents, true, true, cursor);
    assert_eq!(agents[0].unit.command, Some(UnitCommand::Move(cursor)));
}

#[test]
fn a_new_order_replaces_the_old_one() {
    let mut agents = vec![agent(1, Faction::Friendly, 0, true)];
    agents[0].unit.command = Some(UnitCommand::AttackMove(Point::new(1, 1)));
    agents[0].unit.state = UnitState::Chase(4);
    process_command(&mut agents, true, false, Point::new(2, 2));
    assert_eq!(agents[0].unit.command, Some(UnitCommand::Move(Point::new(2, 2))));
    assert_eq!(agents[0].unit.state, UnitState::Chase(4));
}

#[test]
fn without_input_no_order_changes() {
    let mut agents = vec![agent(1, Faction::Friendly, 0, true), agent(2, Faction::Enemy, 5, false)];
    agents[0].unit.command = Some(UnitCommand::AttackMove(Point::new(1, 1)));
    let before = agents.clone();
    process_command(&mut agents, false, false, Point::new(2, 2));
    assert_eq!(agents, before);
}

#[test]
fn every_unit_is_re_evaluated_against_the_same_list() {
    let mut agents = vec![
        agent(1, Faction::Friendly, 0, false),
        agent(2, Faction::Enemy, 20_000, false),
        agent(3, Faction::Enemy, 300_000, false),
    ];
    let living = sightings(&agents);
    update_unit_state(&mut agents, &living);
    assert_eq!(agents[0].unit.state, UnitState::Chase(2));
    assert_eq!(agents[1].unit.state, UnitState::Chase(1));
    assert_eq!(agents[2].unit.state, UnitState::Idle);
    assert_eq!(agents[0].unit.leash_origin, Point::new(0, 0));
    assert_eq!(agents[1].unit.leash_origin, Point::new(20_000, 0));
    for (i, a) in agents.iter().enumerate() {
        assert_eq!(a.id, i as u64 + 1);
    }
}

#[test]
fn strikes_come_out_in_the_units_order_with_their_attackers() {
    let mut agents = vec![
        agent(1, Faction::Friendly, 0, false),
        agent(2, Faction::Enemy, 5_000, false),
        agent(3, Faction::Enemy, 6_000, false),
        agent(4, Faction::Friendly, 7_000, false),
    ];
    agents[0].unit.state = UnitState::Attack(2);
    agents[1].unit.state = UnitState::Attack(1);
    agents[1].unit.attack_cooldown = 2_000_000;
    agents[2].unit.state = UnitState::Chase(1);
    agents[3].unit.state = UnitState::Attack(3);
    agents[3].unit.damage = 700;
    let living = sightings(&agents);
    let (steerings, strikes) = process_unit_state(&mut agents, &living, 1_000_000);
    assert_eq!(
        steerings,
        vec![Steering::Hold, Steering::Hold, Steering::Toward(Point::new(0, 0)), Steering::Hold]
    );
    assert_eq!(
        strikes,
        vec![
            Strike { attacker: 1, target: 2, amount: -4_000 },
            Strike { attacker: 4, target: 3, amount: -700 },
        ]
    );
    assert_eq!(agents[0].unit.state, UnitState::Chase(2));
    assert_eq!(agents[0].unit.attack_cooldown, 1_000_000);
    assert_eq!(agents[1].unit.state, UnitState::Attack(1));
    assert_eq!(agents[1].unit.attack_cooldown, 1_000_000);
    assert_eq!(agents[2].unit.attack_cooldown, 0);
    assert_eq!(agents[3].unit.state, UnitState::Chase(3));
}

#[test]
fn no_units_no_strikes() {
    let mut agents: Vec<Agent> = Vec::new();
    let (steerings, strikes) = process_unit_state(&mut agents, &Vec::new(), 5);
    assert!(steerings.is_empty());
    assert!(strikes.is_empty());
    update_unit_state(&mut agents, &Vec::new());
    process_command(&mut agents, true, true, Point::new(0, 0));
    assert!(agents.is_empty());
}

#[test]
fn strikes_are_forwarded_one_for_one() {
    let strikes = vec![
        Strike { attacker: 1, target: 2, amount: -4_000 },
        Strike { attacker: 4, target: 3, amount: -700 },
    ];
    assert_eq!(
        resolve_combat(&strikes),
        vec![
            HealthChange { target: 2, amount: -4_000 },
            HealthChange { target: 3, amount: -700 },
        ]
    );
    assert!(resolve_combat(&Vec::new()).is_empty());
}

#[test]
fn a_carrot_wilts_away_in_forty_seconds() {
    assert_eq!(wilting(Crop::Carrot, 1_000_000), -500);
    assert_eq!(wilting(Crop::Carrot, 40_000_000), -20_000);
    assert_eq!(wilting(Crop::Carrot, 16_667), -8);
    assert_eq!(wilting(Crop::Carrot, 0), 0);
}

#[test]
fn a_clover_wilts_away_in_seven_seconds() {
    assert_eq!(wilting(Crop::Clover, 7_000_000), -1_000);
    assert_eq!(wilting(Crop::Clover, 1_000_000), -142);
    assert_eq!(wilting(Crop::Clover, 6_999), 0);
    assert_eq!(wilting(Crop::Clover, 7_000), -1);
}

#[test]
fn a_wheat_wilts_away_in_fifteen_seconds() {
    assert_eq!(wilting(Crop::Wheat, 15_000_000), -10_000);
    assert_eq!(wilting(Crop::Wheat, 1_000_000), -666);
}

#[test]
fn wilting_over_the_longest_tick() {
    assert_eq!(wilting(Crop::Carrot, u64::MAX), -((u64::MAX / 2_000) as i64));
    assert_eq!(wilting(Crop::Wheat, u64::MAX), -((u64::MAX / 1_500) as i64));
    assert_eq!(wilting(Crop::Clover, u64::MAX), -((u64::MAX / 7_000) as i64));
}

#[test]
fn every_crop_unit_is_asked_to_wilt() {
    let crops = vec![
        Wilting { id: 4, crop: Crop::Carrot },
        Wilting { id: 9, crop: Crop::Clover },
        Wilting { id: 2, crop: Crop::Wheat },
    ];
    assert_eq!(
        crop_decay(&crops, 1_000_000),
        vec![
            HealthChange { target: 4, amount: -500 },
            HealthChange { target: 9, amount: -142 },
            HealthChange { target: 2, amount: -666 },
        ]
    );
    assert!(crop_decay(&Vec::new(), 1).is_empty());
}
