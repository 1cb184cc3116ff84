use harvest::geometry::Point;
use harvest::health::Health;
use harvest::spawner::{
    enemy_spawning, fits_spawning, perimeter_point, place_pest, Arrival, Pest, SpawnClock,
    Spawner, Wave,
};
use harvest::unit::{Faction, Unit};

#[test]
fn pests_have_their_numbers() {
    assert_eq!(Pest::Aphid.unit(), Unit::new(75_000, 100_000, 300_000, 10_000, 100_000, 500_000, 510));
    assert_eq!(
        Pest::Caterpillar.unit(),
        Unit::new(25_000, 25_000, 50_000, 16_000, 100_000, 2_000_000, 7_000)
    );
    assert_eq!(Pest::Aphid.max_health(), 5_000);
    assert_eq!(Pest::Caterpillar.max_health(), 25_000);
    assert_eq!(Pest::Aphid.radius(), 4_000);
    assert_eq!(Pest::Caterpillar.radius(), 8_000);
}

#[test]
fn the_first_session_begins_with_fast_clocks() {
    assert_eq!(
        Spawner::new(),
        Spawner {
            aphid: SpawnClock { period: 7_000_000, elapsed: 0 },
            caterpillar: SpawnClock { period: 60_000_000, elapsed: 0 },
            total: 0,
        }
    );
}

#[test]
fn a_restart_begins_with_slow_clocks() {
    assert_eq!(
        Spawner::reset(),
        Spawner {
            aphid: SpawnClock { period: 10_000_000, elapsed: 0 },
            caterpillar: SpawnClock { period: 100_000_000, elapsed: 0 },
            total: 0,
        }
    );
}

#[test]
fn a_clock_comes_round_and_keeps_what_is_left_over() {
    let mut clock = SpawnClock::new(7);
    assert!(!clock.tick(6));
    assert_eq!(clock.elapsed, 6);
    assert!(clock.tick(1));
    assert_eq!(clock.elapsed, 0);
    assert!(clock.tick(23));
    assert_eq!(clock.elapsed, 2);
    assert!(!clock.tick(0));
    assert_eq!(clock.elapsed, 2);
}

#[test]
fn a_clock_takes_the_largest_gain() {
    let mut clock = SpawnClock { period: u64::MAX, elapsed: u64::MAX - 1 };
    assert!(clock.tick(u128::MAX - (u64::MAX as u128) + 1));
    assert_eq!(clock.elapsed as u128, u128::MAX % (u64::MAX as u128));
}

#[test]
fn the_clocks_run_faster_as_the_session_goes_on() {
    let mut spawner = Spawner::new();
    // One second in: the aphids' clock gains 1 s + 1/120 s, the
    // caterpillars' 1 s + 1/240 s.
    let wave = spawner.tick(1_000_000);
    assert_eq!(wave, Wave { aphid: false, caterpillar: false });
    assert_eq!(spawner.total, 1_000_000);
    assert_eq!(spawner.aphid.elapsed, 1_008_333);
    assert_eq!(spawner.caterpillar.elapsed, 1_004_166);
}

#[test]
fn two_minutes_in_the_aphids_clock_runs_twice_as_fast() {
    let mut spawner = Spawner::new();
    spawner.total = 119_000_000;
    let wave = spawner.tick(1_000_000);
    assert_eq!(wave, Wave { aphid: false, caterpillar: false });
    assert_eq!(spawner.aphid.elapsed, 2_000_000);
    assert_eq!(spawner.caterpillar.elapsed, 1_500_000);
}

#[test]
fn the_first_aphid_comes_before_seven_seconds_are_over() {
    let mut spawner = Spawner::new();
    let mut waves = Vec::new();
    for _ in 0..7 {
        waves.push(spawner.tick(1_000_000).aphid);
    }
    assert_eq!(waves, vec![false, false, false, false, false, false, true]);
    // 7 s and 28/120 s have passed on the clock of 7 s, less what the
    // rounding down of each tick's gain took.
    assert_eq!(spawner.aphid.elapsed, 233_331);
}

#[test]
fn the_timer_shows_minutes_and_seconds() {
    let mut spawner = Spawner::new();
    assert_eq!(spawner.update_timer(), (0, 0));
    spawner.total = 59_999_999;
    assert_eq!(spawner.update_timer(), (0, 59));
    spawner.total = 60_000_000;
    assert_eq!(spawner.update_timer(), (1, 0));
    spawner.total = 754_000_000;
    assert_eq!(spawner.update_timer(), (12, 34));
}

#[test]
fn the_rim_is_walked_from_the_lower_left_corner() {
    // A rectangle of 100 by 60, centred at the origin.
    assert_eq!(perimeter_point(100, 60, 0), Point::new(-50, -30));
    assert_eq!(perimeter_point(100, 60, 99), Point::new(49, -30));
    assert_eq!(perimeter_point(100, 60, 100), Point::new(50, -30));
    assert_eq!(perimeter_point(100, 60, 159), Point::new(50, 29));
    assert_eq!(perimeter_point(100, 60, 160), Point::new(-50, 30));
    assert_eq!(perimeter_point(100, 60, 259), Point::new(49, 30));
    assert_eq!(perimeter_point(100, 60, 260), Point::new(-50, -30));
    assert_eq!(perimeter_point(100, 60, 319), Point::new(-50, 29));
}

#[test]
fn the_rim_of_the_largest_rectangle() {
    let p = perimeter_point(i32::MAX as u32, 0, 0);
    assert_eq!(p, Point::new(-(i32::MAX / 2), 0));
    // A rectangle of no height has no right side: the walk goes on
    // along the upper side.
    let p = perimeter_point(i32::MAX as u32, 0, i32::MAX as u32);
    assert_eq!(p, Point::new(-(i32::MAX / 2), 0));
    let p = perimeter_point(i32::MAX as u32, 0, i32::MAX as u32 - 1);
    assert_eq!(p, Point::new(i32::MAX - 1 - i32::MAX / 2, 0));
    let p = perimeter_point(0, i32::MAX as u32, i32::MAX as u32 - 1);
    assert_eq!(p, Point::new(0, i32::MAX - 1 - i32::MAX / 2));
}

fn on_line(p: Point, width: i32, height: i32) -> bool {
    let x = p.x + width / 2;
    let y = p.y + height / 2;
    (0 <= x && x < width && (y == 0 || y == height))
        || (0 <= y && y < height && (x == 0 || x == width))
}

fn check(arrival: &Arrival, pest: Pest) {
    assert_eq!(arrival.pest, pest);
    assert_eq!(arrival.faction, Faction::Enemy);
    assert_eq!(arrival.unit, pest.unit());
    assert_eq!(arrival.unit.command, None);
    assert_eq!(arrival.health, Health::new(pest.max_health()));
    assert_eq!(arrival.radius, pest.radius());
    // A window of 1280 by 720: the line is 340 by 200 world units.
    assert!(on_line(arrival.pos, 340_000, 200_000));
}

#[test]
fn a_pest_is_placed_on_the_line_round_the_window() {
    let arrival = place_pest(Pest::Aphid, 1_280_000, 720_000, 0);
    check(&arrival, Pest::Aphid);
    assert_eq!(arrival.pos, Point::new(-170_000, -100_000));
    let arrival = place_pest(Pest::Caterpillar, 1_280_000, 720_000, 340_000 + 200_000);
    check(&arrival, Pest::Caterpillar);
    assert_eq!(arrival.pos, Point::new(-170_000, 100_000));
}

#[test]
fn no_pest_comes_before_its_clock_comes_round() {
    let mut spawner = Spawner::new();
    let arrivals = enemy_spawning(&mut spawner, 1_000_000, 1_280_000, 720_000);
    assert!(arrivals.is_empty());
    assert_eq!(spawner.total, 1_000_000);
}

#[test]
fn an_aphid_comes_when_its_clock_comes_round() {
    let mut spawner = Spawner::new();
    for _ in 0..200 {
        spawner.aphid.elapsed = 6_999_999;
        spawner.caterpillar.elapsed = 0;
        let arrivals = enemy_spawning(&mut spawner, 1, 1_280_000, 720_000);
        assert_eq!(arrivals.len(), 1);
        check(&arrivals[0], Pest::Aphid);
    }
}

#[test]
fn both_pests_come_together_aphid_first() {
    let mut spawner = Spawner::new();
    let mut places = std::collections::BTreeSet::new();
    for _ in 0..200 {
        spawner.aphid.elapsed = 6_999_999;
        spawner.caterpillar.elapsed = 59_999_999;
        let arrivals = enemy_spawning(&mut spawner, 1, 1_280_000, 720_000);
        assert_eq!(arrivals.len(), 2);
        check(&arrivals[0], Pest::Aphid);
        check(&arrivals[1], Pest::Caterpillar);
        places.insert((arrivals[0].pos.x, arrivals[0].pos.y));
    }
    assert!(places.len() > 1);
}

#[test]
fn a_caterpillar_alone_comes_last_and_first() {
    let mut spawner = Spawner::new();
    spawner.caterpillar.elapsed = 59_999_999;
    let arrivals = enemy_spawning(&mut spawner, 1, 0, 0);
    assert_eq!(arrivals.len(), 1);
    assert_eq!(arrivals[0].pest, Pest::Caterpillar);
    // With no window at all the line is the margin: 20 by 20.
    assert!(on_line(arrivals[0].pos, 20_000, 20_000));
}

#[test]
fn spawning_fits_unless_the_session_or_the_window_is_too_large() {
    let mut spawner = Spawner::new();
    assert!(fits_spawning(&spawner, u64::MAX, 1_280_000, 720_000));
    spawner.total = 1;
    assert!(!fits_spawning(&spawner, u64::MAX, 1_280_000, 720_000));
    assert!(fits_spawning(&spawner, u64::MAX - 1, 1_280_000, 720_000));
    spawner.aphid.period = 0;
    assert!(!fits_spawning(&spawner, 1, 1_280_000, 720_000));
    let spawner = Spawner::new();
    // The line is as long as half the window's sides and eight margins:
    // with the widest window, this is the highest that fits.
    assert!(fits_spawning(&spawner, 1, u32::MAX, u32::MAX - 159_996));
    assert!(!fits_spawning(&spawner, 1, u32::MAX, u32::MAX - 159_995));
    assert!(!fits_spawning(&spawner, 1, u32::MAX, u32::MAX));
}
