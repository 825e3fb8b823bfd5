use secalc_core::grid::direction::{CountPerDirection, Direction, PerDirection};
use secalc_core::grid::{BatteryMode, HydrogenTankMode};

#[test]
fn direction_items_in_canonical_order() {
    let items = Direction::items();
    assert_eq!(
        items,
        [Direction::Up, Direction::Down, Direction::Front, Direction::Back, Direction::Left, Direction::Right]
    );
    for (i, d) in items.iter().enumerate() {
        assert_eq!(d.into_index(), i);
    }
}

#[test]
fn direction_names() {
    let names: Vec<&str> = Direction::items().iter().map(|d| d.name()).collect();
    assert_eq!(names, vec!["Up", "Down", "Front", "Back", "Left", "Right"]);
    assert_eq!(Direction::default(), Direction::Up);
}

#[test]
fn per_direction_write_then_read() {
    let mut counts: CountPerDirection = PerDirection::default();
    *counts.get_mut(Direction::Left) = 7;
    *counts.back_mut() = 3;
    assert_eq!(*counts.get(Direction::Left), 7);
    assert_eq!(*counts.left(), 7);
    assert_eq!(*counts.back(), 3);
    assert_eq!(*counts.up(), 0);
    assert_eq!(*counts.down(), 0);
    assert_eq!(*counts.front(), 0);
    assert_eq!(*counts.right(), 0);
    assert_eq!(counts.0, [0, 0, 0, 3, 7, 0]);
}

#[test]
fn per_direction_mut_accessors_touch_one_direction() {
    let mut p = PerDirection::new([1u64, 2, 3, 4, 5, 6]);
    *p.up_mut() += 10;
    *p.down_mut() += 20;
    *p.front_mut() += 30;
    *p.right_mut() += 60;
    *p.left_mut() += 50;
    assert_eq!(p.0, [11, 22, 33, 4, 55, 66]);
}

#[test]
fn per_direction_iterates_in_canonical_order() {
    let mut p = PerDirection::new([1u64, 2, 3, 4, 5, 6]);
    let values: Vec<u64> = p.iter().into_iter().copied().collect();
    assert_eq!(values, vec![1, 2, 3, 4, 5, 6]);
    let with_dir: Vec<(Direction, u64)> = p.iter_with_direction().into_iter().map(|(d, v)| (d, *v)).collect();
    assert_eq!(with_dir[0], (Direction::Up, 1));
    assert_eq!(with_dir[5], (Direction::Right, 6));
    assert_eq!(with_dir.len(), 6);
    for v in p.iter_mut().iter_mut() {
        *v *= 2;
    }
    assert_eq!(p.0, [2, 4, 6, 8, 10, 12]);
}

#[test]
fn per_direction_splat_and_default() {
    let p = PerDirection::splat(9u64);
    assert_eq!(p.0, [9; 6]);
    let d = CountPerDirection::default();
    assert_eq!(d.0, [0; 6]);
}

#[test]
fn battery_modes() {
    assert_eq!(
        BatteryMode::items(),
        [BatteryMode::Auto, BatteryMode::Recharge, BatteryMode::Discharge, BatteryMode::Off]
    );
    assert_eq!(BatteryMode::default(), BatteryMode::Discharge);
    let table: Vec<(bool, bool)> = BatteryMode::items().iter().map(|m| (m.is_charging(), m.is_discharging())).collect();
    assert_eq!(table, vec![(true, true), (true, false), (false, true), (false, false)]);
    let names: Vec<&str> = BatteryMode::items().iter().map(|m| m.name()).collect();
    assert_eq!(names, vec!["Auto", "Recharge", "Discharge", "Off"]);
}

#[test]
fn hydrogen_tank_modes() {
    assert_eq!(
        HydrogenTankMode::items(),
        [HydrogenTankMode::On, HydrogenTankMode::Stockpile, HydrogenTankMode::Off]
    );
    assert_eq!(HydrogenTankMode::default(), HydrogenTankMode::On);
    let table: Vec<(bool, bool)> = HydrogenTankMode::items().iter().map(|m| (m.is_refilling(), m.is_providing())).collect();
    assert_eq!(table, vec![(true, true), (true, false), (false, false)]);
    let names: Vec<&str> = HydrogenTankMode::items().iter().map(|m| m.name()).collect();
    assert_eq!(names, vec!["On", "Stockpile", "Off"]);
}
