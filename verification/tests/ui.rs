use secalc_core::data::blocks::GridSize;
use secalc_core::grid::counts::GridInput;
use secalc_core::grid::direction::Direction;
use secalc_core::ui::app::{App, Effects, Message, Page};
use secalc_core::ui::data_bind::{DataBind, DataBindMessage};
use secalc_core::ui::page::grid_calc::block_input::BlockInputMessage;
use secalc_core::ui::page::grid_calc::directional_block_input::DirectionalBlockInputMessage;
use secalc_core::ui::page::grid_calc::{self, action_of, Action};
use secalc_core::ui::page::{load, load_confirm_discard, save_as, save_overwrite_confirm};
use secalc_core::ui::storage::{GetLocalStorageError, NoSavedCalculator, Storage};

fn typed(text: &str) -> DataBindMessage {
    DataBindMessage(text.to_string())
}

#[test]
fn data_bind_parses_typed_text() {
    let mut bind = DataBind::new(5, "count".to_string(), "#".to_string());
    assert_eq!((bind.value(), bind.error(), bind.input_placeholder(), bind.unit()), ("", false, "count", "#"));
    assert_eq!(bind.input_default_value(), 5);
    let mut val = 0u64;
    bind.update(typed("12"), &mut val);
    assert_eq!((val, bind.value(), bind.error()), (12, "12", false));
    bind.update(typed("12x"), &mut val);
    assert_eq!((val, bind.value(), bind.error()), (5, "12x", true));
    bind.update(typed(""), &mut val);
    assert_eq!((val, bind.value(), bind.error()), (5, "", false));
    bind.update(typed("-3"), &mut val);
    assert_eq!((val, bind.error()), (5, true));
}

#[test]
fn data_bind_reloads_values() {
    let mut bind = DataBind::new(1, String::new(), String::new());
    bind.reload("1".to_string());
    assert_eq!((bind.value(), bind.error()), ("", false));
    bind.reload("40".to_string());
    assert_eq!((bind.value(), bind.error()), ("40", false));
    bind.reload("forty".to_string());
    assert_eq!((bind.value(), bind.error()), ("forty", true));
    bind.reload_count(1);
    assert_eq!((bind.value(), bind.error()), ("", false));
    bind.reload_count(1234);
    assert_eq!((bind.value(), bind.error()), ("1234", false));
}

#[test]
fn grid_calc_actions() {
    let m = grid_calc::Message::InputStorageChange(BlockInputMessage("Cargo.Large".to_string(), GridSize::Large, typed("3")));
    assert_eq!(action_of(&m), Action::CalculatorModified);
    let t = grid_calc::Message::InputThrustChange(DirectionalBlockInputMessage(GridSize::Small, "Thrust.S".to_string(), Direction::Up, typed("1")));
    assert_eq!(action_of(&t), Action::CalculatorModified);
    assert_eq!(action_of(&grid_calc::Message::SavePressed), Action::Save);
    assert_eq!(action_of(&grid_calc::Message::SaveAsPressed), Action::SaveAs);
    assert_eq!(action_of(&grid_calc::Message::LoadPressed), Action::Load);
}

#[test]
fn save_as_page() {
    let mut p = save_as::Page::new(None);
    assert_eq!(p.name(), "");
    assert!(p.update(save_as::Message::Save).is_none());
    assert!(p.update(save_as::Message::SetName("Miner".to_string())).is_none());
    assert_eq!(p.name(), "Miner");
    assert!(matches!(p.update(save_as::Message::Save), Some(save_as::Action::Save(n)) if n == "Miner"));
    assert!(matches!(p.update(save_as::Message::Cancel), Some(save_as::Action::Cancel)));
    assert_eq!(save_as::Page::new(Some("Hauler".to_string())).name(), "Hauler");
}

#[test]
fn confirm_pages() {
    let mut p = save_overwrite_confirm::Page::new("Miner".to_string());
    assert!(matches!(p.update(save_overwrite_confirm::Message::Overwrite), save_overwrite_confirm::Action::Overwrite(n) if n == "Miner"));
    assert!(matches!(p.update(save_overwrite_confirm::Message::Cancel), save_overwrite_confirm::Action::Cancel));
    assert_eq!(p.name(), "Miner");
    let mut d = load_confirm_discard::Page::new();
    assert!(matches!(d.update(load_confirm_discard::Message::Discard), load_confirm_discard::Action::Discard));
    assert!(matches!(d.update(load_confirm_discard::Message::Cancel), load_confirm_discard::Action::Cancel));
}

#[test]
fn storage_save_then_load() {
    let mut s = Storage::new(10u64);
    assert!(!s.contains_saved_calculator("a"));
    s.save_calculator("a".to_string());
    assert_eq!((s.calculator_name.as_deref(), s.calculator_modified), (Some("a"), false));
    s.calculator = 20;
    s.calculator_modified = true;
    s.save_calculator("b".to_string());
    s.calculator = 30;
    s.save_calculator("a".to_string());
    assert_eq!(s.saved_calculator_names(), vec!["b".to_string(), "a".to_string()]);
    let saved: Vec<(String, u64)> = s.iter_saved_calculators().into_iter().map(|(n, c)| (n.clone(), *c)).collect();
    assert_eq!(saved, vec![("b".to_string(), 20), ("a".to_string(), 30)]);
    s.calculator_modified = true;
    assert!(s.load_calculator("b".to_string()).is_ok());
    assert_eq!((s.calculator, s.calculator_name.as_deref(), s.calculator_modified), (20, Some("b"), false));
    let err = s.load_calculator("zzz".to_string()).unwrap_err();
    assert_eq!(err.0, "zzz");
    assert_eq!(err.message(), "No saved calculator with name 'zzz' was found");
    assert!(matches!(err, NoSavedCalculator(_)));
    assert_eq!(s.calculator, 20);
    s.remove_saved_calculator("b");
    assert_eq!(s.saved_calculator_names(), vec!["a".to_string()]);
    assert!(s.contains_saved_calculator("a"));
}

#[test]
fn local_storage_error_messages() {
    assert_eq!(GetLocalStorageError::NoWindow.message(), "Could not get local storage; cannot get window");
    assert_eq!(GetLocalStorageError::NoLocalStorage.message(), "Could not get local storage; window returned no storage");
    assert_eq!(GetLocalStorageError::LocalStorageError("x".to_string()).message(), "Cannot get local storage; an error occurred");
}

fn none() -> Effects {
    Effects { persist_storage: false, reload_input: false, load_failed: false, unhandled: false }
}

#[test]
fn app_save_asks_for_a_name_first() {
    let mut app = App::new(Storage::new(GridInput::new(1u64)));
    assert!(matches!(app.current_page, Page::GridCalc));
    let e = app.update(Message::GridCalcPage(grid_calc::Message::SavePressed));
    assert_eq!(e, none());
    assert!(matches!(&app.current_page, Page::SaveAs(p) if p.name() == ""));
    app.update(Message::SaveAsPage(save_as::Message::SetName("Rover".to_string())));
    let e = app.update(Message::SaveAsPage(save_as::Message::Save));
    assert_eq!(e, Effects { persist_storage: true, ..none() });
    assert!(matches!(app.current_page, Page::GridCalc));
    assert_eq!(app.storage.calculator_name.as_deref(), Some("Rover"));
    app.storage.calculator.options = 2;
    let e = app.update(Message::GridCalcPage(grid_calc::Message::SavePressed));
    assert_eq!(e, Effects { persist_storage: true, ..none() });
    let saved: Vec<(String, u64)> = app.storage.iter_saved_calculators().into_iter().map(|(n, c)| (n.clone(), c.options)).collect();
    assert_eq!(saved, vec![("Rover".to_string(), 2)]);
}

#[test]
fn app_asks_before_overwriting() {
    let mut app = App::new(Storage::new(GridInput::new(1u64)));
    app.storage.save_calculator("Rover".to_string());
    app.storage.calculator_name = None;
    app.storage.calculator.options = 5;
    app.update(Message::GridCalcPage(grid_calc::Message::SaveAsPressed));
    app.update(Message::SaveAsPage(save_as::Message::SetName("Rover".to_string())));
    let e = app.update(Message::SaveAsPage(save_as::Message::Save));
    assert_eq!(e, none());
    assert!(matches!(&app.current_page, Page::SaveAsOverwriteConfirm(p) if p.name() == "Rover"));
    let e = app.update(Message::SaveAsOverwriteConfirmPage(save_overwrite_confirm::Message::Overwrite));
    assert_eq!(e, Effects { persist_storage: true, ..none() });
    let saved: Vec<(String, u64)> = app.storage.iter_saved_calculators().into_iter().map(|(n, c)| (n.clone(), c.options)).collect();
    assert_eq!(saved, vec![("Rover".to_string(), 5)]);
}

#[test]
fn app_load_confirms_discarding_changes() {
    let mut app = App::new(Storage::new(GridInput::new(1u64)));
    app.storage.save_calculator("Base".to_string());
    app.update(Message::GridCalcPage(grid_calc::Message::InputPowerChange(BlockInputMessage(
        "Battery".to_string(),
        GridSize::Large,
        typed("2"),
    ))));
    assert!(app.storage.calculator_modified);
    assert_eq!(app.storage.calculator.blocks.get("Battery"), 2);
    app.storage.calculator.options = 9;
    app.update(Message::GridCalcPage(grid_calc::Message::LoadPressed));
    assert!(matches!(app.current_page, Page::LoadConfirmDiscard(_)));
    app.update(Message::LoadConfirmDiscardPage(load_confirm_discard::Message::Discard));
    assert!(matches!(&app.current_page, Page::Load(p) if p.names() == &vec!["Base".to_string()]));
    let e = app.update(Message::LoadPage(load::Message::Load("Base".to_string())));
    assert_eq!(e, Effects { persist_storage: true, reload_input: true, ..none() });
    assert_eq!((app.storage.calculator.options, app.storage.calculator_modified), (1, false));
    assert_eq!(app.storage.calculator.blocks.get("Battery"), 0);
    app.update(Message::GridCalcPage(grid_calc::Message::LoadPressed));
    let e = app.update(Message::LoadPage(load::Message::Load("Gone".to_string())));
    assert_eq!(e, Effects { reload_input: true, load_failed: true, ..none() });
}

#[test]
fn app_ignores_messages_of_other_pages() {
    let mut app = App::new(Storage::new(GridInput::new(1u64)));
    let e = app.update(Message::LoadPage(load::Message::Cancel));
    assert_eq!(e, Effects { unhandled: true, ..none() });
    assert!(matches!(app.current_page, Page::GridCalc));
    app.update(Message::GridCalcPage(grid_calc::Message::SaveAsPressed));
    app.update(Message::SaveAsPage(save_as::Message::Cancel));
    assert!(matches!(app.current_page, Page::GridCalc));
}

#[test]
fn app_title() {
    let app = App::new(Storage::new(GridInput::new(0u64)));
    assert_eq!(app.title(), "Space Engineers Calculator");
}

#[test]
fn shown_counts_type_back() {
    for (default, v) in [(0u64, 0u64), (0, 17), (5, 5), (5, 18446744073709551615)] {
        let mut bind = DataBind::new(default, String::new(), String::new());
        bind.reload_count(v);
        let shown = bind.value().to_string();
        let mut val = 0u64;
        bind.update(DataBindMessage(shown), &mut val);
        assert_eq!((val, bind.error()), (v, false));
    }
}

#[test]
fn app_applies_typed_counts() {
    let mut app = App::new(Storage::new(GridInput::new(0u64)));
    let storage = |id: &str, text: &str| {
        Message::GridCalcPage(grid_calc::Message::InputStorageChange(BlockInputMessage(id.to_string(), GridSize::Small, typed(text))))
    };
    app.update(storage("Cargo.Small", "12"));
    app.update(storage("Cargo.Large", "3"));
    app.update(storage("Cargo.Small", "x"));
    assert_eq!(app.storage.calculator.blocks.get("Cargo.Small"), 0);
    assert_eq!(app.storage.calculator.blocks.get("Cargo.Large"), 3);
    assert_eq!(app.storage.calculator.blocks.get("Other"), 0);
    app.update(Message::GridCalcPage(grid_calc::Message::InputHydrogenChange(BlockInputMessage(
        "Tank".to_string(),
        GridSize::Large,
        typed("+7"),
    ))));
    assert_eq!(app.storage.calculator.blocks.get("Tank"), 7);
    let thrust = |d: Direction, text: &str| {
        Message::GridCalcPage(grid_calc::Message::InputThrustChange(DirectionalBlockInputMessage(
            GridSize::Large,
            "Thrust.Large".to_string(),
            d,
            typed(text),
        )))
    };
    app.update(thrust(Direction::Up, "4"));
    app.update(thrust(Direction::Left, "2"));
    app.update(thrust(Direction::Up, "5"));
    assert_eq!(app.storage.calculator.directional_blocks.get("Thrust.Large").0, [5, 0, 0, 0, 2, 0]);
    assert_eq!(app.storage.calculator.directional_blocks.get("Other").0, [0; 6]);
    assert!(app.storage.calculator_modified);
    let counts: Vec<(String, u64)> = app.storage.calculator.blocks.iter().into_iter().map(|(n, c)| (n.clone(), c)).collect();
    assert_eq!(counts.len(), 3);
    assert!(counts.contains(&("Cargo.Small".to_string(), 0)));
}
