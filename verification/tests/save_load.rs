use secalc_core::ui::save_load::{Effects, Event, SaveLoad, Window};
use secalc_core::ui::storage::Storage;

fn none() -> Effects {
    Effects { persist: false, recalculate: false }
}

fn saved(s: &SaveLoad<u64>) -> Vec<(String, u64)> {
    s.storage.iter_saved_calculators().into_iter().map(|(n, c)| (n.clone(), *c)).collect()
}

#[test]
fn save_without_name_opens_save_as() {
    let mut s = SaveLoad::new(Storage::new(3u64), 0);
    assert!(s.enable_gui());
    assert_eq!(s.update(Event::Save), Effects { persist: true, recalculate: false });
    assert!(matches!(&s.window, Window::SaveAs(n) if n.is_empty()));
    assert!(!s.enable_gui());
    s.update(Event::SaveAsName("Ship".to_string()));
    assert_eq!(s.update(Event::SaveAsSave), Effects { persist: true, recalculate: false });
    assert!(matches!(s.window, Window::Closed));
    assert_eq!(saved(&s), vec![("Ship".to_string(), 3)]);
    assert_eq!(s.storage.calculator_name.as_deref(), Some("Ship"));
}

#[test]
fn save_with_name_saves_directly() {
    let mut s = SaveLoad::new(Storage::new(3u64), 0);
    s.storage.save_calculator("Ship".to_string());
    s.storage.calculator = 4;
    assert_eq!(s.update(Event::GridEdited), Effects { persist: false, recalculate: true });
    assert!(s.storage.calculator_modified);
    assert_eq!(s.update(Event::Save), Effects { persist: true, recalculate: false });
    assert!(matches!(s.window, Window::Closed));
    assert_eq!(saved(&s), vec![("Ship".to_string(), 4)]);
    assert!(!s.storage.calculator_modified);
}

#[test]
fn save_as_existing_name_asks_to_overwrite() {
    let mut s = SaveLoad::new(Storage::new(3u64), 0);
    s.storage.save_calculator("Ship".to_string());
    s.storage.calculator = 8;
    s.update(Event::SaveAs);
    assert!(matches!(&s.window, Window::SaveAs(n) if n == "Ship"));
    assert_eq!(s.update(Event::SaveAsSave), none());
    assert!(matches!(&s.window, Window::SaveAsConfirm(n) if n == "Ship"));
    assert_eq!(s.update(Event::OverwriteCancel), none());
    assert_eq!(saved(&s), vec![("Ship".to_string(), 3)]);
    s.update(Event::SaveAs);
    s.update(Event::SaveAsSave);
    assert_eq!(s.update(Event::OverwriteConfirmed), Effects { persist: true, recalculate: false });
    assert_eq!(saved(&s), vec![("Ship".to_string(), 8)]);
}

#[test]
fn load_asks_when_unsaved_and_loads() {
    let mut s = SaveLoad::new(Storage::new(3u64), 0);
    s.storage.save_calculator("A".to_string());
    s.storage.calculator = 5;
    s.update(Event::GridEdited);
    s.update(Event::Load);
    assert!(matches!(s.window, Window::LoadConfirm));
    s.update(Event::LoadConfirmCancel);
    assert!(matches!(s.window, Window::Closed));
    s.update(Event::Load);
    s.update(Event::LoadConfirmContinue);
    assert!(matches!(s.window, Window::Load));
    assert_eq!(s.update(Event::LoadEntry("missing".to_string())), none());
    assert!(matches!(s.window, Window::Load));
    assert_eq!(s.update(Event::LoadEntry("A".to_string())), Effects { persist: true, recalculate: true });
    assert!(matches!(s.window, Window::Closed));
    assert_eq!((s.storage.calculator, s.storage.calculator_name.as_deref(), s.storage.calculator_modified), (3, Some("A"), false));
    s.update(Event::Load);
    assert!(matches!(s.window, Window::Load));
    s.update(Event::LoadCancel);
    assert!(s.enable_gui());
}

#[test]
fn delete_of_current_grid_forgets_its_name() {
    let mut s = SaveLoad::new(Storage::new(3u64), 0);
    s.storage.save_calculator("A".to_string());
    s.storage.save_calculator("B".to_string());
    s.update(Event::Load);
    s.update(Event::DeleteEntry("A".to_string()));
    assert!(matches!(&s.window, Window::DeleteConfirm(n) if n == "A"));
    s.update(Event::DeleteCancel);
    assert!(matches!(s.window, Window::Load));
    s.update(Event::DeleteEntry("B".to_string()));
    assert_eq!(s.update(Event::DeleteConfirmed), none());
    assert!(matches!(s.window, Window::Load));
    assert_eq!(saved(&s), vec![("A".to_string(), 3)]);
    assert_eq!((s.storage.calculator_name.as_deref(), s.storage.calculator_modified), (None, true));
    s.update(Event::DeleteEntry("A".to_string()));
    s.update(Event::DeleteConfirmed);
    assert!(saved(&s).is_empty());
}

#[test]
fn reset_goes_back_to_default() {
    let mut s = SaveLoad::new(Storage::new(3u64), 100);
    s.storage.save_calculator("A".to_string());
    s.update(Event::Reset);
    assert!(matches!(s.window, Window::ResetConfirm));
    assert_eq!(s.update(Event::ResetCancel), none());
    assert_eq!(s.storage.calculator, 3);
    s.update(Event::Reset);
    assert_eq!(s.update(Event::ResetConfirmed), Effects { persist: false, recalculate: true });
    assert_eq!((s.storage.calculator, s.storage.calculator_name.as_deref(), s.storage.calculator_modified), (100, None, false));
    assert_eq!(saved(&s), vec![("A".to_string(), 3)]);
}

#[test]
fn events_of_closed_windows_change_nothing() {
    let mut s = SaveLoad::new(Storage::new(3u64), 0);
    assert_eq!(s.update(Event::OverwriteConfirmed), none());
    assert_eq!(s.update(Event::DeleteConfirmed), none());
    assert!(saved(&s).is_empty());
    s.update(Event::Reset);
    assert_eq!(s.update(Event::Save), none());
    assert_eq!(s.update(Event::GridEdited), none());
    assert!(!s.storage.calculator_modified);
    assert!(matches!(s.window, Window::ResetConfirm));
}
