use secalc_core::ui::settings::{workshop_url, Settings, SettingsEffects, SettingsEvent};

fn none() -> SettingsEffects {
    SettingsEffects { restyle: false, persist: false }
}

fn restyle() -> SettingsEffects {
    SettingsEffects { restyle: true, persist: false }
}

#[test]
fn defaults() {
    let s = Settings::new();
    assert!(s.dark_mode);
    assert_eq!(s.font_size_modifier, 4);
    assert!(!s.increase_contrast);
    assert!(s.enabled_mod_ids.is_empty());
    assert!(s.first_time && !s.show_settings_window && !s.show_about_window);
}

#[test]
fn about_window_opens_on_the_first_frame_only() {
    let mut s = Settings::new();
    assert_eq!(s.update(SettingsEvent::Frame), none());
    assert!(s.show_about_window && !s.first_time);
    s.update(SettingsEvent::CloseAbout);
    assert!(!s.show_about_window);
    s.update(SettingsEvent::Frame);
    assert!(!s.show_about_window);
    s.update(SettingsEvent::ToggleAboutWindow);
    assert!(s.show_about_window);
}

#[test]
fn settings_change_only_while_the_window_shows() {
    let mut s = Settings::new();
    assert_eq!(s.update(SettingsEvent::SetIncreaseContrast(true)), none());
    assert!(!s.increase_contrast);
    s.update(SettingsEvent::ToggleSettingsWindow);
    assert!(s.show_settings_window);
    assert_eq!(s.update(SettingsEvent::SetIncreaseContrast(true)), restyle());
    assert!(s.increase_contrast);
    assert_eq!(s.update(SettingsEvent::SetDarkMode(false)), restyle());
    assert!(!s.dark_mode);
    assert_eq!(s.update(SettingsEvent::SaveSettings), SettingsEffects { restyle: false, persist: true });
    assert_eq!(s.update(SettingsEvent::CloseSettings), none());
    assert!(!s.show_settings_window);
    assert_eq!(s.update(SettingsEvent::ToggleDarkMode), restyle());
    assert!(s.dark_mode);
}

#[test]
fn font_size_modifier_is_clamped() {
    let mut s = Settings::new();
    s.update(SettingsEvent::ToggleSettingsWindow);
    s.update(SettingsEvent::SetFontSizeModifier(20));
    assert_eq!(s.font_size_modifier, 16);
    s.update(SettingsEvent::SetFontSizeModifier(-10));
    assert_eq!(s.font_size_modifier, -4);
    s.update(SettingsEvent::SetFontSizeModifier(7));
    assert_eq!(s.font_size_modifier, 7);
}

#[test]
fn mods_are_enabled_and_disabled() {
    let mut s = Settings::new();
    s.update(SettingsEvent::ToggleSettingsWindow);
    s.update(SettingsEvent::SetModEnabled(1_234, true));
    s.update(SettingsEvent::SetModEnabled(99, true));
    assert!(s.is_mod_enabled(1_234) && s.is_mod_enabled(99));
    s.update(SettingsEvent::SetModEnabled(1_234, false));
    assert!(!s.is_mod_enabled(1_234) && s.is_mod_enabled(99));
    s.update(SettingsEvent::SetModEnabled(5, false));
    assert_eq!(s.enabled_mod_ids.len(), 1);
}

#[test]
fn workshop_urls() {
    assert_eq!(workshop_url(2_234_567_890), "https://steamcommunity.com/workshop/filedetails/?id=2234567890");
    assert_eq!(workshop_url(0), "https://steamcommunity.com/workshop/filedetails/?id=0");
}
