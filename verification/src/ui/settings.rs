//! The settings and about windows of the desktop calculator: interface options, the mods whose
//! blocks are offered, and when the windows show.
use std::collections::HashSet;

use vstd::prelude::*;

use crate::text::{decimal_chars, join_texts, u64_to_decimal};

verus! {

broadcast use vstd::std_specs::hash::group_hash_axioms;

/// The smallest font size modifier that can be set.
pub const FONT_SIZE_MODIFIER_MIN: i32 = -4;

/// The largest font size modifier that can be set.
pub const FONT_SIZE_MODIFIER_MAX: i32 = 16;

/// The options of the interface and the state of the settings and about windows.
#[derive(Debug)]
pub struct Settings {
    pub dark_mode: bool,
    pub font_size_modifier: i32,
    pub increase_contrast: bool,
    pub enabled_mod_ids: HashSet<u64>,
    /// Whether the application has not shown its first frame yet.
    pub first_time: bool,
    pub show_settings_window: bool,
    pub show_about_window: bool,
}

/// What the user did with the menu, the settings window or the about window, or that a frame
/// starts.
#[derive(Debug)]
pub enum SettingsEvent {
    /// A frame is about to be shown.
    Frame,
    /// The dark mode button of the menu bar.
    ToggleDarkMode,
    /// Menu "Window, Settings".
    ToggleSettingsWindow,
    /// Menu "Window, About".
    ToggleAboutWindow,
    /// The dark mode checkbox of the settings window.
    SetDarkMode(bool),
    /// The font size modifier field of the settings window.
    SetFontSizeModifier(i32),
    /// The increase contrast checkbox of the settings window.
    SetIncreaseContrast(bool),
    /// The checkbox of a mod in the settings window.
    SetModEnabled(u64, bool),
    /// "Save" in the settings window.
    SaveSettings,
    /// "Close" in the settings window.
    CloseSettings,
    /// "Close" in the about window.
    CloseAbout,
}

/// What the application must do after a settings event.
#[derive(Copy, Clone, PartialEq, Eq, Structural, Debug)]
pub struct SettingsEffects {
    /// The interface style changed and is to be applied.
    pub restyle: bool,
    /// The application state is to be written out.
    pub persist: bool,
}

/// The settings as a value: options, enabled mods, and window flags.
pub struct SettingsView {
    pub dark_mode: bool,
    pub font_size_modifier: i32,
    pub increase_contrast: bool,
    pub enabled_mod_ids: Set<u64>,
    pub first_time: bool,
    pub show_settings_window: bool,
    pub show_about_window: bool,
}

impl View for Settings {
    type V = SettingsView;

    open spec fn view(&self) -> SettingsView {
        SettingsView {
            dark_mode: self.dark_mode,
            font_size_modifier: self.font_size_modifier,
            increase_contrast: self.increase_contrast,
            enabled_mod_ids: self.enabled_mod_ids@,
            first_time: self.first_time,
            show_settings_window: self.show_settings_window,
            show_about_window: self.show_about_window,
        }
    }
}

/// `v` clamped to the range of font size modifiers.
pub open spec fn clamped_font_size_modifier(v: i32) -> i32 {
    if v < FONT_SIZE_MODIFIER_MIN {
        FONT_SIZE_MODIFIER_MIN
    } else if v > FONT_SIZE_MODIFIER_MAX {
        FONT_SIZE_MODIFIER_MAX
    } else {
        v
    }
}

/// What `event` does to settings `s`, giving `n` and effects `e`. The options of the settings
/// window change only while it shows; the first frame opens the about window once.
pub open spec fn settings_step(s: SettingsView, event: SettingsEvent, n: SettingsView, e: SettingsEffects) -> bool {
    let none = SettingsEffects { restyle: false, persist: false };
    let restyle = SettingsEffects { restyle: true, persist: false };
    match event {
        SettingsEvent::Frame => n == (if s.first_time {
            SettingsView { show_about_window: true, first_time: false, ..s }
        } else {
            s
        }) && e == none,
        SettingsEvent::ToggleDarkMode => n == SettingsView { dark_mode: !s.dark_mode, ..s } && e
            == restyle,
        SettingsEvent::ToggleSettingsWindow => n == SettingsView {
            show_settings_window: !s.show_settings_window,
            ..s
        } && e == none,
        SettingsEvent::ToggleAboutWindow => n == SettingsView {
            show_about_window: !s.show_about_window,
            ..s
        } && e == none,
        SettingsEvent::CloseAbout => n == SettingsView { show_about_window: false, ..s } && e == none,
        _ => if !s.show_settings_window {
            n == s && e == none
        } else {
            match event {
                SettingsEvent::SetDarkMode(b) => n == SettingsView { dark_mode: b, ..s } && e
                    == restyle,
                SettingsEvent::SetFontSizeModifier(v) => n == SettingsView {
                    font_size_modifier: clamped_font_size_modifier(v),
                    ..s
                } && e == restyle,
                SettingsEvent::SetIncreaseContrast(b) => n == SettingsView {
                    increase_contrast: b,
                    ..s
                } && e == restyle,
                SettingsEvent::SetModEnabled(id, b) => n == SettingsView {
                    enabled_mod_ids: if b {
                        s.enabled_mod_ids.insert(id)
                    } else {
                        s.enabled_mod_ids.remove(id)
                    },
                    ..s
                } && e == none,
                SettingsEvent::SaveSettings => n == s && e == SettingsEffects {
                    restyle: false,
                    persist: true,
                },
                _ => n == SettingsView { show_settings_window: false, ..s } && e == none,
            }
        },
    }
}

/// The interface style is applied again exactly when an event may have changed it: on the dark
/// mode button of the menu bar, and, while the settings window shows, on its dark mode checkbox,
/// its font size modifier field and its increase contrast checkbox. Each of these sets its option
/// (the font size modifier clamped to its range, and kept as typed within it), none of them asks
/// for the settings to be written out, and no other event changes an interface option. A font
/// size modifier within its range stays within it.
pub proof fn lemma_style_options_restyle(s: SettingsView, event: SettingsEvent, n: SettingsView, e: SettingsEffects)
    requires
        settings_step(s, event, n, e),
    ensures
        e.restyle <==> (event is ToggleDarkMode || (s.show_settings_window && (event is SetDarkMode
            || event is SetFontSizeModifier || event is SetIncreaseContrast))),
        e.restyle ==> !e.persist,
        !e.restyle ==> n.dark_mode == s.dark_mode && n.font_size_modifier == s.font_size_modifier
            && n.increase_contrast == s.increase_contrast,
        event is ToggleDarkMode ==> n.dark_mode == !s.dark_mode,
        s.show_settings_window ==> (event matches SettingsEvent::SetDarkMode(b) ==> n.dark_mode
            == b),
        s.show_settings_window ==> (event matches SettingsEvent::SetIncreaseContrast(b)
            ==> n.increase_contrast == b),
        s.show_settings_window ==> (event matches SettingsEvent::SetFontSizeModifier(v) ==> {
            &&& FONT_SIZE_MODIFIER_MIN <= n.font_size_modifier <= FONT_SIZE_MODIFIER_MAX
            &&& FONT_SIZE_MODIFIER_MIN <= v <= FONT_SIZE_MODIFIER_MAX ==> n.font_size_modifier == v
            &&& v < FONT_SIZE_MODIFIER_MIN ==> n.font_size_modifier == FONT_SIZE_MODIFIER_MIN
            &&& v > FONT_SIZE_MODIFIER_MAX ==> n.font_size_modifier == FONT_SIZE_MODIFIER_MAX
        }),
        FONT_SIZE_MODIFIER_MIN <= s.font_size_modifier <= FONT_SIZE_MODIFIER_MAX
            ==> FONT_SIZE_MODIFIER_MIN <= n.font_size_modifier <= FONT_SIZE_MODIFIER_MAX,
{
}

impl Settings {
    /// The settings of a new installation: dark mode, font size modifier 4, normal contrast, no
    /// mods, and the about window still to be shown.
    pub fn new() -> (r: Self)
        ensures
            r@ == (SettingsView {
                dark_mode: true,
                font_size_modifier: 4,
                increase_contrast: false,
                enabled_mod_ids: Set::<u64>::empty(),
                first_time: true,
                show_settings_window: false,
                show_about_window: false,
            }),
    {
        Settings {
            dark_mode: true,
            font_size_modifier: 4,
            increase_contrast: false,
            enabled_mod_ids: HashSet::new(),
            first_time: true,
            show_settings_window: false,
            show_about_window: false,
        }
    }

    /// Whether the blocks of the mod `id` are offered.
    pub fn is_mod_enabled(&self, id: u64) -> (r: bool)
        ensures
            r == self@.enabled_mod_ids.contains(id),
    {
        self.enabled_mod_ids.contains(&id)
    }

    /// Handles one event.
    pub fn update(&mut self, event: SettingsEvent) -> (r: SettingsEffects)
        ensures
            settings_step(old(self)@, event, final(self)@, r),
    {
        let none = SettingsEffects { restyle: false, persist: false };
        let restyle = SettingsEffects { restyle: true, persist: false };
        match event {
            SettingsEvent::Frame => {
                if self.first_time {
                    self.show_about_window = true;
                    self.first_time = false;
                }
                none
            },
            SettingsEvent::ToggleDarkMode => {
                self.dark_mode = !self.dark_mode;
                restyle
            },
            SettingsEvent::ToggleSettingsWindow => {
                self.show_settings_window = !self.show_settings_window;
                none
            },
            SettingsEvent::ToggleAboutWindow => {
                self.show_about_window = !self.show_about_window;
                none
            },
            SettingsEvent::CloseAbout => {
                self.show_about_window = false;
                none
            },
            _ => {
                if !self.show_settings_window {
                    return none;
                }
                match event {
                    SettingsEvent::SetDarkMode(b) => {
                        self.dark_mode = b;
                        restyle
                    },
                    SettingsEvent::SetFontSizeModifier(v) => {
                        self.font_size_modifier = if v < FONT_SIZE_MODIFIER_MIN {
                            FONT_SIZE_MODIFIER_MIN
                        } else if v > FONT_SIZE_MODIFIER_MAX {
                            FONT_SIZE_MODIFIER_MAX
                        } else {
                            v
                        };
                        restyle
                    },
                    SettingsEvent::SetIncreaseContrast(b) => {
                        self.increase_contrast = b;
                        restyle
                    },
                    SettingsEvent::SetModEnabled(id, b) => {
                        if b {
                            self.enabled_mod_ids.insert(id);
                        } else {
                            self.enabled_mod_ids.remove(&id);
                        }
                        none
                    },
                    SettingsEvent::SaveSettings => SettingsEffects { restyle: false, persist: true },
                    _ => {
                        self.show_settings_window = false;
                        none
                    },
                }
            },
        }
    }
}

/// The address of the workshop page of the mod `id`.
pub open spec fn workshop_url_of(id: u64) -> Seq<char> {
    "https://steamcommunity.com/workshop/filedetails/?id="@ + decimal_chars(id as nat)
}

/// The address of the workshop page of the mod `id`.
pub fn workshop_url(id: u64) -> (r: String)
    ensures
        r@ == workshop_url_of(id),
{
    let digits = u64_to_decimal(id);
    join_texts("https://steamcommunity.com/workshop/filedetails/?id=", digits.as_str())
}

} // verus!
