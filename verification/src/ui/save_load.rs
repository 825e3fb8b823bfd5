//! The save, load and reset dialogues of the desktop calculator: which window is open, and what
//! each button does to the saved grids.
use vstd::prelude::*;

use crate::entries::{
    entries_lookup, entries_without, lemma_lookup_insert, lemma_lookup_some_iff_keys_contain,
    lemma_lookup_without,
};
use crate::ui::storage::{storage_loaded, storage_saved, Storage};

verus! {

/// The dialogue window that is open, with the name it edits or asks about. While one is open
/// the rest of the interface is disabled.
#[derive(Debug)]
pub enum Window {
    Closed,
    SaveAs(String),
    SaveAsConfirm(String),
    LoadConfirm,
    Load,
    DeleteConfirm(String),
    ResetConfirm,
}

/// A window by the view of the name it holds.
pub enum WindowView {
    Closed,
    SaveAs(Seq<char>),
    SaveAsConfirm(Seq<char>),
    LoadConfirm,
    Load,
    DeleteConfirm(Seq<char>),
    ResetConfirm,
}

impl View for Window {
    type V = WindowView;

    open spec fn view(&self) -> WindowView {
        match self {
            Window::Closed => WindowView::Closed,
            Window::SaveAs(n) => WindowView::SaveAs(n@),
            Window::SaveAsConfirm(n) => WindowView::SaveAsConfirm(n@),
            Window::LoadConfirm => WindowView::LoadConfirm,
            Window::Load => WindowView::Load,
            Window::DeleteConfirm(n) => WindowView::DeleteConfirm(n@),
            Window::ResetConfirm => WindowView::ResetConfirm,
        }
    }
}

/// What the user did: a button of the menu or of a window, an edit of the name field of the
/// save-as window, or an edit of the grid.
#[derive(Debug)]
pub enum Event {
    /// Menu "Save".
    Save,
    /// Menu "Save As".
    SaveAs,
    /// Menu "Load".
    Load,
    /// Menu "Reset".
    Reset,
    /// An input of the grid changed.
    GridEdited,
    /// "Load" on the row of a saved grid.
    LoadEntry(String),
    /// "Delete" on the row of a saved grid.
    DeleteEntry(String),
    /// "Cancel" in the load window.
    LoadCancel,
    /// "Continue" when loading would lose unsaved changes.
    LoadConfirmContinue,
    /// "Cancel" when loading would lose unsaved changes.
    LoadConfirmCancel,
    /// "Delete" when asked to confirm a deletion.
    DeleteConfirmed,
    /// "Cancel" when asked to confirm a deletion.
    DeleteCancel,
    /// The name field of the save-as window now holds this text.
    SaveAsName(String),
    /// "Save" in the save-as window.
    SaveAsSave,
    /// "Cancel" in the save-as window.
    SaveAsCancel,
    /// "Overwrite" when a grid is already saved under the name.
    OverwriteConfirmed,
    /// "Cancel" when a grid is already saved under the name.
    OverwriteCancel,
    /// "Reset" when asked to confirm a reset.
    ResetConfirmed,
    /// "Cancel" when asked to confirm a reset.
    ResetCancel,
}

/// What the application must do after an event.
#[derive(Copy, Clone, PartialEq, Eq, Structural, Debug)]
pub struct Effects {
    /// The saved grids or the current grid changed and are to be written out.
    pub persist: bool,
    /// The current grid was replaced: its results are to be calculated again.
    pub recalculate: bool,
}

/// The state of the dialogues: the grids (current and saved, in a storage), the grid that reset
/// goes back to, and the open window.
#[derive(Debug)]
pub struct SaveLoad<C> {
    pub storage: Storage<C>,
    pub calculator_default: C,
    pub window: Window,
}

/// `new` differs from `old` at most in its window, which is `w`.
pub open spec fn window_moved<C>(old: SaveLoad<C>, new: SaveLoad<C>, w: WindowView) -> bool {
    &&& new.storage == old.storage
    &&& new.calculator_default == old.calculator_default
    &&& new.window@ == w
}

/// `new` is `old` with the current grid saved under `name` and every window closed.
pub open spec fn saved_and_closed<C: Clone>(old: SaveLoad<C>, new: SaveLoad<C>, name: Seq<char>) -> bool {
    &&& storage_saved(old.storage, new.storage, name)
    &&& new.calculator_default == old.calculator_default
    &&& new.window@ == WindowView::Closed
}

/// The name that the save-as window starts with: the name of the current grid, or nothing.
pub open spec fn save_as_start_name<C>(s: Storage<C>) -> Seq<char> {
    match s.calculator_name {
        Some(n) => n@,
        None => Seq::<char>::empty(),
    }
}

/// What `event` does in state `old`, leading to state `new` with effects `e`. An event of a
/// window that is not open (or of the menu or grid while a window is open) changes nothing.
pub open spec fn save_load_step<C: Clone>(old: SaveLoad<C>, event: Event, new: SaveLoad<C>, e: Effects) -> bool {
    let none = Effects { persist: false, recalculate: false };
    match (old.window@, event) {
        (WindowView::Closed, Event::Save) => match old.storage.calculator_name {
            Some(n) => saved_and_closed(old, new, n@) && e == Effects { persist: true, recalculate: false },
            None => window_moved(old, new, WindowView::SaveAs(Seq::<char>::empty()))
                && e == Effects { persist: true, recalculate: false },
        },
        (WindowView::Closed, Event::SaveAs) => window_moved(
            old,
            new,
            WindowView::SaveAs(save_as_start_name(old.storage)),
        ) && e == none,
        (WindowView::Closed, Event::Load) => window_moved(
            old,
            new,
            if old.storage.calculator_modified {
                WindowView::LoadConfirm
            } else {
                WindowView::Load
            },
        ) && e == none,
        (WindowView::Closed, Event::Reset) => window_moved(old, new, WindowView::ResetConfirm) && e
            == none,
        (WindowView::Closed, Event::GridEdited) => {
            &&& new.storage == Storage { calculator_modified: true, ..old.storage }
            &&& new.calculator_default == old.calculator_default
            &&& new.window@ == WindowView::Closed
            &&& e == Effects { persist: false, recalculate: true }
        },
        (WindowView::SaveAs(_), Event::SaveAsName(n)) => window_moved(old, new, WindowView::SaveAs(n@))
            && e == none,
        (WindowView::SaveAs(name), Event::SaveAsSave) => if old.storage.saved_names().contains(name) {
            window_moved(old, new, WindowView::SaveAsConfirm(name)) && e == none
        } else {
            saved_and_closed(old, new, name) && e == Effects { persist: true, recalculate: false }
        },
        (WindowView::SaveAs(_), Event::SaveAsCancel) => window_moved(old, new, WindowView::Closed) && e
            == none,
        (WindowView::SaveAsConfirm(name), Event::OverwriteConfirmed) => saved_and_closed(
            old,
            new,
            name,
        ) && e == Effects { persist: true, recalculate: false },
        (WindowView::SaveAsConfirm(_), Event::OverwriteCancel) => window_moved(
            old,
            new,
            WindowView::Closed,
        ) && e == none,
        (WindowView::LoadConfirm, Event::LoadConfirmContinue) => window_moved(old, new, WindowView::Load)
            && e == none,
        (WindowView::LoadConfirm, Event::LoadConfirmCancel) => window_moved(
            old,
            new,
            WindowView::Closed,
        ) && e == none,
        (WindowView::Load, Event::LoadEntry(n)) => if old.storage.saved_names().contains(n@) {
            &&& storage_loaded(old.storage, new.storage, n@)
            &&& new.calculator_default == old.calculator_default
            &&& new.window@ == WindowView::Closed
            &&& e == Effects { persist: true, recalculate: true }
        } else {
            new == old && e == none
        },
        (WindowView::Load, Event::DeleteEntry(n)) => window_moved(old, new, WindowView::DeleteConfirm(n@))
            && e == none,
        (WindowView::Load, Event::LoadCancel) => window_moved(old, new, WindowView::Closed) && e == none,
        (WindowView::DeleteConfirm(name), Event::DeleteConfirmed) => {
            let current = match old.storage.calculator_name {
                Some(c) => c@ == name,
                None => false,
            };
            &&& new.storage.saved() == entries_without(old.storage.saved(), name)
            &&& new.storage.calculator == old.storage.calculator
            &&& if current {
                &&& new.storage.calculator_name is None
                &&& new.storage.calculator_modified
            } else {
                &&& new.storage.calculator_name == old.storage.calculator_name
                &&& new.storage.calculator_modified == old.storage.calculator_modified
            }
            &&& new.calculator_default == old.calculator_default
            &&& new.window@ == WindowView::Load
            &&& e == none
        },
        (WindowView::DeleteConfirm(_), Event::DeleteCancel) => window_moved(old, new, WindowView::Load)
            && e == none,
        (WindowView::ResetConfirm, Event::ResetConfirmed) => {
            &&& new.storage.saved() == old.storage.saved()
            &&& cloned(old.calculator_default, new.storage.calculator)
            &&& new.storage.calculator_name is None
            &&& !new.storage.calculator_modified
            &&& new.calculator_default == old.calculator_default
            &&& new.window@ == WindowView::Closed
            &&& e == Effects { persist: false, recalculate: true }
        },
        (WindowView::ResetConfirm, Event::ResetCancel) => window_moved(old, new, WindowView::Closed)
            && e == none,
        _ => new == old && e == none,
    }
}

/// A "Cancel" button saves, loads, deletes and resets nothing: after it the saved grids, the
/// current grid with its name and modified flag, and the grid that reset goes back to are what
/// they were, and nothing is to be written out or calculated again. Cancelling the save-as, the
/// overwrite, the load-confirmation, the load or the reset window closes it; cancelling a
/// deletion goes back to the load window.
pub proof fn lemma_cancel_changes_no_grid<C: Clone>(
    old: SaveLoad<C>,
    event: Event,
    new: SaveLoad<C>,
    e: Effects,
)
    requires
        save_load_step(old, event, new, e),
        event is SaveAsCancel || event is OverwriteCancel || event is LoadConfirmCancel
            || event is LoadCancel || event is DeleteCancel || event is ResetCancel,
    ensures
        new.storage == old.storage,
        new.calculator_default == old.calculator_default,
        !e.persist,
        !e.recalculate,
        old.window@ is SaveAs && event is SaveAsCancel ==> new.window@ == WindowView::Closed,
        old.window@ is SaveAsConfirm && event is OverwriteCancel ==> new.window@
            == WindowView::Closed,
        old.window@ is LoadConfirm && event is LoadConfirmCancel ==> new.window@
            == WindowView::Closed,
        old.window@ is Load && event is LoadCancel ==> new.window@ == WindowView::Closed,
        old.window@ is DeleteConfirm && event is DeleteCancel ==> new.window@ == WindowView::Load,
        old.window@ is ResetConfirm && event is ResetCancel ==> new.window@ == WindowView::Closed,
{
}

/// A grid already saved under `k` is replaced or removed only when the user asked for exactly
/// that: by "Save" of the menu while the current grid is the one named `k`, by "Overwrite" after
/// being asked about `k`, or by "Delete" after being asked about `k`. Saving under a new name, or
/// any other button, leaves it as it was.
pub proof fn lemma_saved_grid_changes_only_when_asked<C: Clone>(
    old: SaveLoad<C>,
    event: Event,
    new: SaveLoad<C>,
    e: Effects,
    k: Seq<char>,
)
    requires
        save_load_step(old, event, new, e),
        entries_lookup(old.storage.saved(), k) is Some,
        entries_lookup(new.storage.saved(), k) != entries_lookup(old.storage.saved(), k),
    ensures
        (old.window@ == WindowView::Closed && event is Save && (old.storage.calculator_name matches Some(
            n,
        ) && n@ == k)) || (old.window@ == WindowView::SaveAsConfirm(k) && event is OverwriteConfirmed)
            || (old.window@ == WindowView::DeleteConfirm(k) && event is DeleteConfirmed),
{
    let before = old.storage.saved();
    let after = new.storage.saved();
    match (old.window@, event) {
        (WindowView::Closed, Event::Save) => {
            if let Some(n) = old.storage.calculator_name {
                lemma_lookup_insert(before, n@, after.last().1, k);
            }
        },
        (WindowView::SaveAs(name), Event::SaveAsSave) => {
            lemma_lookup_some_iff_keys_contain(before, name);
            lemma_lookup_insert(before, name, after.last().1, k);
        },
        (WindowView::SaveAsConfirm(name), Event::OverwriteConfirmed) => {
            lemma_lookup_insert(before, name, after.last().1, k);
        },
        (WindowView::DeleteConfirm(name), Event::DeleteConfirmed) => {
            lemma_lookup_without(before, name, k);
        },
        _ => {},
    }
}

/// While a window is open the rest of the interface takes no input: the menu and edits of the
/// grid change nothing and ask for nothing.
pub proof fn lemma_open_window_blocks_menu_and_grid<C: Clone>(
    old: SaveLoad<C>,
    event: Event,
    new: SaveLoad<C>,
    e: Effects,
)
    requires
        save_load_step(old, event, new, e),
        old.window@ != WindowView::Closed,
        event is Save || event is SaveAs || event is Load || event is Reset || event is GridEdited,
    ensures
        new == old,
        e == (Effects { persist: false, recalculate: false }),
{
}

impl<C: Clone> SaveLoad<C> {
    /// The dialogues for `storage`, all closed, resetting to `calculator_default`.
    pub fn new(storage: Storage<C>, calculator_default: C) -> (r: Self)
        ensures
            r.storage == storage,
            r.calculator_default == calculator_default,
            r.window@ == WindowView::Closed,
    {
        SaveLoad { storage, calculator_default, window: Window::Closed }
    }

    /// Whether the rest of the interface takes input: no window is open.
    pub fn enable_gui(&self) -> (r: bool)
        ensures
            r == (self.window@ == WindowView::Closed),
    {
        match self.window {
            Window::Closed => true,
            _ => false,
        }
    }

    /// Handles one event of the menu, the grid or the open window.
    pub fn update(&mut self, event: Event) -> (r: Effects)
        ensures
            save_load_step(*old(self), event, *final(self), r),
    {
        let none = Effects { persist: false, recalculate: false };
        let mut window = Window::Closed;
        std::mem::swap(&mut window, &mut self.window);
        match (window, event) {
            (Window::Closed, Event::Save) => {
                let name = match &self.storage.calculator_name {
                    Some(n) => Some(n.clone()),
                    None => None,
                };
                match name {
                    Some(n) => self.storage.save_calculator(n),
                    None => self.window = Window::SaveAs(String::new()),
                }
                Effects { persist: true, recalculate: false }
            },
            (Window::Closed, Event::SaveAs) => {
                let name = match &self.storage.calculator_name {
                    Some(n) => n.clone(),
                    None => String::new(),
                };
                self.window = Window::SaveAs(name);
                none
            },
            (Window::Closed, Event::Load) => {
                if self.storage.calculator_modified {
                    self.window = Window::LoadConfirm;
                } else {
                    self.window = Window::Load;
                }
                none
            },
            (Window::Closed, Event::Reset) => {
                self.window = Window::ResetConfirm;
                none
            },
            (Window::Closed, Event::GridEdited) => {
                self.storage.calculator_modified = true;
                Effects { persist: false, recalculate: true }
            },
            (Window::SaveAs(_), Event::SaveAsName(n)) => {
                self.window = Window::SaveAs(n);
                none
            },
            (Window::SaveAs(name), Event::SaveAsSave) => {
                proof {
                    lemma_lookup_some_iff_keys_contain(self.storage.saved(), name@);
                }
                if self.storage.contains_saved_calculator(name.as_str()) {
                    self.window = Window::SaveAsConfirm(name);
                    none
                } else {
                    self.storage.save_calculator(name);
                    Effects { persist: true, recalculate: false }
                }
            },
            (Window::SaveAs(_), Event::SaveAsCancel) => none,
            (Window::SaveAsConfirm(name), Event::OverwriteConfirmed) => {
                self.storage.save_calculator(name);
                Effects { persist: true, recalculate: false }
            },
            (Window::SaveAsConfirm(_), Event::OverwriteCancel) => none,
            (Window::LoadConfirm, Event::LoadConfirmContinue) => {
                self.window = Window::Load;
                none
            },
            (Window::LoadConfirm, Event::LoadConfirmCancel) => none,
            (Window::Load, Event::LoadEntry(n)) => {
                proof {
                    lemma_lookup_some_iff_keys_contain(self.storage.saved(), n@);
                }
                match self.storage.load_calculator(n) {
                    Ok(()) => Effects { persist: true, recalculate: true },
                    Err(_) => {
                        self.window = Window::Load;
                        none
                    },
                }
            },
            (Window::Load, Event::DeleteEntry(n)) => {
                self.window = Window::DeleteConfirm(n);
                none
            },
            (Window::Load, Event::LoadCancel) => none,
            (Window::DeleteConfirm(name), Event::DeleteConfirmed) => {
                self.storage.remove_saved_calculator(name.as_str());
                let current = match &self.storage.calculator_name {
                    Some(c) => crate::text::text_eq(c.as_str(), name.as_str()),
                    None => false,
                };
                if current {
                    self.storage.calculator_name = None;
                    self.storage.calculator_modified = true;
                }
                self.window = Window::Load;
                none
            },
            (Window::DeleteConfirm(_), Event::DeleteCancel) => {
                self.window = Window::Load;
                none
            },
            (Window::ResetConfirm, Event::ResetConfirmed) => {
                self.storage.calculator = self.calculator_default.clone();
                self.storage.calculator_name = None;
                self.storage.calculator_modified = false;
                Effects { persist: false, recalculate: true }
            },
            (Window::ResetConfirm, Event::ResetCancel) => none,
            (w, _) => {
                self.window = w;
                none
            },
        }
    }
}

} // verus!
