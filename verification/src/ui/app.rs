use vstd::prelude::*;

use crate::ui::page::{grid_calc, load, load_confirm_discard, save_as, save_overwrite_confirm};
use crate::entries::{entries_lookup, lemma_lookup_insert, lemma_lookup_some_iff_keys_contain};
use crate::grid::counts::GridInput;
use crate::ui::storage::{storage_loaded, storage_saved, Storage};

verus! {

/// The page that the calculator application shows.
#[derive(Debug)]
pub enum Page {
    GridCalc,
    SaveAs(save_as::Page),
    SaveAsOverwriteConfirm(save_overwrite_confirm::Page),
    LoadConfirmDiscard(load_confirm_discard::Page),
    Load(load::Page),
}

/// What a page holds: the name being saved under, or the names that can be loaded.
pub enum PageView {
    GridCalc,
    SaveAs(Seq<char>),
    SaveAsOverwriteConfirm(Seq<char>),
    LoadConfirmDiscard,
    Load(Seq<Seq<char>>),
}

impl View for Page {
    type V = PageView;

    open spec fn view(&self) -> PageView {
        match self {
            Page::GridCalc => PageView::GridCalc,
            Page::SaveAs(p) => PageView::SaveAs(p@),
            Page::SaveAsOverwriteConfirm(p) => PageView::SaveAsOverwriteConfirm(p@),
            Page::LoadConfirmDiscard(_) => PageView::LoadConfirmDiscard,
            Page::Load(p) => PageView::Load(p@),
        }
    }
}

/// A message for the page that the application shows.
#[derive(Clone, Debug)]
pub enum Message {
    GridCalcPage(grid_calc::Message),
    SaveAsPage(save_as::Message),
    SaveAsOverwriteConfirmPage(save_overwrite_confirm::Message),
    LoadConfirmDiscardPage(load_confirm_discard::Message),
    LoadPage(load::Message),
}

/// What the application must do after handling a message.
#[derive(Copy, Clone, PartialEq, Eq, Structural, Debug)]
pub struct Effects {
    /// The storage changed and is to be written out.
    pub persist_storage: bool,
    /// A calculator was loaded: the inputs of the grid calculator page are to show it.
    pub reload_input: bool,
    /// Loading failed: no calculator was saved under the chosen name.
    pub load_failed: bool,
    /// The message does not belong to the page that is shown; nothing changed.
    pub unhandled: bool,
}

/// Effects with only the given flags set.
pub open spec fn effects(persist_storage: bool, reload_input: bool, load_failed: bool, unhandled: bool) -> Effects {
    Effects { persist_storage, reload_input, load_failed, unhandled }
}

/// The save-as page for the current calculator: its name field shows the calculator's name.
pub open spec fn save_as_page_for<C>(storage: Storage<C>) -> PageView {
    PageView::SaveAs(
        match storage.calculator_name {
            Some(n) => n@,
            None => Seq::<char>::empty(),
        },
    )
}

/// The state of the calculator application: what outlives a session (with the grid, whose
/// options are of type `O`), and the page shown.
#[derive(Debug)]
pub struct App<O> {
    pub storage: Storage<GridInput<O>>,
    pub current_page: Page,
}

/// How the application answers `message` on page `page` with storage `st`, moving to page `next`
/// with storage `next_st` and effects `e`.
pub open spec fn app_step<O: Clone>(
    page: PageView,
    st: Storage<GridInput<O>>,
    message: Message,
    next: PageView,
    next_st: Storage<GridInput<O>>,
    e: Effects,
) -> bool {
    match (page, message) {
        (PageView::GridCalc, Message::GridCalcPage(m)) => match grid_calc::action_for(m) {
            grid_calc::Action::CalculatorModified => {
                &&& grid_calc::input_applied(st.calculator, next_st.calculator, m)
                &&& next_st == Storage { calculator: next_st.calculator, calculator_modified: true, ..st }
                &&& next == PageView::GridCalc
                &&& e == effects(false, false, false, false)
            },
            grid_calc::Action::Save => match st.calculator_name {
                Some(n) => {
                    &&& storage_saved(st, next_st, n@)
                    &&& next == PageView::GridCalc
                    &&& e == effects(true, false, false, false)
                },
                None => {
                    &&& next_st == st
                    &&& next == save_as_page_for(st)
                    &&& e == effects(false, false, false, false)
                },
            },
            grid_calc::Action::SaveAs => {
                &&& next_st == st
                &&& next == save_as_page_for(st)
                &&& e == effects(false, false, false, false)
            },
            grid_calc::Action::Load => {
                &&& next_st == st
                &&& next == (if st.calculator_modified {
                    PageView::LoadConfirmDiscard
                } else {
                    PageView::Load(st.saved_names())
                })
                &&& e == effects(false, false, false, false)
            },
        },
        (PageView::SaveAs(name), Message::SaveAsPage(m)) => match m {
            save_as::Message::SetName(n) => {
                &&& next_st == st
                &&& next == PageView::SaveAs(n@)
                &&& e == effects(false, false, false, false)
            },
            save_as::Message::Save => if name.len() == 0 {
                &&& next_st == st
                &&& next == PageView::SaveAs(name)
                &&& e == effects(false, false, false, false)
            } else if st.saved_names().contains(name) {
                &&& next_st == st
                &&& next == PageView::SaveAsOverwriteConfirm(name)
                &&& e == effects(false, false, false, false)
            } else {
                &&& storage_saved(st, next_st, name)
                &&& next == PageView::GridCalc
                &&& e == effects(true, false, false, false)
            },
            save_as::Message::Cancel => {
                &&& next_st == st
                &&& next == PageView::GridCalc
                &&& e == effects(false, false, false, false)
            },
        },
        (PageView::SaveAsOverwriteConfirm(name), Message::SaveAsOverwriteConfirmPage(m)) => match m {
            save_overwrite_confirm::Message::Cancel => {
                &&& next_st == st
                &&& next == PageView::GridCalc
                &&& e == effects(false, false, false, false)
            },
            save_overwrite_confirm::Message::Overwrite => {
                &&& storage_saved(st, next_st, name)
                &&& next == PageView::GridCalc
                &&& e == effects(true, false, false, false)
            },
        },
        (PageView::LoadConfirmDiscard, Message::LoadConfirmDiscardPage(m)) => {
            &&& next_st == st
            &&& next == (match m {
                load_confirm_discard::Message::Cancel => PageView::GridCalc,
                load_confirm_discard::Message::Discard => PageView::Load(st.saved_names()),
            })
            &&& e == effects(false, false, false, false)
        },
        (PageView::Load(_), Message::LoadPage(m)) => match m {
            load::Message::Load(n) => {
                &&& next == PageView::GridCalc
                &&& if st.saved_names().contains(n@) {
                    &&& storage_loaded(st, next_st, n@)
                    &&& e == effects(true, true, false, false)
                } else {
                    &&& next_st == st
                    &&& e == effects(false, true, true, false)
                }
            },
            load::Message::Cancel => {
                &&& next_st == st
                &&& next == PageView::GridCalc
                &&& e == effects(false, false, false, false)
            },
        },
        _ => {
            &&& next_st == st
            &&& next == page
            &&& e == effects(false, false, false, true)
        },
    }
}

/// "Cancel" on any page that has one goes back to the grid calculator page and changes nothing:
/// the storage stays as it was and nothing is to be written out, reloaded or reported. This holds
/// of the save-as page, of the page that asks before overwriting a saved calculator, of the page
/// that asks before discarding unsaved changes, and of the load page.
pub proof fn lemma_cancel_returns_to_grid_calc<O: Clone>(
    page: PageView,
    st: Storage<GridInput<O>>,
    message: Message,
    next: PageView,
    next_st: Storage<GridInput<O>>,
    e: Effects,
)
    requires
        app_step(page, st, message, next, next_st, e),
        (page is SaveAs && message matches Message::SaveAsPage(save_as::Message::Cancel))
            || (page is SaveAsOverwriteConfirm && message matches Message::SaveAsOverwriteConfirmPage(
            save_overwrite_confirm::Message::Cancel,
        )) || (page is LoadConfirmDiscard && message matches Message::LoadConfirmDiscardPage(
            load_confirm_discard::Message::Cancel,
        )) || (page is Load && message matches Message::LoadPage(load::Message::Cancel)),
    ensures
        next == PageView::GridCalc,
        next_st == st,
        e == effects(false, false, false, false),
{
}

/// On the page that asks before discarding unsaved changes, "Discard" goes on to the load page,
/// which lists the names of the saved calculators, and changes nothing else; so "Discard" and
/// "Cancel" lead to different pages.
pub proof fn lemma_discard_goes_to_load<O: Clone>(
    st: Storage<GridInput<O>>,
    next: PageView,
    next_st: Storage<GridInput<O>>,
    e: Effects,
)
    requires
        app_step(
            PageView::LoadConfirmDiscard,
            st,
            Message::LoadConfirmDiscardPage(load_confirm_discard::Message::Discard),
            next,
            next_st,
            e,
        ),
    ensures
        next == PageView::Load(st.saved_names()),
        next != PageView::GridCalc,
        next_st == st,
        e == effects(false, false, false, false),
{
}

/// A calculator already saved under `k` is replaced only when the user asked for exactly that: by
/// "Save" on the grid calculator page while the current calculator is the one named `k`, or by
/// "Overwrite" after being asked about `k`. Saving under a new name, loading, and every other
/// message leave it as it was.
pub proof fn lemma_saved_calculator_changes_only_when_asked<O: Clone>(
    page: PageView,
    st: Storage<GridInput<O>>,
    message: Message,
    next: PageView,
    next_st: Storage<GridInput<O>>,
    e: Effects,
    k: Seq<char>,
)
    requires
        app_step(page, st, message, next, next_st, e),
        entries_lookup(st.saved(), k) is Some,
        entries_lookup(next_st.saved(), k) != entries_lookup(st.saved(), k),
    ensures
        (page == PageView::GridCalc && (message matches Message::GridCalcPage(
            grid_calc::Message::SavePressed,
        )) && (st.calculator_name matches Some(n) && n@ == k)) || (page
            == PageView::SaveAsOverwriteConfirm(k) && (message matches Message::SaveAsOverwriteConfirmPage(
            save_overwrite_confirm::Message::Overwrite,
        ))),
{
    let before = st.saved();
    let after = next_st.saved();
    match (page, message) {
        (PageView::GridCalc, Message::GridCalcPage(m)) => {
            if let Some(n) = st.calculator_name {
                lemma_lookup_insert(before, n@, after.last().1, k);
            }
        },
        (PageView::SaveAs(name), Message::SaveAsPage(_)) => {
            lemma_lookup_some_iff_keys_contain(before, name);
            lemma_lookup_insert(before, name, after.last().1, k);
        },
        (PageView::SaveAsOverwriteConfirm(name), Message::SaveAsOverwriteConfirmPage(_)) => {
            lemma_lookup_insert(before, name, after.last().1, k);
        },
        _ => {},
    }
}

impl<O: Clone> App<O> {
    /// The application showing the grid calculator page for `storage`.
    pub fn new(storage: Storage<GridInput<O>>) -> (r: Self)
        ensures
            r.storage == storage,
            r.current_page@ == PageView::GridCalc,
    {
        App { storage, current_page: Page::GridCalc }
    }

    /// The title of the application window.
    pub fn title(&self) -> (r: &'static str)
        ensures
            r@ == "Space Engineers Calculator"@,
    {
        "Space Engineers Calculator"
    }

    fn save_as_page(&self) -> (r: Page)
        ensures
            r@ == save_as_page_for(self.storage),
    {
        let name = match &self.storage.calculator_name {
            Some(n) => Some(n.clone()),
            None => None,
        };
        Page::SaveAs(save_as::Page::new(name))
    }

    /// Handles a message of the page shown. Input on the grid calculator page sets the typed
    /// count in the grid and marks it modified; saving asks for a name when there is none and for
    /// confirmation before overwriting a grid saved under the same name; loading asks before
    /// discarding unsaved changes.
    pub fn update(&mut self, message: Message) -> (r: Effects)
        ensures
            app_step(
                old(self).current_page@,
                old(self).storage,
                message,
                final(self).current_page@,
                final(self).storage,
                r,
            ),
    {
        let no_effects = Effects {
            persist_storage: false,
            reload_input: false,
            load_failed: false,
            unhandled: false,
        };
        let mut page = Page::GridCalc;
        std::mem::swap(&mut page, &mut self.current_page);
        match (page, message) {
            (Page::GridCalc, Message::GridCalcPage(m)) => match grid_calc::action_of(&m) {
                grid_calc::Action::CalculatorModified => {
                    grid_calc::apply_input(&mut self.storage.calculator, m);
                    self.storage.calculator_modified = true;
                    no_effects
                },
                grid_calc::Action::Save => {
                    let name = match &self.storage.calculator_name {
                        Some(n) => Some(n.clone()),
                        None => None,
                    };
                    match name {
                        Some(name) => {
                            self.storage.save_calculator(name);
                            Effects { persist_storage: true, ..no_effects }
                        },
                        None => {
                            self.current_page = self.save_as_page();
                            no_effects
                        },
                    }
                },
                grid_calc::Action::SaveAs => {
                    self.current_page = self.save_as_page();
                    no_effects
                },
                grid_calc::Action::Load => {
                    if self.storage.calculator_modified {
                        self.current_page = Page::LoadConfirmDiscard(load_confirm_discard::Page::new());
                    } else {
                        self.current_page = Page::Load(load::Page::new(&self.storage));
                    }
                    no_effects
                },
            },
            (Page::SaveAs(mut page), Message::SaveAsPage(m)) => match page.update(m) {
                Some(save_as::Action::Save(name)) => {
                    proof {
                        lemma_lookup_some_iff_keys_contain(self.storage.saved(), name@);
                    }
                    if self.storage.contains_saved_calculator(name.as_str()) {
                        self.current_page = Page::SaveAsOverwriteConfirm(save_overwrite_confirm::Page::new(name));
                    } else {
                        self.storage.save_calculator(name);
                        return Effects { persist_storage: true, ..no_effects };
                    }
                    no_effects
                },
                Some(save_as::Action::Cancel) => no_effects,
                None => {
                    self.current_page = Page::SaveAs(page);
                    no_effects
                },
            },
            (Page::SaveAsOverwriteConfirm(mut page), Message::SaveAsOverwriteConfirmPage(m)) => match page.update(m) {
                save_overwrite_confirm::Action::Cancel => no_effects,
                save_overwrite_confirm::Action::Overwrite(name) => {
                    self.storage.save_calculator(name);
                    Effects { persist_storage: true, ..no_effects }
                },
            },
            (Page::LoadConfirmDiscard(mut page), Message::LoadConfirmDiscardPage(m)) => match page.update(m) {
                load_confirm_discard::Action::Cancel => no_effects,
                load_confirm_discard::Action::Discard => {
                    self.current_page = Page::Load(load::Page::new(&self.storage));
                    no_effects
                },
            },
            (Page::Load(mut page), Message::LoadPage(m)) => match page.update(m) {
                Some(load::Action::Load(name)) => {
                    proof {
                        lemma_lookup_some_iff_keys_contain(self.storage.saved(), name@);
                    }
                    match self.storage.load_calculator(name) {
                        Ok(()) => Effects { persist_storage: true, reload_input: true, ..no_effects },
                        Err(_) => Effects { reload_input: true, load_failed: true, ..no_effects },
                    }
                },
                Some(load::Action::Cancel) => no_effects,
                None => no_effects,
            },
            (page, _) => {
                self.current_page = page;
                Effects { unhandled: true, ..no_effects }
            },
        }
    }
}

} // verus!
