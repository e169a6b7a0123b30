//! Moving the selection: within a list, between sections, and across the
//! sidebar.
//!
//! Every move lands inside the current list, so a selection left over from
//! a longer list can never point past the end of a shorter one.

use vstd::prelude::*;
use vstd::arithmetic::div_mod::{lemma_fundamental_div_mod, lemma_fundamental_div_mod_converse, lemma_mod_pos_bound};
use crate::app::{App, Focus, Section, SECTION_COUNT, section_at};
use crate::home::HomeView;
use crate::ui::state::{UiState, clamp_int, section_marked, selection_marked};

verus! {

/// The selected row, or the first one when nothing is selected.
pub open spec fn selected_or_first(selected: Option<usize>) -> int {
    match selected {
        Some(i) => i as int,
        None => 0,
    }
}

proof fn lemma_negative_mod(x: int, l: int)
    requires
        x < 0,
        l > 0,
    ensures
        x % l == (if (-x) % l == 0 { 0 } else { l - (-x) % l }),
{
    let n = -x;
    let q = n / l;
    let m = n % l;
    lemma_fundamental_div_mod(n, l);
    lemma_mod_pos_bound(n, l);
    if m == 0 {
        assert(x == (-q) * l + 0) by (nonlinear_arith)
            requires n == l * q + m, m == 0, x == -n;
        lemma_fundamental_div_mod_converse(x, l, -q, 0);
    } else {
        assert(x == (-q - 1) * l + (l - m)) by (nonlinear_arith)
            requires n == l * q + m, x == -n;
        lemma_fundamental_div_mod_converse(x, l, -q - 1, l - m);
    }
}

/// The position after `i` in a cycle of `n`.
pub proof fn lemma_succ_mod(i: int, n: int)
    requires
        0 <= i < n,
    ensures
        (i + 1) % n == (if i + 1 < n { i + 1 } else { 0 }),
{
    if i + 1 < n {
        lemma_fundamental_div_mod_converse(i + 1, n, 0, i + 1);
    } else {
        lemma_fundamental_div_mod_converse(i + 1, n, 1, 0);
    }
}

/// `cur + delta` brought into `0..len`, wrapping at both ends.
pub fn wrap_offset(cur: usize, delta: i64, len: usize) -> (r: usize)
    requires
        len > 0,
    ensures
        r == (cur as int + delta as int) % (len as int),
        r < len,
{
    let x: i128 = cur as i128 + delta as i128;
    let l: u128 = len as u128;
    if x >= 0 {
        let r: u128 = (x as u128) % l;
        r as usize
    } else {
        let n: u128 = (-x) as u128;
        let m: u128 = n % l;
        proof {
            lemma_negative_mod(x as int, l as int);
        }
        if m == 0 {
            0
        } else {
            (l - m) as usize
        }
    }
}

/// `cur + delta` clamped into `0..len`.
pub fn clamp_offset(cur: usize, delta: i64, len: usize) -> (r: usize)
    requires
        len > 0,
    ensures
        r == clamp_int(cur as int + delta as int, 0, len - 1),
{
    let x: i128 = cur as i128 + delta as i128;
    if x < 0 {
        0
    } else if x > (len - 1) as i128 {
        len - 1
    } else {
        x as usize
    }
}

/// The section at sidebar position `i`.
fn section_for(i: usize) -> (r: Section)
    requires
        i < SECTION_COUNT,
    ensures
        r == section_at(i as int),
{
    match Section::from_index(i) {
        Some(s) => s,
        None => Section::Inicio,
    }
}

impl App {
    /// The Home projection of the history and the provider's sections.
    pub fn home_view(&self) -> (r: HomeView)
        ensures
            r@ == self.spec_home_view(),
    {
        HomeView::project(self.provider_id.as_str(), self.recent.as_slice(), self.home.as_slice())
    }

    /// Number of selectable cards on the Home screen.
    pub fn home_total_count(&self) -> (r: usize)
        requires
            self.fits(),
        ensures
            r == self.spec_home_total(),
    {
        self.home_view().len()
    }

    /// Number of rows in the main list of the open section.
    pub fn main_len(&self) -> (r: usize)
        requires
            self.fits(),
        ensures
            r == self.spec_main_len(),
    {
        match self.section {
            Section::Inicio => self.home_total_count(),
            Section::Buscar => if self.search_mixed { self.search_item_count() } else { self.songs.len() },
            Section::Biblioteca => self.library.len(),
            Section::Playlists => self.playlists.len(),
            Section::Artistas => self.artists.len(),
            Section::Fila => self.queue.len(),
            _ => 0,
        }
    }

    /// Selects row `next` of the main list; on the Home screen the move is
    /// also recorded for the card's reveal.
    fn select_row(&mut self, next: usize)
        ensures
            final(self).selected == Some(next),
            *final(self) == (App { selected: Some(next), ui: final(self).ui, ..*old(self) }),
            old(self).section == Section::Inicio ==> final(self).ui == (UiState { anim: final(self).ui.anim, ..old(self).ui })
                && selection_marked(old(self).ui.anim, final(self).ui.anim),
            old(self).section != Section::Inicio ==> final(self).ui == old(self).ui,
    {
        self.selected = Some(next);
        if self.section == Section::Inicio {
            self.ui.anim.mark_selection_changed();
        }
    }

    /// What `move_selection` leaves and returns.
    pub open spec fn move_selection_outcome(before: App, delta: isize, after: App) -> bool {
        &&& before.spec_main_len() == 0 ==> after == before
        &&& before.spec_main_len() > 0 ==> ({
                    let next = ((selected_or_first(before.selected) + delta) % before.spec_main_len()) as usize;
                    &&& after == (App { selected: Some(next), ui: after.ui, ..before })
                    &&& before.section == Section::Inicio ==> after.ui == (UiState { anim: after.ui.anim, ..before.ui })
                        && selection_marked(before.ui.anim, after.ui.anim)
                    &&& before.section != Section::Inicio ==> after.ui == before.ui
                })
    }

    /// Moves the selection of the main list by `delta` rows, wrapping at both
    /// ends. Nothing happens on an empty list.
    pub fn move_selection(&mut self, delta: isize)
        requires
            old(self).fits(),
        ensures
            App::move_selection_outcome(*old(self), delta, *final(self)),
    {
        let len = self.main_len();
        if len == 0 {
            return;
        }
        let cur = match self.selected {
            Some(i) => i,
            None => 0,
        };
        let next = wrap_offset(cur, delta as i64, len);
        self.select_row(next);
    }

    /// What `page_selection` leaves and returns.
    pub open spec fn page_selection_outcome(before: App, delta: isize, after: App) -> bool {
        &&& before.spec_main_len() == 0 ==> after == before
        &&& before.spec_main_len() > 0 ==> ({
                    let next = clamp_int(selected_or_first(before.selected) + delta, 0, before.spec_main_len() - 1) as usize;
                    &&& after == (App { selected: Some(next), ui: after.ui, ..before })
                    &&& before.section == Section::Inicio ==> after.ui == (UiState { anim: after.ui.anim, ..before.ui })
                        && selection_marked(before.ui.anim, after.ui.anim)
                    &&& before.section != Section::Inicio ==> after.ui == before.ui
                })
    }

    /// Jumps the selection by `delta` rows, stopping at the ends (page keys
    /// and the mouse wheel). Nothing happens on an empty list.
    pub fn page_selection(&mut self, delta: isize)
        requires
            old(self).fits(),
        ensures
            App::page_selection_outcome(*old(self), delta, *final(self)),
    {
        let len = self.main_len();
        if len == 0 {
            return;
        }
        let cur = match self.selected {
            Some(i) => i,
            None => 0,
        };
        let next = clamp_offset(cur, delta as i64, len);
        self.select_row(next);
    }

    /// What `select_first` leaves and returns.
    pub open spec fn select_first_outcome(before: App, after: App) -> bool {
        &&& before.spec_main_len() == 0 ==> after == before
        &&& before.spec_main_len() > 0 ==> ({
                    &&& after == (App { selected: Some(0usize), ui: after.ui, ..before })
                    &&& before.section == Section::Inicio ==> after.ui == (UiState { anim: after.ui.anim, ..before.ui })
                        && selection_marked(before.ui.anim, after.ui.anim)
                    &&& before.section != Section::Inicio ==> after.ui == before.ui
                })
    }

    /// Selects the first row of the main list (Home key).
    pub fn select_first(&mut self)
        requires
            old(self).fits(),
        ensures
            App::select_first_outcome(*old(self), *final(self)),
    {
        if self.main_len() > 0 {
            self.select_row(0);
        }
    }

    /// What `select_last` leaves and returns.
    pub open spec fn select_last_outcome(before: App, after: App) -> bool {
        &&& before.spec_main_len() == 0 ==> after == before
        &&& before.spec_main_len() > 0 ==> ({
                    let last = (before.spec_main_len() - 1) as usize;
                    &&& after == (App { selected: Some(last), ui: after.ui, ..before })
                    &&& before.section == Section::Inicio ==> after.ui == (UiState { anim: after.ui.anim, ..before.ui })
                        && selection_marked(before.ui.anim, after.ui.anim)
                    &&& before.section != Section::Inicio ==> after.ui == before.ui
                })
    }

    /// Selects the last row of the main list (End key).
    pub fn select_last(&mut self)
        requires
            old(self).fits(),
        ensures
            App::select_last_outcome(*old(self), *final(self)),
    {
        let len = self.main_len();
        if len > 0 {
            self.select_row(len - 1);
        }
    }

    /// Opens `section` and records the change for the staggered reveal of
    /// its rows.
    pub fn set_section(&mut self, section: Section)
        ensures
            *final(self) == (App { section, ui: UiState { anim: final(self).ui.anim, ..old(self).ui }, ..*old(self) }),
            section_marked(old(self).ui.anim, final(self).ui.anim),
    {
        self.section = section;
        self.ui.anim.mark_section_changed();
    }

    /// What `jump_to_section` leaves and returns.
    pub open spec fn jump_to_section_outcome(before: App, index: usize, after: App) -> bool {
        &&& index >= SECTION_COUNT ==> after == before
        &&& index < SECTION_COUNT ==> after == (App {
                    sidebar_index: index,
                    section: section_at(index as int),
                    focus: Focus::Main,
                    selected: Some(0usize),
                    ..before
                })
    }

    /// Opens the section at sidebar position `index` (number keys) and moves
    /// the focus to the main panel. Positions past the last section are
    /// ignored.
    pub fn jump_to_section(&mut self, index: usize)
        ensures
            App::jump_to_section_outcome(*old(self), index, *final(self)),
    {
        if index >= SECTION_COUNT {
            return;
        }
        self.sidebar_index = index;
        self.section = section_for(index);
        self.focus = Focus::Main;
        self.selected = Some(0);
    }

    /// What `move_sidebar` leaves and returns.
    pub open spec fn move_sidebar_outcome(before: App, delta: isize, after: App) -> bool {
        &&& ({
                    let next = ((before.sidebar_index + delta) % (SECTION_COUNT as int)) as usize;
                    after == (App {
                        sidebar_index: next,
                        section: section_at(next as int),
                        selected: Some(0usize),
                        ..before
                    })
                })
    }

    /// Moves the sidebar cursor by `delta`, wrapping at both ends, opens the
    /// section under it and puts the list selection back at the top.
    pub fn move_sidebar(&mut self, delta: isize)
        ensures
            App::move_sidebar_outcome(*old(self), delta, *final(self)),
    {
        let next = wrap_offset(self.sidebar_index, delta as i64, SECTION_COUNT);
        self.sidebar_index = next;
        self.section = section_for(next);
        self.selected = Some(0);
    }
}

/// One step forward and one back, both wrapping, return to the start.
pub proof fn lemma_wrap_back(i: int, n: int)
    requires
        0 <= i < n,
    ensures
        (((i + 1) % n) - 1) % n == i,
{
    if i + 1 < n {
        lemma_fundamental_div_mod_converse(i + 1, n, 0, i + 1);
        lemma_fundamental_div_mod_converse(i, n, 0, i);
    } else {
        lemma_fundamental_div_mod_converse(i + 1, n, 1, 0);
        lemma_fundamental_div_mod_converse(-1, n, -1, n - 1);
    }
}

/// Moving the list selection down and then up returns to the selected row:
/// both moves wrap around the list.
pub proof fn lemma_move_down_up_restores(a: App, b: App, c: App)
    requires
        a.selected matches Some(i) && i < a.spec_main_len(),
        a.spec_main_len() <= usize::MAX,
        App::move_selection_outcome(a, 1isize, b),
        App::move_selection_outcome(b, -1isize, c),
    ensures
        c.selected == a.selected,
{
    let n = a.spec_main_len();
    let i = a.selected->0 as int;
    lemma_wrap_back(i, n);
    lemma_mod_pos_bound(i + 1, n);
    assert(b.spec_main_len() == n);
    assert(b.selected == Some(((i + 1) % n) as usize));
    assert(selected_or_first(b.selected) == (i + 1) % n);
}

/// Moving the sidebar down and then up returns to the same section.
pub proof fn lemma_sidebar_down_up_restores(a: App, b: App, c: App)
    requires
        a.sidebar_index < SECTION_COUNT,
        App::move_sidebar_outcome(a, 1isize, b),
        App::move_sidebar_outcome(b, -1isize, c),
    ensures
        c.sidebar_index == a.sidebar_index,
        c.section == section_at(a.sidebar_index as int),
{
    lemma_wrap_back(a.sidebar_index as int, SECTION_COUNT as int);
    lemma_mod_pos_bound(a.sidebar_index + 1, SECTION_COUNT as int);
}

} // verus!
