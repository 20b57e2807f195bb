//! One step of the dashboard: an action performed on the state, and what the
//! loop around it must do next.

use vstd::prelude::*;
use crate::tui::app::{
    App, InputMode, clear_categories_done, clear_ecosystems_done, clear_filters_done, clear_marks_done,
    cycle_inactivity_done, indices_in_range, mark_all_visible_done, mark_visible_caches_done,
    mark_visible_orphans_done, next_done, page_down_done, page_up_done, previous_done, search_clear_done,
    search_pop_done, search_push_done, set_sort_done, toggle_caches_done, toggle_category_done,
    toggle_ecosystem_done, toggle_mark_done, toggle_orphans_done, toggle_top_level_done,
};
use crate::tui::keys::{Action, Key, action_for, eco_query, key_action};

verus! {

/// What the loop around the dashboard does after an action: go on, close the
/// dashboard, or do the outside work (load the history, write the scripts) and
/// hand its result back to the state.
#[derive(Debug, Clone, Copy, PartialEq, Eq, Structural)]
pub enum Effect {
    Continue,
    Quit,
    LoadHistory,
    WriteScripts,
}

/// The actions that read the listed rows' items.
pub open spec fn reads_rows(action: Action) -> bool {
    action is MarkAll || action is MarkOrphans || action is MarkCaches || action is ToggleMark
}

/// An operation `op` from `a`, then back to the normal mode, gives `b`.
pub open spec fn then_normal(a: App, b: App, op: spec_fn(App, App) -> bool) -> bool {
    exists|mid: App| op(a, mid) && b == (App { input_mode: InputMode::Normal, ..mid })
}

/// Performing `action` in state `a` leads to state `b` and the effect `e`.
pub open spec fn performed(a: App, action: Action, b: App, e: Effect) -> bool {
    match action {
        Action::Nothing => b == a && e == Effect::Continue,
        Action::Quit => b == a && e == Effect::Quit,
        Action::SetMode(m) => b == (App { input_mode: m, ..a }) && e == Effect::Continue,
        Action::SearchPop => search_pop_done(a, b) && e == Effect::Continue,
        Action::SearchClear => search_clear_done(a, b) && e == Effect::Continue,
        Action::SearchPush(c) => search_push_done(a, b, c) && e == Effect::Continue,
        Action::ToggleOrphans => toggle_orphans_done(a, b) && e == Effect::Continue,
        Action::ToggleCaches => toggle_caches_done(a, b) && e == Effect::Continue,
        Action::ToggleTopLevel => toggle_top_level_done(a, b) && e == Effect::Continue,
        Action::CycleInactivity => cycle_inactivity_done(a, b) && e == Effect::Continue,
        Action::ClearFilters => clear_filters_done(a, b) && e == Effect::Continue,
        Action::ToggleEcosystem(c) => toggle_ecosystem_done(a, b, eco_query(c)) && e == Effect::Continue,
        Action::ClearEcosystems => clear_ecosystems_done(a, b) && e == Effect::Continue,
        Action::ToggleCategory(c) => toggle_category_done(a, b, c) && e == Effect::Continue,
        Action::ClearCategories => clear_categories_done(a, b) && e == Effect::Continue,
        Action::SortBy(s) => then_normal(a, b, |x: App, y: App| set_sort_done(x, y, s)) && e == Effect::Continue,
        Action::MarkAll => then_normal(a, b, |x: App, y: App| mark_all_visible_done(x, y)) && e == Effect::Continue,
        Action::MarkOrphans => then_normal(a, b, |x: App, y: App| mark_visible_orphans_done(x, y))
            && e == Effect::Continue,
        Action::MarkCaches => then_normal(a, b, |x: App, y: App| mark_visible_caches_done(x, y))
            && e == Effect::Continue,
        Action::ClearMarks => then_normal(a, b, |x: App, y: App| clear_marks_done(x, y)) && e == Effect::Continue,
        Action::Next => next_done(a, b) && e == Effect::Continue,
        Action::Previous => previous_done(a, b) && e == Effect::Continue,
        Action::PageDown => page_down_done(a, b) && e == Effect::Continue,
        Action::PageUp => page_up_done(a, b) && e == Effect::Continue,
        Action::ToggleMark => toggle_mark_done(a, b) && e == Effect::Continue,
        Action::OpenHistory => b == a && e == Effect::LoadHistory,
        Action::GenerateScripts => b == a && e == Effect::WriteScripts,
    }
}

impl App {
    /// Performs an action on the dashboard's state; says what the surrounding
    /// loop must do next.
    pub fn perform(&mut self, action: Action) -> (r: Effect)
        requires
            reads_rows(action) ==> indices_in_range(*old(self)),
        ensures
            performed(*old(self), action, *final(self), r),
    {
        match action {
            Action::Nothing => Effect::Continue,
            Action::Quit => Effect::Quit,
            Action::SetMode(m) => {
                self.input_mode = m;
                Effect::Continue
            },
            Action::SearchPop => {
                self.search_pop();
                Effect::Continue
            },
            Action::SearchClear => {
                self.search_clear();
                Effect::Continue
            },
            Action::SearchPush(c) => {
                self.search_push(c);
                Effect::Continue
            },
            Action::ToggleOrphans => {
                self.toggle_orphans();
                Effect::Continue
            },
            Action::ToggleCaches => {
                self.toggle_caches();
                Effect::Continue
            },
            Action::ToggleTopLevel => {
                self.toggle_top_level();
                Effect::Continue
            },
            Action::CycleInactivity => {
                self.cycle_inactivity();
                Effect::Continue
            },
            Action::ClearFilters => {
                self.clear_filters();
                Effect::Continue
            },
            Action::ToggleEcosystem(c) => {
                self.toggle_ecosystem(c.query());
                Effect::Continue
            },
            Action::ClearEcosystems => {
                self.clear_ecosystems();
                Effect::Continue
            },
            Action::ToggleCategory(c) => {
                self.toggle_category(c);
                Effect::Continue
            },
            Action::ClearCategories => {
                self.clear_categories();
                Effect::Continue
            },
            Action::SortBy(s) => {
                self.set_sort(s);
                let ghost mid = *self;
                self.input_mode = InputMode::Normal;
                assert(set_sort_done(*old(self), mid, s) && *self == (App { input_mode: InputMode::Normal, ..mid }));
                Effect::Continue
            },
            Action::MarkAll => {
                self.mark_all_visible();
                let ghost mid = *self;
                self.input_mode = InputMode::Normal;
                assert(mark_all_visible_done(*old(self), mid) && *self == (App { input_mode: InputMode::Normal, ..mid }));
                Effect::Continue
            },
            Action::MarkOrphans => {
                self.mark_visible_orphans();
                let ghost mid = *self;
                self.input_mode = InputMode::Normal;
                assert(mark_visible_orphans_done(*old(self), mid) && *self == (App {
                    input_mode: InputMode::Normal,
                    ..mid
                }));
                Effect::Continue
            },
            Action::MarkCaches => {
                self.mark_visible_caches();
                let ghost mid = *self;
                self.input_mode = InputMode::Normal;
                assert(mark_visible_caches_done(*old(self), mid) && *self == (App {
                    input_mode: InputMode::Normal,
                    ..mid
                }));
                Effect::Continue
            },
            Action::ClearMarks => {
                self.clear_marks();
                let ghost mid = *self;
                self.input_mode = InputMode::Normal;
                assert(clear_marks_done(*old(self), mid) && *self == (App { input_mode: InputMode::Normal, ..mid }));
                Effect::Continue
            },
            Action::Next => {
                self.next();
                Effect::Continue
            },
            Action::Previous => {
                self.previous();
                Effect::Continue
            },
            Action::PageDown => {
                self.page_down();
                Effect::Continue
            },
            Action::PageUp => {
                self.page_up();
                Effect::Continue
            },
            Action::ToggleMark => {
                self.toggle_mark();
                Effect::Continue
            },
            Action::OpenHistory => Effect::LoadHistory,
            Action::GenerateScripts => Effect::WriteScripts,
        }
    }

    /// Handles a key press: the action its mode gives it, performed.
    pub fn press(&mut self, key: Key) -> (r: Effect)
        requires
            reads_rows(action_for(old(self).input_mode, key)) ==> indices_in_range(*old(self)),
        ensures
            performed(*old(self), action_for(old(self).input_mode, key), *final(self), r),
    {
        let action = key_action(self.input_mode, key);
        self.perform(action)
    }
}

} // verus!
