//! Navigation state of the part explorer: which category and part are
//! shown, which property and state are selected, and whether the part is
//! flipped.
//!
//! The explorer's numeric property values (sizes and the like) are
//! floating-point and kept by the explorer program next to this state.
use vstd::arithmetic::div_mod::lemma_fundamental_div_mod_converse;
use vstd::prelude::*;

use crate::parts::{catalog, catalog_table, category_view, Category, PartDef, PartId};

verus! {

/// The explorer's navigation state, as the contracts speak of it.
pub struct ExplorerView {
    pub current_cat: int,
    pub current_part: int,
    pub selected_prop: int,
    pub selected_state: int,
    pub flipped: bool,
}

/// Number of parts in category `cat` of the catalog.
pub open spec fn parts_in(cat: int) -> int {
    catalog_table()[cat].1.len() as int
}

/// The part at position `part` of category `cat` of the catalog.
pub open spec fn part_at(cat: int, part: int) -> PartId {
    catalog_table()[cat].1[part]
}

impl ExplorerView {
    pub open spec fn part(self) -> PartId {
        part_at(self.current_cat, self.current_part)
    }

    /// The category and part are in the catalog and the selected state is
    /// one of the part's states.
    pub open spec fn wf(self) -> bool {
        &&& 0 <= self.current_cat < catalog_table().len()
        &&& 0 <= self.current_part < parts_in(self.current_cat)
        &&& 0 <= self.selected_state < self.part().state_table().len()
        &&& 0 <= self.selected_prop
    }

    /// Showing a new part starts from its defaults.
    pub open spec fn with_defaults(self) -> ExplorerView {
        ExplorerView { selected_prop: 0, selected_state: 0, flipped: false, ..self }
    }

    pub open spec fn next_category(self) -> ExplorerView {
        ExplorerView {
            current_cat: (self.current_cat + 1) % catalog_table().len() as int,
            current_part: 0,
            ..self
        }.with_defaults()
    }

    pub open spec fn prev_category(self) -> ExplorerView {
        ExplorerView {
            current_cat: if self.current_cat > 0 {
                self.current_cat - 1
            } else {
                catalog_table().len() - 1
            },
            current_part: 0,
            ..self
        }.with_defaults()
    }

    pub open spec fn next_part(self) -> ExplorerView {
        ExplorerView {
            current_part: (self.current_part + 1) % parts_in(self.current_cat),
            ..self
        }.with_defaults()
    }

    pub open spec fn prev_part(self) -> ExplorerView {
        ExplorerView {
            current_part: if self.current_part > 0 {
                self.current_part - 1
            } else {
                parts_in(self.current_cat) - 1
            },
            ..self
        }.with_defaults()
    }

    pub open spec fn cycled_state(self) -> ExplorerView {
        ExplorerView {
            selected_state: (self.selected_state + 1) % (self.part().state_table().len() as int),
            ..self
        }
    }

    pub open spec fn toggled_flip(self) -> ExplorerView {
        if self.part().flippable() {
            ExplorerView { flipped: !self.flipped, ..self }
        } else {
            self
        }
    }

    /// Moving the property selection over `count` properties.
    pub open spec fn next_prop(self, count: int) -> ExplorerView {
        if count > 0 {
            ExplorerView { selected_prop: (self.selected_prop + 1) % count, ..self }
        } else {
            self
        }
    }

    pub open spec fn prev_prop(self, count: int) -> ExplorerView {
        if count > 0 {
            ExplorerView {
                selected_prop: if self.selected_prop > 0 {
                    self.selected_prop - 1
                } else {
                    count - 1
                },
                ..self
            }
        } else {
            self
        }
    }
}

/// Every category of the catalog has parts, and every part a state.
proof fn lemma_catalog_parts_have_states(cat: int, part: int)
    requires
        0 <= cat < catalog_table().len(),
    ensures
        parts_in(cat) > 0,
        0 <= part < parts_in(cat) ==> part_at(cat, part).state_table().len() > 0,
{
}

/// The explorer over the part catalog.
pub struct Explorer {
    categories: Vec<Category>,
    current_cat: usize,
    current_part: usize,
    selected_prop: usize,
    selected_state: usize,
    flipped: bool,
}

impl View for Explorer {
    type V = ExplorerView;

    closed spec fn view(&self) -> ExplorerView {
        ExplorerView {
            current_cat: self.current_cat as int,
            current_part: self.current_part as int,
            selected_prop: self.selected_prop as int,
            selected_state: self.selected_state as int,
            flipped: self.flipped,
        }
    }
}

impl Explorer {
    #[verifier::type_invariant]
    spec fn inv(self) -> bool {
        &&& self.categories@.map_values(|c: Category| category_view(c)) == catalog_table()
        &&& self@.wf()
        &&& self.selected_prop < usize::MAX
    }

    /// Start at the first part of the first category.
    pub fn new() -> (r: Explorer)
        ensures
            r@ == (ExplorerView {
                current_cat: 0,
                current_part: 0,
                selected_prop: 0,
                selected_state: 0,
                flipped: false,
            }),
    {
        let categories = catalog();
        proof {
            lemma_catalog_parts_have_states(0, 0);
        }
        Explorer {
            categories,
            current_cat: 0,
            current_part: 0,
            selected_prop: 0,
            selected_state: 0,
            flipped: false,
        }
    }

    /// The part being shown.
    pub fn current_part(&self) -> (r: PartId)
        ensures
            r == self@.part(),
    {
        proof {
            use_type_invariant(self);
            assert(self.categories@[self.current_cat as int].parts@ == catalog_table()[self.current_cat as int].1);
        }
        self.categories[self.current_cat].parts[self.current_part]
    }

    /// The name of the category being shown.
    pub fn current_category_name(&self) -> (r: &'static str)
        ensures
            r@ == catalog_table()[self@.current_cat].0,
    {
        proof {
            use_type_invariant(self);
            assert(self.categories@[self.current_cat as int].name@ == catalog_table()[self.current_cat as int].0);
        }
        self.categories[self.current_cat].name
    }

    /// The position of the shown category in the catalog.
    pub fn current_category_index(&self) -> (r: usize)
        ensures
            r == self@.current_cat,
    {
        self.current_cat
    }

    /// The position of the shown part in its category.
    pub fn current_part_index(&self) -> (r: usize)
        ensures
            r == self@.current_part,
    {
        self.current_part
    }

    pub fn selected_prop(&self) -> (r: usize)
        ensures
            r == self@.selected_prop,
    {
        self.selected_prop
    }

    /// The state the shown part is drawn in.
    pub fn current_state(&self) -> (r: usize)
        ensures
            r == self@.selected_state,
    {
        self.selected_state
    }

    pub fn flipped(&self) -> (r: bool)
        ensures
            r == self@.flipped,
    {
        self.flipped
    }

    /// The state a newly shown part starts in.
    fn reset_props(&mut self)
        ensures
            final(self)@ == old(self)@.with_defaults(),
            final(self).categories == old(self).categories,
    {
        proof {
            use_type_invariant(&*self);
            lemma_catalog_parts_have_states(self.current_cat as int, self.current_part as int);
        }
        self.selected_prop = 0;
        self.selected_state = 0;
        self.flipped = false;
    }

    /// Show the first part of the next category (cyclically).
    pub fn next_category(&mut self)
        ensures
            final(self)@ == old(self)@.next_category(),
            final(self)@.wf(),
    {
        proof {
            use_type_invariant(&*self);
        }
        let n = self.categories.len();
        let cat = (self.current_cat + 1) % n;
        self.show_part(cat, 0);
    }

    /// Show the first part of the previous category (cyclically).
    pub fn prev_category(&mut self)
        ensures
            final(self)@ == old(self)@.prev_category(),
            final(self)@.wf(),
    {
        proof {
            use_type_invariant(&*self);
        }
        let n = self.categories.len();
        let cat = match self.current_cat.checked_sub(1) {
            Some(c) => c,
            None => n - 1,
        };
        self.show_part(cat, 0);
    }

    /// Show the next part of the category (cyclically).
    pub fn next_part(&mut self)
        ensures
            final(self)@ == old(self)@.next_part(),
            final(self)@.wf(),
    {
        proof {
            use_type_invariant(&*self);
            assert(self.categories@[self.current_cat as int].parts@ == catalog_table()[self.current_cat as int].1);
            lemma_catalog_parts_have_states(self.current_cat as int, 0);
        }
        let count = self.categories[self.current_cat].parts.len();
        let part = (self.current_part + 1) % count;
        self.show_part(self.current_cat, part);
    }

    /// Show the previous part of the category (cyclically).
    pub fn prev_part(&mut self)
        ensures
            final(self)@ == old(self)@.prev_part(),
            final(self)@.wf(),
    {
        proof {
            use_type_invariant(&*self);
            assert(self.categories@[self.current_cat as int].parts@ == catalog_table()[self.current_cat as int].1);
            lemma_catalog_parts_have_states(self.current_cat as int, 0);
        }
        let count = self.categories[self.current_cat].parts.len();
        let part = match self.current_part.checked_sub(1) {
            Some(p) => p,
            None => count - 1,
        };
        self.show_part(self.current_cat, part);
    }

    /// Show part `part` of category `cat` with its defaults.
    fn show_part(&mut self, cat: usize, part: usize)
        requires
            cat < catalog_table().len(),
            part < parts_in(cat as int),
        ensures
            final(self)@ == (ExplorerView {
                current_cat: cat as int,
                current_part: part as int,
                ..old(self)@
            }).with_defaults(),
            final(self)@.wf(),
    {
        proof {
            use_type_invariant(&*self);
            lemma_catalog_parts_have_states(self.current_cat as int, 0);
            lemma_catalog_parts_have_states(cat as int, part as int);
        }
        self.reset_props();
        self.current_part = 0;
        self.current_cat = cat;
        self.current_part = part;
        proof {
            use_type_invariant(&*self);
        }
    }

    /// Select the next property of `count` (cyclically).
    pub fn next_prop(&mut self, count: usize)
        ensures
            final(self)@ == old(self)@.next_prop(count as int),
            final(self)@.wf(),
    {
        proof {
            use_type_invariant(&*self);
        }
        if count > 0 {
            self.selected_prop = (self.selected_prop + 1) % count;
        }
        proof {
            use_type_invariant(&*self);
        }
    }

    /// Select the previous property of `count` (cyclically).
    pub fn prev_prop(&mut self, count: usize)
        ensures
            final(self)@ == old(self)@.prev_prop(count as int),
            final(self)@.wf(),
    {
        proof {
            use_type_invariant(&*self);
        }
        if count > 0 {
            self.selected_prop = match self.selected_prop.checked_sub(1) {
                Some(p) => p,
                None => count - 1,
            };
        }
        proof {
            use_type_invariant(&*self);
        }
    }

    /// Flip the part, if it is flippable.
    pub fn toggle_flip(&mut self)
        ensures
            final(self)@ == old(self)@.toggled_flip(),
            final(self)@.wf(),
    {
        proof {
            use_type_invariant(&*self);
        }
        if self.current_part().is_flippable() {
            self.flipped = !self.flipped;
        }
        proof {
            use_type_invariant(&*self);
        }
    }

    /// Show the part in its next state (cyclically).
    pub fn cycle_state(&mut self)
        ensures
            final(self)@ == old(self)@.cycled_state(),
            final(self)@.wf(),
    {
        proof {
            use_type_invariant(&*self);
        }
        let states = self.current_part().states();
        if !states.is_empty() {
            self.selected_state = (self.selected_state + 1) % states.len();
        }
        proof {
            use_type_invariant(&*self);
        }
    }
}

/// Going to the next category and back shows the first part of the same category.
pub proof fn lemma_prev_category_undoes_next(v: ExplorerView)
    requires
        v.wf(),
    ensures
        v.next_category().prev_category().current_cat == v.current_cat,
        v.next_category().prev_category().current_part == 0,
        v.next_category().wf(),
{
    let n = catalog_table().len() as int;
    let c = v.current_cat;
    if c + 1 < n {
        lemma_fundamental_div_mod_converse(c + 1, n, 0, c + 1);
    } else {
        lemma_fundamental_div_mod_converse(c + 1, n, 1, 0);
    }
    lemma_catalog_parts_have_states(v.next_category().current_cat, 0);
}

/// Going to the next part and back shows the same part again, in its defaults.
pub proof fn lemma_prev_part_undoes_next(v: ExplorerView)
    requires
        v.wf(),
    ensures
        v.next_part().prev_part() == v.with_defaults(),
{
    let n = parts_in(v.current_cat);
    let p = v.current_part;
    if p + 1 < n {
        lemma_fundamental_div_mod_converse(p + 1, n, 0, p + 1);
    } else {
        lemma_fundamental_div_mod_converse(p + 1, n, 1, 0);
    }
}

/// Moving to the next category goes one category on, from the last back to
/// the first, and the previous one goes one back, from the first to the
/// last; either shows the category's first part with default settings.
/// Moving within a category does the same over its parts.
pub proof fn lemma_explorer_steps(v: ExplorerView)
    requires
        v.wf(),
    ensures
        v.next_category().current_cat == (if v.current_cat + 1 < catalog_table().len() {
            v.current_cat + 1
        } else {
            0
        }),
        v.prev_category().current_cat == (if v.current_cat > 0 {
            v.current_cat - 1
        } else {
            catalog_table().len() - 1
        }),
        v.next_category().current_part == 0 && v.prev_category().current_part == 0,
        v.next_part().current_cat == v.current_cat && v.prev_part().current_cat == v.current_cat,
        v.next_part().current_part == (if v.current_part + 1 < parts_in(v.current_cat) {
            v.current_part + 1
        } else {
            0
        }),
        v.prev_part().current_part == (if v.current_part > 0 {
            v.current_part - 1
        } else {
            parts_in(v.current_cat) - 1
        }),
        v.next_part().selected_state == 0 && !v.next_part().flipped
            && v.next_part().selected_prop == 0,
{
    let n = catalog_table().len() as int;
    let c = v.current_cat;
    if c + 1 < n {
        lemma_fundamental_div_mod_converse(c + 1, n, 0, c + 1);
    } else {
        lemma_fundamental_div_mod_converse(c + 1, n, 1, 0);
    }
    let m = parts_in(c);
    let p = v.current_part;
    if p + 1 < m {
        lemma_fundamental_div_mod_converse(p + 1, m, 0, p + 1);
    } else {
        lemma_fundamental_div_mod_converse(p + 1, m, 1, 0);
    }
}

} // verus!
