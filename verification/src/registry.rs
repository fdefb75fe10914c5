//! The table of active shortcut bindings.
//!
//! A binding ties one parsed shortcut to the handler of one slot. The table
//! never holds two bindings for the same shortcut, and a slot is bound to at
//! most one shortcut.

use crate::hotkeys::Slot;
use vstd::prelude::*;

verus! {

/// One active binding: the shortcut with this identifier triggers the handler
/// of `slot`.
#[derive(Clone, Copy, Debug, PartialEq, Eq, Structural)]
pub struct ShortcutBinding {
    pub shortcut: u32,
    pub slot: Slot,
}

/// The bindings of a table, slot by slot.
pub struct Bindings {
    pub popup_window: Option<u32>,
    pub screenshot_translation: Option<u32>,
    pub slide_translation: Option<u32>,
}

impl Bindings {
    /// The table without any binding.
    pub open spec fn empty() -> Bindings {
        Bindings { popup_window: None, screenshot_translation: None, slide_translation: None }
    }

    /// The shortcut bound to `slot`, if any.
    pub open spec fn shortcut_of(self, slot: Slot) -> Option<u32> {
        match slot {
            Slot::PopupWindow => self.popup_window,
            Slot::ScreenshotTranslation => self.screenshot_translation,
            Slot::SlideTranslation => self.slide_translation,
        }
    }

    /// Whether `shortcut` triggers the handler of `slot`.
    pub open spec fn binds(self, shortcut: u32, slot: Slot) -> bool {
        self.shortcut_of(slot) == Some(shortcut)
    }

    /// No shortcut is bound twice.
    pub open spec fn wf(self) -> bool {
        &&& self.popup_window is Some ==> self.popup_window != self.screenshot_translation
            && self.popup_window != self.slide_translation
        &&& self.screenshot_translation is Some ==> self.screenshot_translation
            != self.slide_translation
    }

    /// The table with every binding of `shortcut` taken out.
    pub open spec fn release(self, shortcut: u32) -> Bindings {
        Bindings {
            popup_window: if self.popup_window == Some(shortcut) {
                None
            } else {
                self.popup_window
            },
            screenshot_translation: if self.screenshot_translation == Some(shortcut) {
                None
            } else {
                self.screenshot_translation
            },
            slide_translation: if self.slide_translation == Some(shortcut) {
                None
            } else {
                self.slide_translation
            },
        }
    }

    /// The table in which `slot` is bound to `bound` and nothing else changed.
    pub open spec fn with_slot(self, slot: Slot, bound: Option<u32>) -> Bindings {
        match slot {
            Slot::PopupWindow => Bindings { popup_window: bound, ..self },
            Slot::ScreenshotTranslation => Bindings { screenshot_translation: bound, ..self },
            Slot::SlideTranslation => Bindings { slide_translation: bound, ..self },
        }
    }

    /// The table after `shortcut` was bound to `slot`: the new binding
    /// replaces whatever `slot` was bound to and whatever `shortcut`
    /// triggered before.
    pub open spec fn bind(self, shortcut: u32, slot: Slot) -> Bindings {
        self.release(shortcut).with_slot(slot, Some(shortcut))
    }

    /// The slot whose handler `shortcut` triggers, if any.
    pub open spec fn handler_for(self, shortcut: u32) -> Option<Slot> {
        if self.popup_window == Some(shortcut) {
            Some(Slot::PopupWindow)
        } else if self.screenshot_translation == Some(shortcut) {
            Some(Slot::ScreenshotTranslation)
        } else if self.slide_translation == Some(shortcut) {
            Some(Slot::SlideTranslation)
        } else {
            None
        }
    }

    /// The bindings in the order of the slots.
    pub open spec fn listing(self) -> Seq<ShortcutBinding> {
        Self::entry(self.popup_window, Slot::PopupWindow) + Self::entry(
            self.screenshot_translation,
            Slot::ScreenshotTranslation,
        ) + Self::entry(self.slide_translation, Slot::SlideTranslation)
    }

    /// The listing of one slot: its binding, or nothing.
    pub open spec fn entry(bound: Option<u32>, slot: Slot) -> Seq<ShortcutBinding> {
        match bound {
            Some(shortcut) => seq![ShortcutBinding { shortcut, slot }],
            None => Seq::empty(),
        }
    }
}

/// The table of active bindings, owned by whoever runs the registration.
#[derive(Clone, Copy, Debug, PartialEq, Eq)]
pub struct ShortcutRegistry {
    popup_window: Option<u32>,
    screenshot_translation: Option<u32>,
    slide_translation: Option<u32>,
}

impl View for ShortcutRegistry {
    type V = Bindings;

    closed spec fn view(&self) -> Bindings {
        Bindings {
            popup_window: self.popup_window,
            screenshot_translation: self.screenshot_translation,
            slide_translation: self.slide_translation,
        }
    }
}

impl ShortcutRegistry {
    #[verifier::type_invariant]
    spec fn unique_shortcuts(self) -> bool {
        self@.wf()
    }

    /// A table without bindings.
    pub fn new() -> (registry: ShortcutRegistry)
        ensures
            registry@ == Bindings::empty(),
            registry@.wf(),
    {
        ShortcutRegistry {
            popup_window: None,
            screenshot_translation: None,
            slide_translation: None,
        }
    }

    /// Drops every binding.
    pub fn unregister_all(&mut self)
        ensures
            final(self)@ == Bindings::empty(),
            final(self)@.wf(),
    {
        *self = ShortcutRegistry::new();
    }

    /// Binds `shortcut` to the handler of `slot`, replacing what either was
    /// bound to before.
    pub fn register(&mut self, shortcut: u32, slot: Slot)
        ensures
            final(self)@ == old(self)@.bind(shortcut, slot),
            final(self)@.wf(),
    {
        proof {
            use_type_invariant(&*self);
        }
        let popup_window = Self::keep_unless(self.popup_window, shortcut);
        let screenshot_translation = Self::keep_unless(self.screenshot_translation, shortcut);
        let slide_translation = Self::keep_unless(self.slide_translation, shortcut);
        *self = match slot {
            Slot::PopupWindow => ShortcutRegistry {
                popup_window: Some(shortcut),
                screenshot_translation,
                slide_translation,
            },
            Slot::ScreenshotTranslation => ShortcutRegistry {
                popup_window,
                screenshot_translation: Some(shortcut),
                slide_translation,
            },
            Slot::SlideTranslation => ShortcutRegistry {
                popup_window,
                screenshot_translation,
                slide_translation: Some(shortcut),
            },
        };
    }

    /// `bound`, unless it is `shortcut`.
    fn keep_unless(bound: Option<u32>, shortcut: u32) -> (kept: Option<u32>)
        ensures
            kept == if bound == Some(shortcut) {
                None
            } else {
                bound
            },
    {
        match bound {
            Some(held) => if held == shortcut {
                None
            } else {
                bound
            },
            None => None,
        }
    }

    /// The shortcut bound to `slot`, if any.
    pub fn shortcut_of(&self, slot: Slot) -> (bound: Option<u32>)
        ensures
            bound == self@.shortcut_of(slot),
    {
        match slot {
            Slot::PopupWindow => self.popup_window,
            Slot::ScreenshotTranslation => self.screenshot_translation,
            Slot::SlideTranslation => self.slide_translation,
        }
    }

    /// The slot whose handler `shortcut` triggers, if any.
    pub fn handler_for(&self, shortcut: u32) -> (slot: Option<Slot>)
        ensures
            slot == self@.handler_for(shortcut),
            slot matches Some(found) ==> self@.binds(shortcut, found),
            slot is None ==> forall|other: Slot| !self@.binds(shortcut, other),
    {
        if Self::holds(self.popup_window, shortcut) {
            Some(Slot::PopupWindow)
        } else if Self::holds(self.screenshot_translation, shortcut) {
            Some(Slot::ScreenshotTranslation)
        } else if Self::holds(self.slide_translation, shortcut) {
            Some(Slot::SlideTranslation)
        } else {
            None
        }
    }

    /// Whether `bound` is `shortcut`.
    fn holds(bound: Option<u32>, shortcut: u32) -> (same: bool)
        ensures
            same == (bound == Some(shortcut)),
    {
        match bound {
            Some(held) => held == shortcut,
            None => false,
        }
    }

    /// The active bindings in the order of the slots.
    pub fn bindings(&self) -> (list: Vec<ShortcutBinding>)
        ensures
            list@ == self@.listing(),
            self@.wf(),
    {
        proof {
            use_type_invariant(self);
        }
        let mut list: Vec<ShortcutBinding> = Vec::new();
        if let Some(shortcut) = self.popup_window {
            list.push(ShortcutBinding { shortcut, slot: Slot::PopupWindow });
        }
        if let Some(shortcut) = self.screenshot_translation {
            list.push(ShortcutBinding { shortcut, slot: Slot::ScreenshotTranslation });
        }
        if let Some(shortcut) = self.slide_translation {
            list.push(ShortcutBinding { shortcut, slot: Slot::SlideTranslation });
        }
        assert(list@ =~= self@.listing());
        list
    }
}

/// In a table free of duplicates a shortcut triggers at most one slot.
pub proof fn lemma_one_binding_per_shortcut(table: Bindings, shortcut: u32, a: Slot, b: Slot)
    requires
        table.wf(),
        table.binds(shortcut, a),
        table.binds(shortcut, b),
    ensures
        a == b,
        table.handler_for(shortcut) == Some(a),
{
}

/// Binding a shortcut keeps the table free of duplicates, and afterwards the
/// shortcut triggers the given slot and no other.
pub proof fn lemma_bind_keeps_shortcuts_unique(table: Bindings, shortcut: u32, slot: Slot)
    requires
        table.wf(),
    ensures
        table.bind(shortcut, slot).wf(),
        table.bind(shortcut, slot).handler_for(shortcut) == Some(slot),
        forall|other: Slot|
            table.bind(shortcut, slot).binds(shortcut, other) <==> other == slot,
{
}

/// In a table free of duplicates no two listed bindings share a shortcut or
/// a slot, there are at most three of them, and each is a binding of the
/// table.
pub proof fn lemma_listing_has_no_duplicates(table: Bindings)
    requires
        table.wf(),
    ensures
        table.listing().len() <= 3,
        forall|i: int, j: int|
            0 <= i < j < table.listing().len() ==> table.listing()[i].shortcut
                != table.listing()[j].shortcut && table.listing()[i].slot
                != table.listing()[j].slot,
        forall|i: int|
            0 <= i < table.listing().len() ==> table.binds(
                #[trigger] table.listing()[i].shortcut,
                table.listing()[i].slot,
            ),
{
}

} // verus!
