//! The three hotkey slots and their configured shortcut texts.

use vstd::prelude::*;

verus! {

/// Shortcut text used for the popup window when nothing is stored.
pub const DEFAULT_POPUP_WINDOW: &'static str = "Ctrl+Shift+T";

/// Shortcut text used for slide translation when nothing is stored.
pub const DEFAULT_SLIDE_TRANSLATION: &'static str = "Ctrl+Shift+S";

/// Shortcut text used for screenshot translation when nothing is stored.
pub const DEFAULT_SCREENSHOT_TRANSLATION: &'static str = "Ctrl+Shift+A";

/// One of the three actions that a global shortcut can be configured for.
/// The variants stand in the order in which a registration cycle takes them.
#[derive(Clone, Copy, Debug, PartialEq, Eq, Structural)]
pub enum Slot {
    PopupWindow,
    ScreenshotTranslation,
    SlideTranslation,
}

impl Slot {
    /// Position of the slot in the order of a registration cycle.
    pub open spec fn rank(self) -> nat {
        match self {
            Slot::PopupWindow => 0,
            Slot::ScreenshotTranslation => 1,
            Slot::SlideTranslation => 2,
        }
    }

    /// The slot that a registration cycle takes after this one.
    pub open spec fn successor(self) -> Option<Slot> {
        match self {
            Slot::PopupWindow => Some(Slot::ScreenshotTranslation),
            Slot::ScreenshotTranslation => Some(Slot::SlideTranslation),
            Slot::SlideTranslation => None,
        }
    }

    /// The slot that a registration cycle takes after this one, if any.
    pub fn next(self) -> (following: Option<Slot>)
        ensures
            following == self.successor(),
    {
        match self {
            Slot::PopupWindow => Some(Slot::ScreenshotTranslation),
            Slot::ScreenshotTranslation => Some(Slot::SlideTranslation),
            Slot::SlideTranslation => None,
        }
    }
}

/// The configured shortcut text of each slot. An empty text disables the slot.
#[derive(Clone, Debug, PartialEq, Eq)]
pub struct HotkeyConfig {
    pub popup_window: String,
    pub slide_translation: String,
    pub screenshot_translation: String,
}

/// The shortcut texts of a [`HotkeyConfig`] as character sequences.
pub struct HotkeyTexts {
    pub popup_window: Seq<char>,
    pub slide_translation: Seq<char>,
    pub screenshot_translation: Seq<char>,
}

impl HotkeyTexts {
    /// The text configured for `slot`.
    pub open spec fn text(self, slot: Slot) -> Seq<char> {
        match slot {
            Slot::PopupWindow => self.popup_window,
            Slot::ScreenshotTranslation => self.screenshot_translation,
            Slot::SlideTranslation => self.slide_translation,
        }
    }

    /// The texts that disable every slot.
    pub open spec fn disabled() -> HotkeyTexts {
        HotkeyTexts {
            popup_window: Seq::empty(),
            slide_translation: Seq::empty(),
            screenshot_translation: Seq::empty(),
        }
    }

    /// The built-in fallback texts.
    pub open spec fn fallback() -> HotkeyTexts {
        HotkeyTexts {
            popup_window: DEFAULT_POPUP_WINDOW@,
            slide_translation: DEFAULT_SLIDE_TRANSLATION@,
            screenshot_translation: DEFAULT_SCREENSHOT_TRANSLATION@,
        }
    }
}

impl View for HotkeyConfig {
    type V = HotkeyTexts;

    open spec fn view(&self) -> HotkeyTexts {
        HotkeyTexts {
            popup_window: self.popup_window@,
            slide_translation: self.slide_translation@,
            screenshot_translation: self.screenshot_translation@,
        }
    }
}

impl HotkeyConfig {
    /// A configuration in which every slot is disabled.
    pub fn disabled() -> (config: HotkeyConfig)
        ensures
            config@ == HotkeyTexts::disabled(),
    {
        HotkeyConfig {
            popup_window: String::new(),
            slide_translation: String::new(),
            screenshot_translation: String::new(),
        }
    }

    /// The text configured for `slot`.
    pub fn text(&self, slot: Slot) -> (text: &str)
        ensures
            text@ == self@.text(slot),
    {
        match slot {
            Slot::PopupWindow => self.popup_window.as_str(),
            Slot::ScreenshotTranslation => self.screenshot_translation.as_str(),
            Slot::SlideTranslation => self.slide_translation.as_str(),
        }
    }
}

/// What came of loading the stored hotkey configuration.
#[derive(Clone, Debug, PartialEq, Eq)]
pub enum ConfigLoad {
    /// A configuration was stored.
    Stored(HotkeyConfig),
    /// Nothing was stored.
    Missing,
    /// The store could not be read.
    Failed,
}

/// The texts that a registration cycle works with after a load: the stored
/// ones, or the fallback when nothing was stored or the load failed.
pub open spec fn resolved_texts(load: ConfigLoad) -> HotkeyTexts {
    match load {
        ConfigLoad::Stored(config) => config@,
        ConfigLoad::Missing => HotkeyTexts::fallback(),
        ConfigLoad::Failed => HotkeyTexts::fallback(),
    }
}

/// The built-in fallback configuration.
pub fn default_hotkeys() -> (config: HotkeyConfig)
    ensures
        config@ == HotkeyTexts::fallback(),
{
    HotkeyConfig {
        popup_window: DEFAULT_POPUP_WINDOW.to_owned(),
        slide_translation: DEFAULT_SLIDE_TRANSLATION.to_owned(),
        screenshot_translation: DEFAULT_SCREENSHOT_TRANSLATION.to_owned(),
    }
}

/// Settles on the configuration to register: the stored one if the load
/// produced one, the fallback otherwise.
pub fn resolve_hotkeys(load: ConfigLoad) -> (config: HotkeyConfig)
    ensures
        config@ == resolved_texts(load),
        load matches ConfigLoad::Stored(stored) ==> config == stored,
{
    match load {
        ConfigLoad::Stored(config) => config,
        ConfigLoad::Missing => default_hotkeys(),
        ConfigLoad::Failed => default_hotkeys(),
    }
}

} // verus!
