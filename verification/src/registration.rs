//! The registration cycle: tearing the shortcut table down and rebuilding it
//! from the configured hotkeys.
//!
//! The cycle is a state machine. The driver performs the action that the
//! machine asks for (an operating-system call or a read of the stored
//! configuration) and reports back with an event; the machine decides what
//! comes next. Every decision of the cycle is taken here: which slots are
//! attempted, in which order, and what a refusal or an acceptance leads to.
//!
//! [`register_shortcuts`] is the entry point for the driver. It settles on
//! the configuration, parses its texts and hands the outcome to
//! [`advance_cycle`], the machine proper, which works on parsed attempts
//! alone.

use crate::hotkeys::{resolve_hotkeys, resolved_texts, ConfigLoad, HotkeyConfig, HotkeyTexts, Slot};
use crate::registry::{Bindings, ShortcutRegistry};
use global_hotkey::hotkey::HotKey;
use std::str::FromStr;
use vstd::prelude::*;

verus! {

/// The identifier of the key combination that `text` denotes, or nothing
/// where `text` is not a shortcut: what the parser of `global_hotkey` makes
/// of it in this build. (A name such as `CmdOrCtrl` stands for one modifier
/// on macOS and for another elsewhere.)
pub uninterp spec fn parsed_shortcut(text: Seq<char>) -> Option<u32>;

/// Parses `text` with `HotKey::from_str` of `global_hotkey` and keeps the
/// field `id` of the hotkey; a parse error becomes `None`. Taken on trust:
/// that the outcome is a function of the text alone. Nothing is claimed
/// about which texts parse or to what.
#[verifier::external_body]
fn parse_shortcut(text: &str) -> (parsed: Option<u32>)
    ensures
        parsed == parsed_shortcut(text@),
{
    match HotKey::from_str(text) {
        Ok(hotkey) => Some(hotkey.id),
        Err(_) => None,
    }
}

/// The shortcut that a configured text calls to register: none for an empty
/// text, which disables its slot, and none for a text that does not parse.
pub open spec fn attempt_for(text: Seq<char>) -> Option<u32> {
    if text.len() == 0 {
        None
    } else {
        parsed_shortcut(text)
    }
}

/// The shortcut to attempt for each slot, or none where the slot is to be
/// passed over.
#[derive(Clone, Copy, Debug, PartialEq, Eq, Structural)]
pub struct Attempts {
    pub popup_window: Option<u32>,
    pub screenshot_translation: Option<u32>,
    pub slide_translation: Option<u32>,
}

impl Attempts {
    /// No attempt for any slot.
    pub open spec fn none() -> Attempts {
        Attempts { popup_window: None, screenshot_translation: None, slide_translation: None }
    }

    /// The shortcut to attempt for `slot`.
    pub open spec fn of(self, slot: Slot) -> Option<u32> {
        match slot {
            Slot::PopupWindow => self.popup_window,
            Slot::ScreenshotTranslation => self.screenshot_translation,
            Slot::SlideTranslation => self.slide_translation,
        }
    }

    /// The shortcut to attempt for `slot`.
    pub fn get(&self, slot: Slot) -> (shortcut: Option<u32>)
        ensures
            shortcut == self.of(slot),
    {
        match slot {
            Slot::PopupWindow => self.popup_window,
            Slot::ScreenshotTranslation => self.screenshot_translation,
            Slot::SlideTranslation => self.slide_translation,
        }
    }
}

/// The attempts that a configuration calls for.
pub open spec fn attempts_for(hotkeys: HotkeyTexts) -> Attempts {
    Attempts {
        popup_window: attempt_for(hotkeys.popup_window),
        screenshot_translation: attempt_for(hotkeys.screenshot_translation),
        slide_translation: attempt_for(hotkeys.slide_translation),
    }
}

/// The attempt of `slot` together with the slot, if it has one.
pub open spec fn candidate(attempts: Attempts, slot: Slot) -> Option<(Slot, u32)> {
    match attempts.of(slot) {
        Some(shortcut) => Some((slot, shortcut)),
        None => None,
    }
}

/// `first` if there is one, else `second`.
pub open spec fn or_else(first: Option<(Slot, u32)>, second: Option<(Slot, u32)>) -> Option<
    (Slot, u32),
> {
    if first is Some {
        first
    } else {
        second
    }
}

/// The first slot at or after `from`, in cycle order, that has an attempt,
/// with the shortcut to register.
pub open spec fn next_attempt(attempts: Attempts, from: Option<Slot>) -> Option<(Slot, u32)> {
    let popup_window = candidate(attempts, Slot::PopupWindow);
    let screenshot_translation = candidate(attempts, Slot::ScreenshotTranslation);
    let slide_translation = candidate(attempts, Slot::SlideTranslation);
    match from {
        Some(Slot::PopupWindow) => or_else(
            popup_window,
            or_else(screenshot_translation, slide_translation),
        ),
        Some(Slot::ScreenshotTranslation) => or_else(screenshot_translation, slide_translation),
        Some(Slot::SlideTranslation) => slide_translation,
        None => None,
    }
}

/// Where a registration cycle stands.
#[derive(Clone, Copy, Debug, PartialEq, Eq, Structural)]
pub enum Stage {
    /// No cycle is under way.
    Idle,
    /// The old bindings are being unregistered.
    Clearing,
    /// The stored configuration is being loaded.
    Loading,
    /// The operating system was asked to register `shortcut` for `slot`.
    Registering { slot: Slot, shortcut: u32 },
    /// The handler of `slot` is being attached to `shortcut`.
    Binding { slot: Slot, shortcut: u32 },
}

/// What the driver is to do next.
#[derive(Clone, Copy, Debug, PartialEq, Eq, Structural)]
pub enum RegistrationAction {
    /// Unregister every shortcut registered so far, ignoring failure, and
    /// report [`RegistrationEvent::Cleared`].
    UnregisterAll,
    /// Load the stored configuration and report
    /// [`RegistrationEvent::Loaded`].
    LoadConfig,
    /// Register `shortcut`, the parse of the text of `slot`, with the
    /// operating system and report [`RegistrationEvent::Registered`].
    Register { slot: Slot, shortcut: u32 },
    /// Attach the handler of `slot` to `shortcut` and report
    /// [`RegistrationEvent::Bound`].
    Bind { slot: Slot, shortcut: u32 },
    /// The cycle is complete.
    Finish,
}

impl RegistrationAction {
    /// The slot that the action concerns, if it concerns one.
    pub open spec fn slot(self) -> Option<Slot> {
        match self {
            RegistrationAction::Register { slot, .. } => Some(slot),
            RegistrationAction::Bind { slot, .. } => Some(slot),
            _ => None,
        }
    }
}

/// What the driver reports.
#[derive(Clone, Debug, PartialEq, Eq)]
pub enum RegistrationEvent {
    /// A registration cycle is to start.
    Begin,
    /// The old shortcuts were unregistered, or the attempt failed.
    Cleared,
    /// The load of the stored configuration ended.
    Loaded(ConfigLoad),
    /// The operating system accepted or refused the registration.
    Registered { accepted: bool },
    /// The handler was attached.
    Bound,
}

/// An event as the machine takes it: a load has become the configuration to
/// register and the attempts it was parsed to.
#[derive(Clone, Debug, PartialEq, Eq)]
pub enum PlannedEvent {
    Begin,
    Cleared,
    Planned { hotkeys: HotkeyConfig, attempts: Attempts },
    Registered { accepted: bool },
    Bound,
}

/// A [`PlannedEvent`] as plain values.
pub enum Plan {
    Begin,
    Cleared,
    Planned { hotkeys: HotkeyTexts, attempts: Attempts },
    Registered { accepted: bool },
    Bound,
}

impl View for PlannedEvent {
    type V = Plan;

    open spec fn view(&self) -> Plan {
        match self {
            PlannedEvent::Begin => Plan::Begin,
            PlannedEvent::Cleared => Plan::Cleared,
            PlannedEvent::Planned { hotkeys, attempts } => Plan::Planned {
                hotkeys: hotkeys@,
                attempts: *attempts,
            },
            PlannedEvent::Registered { accepted } => Plan::Registered { accepted: *accepted },
            PlannedEvent::Bound => Plan::Bound,
        }
    }
}

/// What the machine takes a report of the driver for: a load is settled to
/// the stored configuration or the fallback, and its texts are parsed.
pub open spec fn planned(event: RegistrationEvent) -> Plan {
    match event {
        RegistrationEvent::Begin => Plan::Begin,
        RegistrationEvent::Cleared => Plan::Cleared,
        RegistrationEvent::Loaded(load) => Plan::Planned {
            hotkeys: resolved_texts(load),
            attempts: attempts_for(resolved_texts(load)),
        },
        RegistrationEvent::Registered { accepted } => Plan::Registered { accepted },
        RegistrationEvent::Bound => Plan::Bound,
    }
}

/// The state of a registration as plain values.
pub struct RegistrationState {
    pub stage: Stage,
    pub hotkeys: HotkeyTexts,
    pub attempts: Attempts,
    pub bindings: Bindings,
}

impl RegistrationState {
    /// The shortcut table has no duplicates, and a slot under work is one
    /// that has the shortcut under work as its attempt.
    pub open spec fn wf(self) -> bool {
        &&& self.bindings.wf()
        &&& match self.stage {
            Stage::Registering { slot, shortcut } => self.attempts.of(slot) == Some(shortcut),
            Stage::Binding { slot, shortcut } => self.attempts.of(slot) == Some(shortcut),
            _ => true,
        }
    }

    /// The attempts are those that the texts call for.
    pub open spec fn planned_from_texts(self) -> bool {
        self.attempts == attempts_for(self.hotkeys)
    }

    /// The text of `slot` is given but led to no attempt: it is not a
    /// shortcut.
    pub open spec fn is_malformed(self, slot: Slot) -> bool {
        self.hotkeys.text(slot).len() > 0 && self.attempts.of(slot) is None
    }

    /// Moves on to the first slot at or after `from` that has an attempt, or
    /// ends the cycle when there is none.
    pub open spec fn advance(self, from: Option<Slot>) -> (RegistrationState, Option<
        RegistrationAction,
    >) {
        match next_attempt(self.attempts, from) {
            Some((slot, shortcut)) => (
                RegistrationState { stage: Stage::Registering { slot, shortcut }, ..self },
                Some(RegistrationAction::Register { slot, shortcut }),
            ),
            None => (
                RegistrationState { stage: Stage::Idle, ..self },
                Some(RegistrationAction::Finish),
            ),
        }
    }

    /// The state that follows `event`, and the action that the driver is to
    /// perform next. An event that does not answer the action under way
    /// changes nothing and yields no action; `Begin` restarts the cycle from
    /// any stage.
    pub open spec fn apply(self, event: Plan) -> (RegistrationState, Option<RegistrationAction>) {
        match event {
            Plan::Begin => (
                RegistrationState { stage: Stage::Clearing, bindings: Bindings::empty(), ..self },
                Some(RegistrationAction::UnregisterAll),
            ),
            Plan::Cleared => match self.stage {
                Stage::Clearing => (
                    RegistrationState { stage: Stage::Loading, ..self },
                    Some(RegistrationAction::LoadConfig),
                ),
                _ => (self, None),
            },
            Plan::Planned { hotkeys, attempts } => match self.stage {
                Stage::Loading => RegistrationState { hotkeys, attempts, ..self }.advance(
                    Some(Slot::PopupWindow),
                ),
                _ => (self, None),
            },
            Plan::Registered { accepted } => match self.stage {
                Stage::Registering { slot, shortcut } => if accepted {
                    (
                        RegistrationState {
                            stage: Stage::Binding { slot, shortcut },
                            bindings: self.bindings.bind(shortcut, slot),
                            ..self
                        },
                        Some(RegistrationAction::Bind { slot, shortcut }),
                    )
                } else {
                    self.advance(slot.successor())
                },
                _ => (self, None),
            },
            Plan::Bound => match self.stage {
                Stage::Binding { slot, .. } => self.advance(slot.successor()),
                _ => (self, None),
            },
        }
    }

    /// The state that follows a report of the driver, and the action to
    /// perform next.
    pub open spec fn step(self, event: RegistrationEvent) -> (RegistrationState, Option<
        RegistrationAction,
    >) {
        self.apply(planned(event))
    }
}

/// A registration: the stage of the cycle, the configuration it works with,
/// the attempts that the configuration was parsed to and the table of active
/// bindings.
#[derive(Debug)]
pub struct Registration {
    stage: Stage,
    hotkeys: HotkeyConfig,
    attempts: Attempts,
    registry: ShortcutRegistry,
}

impl View for Registration {
    type V = RegistrationState;

    closed spec fn view(&self) -> RegistrationState {
        RegistrationState {
            stage: self.stage,
            hotkeys: self.hotkeys@,
            attempts: self.attempts,
            bindings: self.registry@,
        }
    }
}

impl Registration {
    #[verifier::type_invariant]
    spec fn consistent(self) -> bool {
        self@.wf()
    }

    /// A registration at rest before its first cycle: every slot disabled,
    /// no attempt and no binding.
    pub fn new() -> (registration: Registration)
        ensures
            registration@ == (RegistrationState {
                stage: Stage::Idle,
                hotkeys: HotkeyTexts::disabled(),
                attempts: Attempts::none(),
                bindings: Bindings::empty(),
            }),
            registration@.planned_from_texts(),
    {
        Registration {
            stage: Stage::Idle,
            hotkeys: HotkeyConfig::disabled(),
            attempts: Attempts {
                popup_window: None,
                screenshot_translation: None,
                slide_translation: None,
            },
            registry: ShortcutRegistry::new(),
        }
    }

    /// Where the cycle stands.
    pub fn stage(&self) -> (stage: Stage)
        ensures
            stage == self@.stage,
    {
        self.stage
    }

    /// The configuration that the cycle works with.
    pub fn hotkeys(&self) -> (hotkeys: &HotkeyConfig)
        ensures
            hotkeys@ == self@.hotkeys,
    {
        &self.hotkeys
    }

    /// The attempts that the cycle works through.
    pub fn attempts(&self) -> (attempts: Attempts)
        ensures
            attempts == self@.attempts,
    {
        self.attempts
    }

    /// Whether the text of `slot` is given but is not a shortcut, so that
    /// the slot is passed over.
    pub fn is_malformed(&self, slot: Slot) -> (malformed: bool)
        ensures
            malformed == self@.is_malformed(slot),
            self@.planned_from_texts() ==> malformed == (self@.hotkeys.text(slot).len() > 0
                && parsed_shortcut(self@.hotkeys.text(slot)) is None),
    {
        !self.hotkeys.text(slot).is_empty() && self.attempts.get(slot).is_none()
    }

    /// The table of active bindings.
    pub fn registry(&self) -> (registry: &ShortcutRegistry)
        ensures
            registry@ == self@.bindings,
            self@.wf(),
    {
        proof {
            use_type_invariant(self);
        }
        &self.registry
    }
}

/// The shortcut that the text calls to register, if any.
pub fn shortcut_to_register(text: &str) -> (shortcut: Option<u32>)
    ensures
        shortcut == attempt_for(text@),
{
    if text.is_empty() {
        None
    } else {
        parse_shortcut(text)
    }
}

/// Parses the texts of a configuration to the attempts they call for.
pub fn plan_attempts(hotkeys: &HotkeyConfig) -> (attempts: Attempts)
    ensures
        attempts == attempts_for(hotkeys@),
{
    Attempts {
        popup_window: shortcut_to_register(hotkeys.popup_window.as_str()),
        screenshot_translation: shortcut_to_register(hotkeys.screenshot_translation.as_str()),
        slide_translation: shortcut_to_register(hotkeys.slide_translation.as_str()),
    }
}

/// Prepares a report of the driver for the machine: settles on the
/// configuration after a load and parses its texts.
pub fn plan_event(event: RegistrationEvent) -> (plan: PlannedEvent)
    ensures
        plan@ == planned(event),
{
    match event {
        RegistrationEvent::Begin => PlannedEvent::Begin,
        RegistrationEvent::Cleared => PlannedEvent::Cleared,
        RegistrationEvent::Loaded(load) => {
            let hotkeys = resolve_hotkeys(load);
            let attempts = plan_attempts(&hotkeys);
            PlannedEvent::Planned { hotkeys, attempts }
        },
        RegistrationEvent::Registered { accepted } => PlannedEvent::Registered { accepted },
        RegistrationEvent::Bound => PlannedEvent::Bound,
    }
}

/// The first slot at or after `from` that has an attempt.
pub fn find_attempt(attempts: Attempts, from: Option<Slot>) -> (found: Option<(Slot, u32)>)
    ensures
        found == next_attempt(attempts, from),
        found matches Some((slot, shortcut)) ==> attempts.of(slot) == Some(shortcut),
{
    let mut cursor: Option<Slot> = from;
    loop
        invariant
            next_attempt(attempts, cursor) == next_attempt(attempts, from),
        decreases
                match cursor {
                    Some(slot) => 3 - slot.rank(),
                    None => 0,
                },
    {
        match cursor {
            None => {
                return None;
            },
            Some(slot) => match attempts.get(slot) {
                Some(shortcut) => {
                    return Some((slot, shortcut));
                },
                None => {
                    cursor = slot.next();
                },
            },
        }
    }
}

/// Moves `state` on to the first slot at or after `from` that has an
/// attempt.
fn advance(state: Registration, from: Option<Slot>) -> (next: (
    Registration,
    Option<RegistrationAction>,
))
    ensures
        (next.0@, next.1) == state@.advance(from),
{
    proof {
        use_type_invariant(&state);
    }
    let Registration { stage: _, hotkeys, attempts, registry } = state;
    match find_attempt(attempts, from) {
        Some((slot, shortcut)) => (
            Registration {
                stage: Stage::Registering { slot, shortcut },
                hotkeys,
                attempts,
                registry,
            },
            Some(RegistrationAction::Register { slot, shortcut }),
        ),
        None => (
            Registration { stage: Stage::Idle, hotkeys, attempts, registry },
            Some(RegistrationAction::Finish),
        ),
    }
}

/// The machine proper: takes the state and an event whose configuration is
/// already parsed, and gives the next state and the action to perform.
pub fn advance_cycle(state: Registration, event: PlannedEvent) -> (next: (
    Registration,
    Option<RegistrationAction>,
))
    ensures
        (next.0@, next.1) == state@.apply(event@),
        next.0@.wf(),
{
    proof {
        use_type_invariant(&state);
    }
    let Registration { stage, hotkeys, attempts, registry } = state;
    let next = match event {
        PlannedEvent::Begin => {
            let mut registry = registry;
            registry.unregister_all();
            (
                Registration { stage: Stage::Clearing, hotkeys, attempts, registry },
                Some(RegistrationAction::UnregisterAll),
            )
        },
        PlannedEvent::Cleared => match stage {
            Stage::Clearing => (
                Registration { stage: Stage::Loading, hotkeys, attempts, registry },
                Some(RegistrationAction::LoadConfig),
            ),
            _ => (Registration { stage, hotkeys, attempts, registry }, None),
        },
        PlannedEvent::Planned { hotkeys: loaded, attempts: planned } => match stage {
            Stage::Loading => advance(
                Registration { stage, hotkeys: loaded, attempts: planned, registry },
                Some(Slot::PopupWindow),
            ),
            _ => (Registration { stage, hotkeys, attempts, registry }, None),
        },
        PlannedEvent::Registered { accepted } => match stage {
            Stage::Registering { slot, shortcut } => {
                if accepted {
                    let mut registry = registry;
                    registry.register(shortcut, slot);
                    (
                        Registration {
                            stage: Stage::Binding { slot, shortcut },
                            hotkeys,
                            attempts,
                            registry,
                        },
                        Some(RegistrationAction::Bind { slot, shortcut }),
                    )
                } else {
                    advance(Registration { stage, hotkeys, attempts, registry }, slot.next())
                }
            },
            _ => (Registration { stage, hotkeys, attempts, registry }, None),
        },
        PlannedEvent::Bound => match stage {
            Stage::Binding { slot, shortcut } => advance(
                Registration { stage, hotkeys, attempts, registry },
                slot.next(),
            ),
            _ => (Registration { stage, hotkeys, attempts, registry }, None),
        },
    };
    proof {
        use_type_invariant(&next.0);
    }
    next
}

/// Advances a registration by one report of the driver: takes the state and
/// the event, and gives the next state and the action to perform.
///
/// The attempts of a state stay those of its texts from one call to the
/// next, and in such a state an attempt or a binding is only ever asked for
/// a slot whose text is not empty and parses to the shortcut in question.
pub fn register_shortcuts(state: Registration, event: RegistrationEvent) -> (next: (
    Registration,
    Option<RegistrationAction>,
))
    ensures
        (next.0@, next.1) == state@.step(event),
        next.0@.wf(),
        state@.planned_from_texts() ==> next.0@.planned_from_texts(),
        next.0@.planned_from_texts() ==> forall|slot: Slot, shortcut: u32|
            next.1 == Some(RegistrationAction::Register { slot, shortcut }) || next.1 == Some(
                RegistrationAction::Bind { slot, shortcut },
            ) ==> next.0@.hotkeys.text(slot).len() > 0 && parsed_shortcut(
                next.0@.hotkeys.text(slot),
            ) == Some(shortcut),
{
    proof {
        use_type_invariant(&state);
    }
    let next = advance_cycle(state, plan_event(event));
    proof {
        use_type_invariant(&next.0);
    }
    next
}

} // verus!
