//! Whole registration cycles: what the machine of [`crate::registration`]
//! does from `Begin` to `Finish`, whatever state it starts in, whatever the
//! stored configuration holds and whatever the operating system answers.
//!
//! The driver is modelled by two values: the outcome `load` of loading the
//! configuration, and the function `accepts`, which gives the answer of the
//! operating system to the registration attempt for a slot. A cycle attempts
//! a slot at most once, so any sequence of answers is such a function.

use crate::hotkeys::{resolved_texts, ConfigLoad, HotkeyTexts, Slot};
use crate::registration::{
    attempt_for, attempts_for, RegistrationAction, RegistrationEvent, RegistrationState, Stage,
};
use crate::registry::Bindings;
use vstd::prelude::*;

verus! {

/// Actions that the longest cycle performs after its first one.
pub const CYCLE_FUEL: u8 = 8;

/// The answers of the operating system, slot by slot.
pub type Answers = spec_fn(Slot) -> bool;

/// What the driver reports after it performed `action`. `Finish` calls for
/// no report; the next thing a driver can report after it is `Begin`.
pub open spec fn reply(
    action: RegistrationAction,
    load: ConfigLoad,
    accepts: Answers,
) -> RegistrationEvent {
    match action {
        RegistrationAction::UnregisterAll => RegistrationEvent::Cleared,
        RegistrationAction::LoadConfig => RegistrationEvent::Loaded(load),
        RegistrationAction::Register { slot, .. } => RegistrationEvent::Registered {
            accepted: accepts(slot),
        },
        RegistrationAction::Bind { .. } => RegistrationEvent::Bound,
        RegistrationAction::Finish => RegistrationEvent::Begin,
    }
}

/// Drives the machine from `state`, where `action` is the action under way:
/// the driver performs it, reports, and goes on with the action it is given,
/// until `Finish` comes or `fuel` further actions were performed. Gives the
/// state reached and the actions performed, in order.
pub open spec fn drive(
    state: RegistrationState,
    action: Option<RegistrationAction>,
    load: ConfigLoad,
    accepts: Answers,
    fuel: nat,
) -> (RegistrationState, Seq<RegistrationAction>)
    decreases fuel,
{
    match action {
        None => (state, Seq::empty()),
        Some(action) => if action == RegistrationAction::Finish || fuel == 0 {
            (state, seq![action])
        } else {
            let (next, following) = state.step(reply(action, load, accepts));
            let (end, rest) = drive(next, following, load, accepts, (fuel - 1) as nat);
            (end, seq![action] + rest)
        },
    }
}

/// One registration cycle, begun in `state` and driven to its end: the state
/// it ends in and the actions it performed.
pub open spec fn cycle(state: RegistrationState, load: ConfigLoad, accepts: Answers) -> (
    RegistrationState,
    Seq<RegistrationAction>,
) {
    let (next, action) = state.step(RegistrationEvent::Begin);
    drive(next, action, load, accepts, CYCLE_FUEL as nat)
}

/// The actions of one slot's turn: none where its text calls for no
/// registration; else the attempt, followed by the binding of the handler if
/// the attempt was accepted.
pub open spec fn slot_actions(text: Seq<char>, slot: Slot, accepted: bool) -> Seq<
    RegistrationAction,
> {
    match attempt_for(text) {
        None => Seq::empty(),
        Some(shortcut) => if accepted {
            seq![
                RegistrationAction::Register { slot, shortcut },
                RegistrationAction::Bind { slot, shortcut },
            ]
        } else {
            seq![RegistrationAction::Register { slot, shortcut }]
        },
    }
}

/// The table after one slot's turn: the shortcut of the slot is bound if its
/// text called for one and the attempt was accepted.
pub open spec fn slot_bindings(
    table: Bindings,
    text: Seq<char>,
    slot: Slot,
    accepted: bool,
) -> Bindings {
    match attempt_for(text) {
        None => table,
        Some(shortcut) => if accepted {
            table.bind(shortcut, slot)
        } else {
            table
        },
    }
}

/// The turn of `slot` under the given configuration and answers.
pub open spec fn turn(hotkeys: HotkeyTexts, accepts: Answers, slot: Slot) -> Seq<
    RegistrationAction,
> {
    slot_actions(hotkeys.text(slot), slot, accepts(slot))
}

/// The script of a cycle: unregister everything, load the configuration,
/// give each slot its turn in order, finish.
pub open spec fn cycle_actions(hotkeys: HotkeyTexts, accepts: Answers) -> Seq<RegistrationAction> {
    seq![RegistrationAction::UnregisterAll, RegistrationAction::LoadConfig] + turn(
        hotkeys,
        accepts,
        Slot::PopupWindow,
    ) + turn(hotkeys, accepts, Slot::ScreenshotTranslation) + turn(
        hotkeys,
        accepts,
        Slot::SlideTranslation,
    ) + seq![RegistrationAction::Finish]
}

/// The table that a cycle leaves: the empty table after each slot's turn.
pub open spec fn cycle_bindings(hotkeys: HotkeyTexts, accepts: Answers) -> Bindings {
    let popup_window = Slot::PopupWindow;
    let screenshot_translation = Slot::ScreenshotTranslation;
    let slide_translation = Slot::SlideTranslation;
    let first = slot_bindings(
        Bindings::empty(),
        hotkeys.text(popup_window),
        popup_window,
        accepts(popup_window),
    );
    let second = slot_bindings(
        first,
        hotkeys.text(screenshot_translation),
        screenshot_translation,
        accepts(screenshot_translation),
    );
    slot_bindings(
        second,
        hotkeys.text(slide_translation),
        slide_translation,
        accepts(slide_translation),
    )
}

/// The state in which a cycle with the given load and answers comes to rest.
pub open spec fn cycle_end(load: ConfigLoad, accepts: Answers) -> RegistrationState {
    RegistrationState {
        stage: Stage::Idle,
        hotkeys: resolved_texts(load),
        attempts: attempts_for(resolved_texts(load)),
        bindings: cycle_bindings(resolved_texts(load), accepts),
    }
}

/// The actions of `trace` that concern `slot`, in order.
pub open spec fn concerning(trace: Seq<RegistrationAction>, slot: Slot) -> Seq<RegistrationAction> {
    trace.filter(|action: RegistrationAction| action.slot() == Some(slot))
}

/// The state after `times` cycles in a row, each with the same load and the
/// same answers.
pub open spec fn rerun(
    state: RegistrationState,
    load: ConfigLoad,
    accepts: Answers,
    times: nat,
) -> RegistrationState
    decreases times,
{
    if times == 0 {
        state
    } else {
        cycle(rerun(state, load, accepts, (times - 1) as nat), load, accepts).0
    }
}

/// Turns still to come when the cycle stands at `from`.
spec fn turns_left(from: Option<Slot>) -> nat {
    match from {
        Some(slot) => (3 - slot.rank()) as nat,
        None => 0,
    }
}

/// The actions of the turns of `from` and the slots after it, and the
/// closing `Finish`.
spec fn turns_from(hotkeys: HotkeyTexts, accepts: Answers, from: Option<Slot>) -> Seq<
    RegistrationAction,
>
    decreases turns_left(from),
{
    match from {
        None => seq![RegistrationAction::Finish],
        Some(slot) => turn(hotkeys, accepts, slot) + turns_from(
            hotkeys,
            accepts,
            slot.successor(),
        ),
    }
}

/// The table after the turns of `from` and the slots after it.
spec fn bindings_from(
    table: Bindings,
    hotkeys: HotkeyTexts,
    accepts: Answers,
    from: Option<Slot>,
) -> Bindings
    decreases turns_left(from),
{
    match from {
        None => table,
        Some(slot) => bindings_from(
            slot_bindings(table, hotkeys.text(slot), slot, accepts(slot)),
            hotkeys,
            accepts,
            slot.successor(),
        ),
    }
}

/// From the moment a cycle moves on to `from`, it performs the turns of
/// `from` and the slots after it and comes to rest.
proof fn lemma_drive_performs_turns(
    state: RegistrationState,
    from: Option<Slot>,
    load: ConfigLoad,
    accepts: Answers,
    fuel: nat,
)
    requires
        state.planned_from_texts(),
        fuel >= 2 * turns_left(from),
    ensures
        drive(state.advance(from).0, state.advance(from).1, load, accepts, fuel) == (
            RegistrationState {
                stage: Stage::Idle,
                bindings: bindings_from(state.bindings, state.hotkeys, accepts, from),
                ..state
            },
            turns_from(state.hotkeys, accepts, from),
        ),
    decreases turns_left(from),
{
    let hotkeys = state.hotkeys;
    match from {
        None => {},
        Some(slot) => {
            let after = slot.successor();
            let rest = turns_from(hotkeys, accepts, after);
            assert(state.attempts.of(slot) == attempt_for(hotkeys.text(slot)));
            match attempt_for(hotkeys.text(slot)) {
                None => {
                    lemma_drive_performs_turns(state, after, load, accepts, fuel);
                    assert(state.advance(from) == state.advance(after));
                    assert(turns_from(hotkeys, accepts, from) =~= rest);
                },
                Some(shortcut) => {
                    let register = RegistrationAction::Register { slot, shortcut };
                    let registering = RegistrationState {
                        stage: Stage::Registering { slot, shortcut },
                        ..state
                    };
                    assert(state.advance(from) == (registering, Some(register)));
                    if accepts(slot) {
                        let bind = RegistrationAction::Bind { slot, shortcut };
                        let binding = RegistrationState {
                            stage: Stage::Binding { slot, shortcut },
                            bindings: state.bindings.bind(shortcut, slot),
                            ..state
                        };
                        let accepted = reply(register, load, accepts);
                        assert(registering.step(accepted) == (binding, Some(bind)));
                        assert(binding.step(reply(bind, load, accepts)) == binding.advance(after));
                        lemma_drive_performs_turns(
                            binding,
                            after,
                            load,
                            accepts,
                            (fuel - 2) as nat,
                        );
                        let bound = drive(binding, Some(bind), load, accepts, (fuel - 1) as nat);
                        assert(bound.1 == seq![bind] + rest);
                        assert(seq![register] + (seq![bind] + rest) =~= turns_from(
                            hotkeys,
                            accepts,
                            from,
                        ));
                    } else {
                        let refused = reply(register, load, accepts);
                        assert(registering.step(refused) == registering.advance(after));
                        lemma_drive_performs_turns(
                            registering,
                            after,
                            load,
                            accepts,
                            (fuel - 1) as nat,
                        );
                        assert(seq![register] + rest =~= turns_from(hotkeys, accepts, from));
                    }
                },
            }
        },
    }
}

/// The turns from the first slot on are the three turns and the closing
/// `Finish`, and they build the table of the cycle.
proof fn lemma_turns_from_first(hotkeys: HotkeyTexts, accepts: Answers)
    ensures
        seq![RegistrationAction::UnregisterAll] + (seq![RegistrationAction::LoadConfig]
            + turns_from(hotkeys, accepts, Some(Slot::PopupWindow))) == cycle_actions(
            hotkeys,
            accepts,
        ),
        bindings_from(Bindings::empty(), hotkeys, accepts, Some(Slot::PopupWindow))
            == cycle_bindings(hotkeys, accepts),
{
    reveal_with_fuel(turns_from, 4);
    reveal_with_fuel(bindings_from, 4);
    assert(seq![RegistrationAction::UnregisterAll] + (seq![RegistrationAction::LoadConfig]
        + turns_from(hotkeys, accepts, Some(Slot::PopupWindow))) =~= cycle_actions(
        hotkeys,
        accepts,
    ));
}

/// A cycle follows its script and leaves the table that the script builds,
/// whatever state it was begun in: it unregisters everything, loads the
/// configuration, gives each slot its turn in order and comes to rest.
pub proof fn lemma_cycle_follows_script(
    state: RegistrationState,
    load: ConfigLoad,
    accepts: Answers,
)
    ensures
        cycle(state, load, accepts) == (
            cycle_end(load, accepts),
            cycle_actions(resolved_texts(load), accepts),
        ),
{
    let hotkeys = resolved_texts(load);
    let clearing = RegistrationState {
        stage: Stage::Clearing,
        bindings: Bindings::empty(),
        ..state
    };
    let loading = RegistrationState { stage: Stage::Loading, ..clearing };
    let loaded = RegistrationState { hotkeys, attempts: attempts_for(hotkeys), ..loading };
    let first = Some(Slot::PopupWindow);
    let unregister = RegistrationAction::UnregisterAll;
    let load_config = RegistrationAction::LoadConfig;
    assert(state.step(RegistrationEvent::Begin) == (clearing, Some(unregister)));
    assert(clearing.step(reply(unregister, load, accepts)) == (loading, Some(load_config)));
    assert(loading.step(reply(load_config, load, accepts)) == loaded.advance(first));
    lemma_drive_performs_turns(loaded, first, load, accepts, 6);
    let turns = turns_from(hotkeys, accepts, first);
    assert(drive(loading, Some(load_config), load, accepts, 7).1 == seq![load_config] + turns);
    lemma_turns_from_first(hotkeys, accepts);
}

/// A cycle comes to rest: it begins by unregistering everything and loading
/// the configuration, performs at most nine actions, ends with `Finish` and
/// leaves the machine idle.
pub proof fn lemma_cycle_comes_to_rest(
    state: RegistrationState,
    load: ConfigLoad,
    accepts: Answers,
)
    ensures
        cycle(state, load, accepts).0.stage == Stage::Idle,
        3 <= cycle(state, load, accepts).1.len() <= 9,
        cycle(state, load, accepts).1[0] == RegistrationAction::UnregisterAll,
        cycle(state, load, accepts).1[1] == RegistrationAction::LoadConfig,
        cycle(state, load, accepts).1.last() == RegistrationAction::Finish,
{
    lemma_cycle_follows_script(state, load, accepts);
}

proof fn lemma_concerning_single(action: RegistrationAction, slot: Slot)
    ensures
        concerning(seq![action], slot) == if action.slot() == Some(slot) {
            seq![action]
        } else {
            Seq::empty()
        },
{
    reveal_with_fuel(Seq::filter, 2);
    assert(seq![action].drop_last() =~= Seq::empty());
    assert(Seq::<RegistrationAction>::empty().push(action) =~= seq![action]);
}

proof fn lemma_concerning_add(
    front: Seq<RegistrationAction>,
    back: Seq<RegistrationAction>,
    slot: Slot,
)
    ensures
        concerning(front + back, slot) == concerning(front, slot) + concerning(back, slot),
{
    Seq::filter_distributes_over_add(
        front,
        back,
        |action: RegistrationAction| action.slot() == Some(slot),
    );
}

/// A slot's turn concerns that slot and no other.
proof fn lemma_turn_concerns_its_slot(text: Seq<char>, turn: Slot, accepted: bool, slot: Slot)
    ensures
        concerning(slot_actions(text, turn, accepted), slot) == if turn == slot {
            slot_actions(text, turn, accepted)
        } else {
            Seq::empty()
        },
{
    let actions = slot_actions(text, turn, accepted);
    match attempt_for(text) {
        None => {
            assert(concerning(actions, slot) =~= Seq::empty());
        },
        Some(shortcut) => {
            let register = RegistrationAction::Register { slot: turn, shortcut };
            lemma_concerning_single(register, slot);
            if accepted {
                let bind = RegistrationAction::Bind { slot: turn, shortcut };
                lemma_concerning_single(bind, slot);
                lemma_concerning_add(seq![register], seq![bind], slot);
                assert(actions =~= seq![register] + seq![bind]);
                assert(concerning(actions, slot) =~= if turn == slot {
                    actions
                } else {
                    Seq::empty()
                });
            }
        },
    }
}

/// The slots are handled in isolation: the actions of a cycle that concern a
/// slot are exactly that slot's own turn, which depends on its own text and
/// on the answer to its own attempt and on nothing else. Whether another
/// slot is empty, fails to parse or is refused changes nothing about them.
pub proof fn lemma_slots_are_isolated(
    state: RegistrationState,
    load: ConfigLoad,
    accepts: Answers,
    slot: Slot,
)
    ensures
        concerning(cycle(state, load, accepts).1, slot) == turn(
            resolved_texts(load),
            accepts,
            slot,
        ),
{
    let hotkeys = resolved_texts(load);
    let unregister = seq![RegistrationAction::UnregisterAll];
    let load_config = seq![RegistrationAction::LoadConfig];
    let finish = seq![RegistrationAction::Finish];
    let first = turn(hotkeys, accepts, Slot::PopupWindow);
    let second = turn(hotkeys, accepts, Slot::ScreenshotTranslation);
    let third = turn(hotkeys, accepts, Slot::SlideTranslation);
    lemma_cycle_follows_script(state, load, accepts);
    let script = cycle_actions(hotkeys, accepts);
    assert(script =~= unregister + load_config + first + second + third + finish);
    lemma_concerning_single(RegistrationAction::UnregisterAll, slot);
    lemma_concerning_single(RegistrationAction::LoadConfig, slot);
    lemma_concerning_single(RegistrationAction::Finish, slot);
    lemma_turn_concerns_its_slot(
        hotkeys.text(Slot::PopupWindow),
        Slot::PopupWindow,
        accepts(Slot::PopupWindow),
        slot,
    );
    lemma_turn_concerns_its_slot(
        hotkeys.text(Slot::ScreenshotTranslation),
        Slot::ScreenshotTranslation,
        accepts(Slot::ScreenshotTranslation),
        slot,
    );
    lemma_turn_concerns_its_slot(
        hotkeys.text(Slot::SlideTranslation),
        Slot::SlideTranslation,
        accepts(Slot::SlideTranslation),
        slot,
    );
    lemma_concerning_add(unregister, load_config, slot);
    lemma_concerning_add(unregister + load_config, first, slot);
    lemma_concerning_add(unregister + load_config + first, second, slot);
    lemma_concerning_add(unregister + load_config + first + second, third, slot);
    lemma_concerning_add(unregister + load_config + first + second + third, finish, slot);
    assert(concerning(script, slot) =~= turn(hotkeys, accepts, slot));
}

/// An empty text never leads to a registration attempt: no action of the
/// cycle concerns a slot whose text is empty, and the slot ends up unbound.
pub proof fn lemma_empty_text_is_never_attempted(
    state: RegistrationState,
    load: ConfigLoad,
    accepts: Answers,
    slot: Slot,
)
    requires
        resolved_texts(load).text(slot).len() == 0,
    ensures
        forall|i: int|
            0 <= i < cycle(state, load, accepts).1.len() ==> (#[trigger] cycle(
                state,
                load,
                accepts,
            ).1[i]).slot() != Some(slot),
        cycle(state, load, accepts).0.bindings.shortcut_of(slot) is None,
{
    let trace = cycle(state, load, accepts).1;
    let concerns = |action: RegistrationAction| action.slot() == Some(slot);
    lemma_slots_are_isolated(state, load, accepts, slot);
    assert forall|i: int| 0 <= i < trace.len() implies (#[trigger] trace[i]).slot() != Some(
        slot,
    ) by {
        if concerns(trace[i]) {
            trace.lemma_filter_contains(concerns, i);
        }
    }
    lemma_cycle_follows_script(state, load, accepts);
}

/// A text that calls for a registration gets its attempt whatever the other
/// two texts hold, and its handler is attached exactly if the attempt is
/// accepted: a parse failure elsewhere takes nothing away from it.
pub proof fn lemma_attempt_survives_other_failures(
    state: RegistrationState,
    load: ConfigLoad,
    accepts: Answers,
    slot: Slot,
    shortcut: u32,
)
    requires
        attempt_for(resolved_texts(load).text(slot)) == Some(shortcut),
    ensures
        cycle(state, load, accepts).1.contains(RegistrationAction::Register { slot, shortcut }),
        accepts(slot) <==> cycle(state, load, accepts).1.contains(
            RegistrationAction::Bind { slot, shortcut },
        ),
{
    let trace = cycle(state, load, accepts).1;
    let concerns = |action: RegistrationAction| action.slot() == Some(slot);
    let own = turn(resolved_texts(load), accepts, slot);
    let register = RegistrationAction::Register { slot, shortcut };
    let bind = RegistrationAction::Bind { slot, shortcut };
    lemma_slots_are_isolated(state, load, accepts, slot);
    assert(own[0] == register);
    assert(own.contains(register));
    trace.lemma_filter_contains_rev(concerns, register);
    if accepts(slot) {
        assert(own[1] == bind);
        assert(own.contains(bind));
        trace.lemma_filter_contains_rev(concerns, bind);
    } else {
        if trace.contains(bind) {
            let i = choose|i: int| 0 <= i < trace.len() && trace[i] == bind;
            trace.lemma_filter_contains(concerns, i);
            assert(own.contains(bind));
        }
    }
}

/// After a cycle no shortcut is bound twice, whatever state the cycle was
/// begun in: the old bindings are dropped first, and each new one replaces
/// what its shortcut triggered before.
pub proof fn lemma_cycle_leaves_one_binding_per_shortcut(
    state: RegistrationState,
    load: ConfigLoad,
    accepts: Answers,
)
    ensures
        cycle(state, load, accepts).0.wf(),
        cycle(state, load, accepts).0.planned_from_texts(),
        forall|shortcut: u32, a: Slot, b: Slot|
            cycle(state, load, accepts).0.bindings.binds(shortcut, a) && cycle(
                state,
                load,
                accepts,
            ).0.bindings.binds(shortcut, b) ==> a == b,
{
    lemma_cycle_follows_script(state, load, accepts);
}

/// Running the cycle again and again with the same configuration and the
/// same answers leaves what one run leaves: the table does not grow, and no
/// binding is doubled.
pub proof fn lemma_rerun_is_idempotent(
    state: RegistrationState,
    load: ConfigLoad,
    accepts: Answers,
    times: nat,
)
    requires
        times >= 1,
    ensures
        rerun(state, load, accepts, times) == cycle(state, load, accepts).0,
        rerun(state, load, accepts, times).bindings == cycle_bindings(
            resolved_texts(load),
            accepts,
        ),
        rerun(state, load, accepts, times).bindings.wf(),
{
    let before = rerun(state, load, accepts, (times - 1) as nat);
    lemma_cycle_follows_script(before, load, accepts);
    lemma_cycle_follows_script(state, load, accepts);
    lemma_cycle_leaves_one_binding_per_shortcut(state, load, accepts);
}

/// Where the configured shortcuts differ from one another, each slot ends up
/// bound exactly if its text called for a registration and the attempt was
/// accepted.
pub proof fn lemma_distinct_shortcuts_bind_independently(
    hotkeys: HotkeyTexts,
    accepts: Answers,
    slot: Slot,
)
    requires
        forall|a: Slot, b: Slot|
            a != b && attempt_for(hotkeys.text(a)) is Some ==> attempt_for(hotkeys.text(a))
                != attempt_for(hotkeys.text(b)),
    ensures
        cycle_bindings(hotkeys, accepts).shortcut_of(slot) == if accepts(slot) {
            attempt_for(hotkeys.text(slot))
        } else {
            None
        },
{
    let popup_window = attempt_for(hotkeys.text(Slot::PopupWindow));
    let screenshot_translation = attempt_for(hotkeys.text(Slot::ScreenshotTranslation));
    let slide_translation = attempt_for(hotkeys.text(Slot::SlideTranslation));
    assert(popup_window is Some ==> popup_window != screenshot_translation && popup_window
        != slide_translation);
    assert(screenshot_translation is Some ==> screenshot_translation != popup_window
        && screenshot_translation != slide_translation);
    assert(slide_translation is Some ==> slide_translation != popup_window && slide_translation
        != screenshot_translation);
}

} // verus!
