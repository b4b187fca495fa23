//! The toggle button: a two-state switch that is flipped by a press and
//! previews a darker colour while the pointer hovers over it.

use crate::color::{darken_color, Color, CHANNEL_ONE};
use vstd::prelude::*;

verus! {

/// How the pointer relates to a button.
#[derive(Clone, Copy, Debug, PartialEq, Eq, Structural)]
pub enum Interaction {
    /// The button is being pressed.
    Pressed,
    /// The pointer is over the button, which is not pressed.
    Hovered,
    /// The pointer is elsewhere.
    Idle,
}

/// Whether a button lets a pointer event through to what lies below it.
#[derive(Clone, Copy, Debug, PartialEq, Eq, Structural)]
pub enum FocusPolicy {
    /// The event stops at the button.
    Block,
    /// The event goes on to lower nodes.
    Pass,
}

/// What a hover takes from each colour channel: a quarter of full intensity.
pub const HOVER_DARKEN: u32 = CHANNEL_ONE / 4;

/// The committed colour of a switch that is on (`true`) or off (`false`).
pub open spec fn committed_color(is_on: bool) -> Color {
    if is_on {
        Color::green()
    } else {
        Color::red()
    }
}

/// The label of a switch that is on (`true`) or off (`false`).
pub open spec fn label_text(is_on: bool) -> Seq<char> {
    if is_on {
        "On"@
    } else {
        "Off"@
    }
}

/// The colour a button shows for a committed colour under an interaction:
/// a darker one while hovered, the committed one otherwise.
pub open spec fn shown_color(interaction: Interaction, committed: Color) -> Color {
    match interaction {
        Interaction::Hovered => committed.darkened(HOVER_DARKEN),
        _ => committed,
    }
}

/// The colour of a switch that is off.
pub fn off_button_color() -> (c: Color)
    ensures
        c == committed_color(false),
{
    Color::red()
}

/// The colour of a switch that is on.
pub fn on_button_color() -> (c: Color)
    ensures
        c == committed_color(true),
{
    Color::green()
}

/// The persistent part of a button: the switch and its committed colour.
#[derive(Clone, Copy, Debug, PartialEq, Eq, Structural)]
pub struct ButtonState {
    pub is_on: bool,
    /// The colour to show when the pointer is elsewhere. A hover never
    /// writes here.
    pub original_color: Color,
}

impl ButtonState {
    /// The committed colour is the one that belongs to the switch.
    pub open spec fn wf(self) -> bool {
        self.original_color == committed_color(self.is_on)
    }

    /// The state with the switch at `is_on` and the colour that belongs
    /// to it.
    pub open spec fn spec_of(is_on: bool) -> ButtonState {
        ButtonState { is_on, original_color: committed_color(is_on) }
    }

    /// The state with the switch at `is_on` and the colour that belongs
    /// to it.
    #[verifier::when_used_as_spec(spec_of)]
    pub fn of(is_on: bool) -> (state: ButtonState)
        ensures
            state == ButtonState::spec_of(is_on),
            state.wf(),
    {
        if is_on {
            ButtonState { is_on, original_color: on_button_color() }
        } else {
            ButtonState { is_on, original_color: off_button_color() }
        }
    }

    /// The state after a press: the switch flipped, with its colour.
    pub fn toggled(self) -> (next: ButtonState)
        ensures
            next == ButtonState::spec_of(!self.is_on),
            next.wf(),
    {
        ButtonState::of(!self.is_on)
    }
}

/// The plain values among a button's parts: what the pointer does to it and
/// how it is painted.
#[derive(Clone, Copy, Debug, PartialEq, Eq, Structural)]
pub struct VelloButtonBundle {
    /// Whether and how the pointer touches the button, as last read.
    pub interaction: Interaction,
    /// Whether the button hides lower nodes from the pointer.
    pub focus_policy: FocusPolicy,
    /// The fill.
    pub background_color: Color,
    /// The colour of the border.
    pub border_color: Color,
}

impl VelloButtonBundle {
    /// An untouched button that blocks the pointer, filled white, with an
    /// invisible border.
    pub open spec fn spec_default() -> VelloButtonBundle {
        VelloButtonBundle {
            interaction: Interaction::Idle,
            focus_policy: FocusPolicy::Block,
            background_color: Color::white(),
            border_color: Color::none(),
        }
    }
}

impl Default for VelloButtonBundle {
    /// An untouched button that blocks the pointer, filled white, with an
    /// invisible border.
    fn default() -> (bundle: Self)
        ensures
            bundle == VelloButtonBundle::spec_default(),
    {
        VelloButtonBundle {
            interaction: Interaction::Idle,
            focus_policy: FocusPolicy::Block,
            background_color: Color::white(),
            border_color: Color::none(),
        }
    }
}

/// A button as a whole: its painted parts, its switch and the label it owns.
///
/// The label lives in the button itself, so a button without a label does
/// not exist.
#[derive(Debug, PartialEq, Eq)]
pub struct ToggleButton {
    pub bundle: VelloButtonBundle,
    pub state: ButtonState,
    pub label: String,
}

/// What a [`ToggleButton`] holds, as mathematical values.
pub struct ButtonView {
    pub interaction: Interaction,
    pub focus_policy: FocusPolicy,
    pub background_color: Color,
    pub border_color: Color,
    pub is_on: bool,
    pub original_color: Color,
    pub label: Seq<char>,
}

impl View for ToggleButton {
    type V = ButtonView;

    open spec fn view(&self) -> ButtonView {
        ButtonView {
            interaction: self.bundle.interaction,
            focus_policy: self.bundle.focus_policy,
            background_color: self.bundle.background_color,
            border_color: self.bundle.border_color,
            is_on: self.state.is_on,
            original_color: self.state.original_color,
            label: self.label@,
        }
    }
}

/// The button that is off and that the pointer has not touched: red fill and
/// border, labelled "Off".
pub open spec fn initial_view() -> ButtonView {
    ButtonView {
        interaction: Interaction::Idle,
        focus_policy: FocusPolicy::Block,
        background_color: Color::red(),
        border_color: Color::red(),
        is_on: false,
        original_color: Color::red(),
        label: "Off"@,
    }
}

/// The button after one interaction signal.
///
/// A press flips the switch, commits the colour of the new position and
/// shows it, and rewrites the label. A hover shows the committed colour
/// darkened and commits nothing. An idle pointer shows the committed colour.
pub open spec fn step(v: ButtonView, signal: Interaction) -> ButtonView {
    match signal {
        Interaction::Pressed => ButtonView {
            interaction: signal,
            background_color: committed_color(!v.is_on),
            border_color: committed_color(!v.is_on),
            is_on: !v.is_on,
            original_color: committed_color(!v.is_on),
            label: label_text(!v.is_on),
            ..v
        },
        Interaction::Hovered => ButtonView {
            interaction: signal,
            background_color: v.original_color.darkened(HOVER_DARKEN),
            border_color: v.original_color.darkened(HOVER_DARKEN),
            ..v
        },
        Interaction::Idle => ButtonView {
            interaction: signal,
            background_color: v.original_color,
            border_color: v.original_color,
            ..v
        },
    }
}

/// The button after the pointer was read once: a reading that differs from
/// the last one is a signal, the same reading again is none.
pub open spec fn observe(v: ButtonView, reading: Interaction) -> ButtonView {
    if reading == v.interaction {
        v
    } else {
        step(v, reading)
    }
}

/// The button after a sequence of signals, taken in order.
pub open spec fn run(v: ButtonView, signals: Seq<Interaction>) -> ButtonView
    decreases signals.len(),
{
    if signals.len() == 0 {
        v
    } else {
        step(run(v, signals.drop_last()), signals.last())
    }
}

/// The committed colour and the label are those of the switch.
pub open spec fn is_committed(v: ButtonView) -> bool {
    &&& v.original_color == committed_color(v.is_on)
    &&& v.label == label_text(v.is_on)
}

/// Fill and border show what the last signal asks for.
pub open spec fn is_painted(v: ButtonView) -> bool {
    &&& v.background_color == shown_color(v.interaction, v.original_color)
    &&& v.border_color == shown_color(v.interaction, v.original_color)
}

/// A button is steady when its committed colour and label are those of its
/// switch, and its fill and border show what the last signal asks for.
pub open spec fn is_steady(v: ButtonView) -> bool {
    is_committed(v) && is_painted(v)
}

impl ToggleButton {
    /// A button in its initial state: off, untouched, red, labelled "Off".
    pub fn new() -> (button: ToggleButton)
        ensures
            button@ == initial_view(),
            is_steady(button@),
    {
        let state = ButtonState::of(false);
        let bundle = VelloButtonBundle {
            background_color: state.original_color,
            border_color: state.original_color,
            ..VelloButtonBundle::default()
        };
        ToggleButton { bundle, state, label: "Off".to_string() }
    }

    /// Takes one interaction signal. Afterwards fill and border show what
    /// the signal asks for, and a button whose colour and label were those
    /// of its switch is still such a button.
    pub fn on_signal(&mut self, signal: Interaction)
        ensures
            final(self)@ == step(old(self)@, signal),
            is_painted(final(self)@),
            is_committed(old(self)@) ==> is_steady(final(self)@),
    {
        self.bundle.interaction = signal;
        match signal {
            Interaction::Pressed => {
                self.state = self.state.toggled();
                if self.state.is_on {
                    self.label = "On".to_string();
                } else {
                    self.label = "Off".to_string();
                }
                self.bundle.background_color = self.state.original_color;
                self.bundle.border_color = self.state.original_color;
            },
            Interaction::Hovered => {
                self.bundle.background_color = darken_color(self.state.original_color, HOVER_DARKEN);
                self.bundle.border_color = darken_color(self.state.original_color, HOVER_DARKEN);
            },
            Interaction::Idle => {
                self.bundle.background_color = self.state.original_color;
                self.bundle.border_color = self.state.original_color;
            },
        }
    }
}

/// Reads the pointer once for a button. A reading that differs from the last
/// one is taken as a signal; the same reading again changes nothing. Returns
/// whether the button took a signal.
pub fn switch_logic(button: &mut ToggleButton, interaction: Interaction) -> (changed: bool)
    ensures
        final(button)@ == observe(old(button)@, interaction),
        changed == (interaction != old(button)@.interaction),
{
    if interaction == button.bundle.interaction {
        false
    } else {
        button.on_signal(interaction);
        true
    }
}

/// A hover or an idle pointer commits nothing: the switch, the committed
/// colour and the label stay as they are. Only a press writes them.
pub proof fn law_only_press_commits(v: ButtonView, signal: Interaction)
    requires
        signal != Interaction::Pressed,
    ensures
        step(v, signal).is_on == v.is_on,
        step(v, signal).original_color == v.original_color,
        step(v, signal).label == v.label,
{
}

/// A hover shows the committed colour darkened by a quarter, whatever was
/// shown before, and a hover signal that comes again leaves the button as the
/// first one left it.
pub proof fn law_hover_is_idempotent(v: ButtonView)
    ensures
        step(v, Interaction::Hovered).background_color == v.original_color.darkened(HOVER_DARKEN),
        step(v, Interaction::Hovered).border_color == v.original_color.darkened(HOVER_DARKEN),
        step(step(v, Interaction::Hovered), Interaction::Hovered) == step(v, Interaction::Hovered),
{
}

/// However many hover signals come in a row, the button is as after the
/// first one: the shown colour does not drift.
pub proof fn law_hover_does_not_drift(v: ButtonView, count: nat)
    requires
        count >= 1,
    ensures
        run(v, Seq::new(count, |i: int| Interaction::Hovered)) == step(v, Interaction::Hovered),
    decreases count,
{
    let signals = Seq::new(count, |i: int| Interaction::Hovered);
    assert(signals.last() == Interaction::Hovered);
    if count == 1 {
        assert(signals.drop_last().len() == 0);
        assert(run(v, signals.drop_last()) == v);
    } else {
        let shorter = Seq::new((count - 1) as nat, |i: int| Interaction::Hovered);
        assert(signals.drop_last() =~= shorter);
        law_hover_does_not_drift(v, (count - 1) as nat);
    }
}

/// A press flips the switch and leaves the button committed and showing the
/// colour of the new position; a second press brings the switch back.
pub proof fn law_press_toggles(v: ButtonView)
    ensures
        step(v, Interaction::Pressed).is_on == !v.is_on,
        step(v, Interaction::Pressed).original_color == committed_color(!v.is_on),
        step(v, Interaction::Pressed).background_color == committed_color(!v.is_on),
        step(v, Interaction::Pressed).border_color == committed_color(!v.is_on),
        step(v, Interaction::Pressed).label == label_text(!v.is_on),
        step(step(v, Interaction::Pressed), Interaction::Pressed).is_on == v.is_on,
        is_committed(v) ==> step(step(v, Interaction::Pressed), Interaction::Pressed) == (ButtonView {
            interaction: Interaction::Pressed,
            background_color: v.original_color,
            border_color: v.original_color,
            ..v
        }),
{
}

/// After a hover, an idle pointer brings back the committed colour itself,
/// not the darkened one.
pub proof fn law_idle_restores(v: ButtonView)
    ensures
        step(step(v, Interaction::Hovered), Interaction::Idle).background_color == v.original_color,
        step(step(v, Interaction::Hovered), Interaction::Idle).border_color == v.original_color,
        step(step(v, Interaction::Hovered), Interaction::Idle) == step(v, Interaction::Idle),
        is_steady(v) && v.interaction == Interaction::Idle ==> step(
            step(v, Interaction::Hovered),
            Interaction::Idle,
        ) == v,
{
}

/// Every signal leaves fill and border showing what it asks for, and keeps a
/// committed button committed: a steady button stays steady.
pub proof fn law_step_keeps_steady(v: ButtonView, signal: Interaction)
    ensures
        is_painted(step(v, signal)),
        is_committed(v) ==> is_committed(step(v, signal)),
        is_steady(v) ==> is_steady(step(v, signal)),
{
}

/// Whatever signals a new button takes, it stays steady: it is off and red
/// or on and green, labelled accordingly, and what it shows is its committed
/// colour, darkened exactly while hovered.
pub proof fn law_reachable_is_steady(signals: Seq<Interaction>)
    ensures
        is_steady(run(initial_view(), signals)),
    decreases signals.len(),
{
    if signals.len() > 0 {
        law_reachable_is_steady(signals.drop_last());
        law_step_keeps_steady(run(initial_view(), signals.drop_last()), signals.last());
    }
}

/// The same reading again is no signal: reading the pointer twice with the
/// same result leaves the button as the first reading left it.
pub proof fn law_same_reading_changes_nothing(v: ButtonView, reading: Interaction)
    ensures
        observe(v, reading).interaction == reading,
        observe(observe(v, reading), reading) == observe(v, reading),
{
}

} // verus!
