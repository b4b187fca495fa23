use demo_logic::button::{
    off_button_color, on_button_color, switch_logic, ButtonState, FocusPolicy, Interaction,
    ToggleButton, VelloButtonBundle, HOVER_DARKEN,
};
use demo_logic::color::{darken_color, Color};

const DARK_RED: Color = Color { r: 49152, g: 0, b: 0, a: 65536 };
const DARK_GREEN: Color = Color { r: 0, g: 49152, b: 0, a: 65536 };

#[test]
fn hover_factor_is_a_quarter() {
    assert_eq!(HOVER_DARKEN, 16384);
    assert_eq!(HOVER_DARKEN * 4, 65536);
}

#[test]
fn switch_colors() {
    assert_eq!(off_button_color(), Color::red());
    assert_eq!(on_button_color(), Color::green());
}

#[test]
fn button_state_of_and_toggled() {
    let off = ButtonState::of(false);
    assert_eq!(off, ButtonState { is_on: false, original_color: Color::red() });
    let on = off.toggled();
    assert_eq!(on, ButtonState { is_on: true, original_color: Color::green() });
    assert_eq!(on, ButtonState::of(true));
    assert_eq!(on.toggled(), off);
    // The colour that comes out is that of the new position, whatever was there.
    let odd = ButtonState { is_on: true, original_color: Color::white() };
    assert_eq!(odd.toggled(), off);
}

#[test]
fn default_bundle() {
    let bundle = VelloButtonBundle::default();
    assert_eq!(bundle.interaction, Interaction::Idle);
    assert_eq!(bundle.focus_policy, FocusPolicy::Block);
    assert_eq!(bundle.background_color, Color::white());
    assert_eq!(bundle.border_color, Color::none());
}

#[test]
fn new_button_is_off_and_red() {
    let button = ToggleButton::new();
    assert!(!button.state.is_on);
    assert_eq!(button.state.original_color, Color::red());
    assert_eq!(button.bundle.background_color, Color::red());
    assert_eq!(button.bundle.border_color, Color::red());
    assert_eq!(button.bundle.interaction, Interaction::Idle);
    assert_eq!(button.bundle.focus_policy, FocusPolicy::Block);
    assert_eq!(button.label, "Off");
}

#[test]
fn press_toggles_on_then_off() {
    let mut button = ToggleButton::new();
    button.on_signal(Interaction::Pressed);
    assert!(button.state.is_on);
    assert_eq!(button.label, "On");
    assert_eq!(button.state.original_color, Color::green());
    assert_eq!(button.bundle.background_color, Color::green());
    assert_eq!(button.bundle.border_color, Color::green());

    button.on_signal(Interaction::Pressed);
    assert!(!button.state.is_on);
    assert_eq!(button.label, "Off");
    assert_eq!(button.state.original_color, Color::red());
    assert_eq!(button.bundle.background_color, Color::red());
    assert_eq!(button.bundle.border_color, Color::red());
}

#[test]
fn hover_then_idle_restores_red() {
    let mut button = ToggleButton::new();
    button.on_signal(Interaction::Hovered);
    assert_eq!(button.bundle.background_color, darken_color(Color::red(), HOVER_DARKEN));
    assert_eq!(button.bundle.background_color, DARK_RED);
    assert_eq!(button.bundle.border_color, DARK_RED);
    assert_eq!(button.state.original_color, Color::red());
    assert!(!button.state.is_on);
    assert_eq!(button.label, "Off");

    button.on_signal(Interaction::Idle);
    assert_eq!(button.bundle.background_color, Color::red());
    assert_eq!(button.bundle.border_color, Color::red());
    assert_eq!(button, ToggleButton::new());
}

#[test]
fn repeated_hover_does_not_drift() {
    let mut button = ToggleButton::new();
    button.on_signal(Interaction::Hovered);
    let first = button.bundle;
    for _ in 0..10 {
        button.on_signal(Interaction::Hovered);
        assert_eq!(button.bundle, first);
        assert_eq!(button.bundle.background_color, DARK_RED);
        assert_eq!(button.state.original_color, Color::red());
    }
}

#[test]
fn hover_while_on_darkens_green() {
    let mut button = ToggleButton::new();
    button.on_signal(Interaction::Hovered);
    button.on_signal(Interaction::Pressed);
    // The press shows the committed colour, not the darkened one.
    assert_eq!(button.bundle.background_color, Color::green());
    button.on_signal(Interaction::Hovered);
    assert_eq!(button.bundle.background_color, DARK_GREEN);
    assert_eq!(button.bundle.border_color, DARK_GREEN);
    assert_eq!(button.state.original_color, Color::green());
    assert!(button.state.is_on);
    assert_eq!(button.label, "On");
    button.on_signal(Interaction::Idle);
    assert_eq!(button.bundle.background_color, Color::green());
}

#[test]
fn signal_is_recorded() {
    let mut button = ToggleButton::new();
    for signal in [Interaction::Hovered, Interaction::Pressed, Interaction::Idle] {
        button.on_signal(signal);
        assert_eq!(button.bundle.interaction, signal);
        assert_eq!(button.bundle.focus_policy, FocusPolicy::Block);
    }
}

#[test]
fn hover_uses_whatever_is_committed() {
    let committed = Color { r: 10000, g: 20000, b: 70000, a: 123 };
    let mut button = ToggleButton::new();
    button.state.original_color = committed;
    button.on_signal(Interaction::Hovered);
    assert_eq!(
        button.bundle.background_color,
        Color { r: 0, g: 3616, b: 53616, a: 123 }
    );
    assert_eq!(button.state.original_color, committed);
    button.on_signal(Interaction::Idle);
    assert_eq!(button.bundle.background_color, committed);
    assert_eq!(button.bundle.border_color, committed);
}

#[test]
fn first_signal_paints_a_default_bundle() {
    let mut button = ToggleButton {
        bundle: VelloButtonBundle::default(),
        state: ButtonState::of(false),
        label: String::from("Off"),
    };
    assert_eq!(button.bundle.background_color, Color::white());
    button.on_signal(Interaction::Idle);
    assert_eq!(button, ToggleButton::new());
}

#[test]
fn switch_logic_reacts_to_changes_only() {
    let mut button = ToggleButton::new();
    // The pointer is still elsewhere: no signal.
    assert!(!switch_logic(&mut button, Interaction::Idle));
    assert_eq!(button, ToggleButton::new());

    assert!(switch_logic(&mut button, Interaction::Hovered));
    assert_eq!(button.bundle.background_color, DARK_RED);

    assert!(switch_logic(&mut button, Interaction::Pressed));
    assert!(button.state.is_on);
    assert_eq!(button.label, "On");
    // Held down over several readings: one press, not many.
    for _ in 0..5 {
        assert!(!switch_logic(&mut button, Interaction::Pressed));
        assert!(button.state.is_on);
        assert_eq!(button.bundle.background_color, Color::green());
    }
    assert!(switch_logic(&mut button, Interaction::Hovered));
    assert_eq!(button.bundle.background_color, DARK_GREEN);
    assert!(switch_logic(&mut button, Interaction::Pressed));
    assert!(!button.state.is_on);
    assert_eq!(button.label, "Off");
    assert!(switch_logic(&mut button, Interaction::Idle));
    assert_eq!(button, ToggleButton::new());
}

#[test]
fn every_reachable_button_is_steady() {
    let signals = [Interaction::Pressed, Interaction::Hovered, Interaction::Idle];
    // All signal sequences of length six.
    for code in 0..729u32 {
        let mut button = ToggleButton::new();
        let mut rest = code;
        for _ in 0..6 {
            let signal = signals[(rest % 3) as usize];
            rest /= 3;
            button.on_signal(signal);
            let committed = if button.state.is_on { Color::green() } else { Color::red() };
            let shown = if signal == Interaction::Hovered {
                darken_color(committed, HOVER_DARKEN)
            } else {
                committed
            };
            assert_eq!(button.state.original_color, committed);
            assert_eq!(button.label, if button.state.is_on { "On" } else { "Off" });
            assert_eq!(button.bundle.background_color, shown);
            assert_eq!(button.bundle.border_color, shown);
        }
    }
}
