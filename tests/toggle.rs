use shorty::footer::{Footer, FooterMessage};
use shorty::toggle::{
    AdvancedModeVisibility, ExpirationType, LabelPosition, LinkInputState, ToggleInputState,
    ToggleState,
};

#[test]
fn toggle_states_from_checkbox() {
    assert_eq!(ToggleState::from(true), ToggleState::On);
    assert_eq!(ToggleState::from(false), ToggleState::Off);
    assert!(ToggleState::On.checked());
    assert!(!ToggleState::Off.checked());
    assert_eq!(ToggleInputState::from(true), ToggleInputState::On);
    assert!(ToggleInputState::On.checked());
    assert!(!ToggleInputState::from(false).checked());
}

#[test]
fn advanced_mode_follows_toggle() {
    assert_eq!(AdvancedModeVisibility::from(ToggleInputState::On), AdvancedModeVisibility::Expanded);
    assert_eq!(AdvancedModeVisibility::from(ToggleInputState::Off), AdvancedModeVisibility::Collapsed);
    assert_eq!(ToggleInputState::from(AdvancedModeVisibility::Expanded), ToggleInputState::On);
    assert_eq!(ToggleInputState::from(AdvancedModeVisibility::Collapsed), ToggleInputState::Off);
    assert_eq!(AdvancedModeVisibility::Collapsed.style(), "visibility: collapse;");
    assert_eq!(AdvancedModeVisibility::Expanded.style(), "visibility: visible;");
}

#[test]
fn expiration_type_flips() {
    assert_eq!(ExpirationType::Date.flipped(), ExpirationType::Duration);
    assert_eq!(ExpirationType::Duration.flipped(), ExpirationType::Date);
    assert_eq!(ExpirationType::from(ToggleInputState::On), ExpirationType::Date);
    assert_eq!(ExpirationType::from(false), ExpirationType::Duration);
    assert_eq!(ExpirationType::from(true), ExpirationType::Date);
    assert_eq!(ExpirationType::Date.name(), "Date");
    assert_eq!(ExpirationType::Duration.flipped().name(), "Date");
}

#[test]
fn label_defaults_to_the_right() {
    assert_eq!(LabelPosition::default(), LabelPosition::Right);
    assert_ne!(LinkInputState::Copied, LinkInputState::Copy);
}

#[test]
fn footer_opens_dialog_once() {
    let mut f = Footer::new();
    assert!(!f.dialog_open);
    assert!(f.update(FooterMessage::OpenDialog));
    assert!(f.dialog_open);
    assert!(!f.update(FooterMessage::DialogOpened));
    assert!(!f.dialog_open);
}
