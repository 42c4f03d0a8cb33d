use vstd::prelude::*;

verus! {

/// Which side of a toggle its label stands on.
#[derive(Debug, Clone, Copy, PartialEq, Eq, Structural)]
pub enum LabelPosition {
    Left,
    Right,
}

impl Default for LabelPosition {
    fn default() -> (r: LabelPosition)
        ensures
            r == LabelPosition::Right,
    {
        LabelPosition::Right
    }
}

/// Whether a toggle is on.
#[derive(Debug, Clone, Copy, PartialEq, Eq, Structural)]
pub enum ToggleState {
    On,
    Off,
}

impl ToggleState {
    /// Whether the toggle's checkbox is ticked.
    pub fn checked(&self) -> (r: bool)
        ensures
            r == (*self == ToggleState::On),
    {
        *self == ToggleState::On
    }
}

impl From<bool> for ToggleState {
    fn from(value: bool) -> (r: ToggleState) {
        if value {
            ToggleState::On
        } else {
            ToggleState::Off
        }
    }
}

impl vstd::std_specs::convert::FromSpecImpl<bool> for ToggleState {
    open spec fn obeys_from_spec() -> bool {
        true
    }

    open spec fn from_spec(v: bool) -> ToggleState {
        if v {
            ToggleState::On
        } else {
            ToggleState::Off
        }
    }
}

/// Whether a toggle that stands beside an input is on.
#[derive(Debug, Clone, Copy, PartialEq, Eq, Structural)]
pub enum ToggleInputState {
    On,
    Off,
}

impl ToggleInputState {
    /// Whether the toggle's checkbox is ticked.
    pub fn checked(&self) -> (r: bool)
        ensures
            r == (*self == ToggleInputState::On),
    {
        *self == ToggleInputState::On
    }
}

impl From<bool> for ToggleInputState {
    fn from(value: bool) -> (r: ToggleInputState) {
        if value {
            ToggleInputState::On
        } else {
            ToggleInputState::Off
        }
    }
}

impl vstd::std_specs::convert::FromSpecImpl<bool> for ToggleInputState {
    open spec fn obeys_from_spec() -> bool {
        true
    }

    open spec fn from_spec(v: bool) -> ToggleInputState {
        if v {
            ToggleInputState::On
        } else {
            ToggleInputState::Off
        }
    }
}

/// Whether the advanced settings of the form are shown.
#[derive(Debug, Clone, Copy, PartialEq, Eq, Structural)]
pub enum AdvancedModeVisibility {
    Collapsed,
    Expanded,
}

impl AdvancedModeVisibility {
    /// The CSS that shows or hides the advanced settings.
    pub fn style(&self) -> (r: String)
        ensures
            r@ == match *self {
                AdvancedModeVisibility::Collapsed => "visibility: collapse;"@,
                AdvancedModeVisibility::Expanded => "visibility: visible;"@,
            },
    {
        match self {
            AdvancedModeVisibility::Collapsed => String::from_str("visibility: collapse;"),
            AdvancedModeVisibility::Expanded => String::from_str("visibility: visible;"),
        }
    }
}

impl From<ToggleInputState> for AdvancedModeVisibility {
    fn from(value: ToggleInputState) -> (r: AdvancedModeVisibility) {
        match value {
            ToggleInputState::On => AdvancedModeVisibility::Expanded,
            ToggleInputState::Off => AdvancedModeVisibility::Collapsed,
        }
    }
}

impl vstd::std_specs::convert::FromSpecImpl<ToggleInputState> for AdvancedModeVisibility {
    open spec fn obeys_from_spec() -> bool {
        true
    }

    open spec fn from_spec(v: ToggleInputState) -> AdvancedModeVisibility {
        match v {
            ToggleInputState::On => AdvancedModeVisibility::Expanded,
            ToggleInputState::Off => AdvancedModeVisibility::Collapsed,
        }
    }
}

impl From<AdvancedModeVisibility> for ToggleInputState {
    fn from(value: AdvancedModeVisibility) -> (r: ToggleInputState) {
        match value {
            AdvancedModeVisibility::Expanded => ToggleInputState::On,
            AdvancedModeVisibility::Collapsed => ToggleInputState::Off,
        }
    }
}

impl vstd::std_specs::convert::FromSpecImpl<AdvancedModeVisibility> for ToggleInputState {
    open spec fn obeys_from_spec() -> bool {
        true
    }

    open spec fn from_spec(v: AdvancedModeVisibility) -> ToggleInputState {
        match v {
            AdvancedModeVisibility::Expanded => ToggleInputState::On,
            AdvancedModeVisibility::Collapsed => ToggleInputState::Off,
        }
    }
}

/// How the lifetime of a link is entered: as a date, or as a duration.
#[derive(Debug, Clone, Copy, PartialEq, Eq, Structural)]
pub enum ExpirationType {
    Date,
    Duration,
}

impl ExpirationType {
    /// The other way of entering the lifetime.
    pub fn flipped(&self) -> (r: ExpirationType)
        ensures
            r != *self,
    {
        match self {
            ExpirationType::Date => ExpirationType::Duration,
            ExpirationType::Duration => ExpirationType::Date,
        }
    }

    /// The name shown for this way of entering the lifetime.
    pub fn name(&self) -> (r: String)
        ensures
            r@ == match *self {
                ExpirationType::Date => "Date"@,
                ExpirationType::Duration => "Duration"@,
            },
    {
        match self {
            ExpirationType::Date => String::from_str("Date"),
            ExpirationType::Duration => String::from_str("Duration"),
        }
    }
}

impl From<ToggleInputState> for ExpirationType {
    fn from(value: ToggleInputState) -> (r: ExpirationType) {
        match value {
            ToggleInputState::On => ExpirationType::Date,
            ToggleInputState::Off => ExpirationType::Duration,
        }
    }
}

impl vstd::std_specs::convert::FromSpecImpl<ToggleInputState> for ExpirationType {
    open spec fn obeys_from_spec() -> bool {
        true
    }

    open spec fn from_spec(v: ToggleInputState) -> ExpirationType {
        match v {
            ToggleInputState::On => ExpirationType::Date,
            ToggleInputState::Off => ExpirationType::Duration,
        }
    }
}

impl From<bool> for ExpirationType {
    fn from(value: bool) -> (r: ExpirationType) {
        Self::from(ToggleInputState::from(value))
    }
}

impl vstd::std_specs::convert::FromSpecImpl<bool> for ExpirationType {
    open spec fn obeys_from_spec() -> bool {
        true
    }

    open spec fn from_spec(v: bool) -> ExpirationType {
        if v {
            ExpirationType::Date
        } else {
            ExpirationType::Duration
        }
    }
}

/// Whether the shortened link has just been copied.
#[derive(Debug, Clone, Copy, PartialEq, Eq, Structural)]
pub enum LinkInputState {
    Copied,
    Copy,
}

} // verus!
