use vstd::prelude::*;

use crate::duration::{added, parts_of, zeroed, Duration, Parts};

verus! {

/// The part of a `dd:hh:mm:ss` field that the cursor is on.
#[derive(Debug, Clone, Copy, PartialEq, Eq, Structural)]
pub enum Selection {
    Days,
    Hours,
    Minutes,
    Seconds,
}

/// The position of a part in the field, from 0 for days to 3 for seconds.
pub open spec fn position_of(s: Selection) -> nat {
    match s {
        Selection::Days => 0,
        Selection::Hours => 1,
        Selection::Minutes => 2,
        Selection::Seconds => 3,
    }
}

/// The part at position `n` of the field, if there is one.
pub open spec fn selection_at(n: int) -> Option<Selection> {
    if n == 0 {
        Some(Selection::Days)
    } else if n == 1 {
        Some(Selection::Hours)
    } else if n == 2 {
        Some(Selection::Minutes)
    } else if n == 3 {
        Some(Selection::Seconds)
    } else {
        None
    }
}

/// The part left of `s`, or `s` itself at the left end.
pub open spec fn left_of(s: Selection) -> Selection {
    if s == Selection::Days {
        s
    } else {
        selection_at(position_of(s) - 1)->0
    }
}

/// The part right of `s`, or `s` itself at the right end.
pub open spec fn right_of(s: Selection) -> Selection {
    if s == Selection::Seconds {
        s
    } else {
        selection_at(position_of(s) + 1int)->0
    }
}

/// Parts that are all 0 but the one `s` names, which is `n`.
pub open spec fn part_with_spec(s: Selection, n: i64) -> Parts {
    let zero = Parts { days: 0, hours: 0, minutes: 0, seconds: 0 };
    match s {
        Selection::Days => Parts { days: n, ..zero },
        Selection::Hours => Parts { hours: n, ..zero },
        Selection::Minutes => Parts { minutes: n, ..zero },
        Selection::Seconds => Parts { seconds: n, ..zero },
    }
}

impl Selection {
    /// The position of this part in the field, from 0 for days to 3 for
    /// seconds.
    pub fn position(&self) -> (r: usize)
        ensures
            r == position_of(*self),
    {
        match self {
            Selection::Days => 0,
            Selection::Hours => 1,
            Selection::Minutes => 2,
            Selection::Seconds => 3,
        }
    }

    /// The part at position `n` of the field, if there is one.
    pub fn from_repr(n: usize) -> (r: Option<Selection>)
        ensures
            r == selection_at(n as int),
    {
        match n {
            0 => Some(Selection::Days),
            1 => Some(Selection::Hours),
            2 => Some(Selection::Minutes),
            3 => Some(Selection::Seconds),
            _ => None,
        }
    }

    /// The part that a cursor at character `cursor` of `dd:hh:mm:ss` is on:
    /// each part covers its two digits and the colon after them.
    pub fn from_cursor(cursor: u32) -> (r: Selection)
        requires
            cursor <= 11,
        ensures
            Some(r) == selection_at((cursor / 3) as int),
    {
        match Self::from_repr(cursor as usize / 3) {
            Some(s) => s,
            None => Selection::Seconds,
        }
    }

    /// The part left of this one, or this one at the left end.
    pub fn left(&self) -> (r: Selection)
        ensures
            r == left_of(*self),
    {
        if *self == Selection::Days {
            return *self;
        }
        match Self::from_repr(self.position() - 1) {
            Some(s) => s,
            None => *self,
        }
    }

    /// The part right of this one, or this one at the right end.
    pub fn right(&self) -> (r: Selection)
        ensures
            r == right_of(*self),
    {
        if *self == Selection::Seconds {
            return *self;
        }
        match Self::from_repr(self.position() + 1) {
            Some(s) => s,
            None => *self,
        }
    }

    /// Parts that are all 0 but this one, which is `n`.
    pub fn part_with(&self, n: i64) -> (r: Parts)
        ensures
            r == part_with_spec(*self, n),
    {
        let mut parts = Parts { days: 0, hours: 0, minutes: 0, seconds: 0 };
        match self {
            Selection::Days => parts.days = n,
            Selection::Hours => parts.hours = n,
            Selection::Minutes => parts.minutes = n,
            Selection::Seconds => parts.seconds = n,
        }
        parts
    }
}

/// A message for the duration input field.
#[derive(Debug, Clone, Copy, PartialEq, Eq, Structural)]
pub enum DurationInputMessage {
    /// A key was pressed.
    Key(Key),
    /// The mouse button was released over the field.
    MouseUp,
    /// The field gained (`true`) or lost (`false`) the focus.
    Focus(bool),
}

/// A key the duration input field reacts to.
#[derive(Debug, Clone, Copy, PartialEq, Eq, Structural)]
pub enum Key {
    Arrow(Arrow),
    /// A digit key, 0 to 9.
    Digit(i64),
    Backspace,
}

/// An arrow key.
#[derive(Debug, Clone, Copy, PartialEq, Eq, Structural)]
pub enum Arrow {
    Right,
    Left,
    Up,
    Down,
}

/// The state of a `dd:hh:mm:ss` input field: the span it shows, the part
/// the cursor is on, whether the last key was a backspace, and whether the
/// next digit is the second of its part.
pub struct DurationInput {
    pub duration: Duration,
    pub selection: Option<Selection>,
    pub backspace: bool,
    pub sub_cursor: bool,
}

impl DurationInput {
    /// The field shows a span an input field can show.
    pub open spec fn wf(&self) -> bool {
        0 <= self.duration.seconds <= Duration::MAX_SECONDS
    }
}

/// The state with the span set to `seconds` and every other field from `s`.
pub open spec fn with_seconds(s: DurationInput, seconds: int) -> DurationInput {
    DurationInput { duration: Duration { seconds: seconds as i64 }, ..s }
}

/// After a digit `n`: the first digit of a part clears the part and sets its
/// tens, the second adds its ones and moves to the next part. A digit that
/// would make the part exceed what it can show is ignored.
pub open spec fn after_digit(s: DurationInput, n: i64) -> DurationInput {
    let sel = s.selection->0;
    let d = if s.sub_cursor { n } else { (n * 10) as i64 };
    let p = part_with_spec(sel, d);
    if p.is_valid() {
        let base = if s.sub_cursor {
            s.duration.seconds as int
        } else {
            zeroed(parts_of(s.duration.seconds), sel).total()
        };
        DurationInput {
            duration: Duration { seconds: added(base, p.total()) as i64 },
            selection: if s.sub_cursor { Some(right_of(sel)) } else { s.selection },
            backspace: s.backspace,
            sub_cursor: !s.sub_cursor,
        }
    } else {
        s
    }
}

/// After a backspace: the first clears the selected part, a second one in a
/// row clears the whole span.
pub open spec fn after_backspace(s: DurationInput) -> DurationInput {
    if s.backspace {
        DurationInput {
            duration: Duration { seconds: 0 },
            backspace: false,
            sub_cursor: false,
            ..s
        }
    } else {
        DurationInput {
            duration: Duration {
                seconds: zeroed(parts_of(s.duration.seconds), s.selection->0).total() as i64,
            },
            backspace: true,
            sub_cursor: false,
            ..s
        }
    }
}

/// After an arrow key: left and right move the selection, up and down add
/// or take one unit of the selected part where the span stays showable.
pub open spec fn after_arrow(s: DurationInput, a: Arrow) -> DurationInput {
    let sel = s.selection->0;
    let t = DurationInput { sub_cursor: false, ..s };
    match a {
        Arrow::Right => DurationInput { selection: Some(right_of(sel)), ..t },
        Arrow::Left => DurationInput { selection: Some(left_of(sel)), ..t },
        Arrow::Up => with_seconds(t, added(s.duration.seconds as int, part_with_spec(sel, 1i64).total())),
        Arrow::Down => with_seconds(
            t,
            added(s.duration.seconds as int, part_with_spec(sel, -1i64).total()),
        ),
    }
}

/// After a key, with a part selected.
pub open spec fn after_key(s: DurationInput, k: Key) -> DurationInput {
    match k {
        Key::Arrow(a) => after_arrow(s, a),
        Key::Digit(d) => after_digit(s, d),
        Key::Backspace => after_backspace(s),
    }
}

/// After a mouse release with the cursor at `cursor`: the part under the
/// cursor is selected.
pub open spec fn after_mouseup(s: DurationInput, cursor: u32) -> DurationInput {
    DurationInput { selection: selection_at((cursor / 3) as int), sub_cursor: false, ..s }
}

/// After a change of focus: gaining it selects the part under the cursor if
/// none is selected, losing it clears the selection.
pub open spec fn after_focus(s: DurationInput, focus: bool, cursor: u32) -> DurationInput {
    if focus {
        if s.selection is None {
            DurationInput { selection: selection_at((cursor / 3) as int), ..s }
        } else {
            s
        }
    } else {
        DurationInput { selection: None, ..s }
    }
}

/// After a message, the cursor standing at `cursor`: any message but a
/// backspace ends a run of backspaces, and keys count only with a part
/// selected.
pub open spec fn after_message(s: DurationInput, msg: DurationInputMessage, cursor: u32) -> DurationInput {
    let t = if msg != DurationInputMessage::Key(Key::Backspace) {
        DurationInput { backspace: false, ..s }
    } else {
        s
    };
    match msg {
        DurationInputMessage::MouseUp => after_mouseup(t, cursor),
        DurationInputMessage::Focus(f) => after_focus(t, f, cursor),
        DurationInputMessage::Key(k) => if t.selection is Some {
            after_key(t, k)
        } else {
            t
        },
    }
}

/// Digits are 0 to 9.
pub open spec fn digit_ok(msg: DurationInputMessage) -> bool {
    msg matches DurationInputMessage::Key(Key::Digit(d)) ==> 0 <= d <= 9
}

/// Clearing one part of a showable span leaves a span between 0 and the
/// span before.
pub proof fn lemma_zeroed_in_range(s: i64, sel: Selection)
    requires
        0 <= s <= Duration::MAX_SECONDS,
    ensures
        0 <= zeroed(parts_of(s), sel).total() <= s,
{
    crate::duration::lemma_parts_round_trip(s);
}

impl DurationInput {
    /// An empty field with nothing selected.
    pub fn new() -> (r: DurationInput)
        ensures
            r.wf(),
            r.duration.seconds == 0,
            r.selection is None,
            !r.backspace,
            !r.sub_cursor,
    {
        DurationInput {
            duration: Duration { seconds: 0 },
            selection: None,
            backspace: false,
            sub_cursor: false,
        }
    }

    /// Handles a key while a part is selected.
    pub fn handle_key(&mut self, key: Key)
        requires
            old(self).wf(),
            old(self).selection is Some,
            key matches Key::Digit(d) ==> 0 <= d <= 9,
        ensures
            final(self).wf(),
            *final(self) == after_key(*old(self), key),
    {
        match key {
            Key::Arrow(arrow) => self.handle_arrow(arrow),
            Key::Digit(d) => self.handle_digit(d),
            Key::Backspace => self.handle_backspace(),
        }
    }

    /// Handles a digit key while a part is selected.
    pub fn handle_digit(&mut self, n: i64)
        requires
            old(self).wf(),
            old(self).selection is Some,
            0 <= n <= 9,
        ensures
            final(self).wf(),
            *final(self) == after_digit(*old(self), n),
    {
        let sub_cursor = self.sub_cursor;
        let mut n = n;
        if !sub_cursor {
            n = n * 10;
        }
        let selection = match self.selection {
            Some(s) => s,
            None => Selection::Seconds,
        };
        let parts = selection.part_with(n);
        if parts.valid() {
            if !sub_cursor {
                let mut zero_parts = self.duration.to_parts();
                zero_parts.zero_selection(selection);
                proof {
                    lemma_zeroed_in_range(self.duration.seconds, selection);
                }
                self.duration.seconds = zero_parts.to_seconds();
            }
            self.duration.add_parts(parts);
            self.sub_cursor = !self.sub_cursor;
            if sub_cursor {
                self.selection = Some(selection.right());
            }
        }
    }

    /// Handles a backspace while a part is selected.
    pub fn handle_backspace(&mut self)
        requires
            old(self).wf(),
            old(self).selection is Some,
        ensures
            final(self).wf(),
            *final(self) == after_backspace(*old(self)),
    {
        self.sub_cursor = false;
        if self.backspace {
            self.backspace = false;
            self.duration.reset();
        } else {
            self.backspace = true;
            let selection = match self.selection {
                Some(s) => s,
                None => Selection::Seconds,
            };
            let mut parts = self.duration.to_parts();
            parts.zero_selection(selection);
            proof {
                lemma_zeroed_in_range(self.duration.seconds, selection);
            }
            self.duration.seconds = parts.to_seconds();
        }
    }

    /// Handles an arrow key while a part is selected.
    pub fn handle_arrow(&mut self, arrow: Arrow)
        requires
            old(self).wf(),
            old(self).selection is Some,
        ensures
            final(self).wf(),
            *final(self) == after_arrow(*old(self), arrow),
    {
        self.sub_cursor = false;
        let selection = match self.selection {
            Some(s) => s,
            None => Selection::Seconds,
        };
        match arrow {
            Arrow::Right => {
                self.selection = Some(selection.right());
            },
            Arrow::Left => {
                self.selection = Some(selection.left());
            },
            Arrow::Up => {
                let parts = selection.part_with(1);
                self.duration.add_parts(parts);
            },
            Arrow::Down => {
                let parts = selection.part_with(-1);
                self.duration.add_parts(parts);
            },
        }
    }

    /// Handles a mouse release with the cursor at character `cursor`.
    pub fn handle_mouseup(&mut self, cursor: u32)
        requires
            old(self).wf(),
            cursor <= 11,
        ensures
            final(self).wf(),
            *final(self) == after_mouseup(*old(self), cursor),
    {
        let selection = Selection::from_cursor(cursor);
        self.selection = Some(selection);
        self.sub_cursor = false;
    }

    /// Handles a change of focus, the cursor standing at character `cursor`.
    pub fn handle_focus(&mut self, focus: bool, cursor: u32)
        requires
            old(self).wf(),
            cursor <= 11,
        ensures
            final(self).wf(),
            *final(self) == after_focus(*old(self), focus, cursor),
    {
        if focus {
            if self.selection.is_none() {
                let selection = Selection::from_cursor(cursor);
                self.selection = Some(selection);
            }
        } else {
            self.selection = None;
        }
    }

    /// Handles a message, the cursor standing at character `cursor`; the
    /// field is always drawn again.
    pub fn update(&mut self, msg: DurationInputMessage, cursor: u32) -> (r: bool)
        requires
            old(self).wf(),
            cursor <= 11,
            digit_ok(msg),
        ensures
            final(self).wf(),
            *final(self) == after_message(*old(self), msg, cursor),
            r,
    {
        if msg != DurationInputMessage::Key(Key::Backspace) {
            self.backspace = false;
        }
        match msg {
            DurationInputMessage::MouseUp => self.handle_mouseup(cursor),
            DurationInputMessage::Focus(focus) => self.handle_focus(focus, cursor),
            DurationInputMessage::Key(key) => {
                if self.selection.is_some() {
                    self.handle_key(key);
                }
            },
        }
        true
    }
}

} // verus!
