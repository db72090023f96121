//! One exercise line: what the learner must type, what they have typed, and
//! the errors and time counted on it.
use vstd::prelude::*;
use vstd::string::*;

use crate::config::Key;
use crate::event::Event;
use crate::text::{pop_char, starts_with};

verus! {

/// The time between two ticks, in milliseconds.
pub const TICK_MILIS: u64 = 500;

/// What an exercise line reacts to.
#[derive(Debug, Clone)]
pub enum Message {
    /// The periodic tick.
    Tick,
    /// A keyboard event.
    Event(Event),
    /// Gives the line the keyboard focus, or takes it away.
    SetFocus(bool),
}

/// The state of an exercise line, as plain values.
pub struct ExerciseModel {
    pub target: Seq<char>,
    pub input: Seq<char>,
    pub cursor_visible: bool,
    pub focus: bool,
    pub errors: u64,
    pub mseconds: u64,
}

/// `a + b`, or `u64::MAX` where that does not fit.
pub open spec fn saturating(a: int, b: int) -> u64 {
    if a + b > u64::MAX {
        u64::MAX
    } else {
        (a + b) as u64
    }
}

/// `input` with its last characters removed until it is empty or a prefix of
/// `target`.
pub open spec fn corrected(target: Seq<char>, input: Seq<char>) -> Seq<char>
    decreases input.len(),
{
    if input.len() == 0 || input.is_prefix_of(target) {
        input
    } else {
        corrected(target, input.drop_last())
    }
}

/// What a key press does to the typed text: a character key adds its text,
/// Backspace removes the last character, Space adds a space and Tab two;
/// other keys, and keys that type nothing, leave the text as it is.
pub open spec fn typed(input: Seq<char>, key: Key, text: Option<String>) -> Seq<char> {
    match text {
        None => input,
        Some(t) => match key {
            Key::Character(_) => input + t@,
            Key::Named(name) => if name@ == "Backspace"@ {
                if input.len() > 0 {
                    input.drop_last()
                } else {
                    input
                }
            } else if name@ == "Space"@ {
                input.push(' ')
            } else if name@ == "Tab"@ {
                input + seq![' ', ' ']
            } else {
                input
            },
            Key::Unidentified => input,
        },
    }
}

impl ExerciseModel {
    /// A fresh line for `target`: nothing typed, no focus, nothing counted.
    pub open spec fn start(target: Seq<char>) -> ExerciseModel {
        ExerciseModel {
            target,
            input: Seq::empty(),
            cursor_visible: false,
            focus: false,
            errors: 0,
            mseconds: 0,
        }
    }

    /// Whether what was typed is no longer a prefix of the target.
    pub open spec fn mismatched(self) -> bool {
        !self.input.is_prefix_of(self.target)
    }

    /// Whether the line is typed exactly.
    pub open spec fn finished(self) -> bool {
        self.input == self.target
    }

    /// A tick: time runs, the cursor blinks, and characters that went wrong
    /// are taken back, each counted as an error.
    pub open spec fn on_tick(self) -> ExerciseModel {
        let input = corrected(self.target, self.input);
        ExerciseModel {
            input,
            cursor_visible: !self.cursor_visible,
            errors: saturating(self.errors as int, self.input.len() - input.len()),
            mseconds: saturating(self.mseconds as int, TICK_MILIS as int),
            ..self
        }
    }

    /// A key press, which only a focused line takes.
    pub open spec fn on_key(self, key: Key, text: Option<String>) -> ExerciseModel {
        if self.focus {
            ExerciseModel { input: typed(self.input, key, text), ..self }
        } else {
            self
        }
    }

    pub open spec fn on_message(self, message: Message) -> ExerciseModel {
        match message {
            Message::Tick => self.on_tick(),
            Message::Event(Event::KeyPressed { key, text, .. }) => self.on_key(key, text),
            Message::Event(_) => self,
            Message::SetFocus(focus) => ExerciseModel { focus, ..self },
        }
    }
}

/// The corrected text is a prefix of both the typed text and the target, and
/// it is the longest such: any longer prefix of the typed text is no prefix of
/// the target.
pub proof fn lemma_corrected_is_longest_matching_prefix(target: Seq<char>, input: Seq<char>)
    ensures
        corrected(target, input).is_prefix_of(input),
        corrected(target, input).is_prefix_of(target),
        forall|n: int|
            corrected(target, input).len() < n <= input.len() ==> !input.subrange(0, n).is_prefix_of(target),
    decreases input.len(),
{
    if input.len() == 0 || input.is_prefix_of(target) {
        assert(input.subrange(0, input.len() as int) =~= input);
    } else {
        let shorter = input.drop_last();
        lemma_corrected_is_longest_matching_prefix(target, shorter);
        assert forall|n: int|
            corrected(target, input).len() < n <= input.len() implies !input.subrange(0, n).is_prefix_of(target) by {
            if n < input.len() {
                assert(input.subrange(0, n) =~= shorter.subrange(0, n));
            } else {
                assert(input.subrange(0, n) =~= input);
            }
        }
    }
}

/// After a tick the typed text is a prefix of the target, whatever was typed
/// before it.
pub proof fn lemma_tick_leaves_prefix(m: ExerciseModel)
    ensures
        m.on_tick().input.is_prefix_of(m.target),
        !m.on_tick().mismatched(),
{
    lemma_corrected_is_longest_matching_prefix(m.target, m.input);
}

/// A tick counts one error for each character it takes back (while the count
/// stays below `u64::MAX`), and takes back only what went wrong: it keeps the
/// longest prefix of the typed text that is a prefix of the target.
pub proof fn lemma_tick_counts_removed(m: ExerciseModel)
    requires
        m.errors + m.input.len() <= u64::MAX,
    ensures
        m.on_tick().errors == m.errors + (m.input.len() - m.on_tick().input.len()),
        m.on_tick().input.is_prefix_of(m.input),
        forall|n: int|
            m.on_tick().input.len() < n <= m.input.len() ==> !m.input.subrange(0, n).is_prefix_of(m.target),
{
    lemma_corrected_is_longest_matching_prefix(m.target, m.input);
}

/// A line without the focus ignores every key press.
pub proof fn lemma_unfocused_ignores_keys(m: ExerciseModel, event: Event)
    requires
        !m.focus,
    ensures
        m.on_message(Message::Event(event)) == m,
{
}

/// Errors and time never decrease, whatever the message.
pub proof fn lemma_counters_monotonic(m: ExerciseModel, message: Message)
    ensures
        m.on_message(message).errors >= m.errors,
        m.on_message(message).mseconds >= m.mseconds,
{
    lemma_corrected_is_longest_matching_prefix(m.target, m.input);
}

/// An exercise line.
pub struct Exercise {
    cursor_visible: bool,
    input: String,
    exercise: String,
    focus: bool,
    errors: u64,
    mseconds: u64,
}

impl View for Exercise {
    type V = ExerciseModel;

    closed spec fn view(&self) -> ExerciseModel {
        ExerciseModel {
            target: self.exercise@,
            input: self.input@,
            cursor_visible: self.cursor_visible,
            focus: self.focus,
            errors: self.errors,
            mseconds: self.mseconds,
        }
    }
}

impl Exercise {
    pub fn new(exercise: &str) -> (r: Exercise)
        ensures
            r@ == ExerciseModel::start(exercise@),
    {
        Exercise {
            exercise: String::from_str(exercise),
            cursor_visible: false,
            input: String::new(),
            focus: false,
            errors: 0,
            mseconds: 0,
        }
    }

    /// Handles one message; returns whether the tick found a mismatch, which
    /// the caller signals to the learner.
    pub fn update(&mut self, message: &Message) -> (mismatch: bool)
        ensures
            final(self)@ == old(self)@.on_message(*message),
            mismatch == (*message is Tick && old(self)@.mismatched()),
    {
        match message {
            Message::Tick => self.tick(),
            Message::Event(Event::KeyPressed { key, text, .. }) => {
                self.press(key, text);
                false
            },
            Message::Event(_) => false,
            Message::SetFocus(focus) => {
                self.focus = *focus;
                false
            },
        }
    }

    /// Handles a keyboard event.
    pub fn handle_event(&mut self, event: &Event)
        ensures
            final(self)@ == old(self)@.on_message(Message::Event(*event)),
    {
        if let Event::KeyPressed { key, text, .. } = event {
            self.press(key, text);
        }
    }

    fn tick(&mut self) -> (mismatch: bool)
        ensures
            final(self)@ == old(self)@.on_tick(),
            mismatch == old(self)@.mismatched(),
    {
        self.mseconds = self.mseconds.saturating_add(TICK_MILIS);
        self.cursor_visible = !self.cursor_visible;
        let mismatch = !starts_with(self.exercise.as_str(), self.input.as_str());
        while !starts_with(self.exercise.as_str(), self.input.as_str()) && !self.input.as_str().is_empty()
            invariant
                self.exercise@ == old(self).exercise@,
                self.input@.len() <= old(self).input@.len(),
                corrected(self.exercise@, self.input@) == corrected(
                    old(self).exercise@,
                    old(self).input@,
                ),
                self.errors == saturating(
                    old(self).errors as int,
                    old(self).input@.len() - self.input@.len(),
                ),
                self.mseconds == saturating(old(self).mseconds as int, TICK_MILIS as int),
                self.cursor_visible == !old(self).cursor_visible,
                self.focus == old(self).focus,
            decreases self.input@.len(),
        {
            self.errors = self.errors.saturating_add(1);
            pop_char(&mut self.input);
        }
        mismatch
    }

    fn press(&mut self, key: &Key, text: &Option<String>)
        ensures
            final(self)@ == old(self)@.on_key(*key, *text),
    {
        if !self.focus {
            return;
        }
        if let Some(t) = text {
            match key {
                Key::Character(_) => {
                    self.input.append(t.as_str());
                },
                Key::Named(name) => {
                    if *name == String::from_str("Backspace") {
                        pop_char(&mut self.input);
                    } else if *name == String::from_str("Space") {
                        self.input.append(" ");
                        proof {
                            reveal_strlit(" ");
                        }
                        assert(self.input@ =~= old(self).input@.push(' '));
                    } else if *name == String::from_str("Tab") {
                        self.input.append("  ");
                        proof {
                            reveal_strlit("  ");
                        }
                        assert(self.input@ =~= old(self).input@ + seq![' ', ' ']);
                    }
                },
                Key::Unidentified => {},
            }
        }
    }

    pub fn set_focus(&mut self, focus: bool)
        ensures
            final(self)@ == (ExerciseModel { focus, ..old(self)@ }),
    {
        self.focus = focus;
    }

    /// Whether the typed text is exactly the target.
    pub fn exercise_finished(&self) -> (r: bool)
        ensures
            r == self@.finished(),
    {
        self.input == self.exercise
    }

    /// The text to type.
    pub fn exercise(&self) -> (r: &String)
        ensures
            r@ == self@.target,
    {
        &self.exercise
    }

    /// The text typed so far.
    pub fn input(&self) -> (r: &String)
        ensures
            r@ == self@.input,
    {
        &self.input
    }

    pub fn has_focus(&self) -> (r: bool)
        ensures
            r == self@.focus,
    {
        self.focus
    }

    pub fn cursor_visible(&self) -> (r: bool)
        ensures
            r == self@.cursor_visible,
    {
        self.cursor_visible
    }

    /// The errors counted on this line.
    pub fn errors(&self) -> (r: u64)
        ensures
            r == self@.errors,
    {
        self.errors
    }

    /// The time spent on this line, in milliseconds.
    pub fn mseconds(&self) -> (r: u64)
        ensures
            r == self@.mseconds,
    {
        self.mseconds
    }

    /// The typed text as the line shows it: followed by a cursor `_` while the
    /// cursor is up and the line has the focus, by a space otherwise.
    pub fn display_line(&self) -> (r: String)
        ensures
            r@ == self@.input.push(if self@.cursor_visible && self@.focus { '_' } else { ' ' }),
    {
        let mut line = self.input.clone();
        if self.cursor_visible && self.focus {
            line.append("_");
            proof {
                reveal_strlit("_");
            }
        } else {
            line.append(" ");
            proof {
                reveal_strlit(" ");
            }
        }
        assert(line@ =~= self@.input.push(if self@.cursor_visible && self@.focus { '_' } else { ' ' }));
        line
    }
}

} // verus!
