//! An exercise line as a lesson page holds it.
use vstd::prelude::*;
use vstd::string::*;

use crate::event::Event;
use crate::exercise::{Exercise, ExerciseModel, Message};

verus! {

/// An exercise line on a page. It behaves as [`Exercise`]; it also shows the
/// cursor on an empty line that has no focus.
pub struct ExerciseComponent {
    engine: Exercise,
}

impl View for ExerciseComponent {
    type V = ExerciseModel;

    closed spec fn view(&self) -> ExerciseModel {
        self.engine@
    }
}

impl ExerciseComponent {
    pub fn new(exercise: &str) -> (r: ExerciseComponent)
        ensures
            r@ == ExerciseModel::start(exercise@),
    {
        ExerciseComponent { engine: Exercise::new(exercise) }
    }

    /// Handles one message; returns whether the tick found a mismatch.
    pub fn update(&mut self, message: &Message) -> (mismatch: bool)
        ensures
            final(self)@ == old(self)@.on_message(*message),
            mismatch == (*message is Tick && old(self)@.mismatched()),
    {
        self.engine.update(message)
    }

    /// Handles a keyboard event.
    pub fn handle_event(&mut self, event: &Event)
        ensures
            final(self)@ == old(self)@.on_message(Message::Event(*event)),
    {
        self.engine.handle_event(event)
    }

    pub fn set_focus(&mut self, focus: bool)
        ensures
            final(self)@ == (ExerciseModel { focus, ..old(self)@ }),
    {
        self.engine.set_focus(focus)
    }

    /// Whether the typed text is exactly the target.
    pub fn exercise_finished(&self) -> (r: bool)
        ensures
            r == self@.finished(),
    {
        self.engine.exercise_finished()
    }

    /// The text to type.
    pub fn exercise(&self) -> (r: &String)
        ensures
            r@ == self@.target,
    {
        self.engine.exercise()
    }

    /// The text typed so far.
    pub fn input(&self) -> (r: &String)
        ensures
            r@ == self@.input,
    {
        self.engine.input()
    }

    pub fn has_focus(&self) -> (r: bool)
        ensures
            r == self@.focus,
    {
        self.engine.has_focus()
    }

    /// The errors counted on this line.
    pub fn errors(&self) -> (r: u64)
        ensures
            r == self@.errors,
    {
        self.engine.errors()
    }

    /// The time spent on this line, in milliseconds.
    pub fn mseconds(&self) -> (r: u64)
        ensures
            r == self@.mseconds,
    {
        self.engine.mseconds()
    }

    /// The typed text as the line shows it: followed by a cursor `_` while the
    /// cursor is up and the line has the focus or nothing to type, by a space
    /// otherwise.
    pub fn display_line(&self) -> (r: String)
        ensures
            r@ == self@.input.push(
                if self@.cursor_visible && (self@.focus || self@.target.len() == 0) {
                    '_'
                } else {
                    ' '
                },
            ),
    {
        let mut line = self.engine.input().clone();
        if self.engine.cursor_visible() && (self.engine.has_focus()
            || self.engine.exercise().as_str().is_empty()) {
            line.append("_");
            proof {
                reveal_strlit("_");
            }
        } else {
            line.append(" ");
            proof {
                reveal_strlit(" ");
            }
        }
        assert(line@ =~= self@.input.push(
            if self@.cursor_visible && (self@.focus || self@.target.len() == 0) {
                '_'
            } else {
                ' '
            },
        ));
        line
    }
}

} // verus!
