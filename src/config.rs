//! Lesson, keyboard and position data, as read from the configuration files.
use vstd::prelude::*;
use vstd::string::*;

pub mod exercise;
pub mod index;
pub mod keyboard;
pub mod lesson;

pub use exercise::Exercise;
pub use index::{Index, IndexRecord};
pub use keyboard::{default_location, Key, KeySpec, Keyboard, Location, PressedKeyCoord, Row};
pub use lesson::{Lesson, LessonPage};

verus! {

/// The position that is kept between runs: the layout, the lesson, and the
/// page and exercise in it.
#[derive(Debug, Clone, Default)]
pub struct Configuration {
    pub current_keyboard: String,
    pub current_lesson: String,
    pub current_page: usize,
    pub current_exercise: usize,
}

impl Configuration {
    /// Where a first run starts: the "querty" layout, at the start of the
    /// "intro" lesson.
    pub fn first_run() -> (r: Configuration)
        ensures
            r.current_keyboard@ == "querty"@,
            r.current_lesson@ == "intro"@,
            r.current_page == 0,
            r.current_exercise == 0,
    {
        Configuration {
            current_keyboard: String::from_str("querty"),
            current_lesson: String::from_str("intro"),
            current_page: 0,
            current_exercise: 0,
        }
    }
}

/// The lesson index and the position in the lessons.
#[derive(Debug, Clone, Default)]
pub struct Config {
    pub index: Index,
    pub current_keyboard: String,
    pub current_lesson: String,
    pub current_page: usize,
    pub current_exercise: usize,
}

impl Config {
    /// The configuration of a stored position and a lesson index.
    pub fn new(configuration: Configuration, index: Index) -> (r: Config)
        ensures
            r.index == index,
            r.current_keyboard == configuration.current_keyboard,
            r.current_lesson == configuration.current_lesson,
            r.current_page == configuration.current_page,
            r.current_exercise == configuration.current_exercise,
    {
        Config {
            index,
            current_keyboard: configuration.current_keyboard,
            current_lesson: configuration.current_lesson,
            current_page: configuration.current_page,
            current_exercise: configuration.current_exercise,
        }
    }

    /// The position to store.
    pub fn configuration(&self) -> (r: Configuration)
        ensures
            r.current_keyboard@ == self.current_keyboard@,
            r.current_lesson@ == self.current_lesson@,
            r.current_page == self.current_page,
            r.current_exercise == self.current_exercise,
    {
        Configuration {
            current_keyboard: self.current_keyboard.clone(),
            current_lesson: self.current_lesson.clone(),
            current_page: self.current_page,
            current_exercise: self.current_exercise,
        }
    }

    /// Moves to the next page. A page index past the lesson's last page
    /// means that the lesson is done. (The index stops at `usize::MAX`.)
    pub fn next_page(&mut self)
        ensures
            final(self).current_page == old(self).current_page.saturating_add(1),
            final(self).current_exercise == old(self).current_exercise,
            final(self).current_lesson == old(self).current_lesson,
            final(self).current_keyboard == old(self).current_keyboard,
            final(self).index == old(self).index,
    {
        self.current_page = self.current_page.saturating_add(1);
    }

    /// Moves to the next exercise of the current page of `lesson`, if the
    /// page has one; else the position stays.
    pub fn next_exercise(&mut self, lesson: &Lesson)
        ensures
            final(self).current_exercise == if lesson.exercise_at(
                old(self).current_page as int,
                old(self).current_exercise + 1,
            ) is Some {
                old(self).current_exercise + 1
            } else {
                old(self).current_exercise as int
            },
            final(self).current_page == old(self).current_page,
            final(self).current_lesson == old(self).current_lesson,
            final(self).current_keyboard == old(self).current_keyboard,
            final(self).index == old(self).index,
    {
        if let Some(page) = lesson.get_page(self.current_page) {
            if self.current_exercise < page.exercises.len() && page.exercises.len()
                - self.current_exercise > 1 {
                self.current_exercise += 1;
            }
        }
    }

    /// Makes `file_name` the current lesson, at its start.
    pub fn load_lesson(&mut self, file_name: &str)
        ensures
            final(self).current_lesson@ == file_name@,
            final(self).current_page == 0,
            final(self).current_exercise == 0,
            final(self).current_keyboard == old(self).current_keyboard,
            final(self).index == old(self).index,
    {
        self.current_lesson = String::from_str(file_name);
        self.current_exercise = 0;
        self.current_page = 0;
    }
}

} // verus!
