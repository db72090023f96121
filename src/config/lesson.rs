//! Lessons: pages of text, with keys to cue and exercises to type.
use vstd::prelude::*;

use super::exercise::Exercise;
use super::keyboard::PressedKeyCoord;

verus! {

/// One page of a lesson.
#[derive(Debug, Clone, Default)]
pub struct LessonPage {
    pub title: String,
    /// The text above the exercises; it may hold `{{wpm}}` and `{{errors}}`.
    pub content: String,
    /// The keys that the keyboard overlay cues, in order.
    pub show_keys: Vec<PressedKeyCoord>,
    /// Whether the page shows the keyboard.
    pub keyboard: bool,
    pub exercises: Vec<Exercise>,
    /// The text below the exercises.
    pub content2: String,
}

/// A lesson: its pages, in order.
#[derive(Debug, Clone, Default)]
pub struct Lesson {
    pub pages: Vec<LessonPage>,
}

impl Lesson {
    /// The page at `page_index`, if the lesson has one there.
    pub fn get_page(&self, page_index: usize) -> (r: Option<&LessonPage>)
        ensures
            page_index < self.pages@.len() ==> r == Some(&self.pages@[page_index as int]),
            page_index >= self.pages@.len() ==> r is None,
    {
        if page_index < self.pages.len() {
            Some(&self.pages[page_index])
        } else {
            None
        }
    }

    /// The exercise at `current_exercise` of the page at `current_page`, if
    /// there is one.
    pub fn get_exercise(&self, current_page: usize, current_exercise: usize) -> (r: Option<
        &Exercise,
    >)
        ensures
            r == self.exercise_at(current_page as int, current_exercise as int),
    {
        match self.get_page(current_page) {
            Some(page) => {
                if current_exercise < page.exercises.len() {
                    Some(&page.exercises[current_exercise])
                } else {
                    None
                }
            },
            None => None,
        }
    }

    pub open spec fn exercise_at(&self, page: int, exercise: int) -> Option<&Exercise> {
        if 0 <= page < self.pages@.len() && 0 <= exercise < self.pages@[page].exercises@.len() {
            Some(&self.pages@[page].exercises@[exercise])
        } else {
            None
        }
    }
}

} // verus!
