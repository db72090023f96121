//! A touch-typing tutor's core: exercise lines that check what is typed,
//! lessons made of pages, a keyboard overlay that cues the next key, and the
//! statistics shown when a page is done.
pub mod config;
pub mod event;
pub mod exercise;
pub mod exercise_component;
pub mod keyboard_component;
pub mod raiti;
pub mod stats;
pub mod text;

pub use config::{
    Config, Configuration, Exercise as ExerciseSpec, Index, IndexRecord, Key, KeySpec, Keyboard,
    Lesson, LessonPage, Location, PressedKeyCoord, Row,
};
pub use event::{Event, Modifiers};
pub use exercise::{Exercise, TICK_MILIS};
pub use exercise_component::ExerciseComponent;
pub use keyboard_component::KeyboardComponent;
pub use raiti::{Action, DialogType, Raiti};
pub use stats::{calculate_stats, Stats};
