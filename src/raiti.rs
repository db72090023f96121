//! The tutor: the lesson and page being taken, the exercise lines of the page,
//! the keyboard overlay, the statistics of the last page, and the dialogs.
use vstd::prelude::*;
use vstd::string::*;

use crate::config::{Config, Exercise, IndexRecord, Key, Keyboard, Lesson, LessonPage, PressedKeyCoord};
use crate::event::{Event, Modifiers};
use crate::exercise::{ExerciseModel, Message as LineMessage};
use crate::exercise_component::ExerciseComponent;
use crate::keyboard_component::{KeyboardComponent, KeyboardModel, Message as KeyboardMessage};
use crate::stats::{calculate_stats, capped, lines_view, total_chars, total_errors, total_mseconds, wpm_hundredths};
use crate::text::{lines_of, split_lines};

verus! {

/// The dialog shown over the page, if any.
#[derive(Debug, Clone, Copy, Default, PartialEq, Eq, Structural)]
pub enum DialogType {
    #[default]
    NoDialog,
    ConfirmExitLesson,
    ConfirmExitApp,
}

/// What the tutor reacts to.
#[derive(Debug, Clone)]
pub enum Message {
    /// A keyboard event.
    Event(Event),
    /// The periodic tick.
    Tick,
    /// The learner picked a lesson in the index.
    LessonSelected(IndexRecord),
    /// The learner confirmed a dialog.
    Confirm(DialogType),
}

/// What the tutor asks its host to do after a message.
#[derive(Debug, Clone)]
pub enum Action {
    Nothing,
    /// Signal a typing mismatch to the learner.
    Beep,
    /// Read the lesson of this file and hand it to [`Raiti::load_lesson`].
    LoadLesson(String),
    /// Store the position and close the application.
    ExitWithSave,
}

/// An action, as plain values.
pub enum ActionModel {
    Nothing,
    Beep,
    LoadLesson(Seq<char>),
    ExitWithSave,
}

impl View for Action {
    type V = ActionModel;

    open spec fn view(&self) -> ActionModel {
        match self {
            Action::Nothing => ActionModel::Nothing,
            Action::Beep => ActionModel::Beep,
            Action::LoadLesson(file) => ActionModel::LoadLesson(file@),
            Action::ExitWithSave => ActionModel::ExitWithSave,
        }
    }
}

/// The lines of `texts`, fresh, the first one with the focus.
pub open spec fn focused_first(texts: Seq<Seq<char>>) -> Seq<ExerciseModel> {
    Seq::new(
        texts.len(),
        |i: int| ExerciseModel { focus: i == 0, ..ExerciseModel::start(texts[i]) },
    )
}

/// The lines that an exercise gives a page: none, its one line, or one per
/// line of its text; the first has the focus.
pub open spec fn page_lines(exercise: Option<Exercise>) -> Seq<ExerciseModel> {
    match exercise {
        Some(Exercise::OneLineNoEnter(line)) => focused_first(seq![line@]),
        Some(Exercise::Multiline(text)) => focused_first(lines_of(text@)),
        _ => Seq::empty(),
    }
}

/// Whether line `i` is the first one not typed yet.
pub open spec fn first_unfinished(lines: Seq<ExerciseModel>, i: int) -> bool {
    &&& 0 <= i < lines.len()
    &&& !lines[i].finished()
    &&& forall|j: int| 0 <= j < i ==> lines[j].finished()
}

/// The lines with the focus on the first one not typed yet, and on no other.
pub open spec fn focus_advanced(lines: Seq<ExerciseModel>) -> Seq<ExerciseModel> {
    Seq::new(
        lines.len(),
        |i: int| ExerciseModel { focus: first_unfinished(lines, i), ..lines[i] },
    )
}

/// The tutor's state, as plain values.
pub struct RaitiModel {
    pub config: Config,
    pub lesson: Option<Lesson>,
    pub lines: Seq<ExerciseModel>,
    pub was_errors: u64,
    pub was_wpm: i128,
    pub keyboard: KeyboardModel,
    pub dialog: DialogType,
}

impl RaitiModel {
    /// The exercise of the current page, if there is one.
    pub open spec fn current_exercise(self) -> Option<Exercise> {
        match self.lesson {
            Some(lesson) => match lesson.exercise_at(
                self.config.current_page as int,
                self.config.current_exercise as int,
            ) {
                Some(e) => Some(*e),
                None => None,
            },
            None => None,
        }
    }

    /// The page's lines rebuilt from its exercise.
    pub open spec fn constructed(self) -> RaitiModel {
        RaitiModel { lines: page_lines(self.current_exercise()), ..self }
    }

    /// The statistics of the page's lines kept as the last page's.
    pub open spec fn with_stats(self) -> RaitiModel {
        let chars = capped(total_chars(self.lines));
        let errors = capped(total_errors(self.lines));
        let mseconds = capped(total_mseconds(self.lines));
        RaitiModel {
            was_errors: errors as u64,
            was_wpm: wpm_hundredths(chars, errors, mseconds) as i128,
            ..self
        }
    }

    /// Whether the cursor is on a page of the current lesson (it is not once
    /// the lesson is done, or when no lesson is taken).
    pub open spec fn on_page(self) -> bool {
        match self.lesson {
            Some(lesson) => self.config.current_page < lesson.pages@.len(),
            None => false,
        }
    }

    /// Moving to the next page, which happens only once every line is typed
    /// and while the cursor is on a page: the statistics are taken, the lines
    /// and the keyboard cue are cleared, and the next page gets its lines and
    /// its cue. Past the last page the cursor stays one past the end, which
    /// marks the lesson as done, and the next lesson of the index, if any, is
    /// asked for.
    pub open spec fn move_next_page(self) -> (RaitiModel, ActionModel) {
        if !self.all_finished() || !self.on_page() {
            (self, ActionModel::Nothing)
        } else {
            let page = self.config.current_page.saturating_add(1);
            let s = RaitiModel {
                lines: Seq::empty(),
                keyboard: self.keyboard.cleared(),
                config: Config { current_page: page, ..self.config },
                ..self.with_stats()
            };
            match s.lesson {
                Some(lesson) => if page < lesson.pages@.len() {
                    let keys = lesson.pages@[page as int].show_keys@;
                    let keyboard = if keys.len() > 0 {
                        s.keyboard.with_queue(keys)
                    } else {
                        s.keyboard
                    };
                    (RaitiModel { keyboard, ..s }.constructed(), ActionModel::Nothing)
                } else {
                    (
                        s,
                        match s.config.index.lesson_after(s.config.current_lesson@) {
                            Some(file) => ActionModel::LoadLesson(file),
                            None => ActionModel::Nothing,
                        },
                    )
                },
                None => (s, ActionModel::Nothing),
            }
        }
    }

    /// The lesson left: no lesson, no lines, no keyboard cue.
    pub open spec fn closed_lesson(self) -> RaitiModel {
        RaitiModel {
            lesson: None,
            lines: Seq::empty(),
            keyboard: self.keyboard.cleared(),
            dialog: DialogType::NoDialog,
            ..self
        }
    }

    /// The focus put on the first line not typed yet, while some line is not.
    pub open spec fn focus_settled(self) -> RaitiModel {
        if self.all_finished() {
            self
        } else {
            RaitiModel { lines: focus_advanced(self.lines), ..self }
        }
    }

    /// Every line and the keyboard overlay take the event.
    pub open spec fn after_event(self, event: Event) -> RaitiModel {
        RaitiModel {
            lines: self.lines.map_values(
                |l: ExerciseModel| l.on_message(LineMessage::Event(event)),
            ),
            keyboard: self.keyboard.on_event(event),
            ..self
        }
    }

    /// What a pressed key does once the lines and the overlay took it: Enter
    /// confirms an open dialog, or else moves to the next page once every
    /// line is typed; Shift+Alt+ArrowDown moves to the next page likewise;
    /// Escape opens the dialog that asks to leave the lesson (or the
    /// application, outside a lesson), or closes the open one.
    pub open spec fn on_key_pressed(self, key: Key, modifiers: Modifiers) -> (RaitiModel, ActionModel) {
        match key {
            Key::Named(name) => if name@ == "ArrowDown"@ {
                if modifiers.shift && modifiers.alt {
                    self.move_next_page()
                } else {
                    (self, ActionModel::Nothing)
                }
            } else if name@ == "Enter"@ {
                if self.dialog == DialogType::ConfirmExitApp {
                    (self, ActionModel::ExitWithSave)
                } else if self.dialog == DialogType::ConfirmExitLesson {
                    (self.closed_lesson(), ActionModel::Nothing)
                } else {
                    self.move_next_page()
                }
            } else if name@ == "Escape"@ {
                let dialog = if self.dialog != DialogType::NoDialog {
                    DialogType::NoDialog
                } else if self.lesson is Some {
                    DialogType::ConfirmExitLesson
                } else {
                    DialogType::ConfirmExitApp
                };
                (RaitiModel { dialog, ..self }, ActionModel::Nothing)
            } else {
                (self, ActionModel::Nothing)
            },
            _ => (self, ActionModel::Nothing),
        }
    }

    /// A keyboard event: the lines and the overlay take it; a pressed key
    /// then acts, and the focus settles on the first line not typed yet.
    pub open spec fn on_event(self, event: Event) -> (RaitiModel, ActionModel) {
        let s = self.after_event(event);
        match event {
            Event::KeyPressed { key, modifiers, .. } => {
                let (n, a) = s.on_key_pressed(key, modifiers);
                (n.focus_settled(), a)
            },
            _ => (s, ActionModel::Nothing),
        }
    }

    /// A tick: every line and the overlay take it; a mismatch on any line
    /// asks for a beep.
    pub open spec fn on_tick(self) -> (RaitiModel, ActionModel) {
        (
            RaitiModel {
                lines: self.lines.map_values(|l: ExerciseModel| l.on_tick()),
                keyboard: self.keyboard.on_tick(),
                ..self
            },
            if exists|i: int| 0 <= i < self.lines.len() && (#[trigger] self.lines[i]).mismatched() {
                ActionModel::Beep
            } else {
                ActionModel::Nothing
            },
        )
    }

    pub open spec fn on_message(self, message: Message) -> (RaitiModel, ActionModel) {
        match message {
            Message::Event(event) => self.on_event(event),
            Message::Tick => self.on_tick(),
            Message::LessonSelected(record) => (
                RaitiModel { lines: Seq::empty(), ..self },
                ActionModel::LoadLesson(record.file@),
            ),
            Message::Confirm(dialog) => match dialog {
                DialogType::NoDialog => (self, ActionModel::Nothing),
                DialogType::ConfirmExitLesson => (self.closed_lesson(), ActionModel::Nothing),
                DialogType::ConfirmExitApp => (self, ActionModel::ExitWithSave),
            },
        }
    }

    /// Whether every line of the page is typed exactly (true of a page
    /// without lines).
    pub open spec fn all_finished(self) -> bool {
        forall|i: int| 0 <= i < self.lines.len() ==> self.lines[i].finished()
    }
}

/// The tutor.
pub struct Raiti {
    pub config: Config,
    pub lesson: Option<Lesson>,
    pub exercise_components: Vec<ExerciseComponent>,
    /// The errors of the last finished page.
    pub was_errors: u64,
    /// The words per minute of the last finished page, in hundredths.
    pub was_wpm: i128,
    pub keyboard: KeyboardComponent,
    pub dialog: DialogType,
}

impl View for Raiti {
    type V = RaitiModel;

    open spec fn view(&self) -> RaitiModel {
        RaitiModel {
            config: self.config,
            lesson: self.lesson,
            lines: lines_view(self.exercise_components@),
            was_errors: self.was_errors,
            was_wpm: self.was_wpm,
            keyboard: self.keyboard@,
            dialog: self.dialog,
        }
    }
}

/// After the focus moves on, the line with the focus is the first line not
/// typed yet, and no other line has it: when every line is typed, none has
/// it. Nothing else about the lines changes.
pub proof fn lemma_focus_on_first_unfinished(lines: Seq<ExerciseModel>)
    ensures
        focus_advanced(lines).len() == lines.len(),
        forall|i: int|
            0 <= i < lines.len() ==> (#[trigger] focus_advanced(lines)[i]).focus == first_unfinished(
                lines,
                i,
            ),
        forall|i: int, j: int|
            0 <= i < lines.len() && 0 <= j < lines.len() && focus_advanced(lines)[i].focus
                && focus_advanced(lines)[j].focus ==> i == j,
        (forall|i: int| 0 <= i < lines.len() ==> lines[i].finished()) ==> forall|i: int|
            0 <= i < lines.len() ==> !(#[trigger] focus_advanced(lines)[i]).focus,
        forall|i: int|
            0 <= i < lines.len() ==> (ExerciseModel {
                focus: lines[i].focus,
                ..#[trigger] focus_advanced(lines)[i]
            }) == lines[i],
{
    assert forall|i: int, j: int|
        0 <= i < lines.len() && 0 <= j < lines.len() && focus_advanced(lines)[i].focus
            && focus_advanced(lines)[j].focus implies i == j by {
        if i < j {
            assert(lines[i].finished());
        } else if j < i {
            assert(lines[j].finished());
        }
    }
}

/// The tutor moves to another page only once every line of the page is
/// typed: asked before that, it does nothing; and no message changes the
/// page unless it is a key press after which every line is typed.
pub proof fn lemma_page_moves_only_when_finished(m: RaitiModel, message: Message)
    ensures
        !m.all_finished() ==> m.move_next_page() == (m, ActionModel::Nothing),
        !m.on_page() ==> m.move_next_page() == (m, ActionModel::Nothing),
        m.on_message(message).0.config.current_page != m.config.current_page ==> (
        message matches Message::Event(event) && m.after_event(event).all_finished()),
{
}

/// Once the last page is done, the cursor stays one past the end of the
/// lesson, which stays current: the current page is gone, which marks the
/// lesson as done, and moving on again does nothing.
pub proof fn lemma_lesson_end_keeps_cursor_past_end(m: RaitiModel)
    requires
        m.all_finished(),
        m.lesson matches Some(lesson) && m.config.current_page + 1 == lesson.pages@.len(),
    ensures
        m.move_next_page().0.lesson == m.lesson,
        m.move_next_page().0.config.current_page == m.config.current_page + 1,
        m.move_next_page().0.lines == Seq::<ExerciseModel>::empty(),
        !m.move_next_page().0.on_page(),
        m.move_next_page().0.move_next_page().0 == m.move_next_page().0,
{
    let lesson = m.lesson->0;
    assert(lesson.pages@.len() == lesson.pages.len());
    assert(m.config.current_page.saturating_add(1) == m.config.current_page + 1);
}

/// Fresh lines for `texts`, the first one with the focus.
fn lines_for(texts: Vec<String>) -> (r: Vec<ExerciseComponent>)
    ensures
        lines_view(r@) == focused_first(texts@.map_values(|t: String| t@)),
{
    let ghost wanted = focused_first(texts@.map_values(|t: String| t@));
    let mut r: Vec<ExerciseComponent> = Vec::new();
    let mut i: usize = 0;
    while i < texts.len()
        invariant
            i <= texts@.len(),
            wanted == focused_first(texts@.map_values(|t: String| t@)),
            lines_view(r@) == wanted.subrange(0, i as int),
        decreases texts@.len() - i,
    {
        let mut line = ExerciseComponent::new(texts[i].as_str());
        if i == 0 {
            line.set_focus(true);
        }
        let ghost before = lines_view(r@);
        r.push(line);
        assert(lines_view(r@) =~= before.push(line@));
        assert(lines_view(r@) =~= wanted.subrange(0, i + 1));
        i += 1;
    }
    assert(wanted.subrange(0, texts@.len() as int) =~= wanted);
    r
}

/// The lines that `exercise` gives a page.
fn build_lines(exercise: Option<&Exercise>) -> (r: Vec<ExerciseComponent>)
    ensures
        lines_view(r@) == page_lines(
            match exercise {
                Some(e) => Some(*e),
                None => None,
            },
        ),
{
    match exercise {
        Some(Exercise::OneLineNoEnter(line)) => {
            let mut texts: Vec<String> = Vec::new();
            texts.push(line.clone());
            assert(texts@.map_values(|t: String| t@) =~= seq![line@]);
            lines_for(texts)
        },
        Some(Exercise::Multiline(text)) => {
            let texts = split_lines(text.as_str());
            lines_for(texts)
        },
        _ => {
            let r: Vec<ExerciseComponent> = Vec::new();
            assert(lines_view(r@) =~= Seq::empty());
            r
        },
    }
}

/// Each line handles the keyboard event.
fn lines_handle_event(lines: &mut Vec<ExerciseComponent>, event: &Event)
    ensures
        lines_view(final(lines)@) == lines_view(old(lines)@).map_values(
            |l: ExerciseModel| l.on_message(LineMessage::Event(*event)),
        ),
{
    let ghost wanted = lines_view(old(lines)@).map_values(
        |l: ExerciseModel| l.on_message(LineMessage::Event(*event)),
    );
    let mut i: usize = 0;
    while i < lines.len()
        invariant
            i <= lines@.len(),
            lines@.len() == old(lines)@.len(),
            wanted == lines_view(old(lines)@).map_values(
                |l: ExerciseModel| l.on_message(LineMessage::Event(*event)),
            ),
            forall|j: int| 0 <= j < i ==> lines@[j]@ == wanted[j],
            forall|j: int| i <= j < lines@.len() ==> lines@[j] == old(lines)@[j],
        decreases lines@.len() - i,
    {
        lines[i].handle_event(event);
        i += 1;
    }
    assert(lines_view(lines@) =~= wanted);
}

/// Each line takes the tick; returns whether any line found a mismatch.
fn lines_tick(lines: &mut Vec<ExerciseComponent>) -> (mismatch: bool)
    ensures
        lines_view(final(lines)@) == lines_view(old(lines)@).map_values(
            |l: ExerciseModel| l.on_tick(),
        ),
        mismatch == exists|i: int|
            0 <= i < old(lines)@.len() && (#[trigger] lines_view(old(lines)@)[i]).mismatched(),
{
    let ghost wanted = lines_view(old(lines)@).map_values(|l: ExerciseModel| l.on_tick());
    let mut mismatch = false;
    let mut i: usize = 0;
    while i < lines.len()
        invariant
            i <= lines@.len(),
            lines@.len() == old(lines)@.len(),
            wanted == lines_view(old(lines)@).map_values(|l: ExerciseModel| l.on_tick()),
            forall|j: int| 0 <= j < i ==> lines@[j]@ == wanted[j],
            forall|j: int| i <= j < lines@.len() ==> lines@[j] == old(lines)@[j],
            mismatch == exists|j: int|
                0 <= j < i && (#[trigger] lines_view(old(lines)@)[j]).mismatched(),
        decreases lines@.len() - i,
    {
        let m = lines[i].update(&LineMessage::Tick);
        if m {
            assert(lines_view(old(lines)@)[i as int].mismatched());
        }
        mismatch = mismatch || m;
        i += 1;
    }
    assert(lines_view(lines@) =~= wanted);
    mismatch
}

/// Gives the focus to the first line not typed yet, and takes it from every
/// other line.
fn lines_advance_focus(lines: &mut Vec<ExerciseComponent>)
    ensures
        lines_view(final(lines)@) == focus_advanced(lines_view(old(lines)@)),
{
    let ghost wanted = focus_advanced(lines_view(old(lines)@));
    let mut found = false;
    let mut i: usize = 0;
    while i < lines.len()
        invariant
            i <= lines@.len(),
            lines@.len() == old(lines)@.len(),
            wanted == focus_advanced(lines_view(old(lines)@)),
            forall|j: int| 0 <= j < i ==> lines@[j]@ == wanted[j],
            forall|j: int| i <= j < lines@.len() ==> lines@[j] == old(lines)@[j],
            found == exists|j: int| 0 <= j < i && !(#[trigger] lines_view(old(lines)@)[j]).finished(),
        decreases lines@.len() - i,
    {
        let done = lines[i].exercise_finished();
        proof {
            let v = lines_view(old(lines)@);
            if !found && !done {
                assert forall|j: int| 0 <= j < i implies v[j].finished() by {
                    if !v[j].finished() {
                        assert(exists|k: int| 0 <= k < i && !(#[trigger] v[k]).finished());
                    }
                }
                assert(first_unfinished(v, i as int));
            }
            if found {
                let k = choose|k: int| 0 <= k < i && !(#[trigger] v[k]).finished();
                assert(!first_unfinished(v, i as int));
            }
        }
        lines[i].set_focus(!found && !done);
        if !done {
            found = true;
        }
        i += 1;
    }
    assert(lines_view(lines@) =~= wanted);
}

/// A copy of a sequence of keys.
fn copy_keys(keys: &Vec<PressedKeyCoord>) -> (r: Vec<PressedKeyCoord>)
    ensures
        r@ == keys@,
{
    let mut r: Vec<PressedKeyCoord> = Vec::new();
    let mut i: usize = 0;
    while i < keys.len()
        invariant
            i <= keys@.len(),
            r@ == keys@.subrange(0, i as int),
        decreases keys@.len() - i,
    {
        r.push(keys[i]);
        assert(r@ =~= keys@.subrange(0, i + 1));
        i += 1;
    }
    assert(keys@.subrange(0, keys@.len() as int) =~= keys@);
    r
}

impl Raiti {
    /// The tutor at a stored position: `lesson` is the current lesson, if
    /// one is being taken, and `keyboard` the layout of the overlay.
    pub fn new(config: Config, lesson: Option<Lesson>, keyboard: Keyboard) -> (r: Raiti)
        ensures
            r@ == (RaitiModel {
                config,
                lesson,
                lines: Seq::empty(),
                was_errors: 0,
                was_wpm: 0,
                keyboard: KeyboardModel::start(keyboard),
                dialog: DialogType::NoDialog,
            }).constructed(),
            r.keyboard@.wf(),
    {
        let mut raiti = Raiti {
            config,
            lesson,
            exercise_components: Vec::new(),
            was_errors: 0,
            was_wpm: 0,
            keyboard: KeyboardComponent::new(keyboard),
            dialog: DialogType::NoDialog,
        };
        raiti.construct_exercise_components();
        raiti
    }

    /// Rebuilds the lines of the current page from its exercise.
    pub fn construct_exercise_components(&mut self)
        ensures
            final(self)@ == old(self)@.constructed(),
            final(self).keyboard == old(self).keyboard,
    {
        let exercise = match &self.lesson {
            Some(lesson) => lesson.get_exercise(self.config.current_page, self.config.current_exercise),
            None => None,
        };
        self.exercise_components = build_lines(exercise);
    }

    /// Whether every line of the page is typed exactly.
    pub fn all_finished(&self) -> (r: bool)
        ensures
            r == self@.all_finished(),
    {
        let mut i: usize = 0;
        while i < self.exercise_components.len()
            invariant
                i <= self.exercise_components@.len(),
                forall|j: int| 0 <= j < i ==> (#[trigger] self@.lines[j]).finished(),
            decreases self.exercise_components@.len() - i,
        {
            if !self.exercise_components[i].exercise_finished() {
                assert(!self@.lines[i as int].finished());
                return false;
            }
            i += 1;
        }
        true
    }

    /// Puts the focus on the first line not typed yet, and on no other.
    pub fn advance_focus(&mut self)
        ensures
            final(self)@ == (RaitiModel { lines: focus_advanced(old(self)@.lines), ..old(self)@ }),
    {
        lines_advance_focus(&mut self.exercise_components);
    }

    /// Keeps the statistics of the page's lines as the last page's.
    pub fn calculate_stats(&mut self)
        ensures
            final(self)@ == old(self)@.with_stats(),
    {
        let stats = calculate_stats(&self.exercise_components);
        self.was_errors = stats.errors;
        self.was_wpm = stats.wpm_hundredths;
    }

    /// Moves to the next page once every line is typed; until then, and once
    /// the lesson is done or when none is taken, it does nothing.
    pub fn move_next_page(&mut self) -> (action: Action)
        ensures
            final(self)@ == old(self)@.move_next_page().0,
            action@ == old(self)@.move_next_page().1,
    {
        if !self.all_finished() || self.current_page().is_none() {
            return Action::Nothing;
        }
        self.calculate_stats();
        self.exercise_components = Vec::new();
        assert(lines_view(self.exercise_components@) =~= Seq::empty());
        self.keyboard.update(KeyboardMessage::ClearKeys);
        self.config.next_page();
        let page_index = self.config.current_page;
        let mut lesson_done = false;
        match &self.lesson {
            Some(lesson) => {
                match lesson.get_page(page_index) {
                    Some(page) => {
                        if page.show_keys.len() > 0 {
                            let keys = copy_keys(&page.show_keys);
                            self.keyboard.update(KeyboardMessage::SetShowKeys(keys));
                        }
                    },
                    None => {
                        lesson_done = true;
                    },
                }
            },
            None => {
                return Action::Nothing;
            },
        }
        if !lesson_done {
            self.construct_exercise_components();
            return Action::Nothing;
        }
        match self.config.index.next_lesson(self.config.current_lesson.as_str()) {
            Some(file) => Action::LoadLesson(file),
            None => Action::Nothing,
        }
    }

    /// Opens the lesson read from `file_name` at its first page, with that
    /// page's lines.
    pub fn load_lesson(&mut self, file_name: &str, lesson: Lesson)
        ensures
            final(self).config.current_lesson@ == file_name@,
            final(self).config.current_page == 0,
            final(self).config.current_exercise == 0,
            final(self).config.index == old(self).config.index,
            final(self).config.current_keyboard == old(self).config.current_keyboard,
            final(self).lesson == Some(lesson),
            final(self)@.lines == page_lines(final(self)@.current_exercise()),
            final(self).keyboard == old(self).keyboard,
            final(self).was_errors == old(self).was_errors,
            final(self).was_wpm == old(self).was_wpm,
            final(self).dialog == old(self).dialog,
    {
        self.config.load_lesson(file_name);
        self.lesson = Some(lesson);
        self.construct_exercise_components();
    }

    /// The current page, or `None` once the lesson is done or none is taken.
    pub fn current_page(&self) -> (r: Option<&LessonPage>)
        ensures
            r == match self.lesson {
                Some(lesson) => if self.config.current_page < lesson.pages@.len() {
                    Some(&lesson.pages@[self.config.current_page as int])
                } else {
                    None
                },
                None => None,
            },
    {
        match &self.lesson {
            Some(lesson) => lesson.get_page(self.config.current_page),
            None => None,
        }
    }

    /// Handles one message, and says what the host must do next.
    pub fn update(&mut self, message: Message) -> (action: Action)
        ensures
            final(self)@ == old(self)@.on_message(message).0,
            action@ == old(self)@.on_message(message).1,
    {
        match message {
            Message::Event(event) => self.handle_event(event),
            Message::Tick => {
                let mismatch = lines_tick(&mut self.exercise_components);
                self.keyboard.update(KeyboardMessage::Tick);
                if mismatch {
                    Action::Beep
                } else {
                    Action::Nothing
                }
            },
            Message::LessonSelected(record) => {
                self.exercise_components = Vec::new();
                assert(lines_view(self.exercise_components@) =~= Seq::empty());
                Action::LoadLesson(record.file)
            },
            Message::Confirm(dialog) => match dialog {
                DialogType::NoDialog => Action::Nothing,
                DialogType::ConfirmExitLesson => {
                    self.close_lesson();
                    Action::Nothing
                },
                DialogType::ConfirmExitApp => Action::ExitWithSave,
            },
        }
    }

    fn handle_event(&mut self, event: Event) -> (action: Action)
        ensures
            final(self)@ == old(self)@.on_event(event).0,
            action@ == old(self)@.on_event(event).1,
    {
        lines_handle_event(&mut self.exercise_components, &event);
        self.keyboard.handle_event(&event);
        let action = match &event {
            Event::KeyPressed { key, modifiers, .. } => self.handle_key_press(key, *modifiers),
            _ => {
                return Action::Nothing;
            },
        };
        if !self.all_finished() {
            self.advance_focus();
        }
        action
    }

    fn handle_key_press(&mut self, key: &Key, modifiers: Modifiers) -> (action: Action)
        ensures
            final(self)@ == old(self)@.on_key_pressed(*key, modifiers).0,
            action@ == old(self)@.on_key_pressed(*key, modifiers).1,
    {
        if let Key::Named(name) = key {
            if *name == String::from_str("ArrowDown") {
                if modifiers.shift && modifiers.alt {
                    return self.move_next_page();
                }
            } else if *name == String::from_str("Enter") {
                if self.dialog == DialogType::ConfirmExitApp {
                    return Action::ExitWithSave;
                }
                if self.dialog == DialogType::ConfirmExitLesson {
                    self.close_lesson();
                    return Action::Nothing;
                }
                return self.move_next_page();
            } else if *name == String::from_str("Escape") {
                if self.dialog == DialogType::NoDialog {
                    if self.lesson.is_some() {
                        self.dialog = DialogType::ConfirmExitLesson;
                    } else {
                        self.dialog = DialogType::ConfirmExitApp;
                    }
                } else {
                    self.dialog = DialogType::NoDialog;
                }
            }
        }
        Action::Nothing
    }

    /// Leaves the lesson: its lines and the keyboard cue go with it.
    fn close_lesson(&mut self)
        ensures
            final(self)@ == old(self)@.closed_lesson(),
    {
        self.lesson = None;
        self.exercise_components = Vec::new();
        assert(lines_view(self.exercise_components@) =~= Seq::empty());
        self.keyboard.update(KeyboardMessage::ClearKeys);
        self.dialog = DialogType::NoDialog;
    }
}
} // verus!
