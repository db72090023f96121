use raiti::exercise::Message as LineMessage;
use raiti::raiti::Message;
use raiti::text::split_lines;
use raiti::{
    Action, Config, Configuration, DialogType, Event, ExerciseSpec, Index, IndexRecord, Key, Keyboard,
    Lesson, LessonPage, Location, Modifiers, PressedKeyCoord, Raiti,
};

fn page(title: &str, exercises: Vec<ExerciseSpec>, show_keys: Vec<PressedKeyCoord>) -> LessonPage {
    LessonPage {
        title: title.to_string(),
        content: "wpm {{wpm}}".to_string(),
        show_keys,
        keyboard: true,
        exercises,
        content2: String::new(),
    }
}

fn index() -> Index {
    Index {
        lessons: vec![
            IndexRecord { file: "intro".to_string(), title: "Intro".to_string() },
            IndexRecord { file: "home".to_string(), title: "Home row".to_string() },
        ],
    }
}

fn config(lesson: &str) -> Config {
    Config::new(
        Configuration {
            current_keyboard: "querty".to_string(),
            current_lesson: lesson.to_string(),
            current_page: 0,
            current_exercise: 0,
        },
        index(),
    )
}

fn two_pages() -> Lesson {
    Lesson {
        pages: vec![
            page("one", vec![ExerciseSpec::Multiline("ab\ncd".to_string())], vec![]),
            page("two", vec![ExerciseSpec::OneLineNoEnter("x".to_string())], vec![PressedKeyCoord { row: 0, key: 1 }]),
        ],
    }
}

fn key(name: &str) -> Event {
    Event::KeyPressed {
        key: Key::Named(name.to_string()),
        location: Location::Standard,
        modifiers: Modifiers::default(),
        text: None,
    }
}

fn type_char(r: &mut Raiti, ch: &str) {
    r.update(Message::Event(Event::KeyPressed {
        key: Key::Character(ch.to_string()),
        location: Location::Standard,
        modifiers: Modifiers::default(),
        text: Some(ch.to_string()),
    }));
}

fn type_text(r: &mut Raiti, s: &str) {
    for ch in s.chars() {
        type_char(r, &ch.to_string());
    }
}

#[test]
fn multiline_gives_one_line_each_first_focused() {
    let r = Raiti::new(config("intro"), Some(two_pages()), Keyboard::default());
    assert_eq!(r.exercise_components.len(), 2);
    assert_eq!(r.exercise_components[0].exercise(), "ab");
    assert_eq!(r.exercise_components[1].exercise(), "cd");
    assert!(r.exercise_components[0].has_focus());
    assert!(!r.exercise_components[1].has_focus());
}

#[test]
fn single_line_gets_focus() {
    let mut c = config("intro");
    c.current_page = 1;
    let r = Raiti::new(c, Some(two_pages()), Keyboard::default());
    assert_eq!(r.exercise_components.len(), 1);
    assert_eq!(r.exercise_components[0].exercise(), "x");
    assert!(r.exercise_components[0].has_focus());
}

#[test]
fn no_exercise_gives_no_lines() {
    let lesson = Lesson { pages: vec![page("p", vec![ExerciseSpec::Empty], vec![]), page("q", vec![], vec![])] };
    let r = Raiti::new(config("intro"), Some(lesson.clone()), Keyboard::default());
    assert!(r.exercise_components.is_empty());
    assert!(r.all_finished());
    let r = Raiti::new(config("intro"), None, Keyboard::default());
    assert!(r.exercise_components.is_empty());
    assert!(r.current_page().is_none());
}

#[test]
fn split_lines_as_str_lines() {
    for text in ["ab\ncd", "ab\r\ncd\n", "", "\n", "a\n\nb", "a\r", "x\ny\r\n\r\nz"] {
        let expected: Vec<String> = text.lines().map(|l| l.to_string()).collect();
        assert_eq!(split_lines(text), expected, "text {text:?}");
    }
}

#[test]
fn focus_moves_to_first_unfinished_after_keystroke() {
    let mut r = Raiti::new(config("intro"), Some(two_pages()), Keyboard::default());
    type_text(&mut r, "a");
    assert!(r.exercise_components[0].has_focus());
    type_text(&mut r, "b");
    assert!(r.exercise_components[0].exercise_finished());
    assert!(!r.exercise_components[0].has_focus());
    assert!(r.exercise_components[1].has_focus());
    assert!(matches!(r.update(Message::Event(key("Enter"))), Action::Nothing));
    assert!(!r.exercise_components[0].has_focus());
    assert!(r.exercise_components[1].has_focus());
    assert_eq!(r.config.current_page, 0);
    type_text(&mut r, "c");
    assert_eq!(r.exercise_components[1].input(), "c");
    assert_eq!(r.exercise_components[0].input(), "ab");
}

#[test]
fn advance_focus_none_when_all_finished() {
    let mut r = Raiti::new(config("intro"), Some(two_pages()), Keyboard::default());
    type_text(&mut r, "ab");
    r.advance_focus();
    type_text(&mut r, "cd");
    r.advance_focus();
    assert!(r.exercise_components.iter().all(|c| !c.has_focus()));
}

#[test]
fn page_does_not_move_before_all_finished() {
    let mut r = Raiti::new(config("intro"), Some(two_pages()), Keyboard::default());
    type_text(&mut r, "ab");
    assert!(!r.all_finished());
    let action = r.move_next_page();
    assert!(matches!(action, Action::Nothing));
    assert_eq!(r.config.current_page, 0);
    assert_eq!(r.exercise_components.len(), 2);
    let mut shortcut = Modifiers::default();
    shortcut.shift = true;
    shortcut.alt = true;
    r.update(Message::Event(Event::KeyPressed {
        key: Key::Named("ArrowDown".to_string()),
        location: Location::Standard,
        modifiers: shortcut,
        text: None,
    }));
    assert_eq!(r.config.current_page, 0);
}

#[test]
fn enter_after_finishing_moves_to_next_page() {
    let mut r = Raiti::new(config("intro"), Some(two_pages()), Keyboard::default());
    type_text(&mut r, "ab");
    r.update(Message::Event(key("Enter")));
    type_text(&mut r, "cd");
    for _ in 0..4 {
        r.update(Message::Tick);
    }
    r.update(Message::Event(key("Enter")));
    assert_eq!(r.config.current_page, 1);
    assert_eq!(r.current_page().unwrap().title, "two");
    assert_eq!(r.exercise_components.len(), 1);
    assert!(r.exercise_components[0].has_focus());
    assert_eq!(r.keyboard.show_keys(), &vec![PressedKeyCoord { row: 0, key: 1 }]);
    assert_eq!(r.was_errors, 0);
    // 4 characters in 2 lines x 4 ticks x 500 ms = 4000 ms: (4 / 5) / (4000 / 60000) = 12 wpm
    assert_eq!(r.was_wpm, 1200);
}

#[test]
fn lesson_end_keeps_cursor_past_last_page() {
    let mut c = config("intro");
    c.current_page = 1;
    let mut r = Raiti::new(c, Some(two_pages()), Keyboard::default());
    type_text(&mut r, "x");
    let action = r.update(Message::Event(key("Enter")));
    match action {
        Action::LoadLesson(file) => assert_eq!(file, "home"),
        _ => panic!("expected the next lesson"),
    }
    assert!(r.lesson.is_some());
    assert_eq!(r.config.current_page, 2);
    assert!(r.current_page().is_none());
    assert!(r.exercise_components.is_empty());
    assert!(r.keyboard.show_keys().is_empty());
    let again = r.update(Message::Event(key("Enter")));
    assert!(matches!(again, Action::Nothing));
    assert_eq!(r.config.current_page, 2);
    assert!(matches!(r.move_next_page(), Action::Nothing));
    assert_eq!(r.config.current_page, 2);
    r.load_lesson("home", two_pages());
    assert_eq!(r.config.current_lesson, "home");
    assert_eq!(r.config.current_page, 0);
    assert_eq!(r.exercise_components.len(), 2);
    assert_eq!(r.current_page().unwrap().title, "one");
}

#[test]
fn last_lesson_end_asks_for_nothing() {
    let mut c = config("home");
    c.current_page = 1;
    let mut r = Raiti::new(c, Some(two_pages()), Keyboard::default());
    type_text(&mut r, "x");
    let action = r.update(Message::Event(key("Enter")));
    assert!(matches!(action, Action::Nothing));
    assert!(r.lesson.is_some());
    assert_eq!(r.config.current_page, 2);
    assert!(r.current_page().is_none());
}

#[test]
fn no_page_move_without_lesson() {
    let mut r = Raiti::new(config("intro"), None, Keyboard::default());
    assert!(matches!(r.update(Message::Event(key("Enter"))), Action::Nothing));
    assert_eq!(r.config.current_page, 0);
}

#[test]
fn tick_asks_for_beep_on_mismatch() {
    let mut r = Raiti::new(config("intro"), Some(two_pages()), Keyboard::default());
    assert!(matches!(r.update(Message::Tick), Action::Nothing));
    type_text(&mut r, "ax");
    assert!(matches!(r.update(Message::Tick), Action::Beep));
    assert_eq!(r.exercise_components[0].input(), "a");
    assert_eq!(r.exercise_components[0].errors(), 1);
    assert!(matches!(r.update(Message::Tick), Action::Nothing));
}

#[test]
fn escape_and_confirm_dialogs() {
    let mut r = Raiti::new(config("intro"), Some(two_pages()), Keyboard::default());
    r.update(Message::Event(key("Escape")));
    assert_eq!(r.dialog, DialogType::ConfirmExitLesson);
    r.update(Message::Event(key("Escape")));
    assert_eq!(r.dialog, DialogType::NoDialog);
    r.update(Message::Event(key("Escape")));
    r.update(Message::Event(key("Enter")));
    assert_eq!(r.dialog, DialogType::NoDialog);
    assert!(r.lesson.is_none());
    assert!(r.exercise_components.is_empty());
    r.update(Message::Event(key("Escape")));
    assert_eq!(r.dialog, DialogType::ConfirmExitApp);
    assert!(matches!(r.update(Message::Event(key("Enter"))), Action::ExitWithSave));
    assert!(matches!(r.update(Message::Confirm(DialogType::ConfirmExitApp)), Action::ExitWithSave));
    assert!(matches!(r.update(Message::Confirm(DialogType::NoDialog)), Action::Nothing));
}

#[test]
fn confirm_exit_lesson_closes_it() {
    let mut r = Raiti::new(config("intro"), Some(two_pages()), Keyboard::default());
    r.update(Message::Event(key("Escape")));
    r.update(Message::Confirm(DialogType::ConfirmExitLesson));
    assert!(r.lesson.is_none());
    assert_eq!(r.dialog, DialogType::NoDialog);
    assert!(r.exercise_components.is_empty());
    assert!(r.keyboard.show_keys().is_empty());
    assert!(matches!(r.update(Message::Tick), Action::Nothing));
}

#[test]
fn lesson_selected_asks_for_it() {
    let mut r = Raiti::new(config("intro"), Some(two_pages()), Keyboard::default());
    let record = IndexRecord { file: "home".to_string(), title: "Home row".to_string() };
    match r.update(Message::LessonSelected(record)) {
        Action::LoadLesson(file) => assert_eq!(file, "home"),
        _ => panic!("expected a lesson to load"),
    }
    assert!(r.exercise_components.is_empty());
}

#[test]
fn lines_take_set_focus_message() {
    let mut r = Raiti::new(config("intro"), Some(two_pages()), Keyboard::default());
    r.exercise_components[1].update(&LineMessage::SetFocus(true));
    r.advance_focus();
    assert!(r.exercise_components[0].has_focus());
    assert!(!r.exercise_components[1].has_focus());
}
