use raiti::{Config, Configuration, ExerciseSpec, Index, IndexRecord, Lesson, LessonPage};

fn index() -> Index {
    Index {
        lessons: vec![
            IndexRecord { file: "intro".to_string(), title: "Intro".to_string() },
            IndexRecord { file: "home".to_string(), title: "Home row".to_string() },
            IndexRecord { file: "top".to_string(), title: "Top row".to_string() },
        ],
    }
}

fn lesson() -> Lesson {
    let page = |exercises: Vec<ExerciseSpec>| LessonPage { title: "t".to_string(), exercises, ..LessonPage::default() };
    Lesson {
        pages: vec![
            page(vec![ExerciseSpec::OneLineNoEnter("a".to_string()), ExerciseSpec::Multiline("b\nc".to_string())]),
            page(vec![]),
        ],
    }
}

#[test]
fn next_lesson_follows_index() {
    let index = index();
    assert_eq!(index.next_lesson("intro"), Some("home".to_string()));
    assert_eq!(index.next_lesson("home"), Some("top".to_string()));
    assert_eq!(index.next_lesson("top"), None);
    assert_eq!(index.next_lesson("missing"), None);
    assert_eq!(Index::default().next_lesson("intro"), None);
}

#[test]
fn index_record_shows_title() {
    let record = IndexRecord { file: "home".to_string(), title: "Home row".to_string() };
    assert_eq!(record.to_string(), "Home row");
}

#[test]
fn first_run_position() {
    let c = Configuration::first_run();
    assert_eq!(c.current_keyboard, "querty");
    assert_eq!(c.current_lesson, "intro");
    assert_eq!(c.current_page, 0);
    assert_eq!(c.current_exercise, 0);
}

#[test]
fn config_keeps_position() {
    let mut config = Config::new(
        Configuration { current_keyboard: "k".to_string(), current_lesson: "intro".to_string(), current_page: 3, current_exercise: 1 },
        index(),
    );
    config.next_page();
    assert_eq!(config.current_page, 4);
    config.load_lesson("home");
    assert_eq!(config.current_lesson, "home");
    assert_eq!(config.current_page, 0);
    assert_eq!(config.current_exercise, 0);
    let stored = config.configuration();
    assert_eq!(stored.current_keyboard, "k");
    assert_eq!(stored.current_lesson, "home");
    assert_eq!(stored.current_page, 0);
    config.current_page = usize::MAX;
    config.next_page();
    assert_eq!(config.current_page, usize::MAX);
}

#[test]
fn next_exercise_stays_on_page() {
    let lesson = lesson();
    let mut config = Config::new(Configuration::first_run(), index());
    config.next_exercise(&lesson);
    assert_eq!(config.current_exercise, 1);
    config.next_exercise(&lesson);
    assert_eq!(config.current_exercise, 1);
    config.current_page = 1;
    config.current_exercise = 0;
    config.next_exercise(&lesson);
    assert_eq!(config.current_exercise, 0);
}

#[test]
fn lesson_lookups() {
    let lesson = lesson();
    assert_eq!(lesson.get_page(0).unwrap().exercises.len(), 2);
    assert!(lesson.get_page(2).is_none());
    assert!(matches!(lesson.get_exercise(0, 1), Some(ExerciseSpec::Multiline(t)) if t == "b\nc"));
    assert!(lesson.get_exercise(0, 2).is_none());
    assert!(lesson.get_exercise(1, 0).is_none());
    assert!(lesson.get_exercise(5, 0).is_none());
}
