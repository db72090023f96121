use raiti::exercise::Message;
use raiti::{calculate_stats, Event, ExerciseComponent, Key, Location, Modifiers, Stats};

fn type_into(c: &mut ExerciseComponent, s: &str) {
    for ch in s.chars() {
        let t = ch.to_string();
        c.handle_event(&Event::KeyPressed {
            key: Key::Character(t.clone()),
            location: Location::Standard,
            modifiers: Modifiers::default(),
            text: Some(t),
        });
    }
}

#[test]
fn wpm_of_one_finished_line() {
    let target = "abcde abcde abcde abcde a";
    assert_eq!(target.chars().count(), 25);
    let mut c = ExerciseComponent::new(target);
    c.set_focus(true);
    type_into(&mut c, "vwxyz");
    c.update(&Message::Tick);
    assert_eq!(c.errors(), 5);
    type_into(&mut c, target);
    for _ in 1..120 {
        c.update(&Message::Tick);
    }
    assert!(c.exercise_finished());
    assert_eq!(c.mseconds(), 60000);
    let stats = calculate_stats(&vec![c]);
    assert_eq!(stats, Stats { wpm_hundredths: 400, errors: 5 });
}

#[test]
fn stats_sum_over_lines() {
    let mut a = ExerciseComponent::new("abc");
    let mut b = ExerciseComponent::new("de");
    a.set_focus(true);
    b.set_focus(true);
    type_into(&mut a, "x");
    type_into(&mut b, "yz");
    for _ in 0..3 {
        a.update(&Message::Tick);
        b.update(&Message::Tick);
    }
    // 5 characters, 3 errors, 3000 ms: (2 / 5) / (3000 / 60000) = 8 wpm
    let stats = calculate_stats(&vec![a, b]);
    assert_eq!(stats.errors, 3);
    assert_eq!(stats.wpm_hundredths, 800);
}

#[test]
fn stats_round_to_hundredths() {
    let mut a = ExerciseComponent::new("ab");
    for _ in 0..3 {
        a.update(&Message::Tick);
    }
    // (2 / 5) / (1500 / 60000) = 16 wpm
    assert_eq!(calculate_stats(&vec![a]).wpm_hundredths, 1600);
    let mut b = ExerciseComponent::new("abcdefg");
    for _ in 0..7 {
        b.update(&Message::Tick);
    }
    // (7 / 5) / (3500 / 60000) = 24 wpm
    assert_eq!(calculate_stats(&vec![b]).wpm_hundredths, 2400);
    let mut c = ExerciseComponent::new("a");
    for _ in 0..3 {
        c.update(&Message::Tick);
    }
    // (1 / 5) / (1500 / 60000) = 8 wpm
    assert_eq!(calculate_stats(&vec![c]).wpm_hundredths, 800);
    let mut d = ExerciseComponent::new("a");
    for _ in 0..7 {
        d.update(&Message::Tick);
    }
    // (1 / 5) / (3500 / 60000) = 3.428.. wpm
    assert_eq!(calculate_stats(&vec![d]).wpm_hundredths, 343);
}

#[test]
fn stats_without_time_are_zero() {
    let c = ExerciseComponent::new("abc");
    assert_eq!(calculate_stats(&vec![c]), Stats { wpm_hundredths: 0, errors: 0 });
    assert_eq!(calculate_stats(&vec![]), Stats { wpm_hundredths: 0, errors: 0 });
}

#[test]
fn stats_can_be_negative() {
    let mut c = ExerciseComponent::new("a");
    c.set_focus(true);
    type_into(&mut c, "xyz");
    c.update(&Message::Tick);
    c.update(&Message::Tick);
    // (1 - 3) / 5 / (1000 / 60000) = -24 wpm
    assert_eq!(calculate_stats(&vec![c]).wpm_hundredths, -2400);
}
