use basic_practice::addable::{AStruct, Addable, CStruct};
use basic_practice::events::{consumer_continues, producer_events, Event};
use basic_practice::lines::{LineProgress, ReadStep, MAX_LINES};
use basic_practice::shared::{get_random_index, init};
use basic_practice::text::{eq_ignore_ascii_case, i64_text, strip_line_end, trim, u64_text};

#[test]
fn decimal_text() {
    assert_eq!(u64_text(0), "0");
    assert_eq!(u64_text(1024), "1024");
    assert_eq!(u64_text(u64::MAX), u64::MAX.to_string());
    assert_eq!(i64_text(-42), "-42");
    assert_eq!(i64_text(i64::MIN), i64::MIN.to_string());
    assert_eq!(i64_text(7), "7");
}

#[test]
fn trimming() {
    assert_eq!(trim("  a b \t"), "a b");
    assert_eq!(trim("\u{2003}x\u{205f}"), "x");
    assert_eq!(trim("   "), "");
    assert_eq!(strip_line_end("ab\r\n\n"), "ab");
    assert_eq!(strip_line_end("ab \n"), "ab ");
    assert!(eq_ignore_ascii_case("QUIT", "quit"));
    assert!(!eq_ignore_ascii_case("quit", "quiz"));
    assert!(!eq_ignore_ascii_case("quit", "quit "));
}

#[test]
fn addable_lines() {
    let a = AStruct { amount: 2, name: String::from("Bob") };
    assert_eq!(a.add(), "2 ~ Bob");
    let c = CStruct { num1: 3, num2: 5 };
    assert_eq!(c.add(), "3 @ 5");
    let d = CStruct { num1: -17, num2: 0 };
    assert_eq!(d.add(), "-17 @ 0");
}

#[test]
fn events_in_order() {
    let e = producer_events();
    assert_eq!(e.len(), 6);
    for (i, ev) in e.iter().enumerate().take(5) {
        assert!(matches!(ev, Event::Tick(n) if *n == i as i32));
        assert!(consumer_continues(ev));
    }
    assert!(matches!(e[5], Event::Done));
    assert!(!consumer_continues(&e[5]));
}

#[test]
fn line_progress_stops_at_end_of_file() {
    let mut p = LineProgress::new();
    assert!(matches!(p.on_read(2), ReadStep::Print(0)));
    assert!(matches!(p.on_read(2), ReadStep::Print(1)));
    assert!(matches!(p.on_read(0), ReadStep::Stop));
    assert_eq!(p.lines_printed(), 2);
    assert_eq!(p.result_text(), "2");
}

#[test]
fn line_progress_stops_at_the_limit() {
    let mut p = LineProgress::new();
    for i in 0..MAX_LINES {
        assert!(matches!(p.on_read(7), ReadStep::Print(n) if n == i));
    }
    assert!(matches!(p.on_read(7), ReadStep::Stop));
    assert_eq!(p.lines_printed(), 50_000);
    assert_eq!(p.result_text(), "50000");
}

#[test]
fn shared_items_and_random_index() {
    let items = init();
    let values: Vec<&str> = items.iter().map(|e| e.value.as_str()).collect();
    assert_eq!(values, vec!["a", "b", "c", "d"]);
    for _ in 0..100 {
        assert!(get_random_index(&items) < 4);
    }
}
