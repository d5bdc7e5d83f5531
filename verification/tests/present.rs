use shoporusni::api::{Data, Increase, Statistics, Stats};
use shoporusni::present::{compose_output, i64_to_string, render, u64_to_string};

fn stats_with_counters(personnel: i64, increase: i64) -> Statistics {
    let mut s = Statistics::default();
    s.data.stats.personnel_units = personnel;
    s.data.increase.personnel_units = increase;
    s
}

#[test]
fn u64_decimal_values() {
    assert_eq!(u64_to_string(0), "0".to_string());
    assert_eq!(u64_to_string(7), "7".to_string());
    assert_eq!(u64_to_string(10), "10".to_string());
    assert_eq!(u64_to_string(99), "99".to_string());
    assert_eq!(u64_to_string(100), "100".to_string());
    assert_eq!(u64_to_string(703_510), "703510".to_string());
    assert_eq!(u64_to_string(u64::MAX), "18446744073709551615".to_string());
}

#[test]
fn i64_decimal_values() {
    assert_eq!(i64_to_string(0), "0".to_string());
    assert_eq!(i64_to_string(42), "42".to_string());
    assert_eq!(i64_to_string(-1), "-1".to_string());
    assert_eq!(i64_to_string(-305), "-305".to_string());
    assert_eq!(i64_to_string(i64::MAX), "9223372036854775807".to_string());
    assert_eq!(i64_to_string(i64::MIN), "-9223372036854775808".to_string());
}

#[test]
fn compose_is_exact() {
    assert_eq!(
        compose_output(&"123".to_string(), &"45".to_string()),
        "123↑45".to_string()
    );
    assert_eq!(compose_output(&String::new(), &String::new()), "↑".to_string());
}

// With color output switched off the line is exactly the two counters around
// the arrow; with color forced on, emphasis bytes appear but the counters and
// the arrow are still embedded in order. The second half would fail if the
// emphasis wrappers handed their input back unchanged under forced color.
#[test]
fn render_embeds_both_counters() {
    let stats = stats_with_counters(703_510, 1_230);

    colored::control::set_override(false);
    let plain = render(&stats);
    assert_eq!(plain, "703510↑1230".to_string());

    colored::control::set_override(true);
    let colored_line = render(&stats);
    assert!(colored_line.contains("703510"));
    assert!(colored_line.contains('↑'));
    assert!(colored_line.contains("1230"));
    assert_ne!(colored_line, plain);
    let parts: Vec<&str> = colored_line.split('↑').collect();
    assert_eq!(parts.len(), 2);
    assert!(parts[0].contains('\u{1b}'));
    assert!(parts[1].contains('\u{1b}'));
    colored::control::unset_override();
}

#[test]
fn render_negative_counters() {
    colored::control::set_override(false);
    let stats = stats_with_counters(-5, -17);
    assert_eq!(render(&stats), "-5↑-17".to_string());
    colored::control::unset_override();
}

// The document types default to zeroed counters and empty text.
#[test]
fn document_defaults() {
    let s = Statistics::default();
    assert_eq!(s.message, String::new());
    assert_eq!(s.data, Data::default());
    assert_eq!(s.data.stats, Stats::default());
    assert_eq!(s.data.increase, Increase::default());
    assert_eq!(s.data.stats.personnel_units, 0);
    assert_eq!(s.data.increase.tanks, 0);
}
