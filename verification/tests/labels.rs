use zonebuilder::label::{make_ring_label, make_wedge_label, ring_letter, RING_LETTERS};
use zonebuilder::precision::{precision_scale, MAX_PRECISION};
use zonebuilder::properties::label_properties;

#[test]
fn ring_letters_run_from_a_to_z() {
    assert_eq!(RING_LETTERS, 26);
    assert_eq!(ring_letter(0), Some('A'));
    assert_eq!(ring_letter(1), Some('B'));
    assert_eq!(ring_letter(25), Some('Z'));
    assert_eq!(ring_letter(26), None);
    assert_eq!(ring_letter(usize::MAX), None);
    let all: String = (0..26).map(|k| ring_letter(k).unwrap()).collect();
    assert_eq!(all, "ABCDEFGHIJKLMNOPQRSTUVWXYZ");
}

#[test]
fn ring_label_is_the_letter() {
    assert_eq!(make_ring_label('A'), "A");
    assert_eq!(make_ring_label('Q'), "Q");
}

#[test]
fn wedge_label_counts_from_one_in_two_digits() {
    assert_eq!(make_wedge_label('B', 0), "B01");
    assert_eq!(make_wedge_label('B', 8), "B09");
    assert_eq!(make_wedge_label('B', 9), "B10");
    assert_eq!(make_wedge_label('C', 11), "C12");
    assert_eq!(make_wedge_label('D', 98), "D99");
}

#[test]
fn wedge_label_grows_past_two_digits() {
    assert_eq!(make_wedge_label('B', 99), "B100");
    assert_eq!(make_wedge_label('B', 1233), "B1234");
    assert_eq!(make_wedge_label('Z', 1_000_000), "Z1000001");
}

#[test]
fn wedge_labels_match_the_usual_formatting() {
    for seg in 0..1200usize {
        assert_eq!(make_wedge_label('K', seg), format!("{}{:02}", 'K', seg + 1));
    }
}

#[test]
fn precision_scale_is_a_power_of_ten() {
    assert_eq!(precision_scale(0), Some(1));
    assert_eq!(precision_scale(1), Some(10));
    assert_eq!(precision_scale(6), Some(1_000_000));
    assert_eq!(precision_scale(19), Some(10_000_000_000_000_000_000));
}

#[test]
fn precision_scale_stops_where_it_no_longer_fits() {
    assert_eq!(MAX_PRECISION, 19);
    assert_eq!(precision_scale(20), None);
    assert_eq!(precision_scale(usize::MAX), None);
}

#[test]
fn precision_scale_is_exact_as_a_floating_point_number() {
    for precision in 0..=19usize {
        let scale = precision_scale(precision).unwrap();
        assert_eq!(scale as f64, 10_f64.powi(precision as i32));
    }
}

#[test]
fn label_properties_hold_the_label_and_nothing_else() {
    let object = label_properties("B07");
    assert_eq!(object.len(), 1);
    assert_eq!(object.get("label"), Some(&serde_json::Value::String("B07".to_string())));
    let other = label_properties("A");
    assert_eq!(other.get("label").and_then(|v| v.as_str()), Some("A"));
    assert_ne!(object, other);
}

#[test]
fn wedge_label_of_the_last_machine_word() {
    let want = format!("B{}", usize::MAX as u128 + 1);
    assert_eq!(make_wedge_label('B', usize::MAX), want);
}
