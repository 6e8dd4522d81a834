use mark_point::text::{same_bytes, same_text};
use mark_point::{IntoDataType, InvalidDataTypeTag, MarkPointDataType};

#[test]
fn min_is_recognized() {
    assert_eq!(MarkPointDataType::try_from("min"), Ok(MarkPointDataType::Min));
}

#[test]
fn max_is_recognized() {
    assert_eq!(MarkPointDataType::try_from("max"), Ok(MarkPointDataType::Max));
}

#[test]
fn avg_and_average_both_give_average() {
    assert_eq!(MarkPointDataType::try_from("avg"), Ok(MarkPointDataType::Average));
    assert_eq!(MarkPointDataType::try_from("average"), Ok(MarkPointDataType::Average));
}

#[test]
fn unknown_text_is_refused_with_the_text() {
    let refused = MarkPointDataType::try_from("median");
    assert_eq!(refused, Err(InvalidDataTypeTag { input: "median".to_string() }));
}

#[test]
fn matching_is_case_sensitive() {
    for text in ["Min", "MIN", "Max", "AVG", "Average", "mIn"] {
        let refused = MarkPointDataType::try_from(text);
        assert_eq!(refused, Err(InvalidDataTypeTag { input: text.to_string() }));
    }
}

#[test]
fn matching_does_not_trim() {
    for text in [" min", "min ", "max\n", "\tavg", " average "] {
        let refused = MarkPointDataType::try_from(text);
        assert_eq!(refused, Err(InvalidDataTypeTag { input: text.to_string() }));
    }
}

#[test]
fn matching_is_not_partial() {
    for text in ["", "m", "mi", "mini", "maximum", "av", "averag", "averages", "minmax"] {
        let refused = MarkPointDataType::try_from(text);
        assert_eq!(refused, Err(InvalidDataTypeTag { input: text.to_string() }));
    }
}

#[test]
fn text_outside_ascii_is_refused() {
    let refused = MarkPointDataType::try_from("mín");
    assert_eq!(refused, Err(InvalidDataTypeTag { input: "mín".to_string() }));
}

#[test]
fn kinds_are_written_in_lower_case() {
    assert_eq!(MarkPointDataType::Min.as_str(), "min");
    assert_eq!(MarkPointDataType::Max.as_str(), "max");
    assert_eq!(MarkPointDataType::Average.as_str(), "average");
}

#[test]
fn written_name_coerces_back_to_the_kind() {
    for kind in [MarkPointDataType::Min, MarkPointDataType::Max, MarkPointDataType::Average] {
        assert_eq!(MarkPointDataType::try_from(kind.as_str()), Ok(kind));
    }
}

#[test]
fn avg_is_not_written_back_as_avg() {
    let kind = MarkPointDataType::try_from("avg").unwrap();
    assert_eq!(kind.as_str(), "average");
    assert_ne!(kind.as_str(), "avg");
}

#[test]
fn a_kind_gives_itself() {
    assert_eq!(MarkPointDataType::Max.into_data_type(), Ok(MarkPointDataType::Max));
}

#[test]
fn a_text_is_coerced_when_asked_for_a_kind() {
    assert_eq!("average".into_data_type(), Ok(MarkPointDataType::Average));
    assert_eq!(
        "mean".into_data_type(),
        Err(InvalidDataTypeTag { input: "mean".to_string() })
    );
}

#[test]
fn same_text_compares_exactly() {
    assert!(same_text("", ""));
    assert!(same_text("min", "min"));
    assert!(!same_text("min", "max"));
    assert!(!same_text("min", "mi"));
    assert!(!same_text("mi", "min"));
    assert!(!same_text("min", "Min"));
    assert!(same_text("héllo", "héllo"));
    assert!(!same_text("héllo", "hello"));
}

#[test]
fn same_bytes_compares_length_and_content() {
    assert!(same_bytes(&[], &[]));
    assert!(same_bytes(&[1, 2, 3], &[1, 2, 3]));
    assert!(!same_bytes(&[1, 2, 3], &[1, 2]));
    assert!(!same_bytes(&[1, 2], &[1, 2, 3]));
    assert!(!same_bytes(&[1, 2, 3], &[1, 2, 4]));
    assert!(!same_bytes(&[0, 2, 3], &[1, 2, 3]));
}
