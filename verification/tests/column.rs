use replibyte::types::Column;

#[test]
fn name_of_every_kind() {
    assert_eq!(Column::NumberValue("a".to_string(), 1).name(), "a");
    assert_eq!(Column::FloatNumberValue("b".to_string(), 0).name(), "b");
    assert_eq!(Column::StringValue("c".to_string(), "text".to_string()).name(), "c");
    assert_eq!(Column::CharValue("d".to_string(), 'x').name(), "d");
    assert_eq!(Column::BooleanValue("e".to_string(), false).name(), "e");
    assert_eq!(Column::Null("f".to_string()).name(), "f");
}

#[test]
fn string_value_of_a_text() {
    let column = Column::StringValue("c".to_string(), "text".to_string());
    assert_eq!(column.string_value(), Some("text"));
    assert_eq!(column.number_value(), None);
    assert_eq!(column.float_number_bits(), None);
    assert_eq!(column.char_value(), None);
    assert_eq!(column.boolean_value(), None);
}

#[test]
fn number_value_of_a_number() {
    let column = Column::NumberValue("a".to_string(), -7);
    assert_eq!(column.number_value(), Some(&-7));
    assert_eq!(column.string_value(), None);
}

#[test]
fn float_number_bits_of_a_float() {
    let bits = 2.5_f64.to_bits();
    let column = Column::FloatNumberValue("b".to_string(), bits);
    assert_eq!(column.float_number_bits(), Some(&bits));
    assert_eq!(f64::from_bits(*column.float_number_bits().unwrap()), 2.5);
    assert_eq!(column.number_value(), None);
}

#[test]
fn char_value_of_a_character() {
    let column = Column::CharValue("d".to_string(), 'x');
    assert_eq!(column.char_value(), Some(&'x'));
    assert_eq!(column.string_value(), None);
}

#[test]
fn boolean_value_of_a_boolean() {
    let column = Column::BooleanValue("e".to_string(), true);
    assert_eq!(column.boolean_value(), Some(&true));
    assert_eq!(column.char_value(), None);
}

#[test]
fn null_has_no_payload() {
    let column = Column::Null("f".to_string());
    assert_eq!(column.number_value(), None);
    assert_eq!(column.float_number_bits(), None);
    assert_eq!(column.string_value(), None);
    assert_eq!(column.char_value(), None);
    assert_eq!(column.boolean_value(), None);
}

#[test]
fn clone_is_equal_to_its_source() {
    let columns = vec![
        Column::NumberValue("a".to_string(), 1),
        Column::FloatNumberValue("b".to_string(), 7),
        Column::StringValue("c".to_string(), "text".to_string()),
        Column::CharValue("d".to_string(), 'x'),
        Column::BooleanValue("e".to_string(), false),
        Column::Null("f".to_string()),
    ];
    for column in &columns {
        assert_eq!(&column.clone(), column);
    }
}

#[test]
fn values_of_different_kinds_are_different() {
    assert_ne!(
        Column::StringValue("a".to_string(), "1".to_string()),
        Column::NumberValue("a".to_string(), 1)
    );
    assert_ne!(Column::Null("a".to_string()), Column::Null("b".to_string()));
}
