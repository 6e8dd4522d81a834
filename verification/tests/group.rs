use mark_point::document::push_member;
use mark_point::{
    Entry, InvalidDataTypeTag, Label, MarkPoint, MarkPointData, Number, Symbol, SymbolSize, Value,
};

fn text(key: &str, value: &str) -> Entry {
    Entry { key: key.to_string(), value: Value::Text(value.to_string()) }
}

fn member(key: &str, value: Value) -> Entry {
    Entry { key: key.to_string(), value }
}

fn word(value: &str) -> Value {
    Value::Text(value.to_string())
}

fn size(value: f64) -> Value {
    Value::Number(Number::from_bits(value.to_bits()))
}

fn point(kind: &str, name: &str) -> Value {
    Value::Object(vec![text("type", kind), text("name", name)])
}

#[test]
fn empty_group_writes_no_member() {
    assert_eq!(MarkPoint::new().document(), Value::Object(vec![]));
}

#[test]
fn empty_data_is_left_out() {
    let group = MarkPoint::new().data(Vec::<MarkPointData>::new()).unwrap();
    assert_eq!(group, MarkPoint::new());
    assert_eq!(group.document(), Value::Object(vec![]));
}

#[test]
fn points_keep_their_order() {
    let group = MarkPoint::new().data(vec![("min", "Low"), ("max", "High")]).unwrap();
    assert_eq!(
        group.document(),
        Value::Object(vec![member(
            "data",
            Value::List(vec![point("min", "Low"), point("max", "High")])
        )])
    );
    let reversed = MarkPoint::new().data(vec![("max", "High"), ("min", "Low")]).unwrap();
    assert_eq!(
        reversed.document(),
        Value::Object(vec![member(
            "data",
            Value::List(vec![point("max", "High"), point("min", "Low")])
        )])
    );
}

#[test]
fn data_takes_finished_points() {
    let low = MarkPointData::new().name("Low");
    let high = MarkPointData::new().type_("max").unwrap();
    let group = MarkPoint::new().data(vec![low, high]).unwrap();
    assert_eq!(
        group.document(),
        Value::Object(vec![member(
            "data",
            Value::List(vec![
                Value::Object(vec![text("name", "Low")]),
                Value::Object(vec![text("type", "max")]),
            ])
        )])
    );
}

#[test]
fn an_empty_point_is_still_a_point() {
    let group = MarkPoint::new().data(vec![MarkPointData::new()]).unwrap();
    assert_eq!(
        group.document(),
        Value::Object(vec![member("data", Value::List(vec![Value::Object(vec![])]))])
    );
}

#[test]
fn data_refuses_the_first_unknown_kind() {
    let refused =
        MarkPoint::new().data(vec![("min", "a"), ("lowest", "b"), ("highest", "c"), ("max", "d")]);
    assert_eq!(refused, Err(InvalidDataTypeTag { input: "lowest".to_string() }));
}

#[test]
fn data_refuses_an_unknown_kind_in_last_place() {
    let refused = MarkPoint::new().data(vec![("min", "a"), ("max", "b"), ("Avg", "c")]);
    assert_eq!(refused, Err(InvalidDataTypeTag { input: "Avg".to_string() }));
}

#[test]
fn last_data_wins() {
    let group = MarkPoint::new()
        .data(vec![("min", "Low"), ("max", "High")])
        .unwrap()
        .data(vec![("avg", "Mean")])
        .unwrap();
    assert_eq!(group, MarkPoint::new().data(vec![("avg", "Mean")]).unwrap());
    assert_eq!(
        group.document(),
        Value::Object(vec![member("data", Value::List(vec![point("average", "Mean")]))])
    );
}

#[test]
fn data_can_be_emptied_again() {
    let group = MarkPoint::new()
        .data(vec![("min", "Low")])
        .unwrap()
        .data(Vec::<(&str, &str)>::new())
        .unwrap();
    assert_eq!(group.document(), Value::Object(vec![]));
}

#[test]
fn last_symbol_wins() {
    let group = MarkPoint::new().symbol(Symbol::new(word("circle"))).symbol(Symbol::new(word("pin")));
    assert_eq!(group, MarkPoint::new().symbol(Symbol::new(word("pin"))));
    assert_eq!(group.document(), Value::Object(vec![member("symbol", word("pin"))]));
}

#[test]
fn last_symbol_size_wins() {
    let group = MarkPoint::new()
        .symbol_size(SymbolSize::new(size(10.0)))
        .symbol_size(SymbolSize::new(size(20.0)));
    assert_eq!(group, MarkPoint::new().symbol_size(SymbolSize::new(size(20.0))));
    assert_eq!(group.document(), Value::Object(vec![member("symbolSize", size(20.0))]));
}

#[test]
fn last_label_wins() {
    let shown = Value::Object(vec![text("position", "top")]);
    let hidden = Value::Object(vec![text("position", "inside")]);
    let group = MarkPoint::new().label(Label::new(shown)).label(Label::new(hidden.clone()));
    assert_eq!(group, MarkPoint::new().label(Label::new(hidden.clone())));
    assert_eq!(group.document(), Value::Object(vec![member("label", hidden)]));
}

#[test]
fn members_are_written_in_order() {
    let style = Value::Object(vec![text("color", "red")]);
    let group = MarkPoint::new()
        .label(Label::new(style.clone()))
        .symbol_size(SymbolSize::new(Value::List(vec![size(4.0), size(8.0)])))
        .symbol(Symbol::new(word("diamond")))
        .data(vec![("max", "Peak")])
        .unwrap();
    assert_eq!(
        group.document(),
        Value::Object(vec![
            member("data", Value::List(vec![point("max", "Peak")])),
            member("symbol", word("diamond")),
            member("symbolSize", Value::List(vec![size(4.0), size(8.0)])),
            member("label", style),
        ])
    );
}

#[test]
fn overrides_without_points_write_no_data() {
    let group = MarkPoint::new().symbol(Symbol::new(word("rect")));
    assert_eq!(group.document(), Value::Object(vec![member("symbol", word("rect"))]));
}

#[test]
fn data_leaves_the_overrides_alone() {
    let group = MarkPoint::new()
        .symbol(Symbol::new(word("arrow")))
        .data(vec![("min", "Low")])
        .unwrap();
    assert_eq!(
        group.document(),
        Value::Object(vec![
            member("data", Value::List(vec![point("min", "Low")])),
            member("symbol", word("arrow")),
        ])
    );
}

#[test]
fn refused_data_gives_no_group() {
    let refused = MarkPoint::new().symbol(Symbol::new(word("pin"))).data(vec![("", "blank")]);
    assert_eq!(refused, Err(InvalidDataTypeTag { input: String::new() }));
}

#[test]
fn clone_of_a_value_is_deep() {
    let tree = Value::Object(vec![
        member("list", Value::List(vec![word("a"), size(1.0), Value::List(vec![])])),
        member("inner", Value::Object(vec![text("k", "v")])),
        member("flags", Value::List(vec![Value::Bool(true), Value::Bool(false), Value::Null])),
    ]);
    let copy = tree.clone();
    assert_eq!(copy, tree);
    let entry = member("e", Value::List(vec![word("x")]));
    assert_eq!(entry.clone(), entry);
}

#[test]
fn label_may_hold_any_document() {
    let style = Value::Object(vec![
        member("show", Value::Bool(true)),
        member("formatter", Value::Null),
        member("distance", size(5.0)),
    ]);
    let group = MarkPoint::new().label(Label::new(style.clone()));
    assert_eq!(group.document(), Value::Object(vec![member("label", style)]));
}

#[test]
fn push_member_appends_one_member() {
    let mut entries = vec![text("a", "1")];
    push_member(&mut entries, "b", word("2"));
    assert_eq!(entries, vec![text("a", "1"), text("b", "2")]);
}

#[test]
fn overrides_carry_their_document() {
    assert_eq!(Symbol::new(word("circle")).document, word("circle"));
    assert_eq!(SymbolSize::new(size(12.0)).document, size(12.0));
    assert_eq!(Label::new(Value::Object(vec![])).document, Value::Object(vec![]));
}
