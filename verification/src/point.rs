//! One annotated point and its builder.

use crate::data_type::{recognized, IntoDataType, InvalidDataTypeTag, MarkPointDataType};
use crate::document::{
    lemma_lookup_concat, lemma_lookup_optional, lemma_object_view, lookup, members,
    optional_member, push_member, Doc, Entry, Number, Value,
};
use vstd::prelude::*;
use vstd::std_specs::convert::TryFromSpecImpl;

verus! {

/// What a point is, as a mathematical value: each field is absent or holds
/// one value.
pub struct PointView {
    pub data_type: Option<MarkPointDataType>,
    pub name: Option<Seq<char>>,
    pub x_axis: Option<Number>,
    pub y_axis: Option<Number>,
    pub value: Option<Number>,
}

/// The document of an optional number.
pub open spec fn number_document(field: Option<Number>) -> Option<Doc> {
    match field {
        Some(number) => Some(Doc::Number(number)),
        None => None,
    }
}

/// The document of an optional text.
pub open spec fn text_document(field: Option<Seq<char>>) -> Option<Doc> {
    match field {
        Some(text) => Some(Doc::Text(text)),
        None => None,
    }
}

impl PointView {
    /// The point with every field absent.
    pub open spec fn empty() -> PointView {
        PointView { data_type: None, name: None, x_axis: None, y_axis: None, value: None }
    }

    pub open spec fn with_type(self, kind: MarkPointDataType) -> PointView {
        PointView { data_type: Some(kind), ..self }
    }

    pub open spec fn with_name(self, name: Seq<char>) -> PointView {
        PointView { name: Some(name), ..self }
    }

    pub open spec fn with_x_axis(self, x_axis: Number) -> PointView {
        PointView { x_axis: Some(x_axis), ..self }
    }

    pub open spec fn with_y_axis(self, y_axis: Number) -> PointView {
        PointView { y_axis: Some(y_axis), ..self }
    }

    pub open spec fn with_value(self, value: Number) -> PointView {
        PointView { value: Some(value), ..self }
    }

    /// The document of the kind, if one is set.
    pub open spec fn type_document(self) -> Option<Doc> {
        match self.data_type {
            Some(kind) => Some(Doc::Text(kind.wire_name())),
            None => None,
        }
    }

    /// The members of the point's document: `type`, `name`, `xAxis`, `yAxis`
    /// and `value`, in this order, each only if its field is present.
    pub open spec fn members(self) -> Seq<(Seq<char>, Doc)> {
        optional_member("type"@, self.type_document())
            + optional_member("name"@, text_document(self.name))
            + optional_member("xAxis"@, number_document(self.x_axis))
            + optional_member("yAxis"@, number_document(self.y_axis))
            + optional_member("value"@, number_document(self.value))
    }

    /// The document that the point is written as.
    pub open spec fn document(self) -> Doc {
        Doc::Object(self.members())
    }

    /// How many fields are present.
    pub open spec fn present(self) -> nat {
        let kinds: nat = if self.data_type is Some { 1 } else { 0 };
        let names: nat = if self.name is Some { 1 } else { 0 };
        let xs: nat = if self.x_axis is Some { 1 } else { 0 };
        let ys: nat = if self.y_axis is Some { 1 } else { 0 };
        let values: nat = if self.value is Some { 1 } else { 0 };
        kinds + names + xs + ys + values
    }

    /// Whether every field that is present in `earlier` is present here.
    pub open spec fn keeps(self, earlier: PointView) -> bool {
        &&& earlier.data_type is Some ==> self.data_type is Some
        &&& earlier.name is Some ==> self.name is Some
        &&& earlier.x_axis is Some ==> self.x_axis is Some
        &&& earlier.y_axis is Some ==> self.y_axis is Some
        &&& earlier.value is Some ==> self.value is Some
    }
}

/// The five keys of a point's document are five different texts.
pub proof fn lemma_point_keys_differ()
    ensures
        "type"@ != "name"@,
        "type"@ != "xAxis"@,
        "type"@ != "yAxis"@,
        "type"@ != "value"@,
        "name"@ != "xAxis"@,
        "name"@ != "yAxis"@,
        "name"@ != "value"@,
        "xAxis"@ != "yAxis"@,
        "xAxis"@ != "value"@,
        "yAxis"@ != "value"@,
{
    reveal_strlit("type");
    reveal_strlit("name");
    reveal_strlit("xAxis");
    reveal_strlit("yAxis");
    reveal_strlit("value");
    assert("type"@[0] != "name"@[0]);
    assert("xAxis"@[0] != "yAxis"@[0]);
    assert("xAxis"@[0] != "value"@[0]);
    assert("yAxis"@[0] != "value"@[0]);
}

/// What a point's document holds under each key: under `type` the kind's
/// text, under `name`, `xAxis`, `yAxis` and `value` the field of that name,
/// each only if the field is present; under any other key, nothing. No
/// member is written for an absent field, so the document has as many
/// members as the point has fields present.
pub proof fn lemma_point_document_members(point: PointView, key: Seq<char>)
    ensures
        lookup(point.members(), "type"@) == point.type_document(),
        lookup(point.members(), "name"@) == text_document(point.name),
        lookup(point.members(), "xAxis"@) == number_document(point.x_axis),
        lookup(point.members(), "yAxis"@) == number_document(point.y_axis),
        lookup(point.members(), "value"@) == number_document(point.value),
        key != "type"@ && key != "name"@ && key != "xAxis"@ && key != "yAxis"@ && key != "value"@
            ==> lookup(point.members(), key) is None,
        point.members().len() == point.present(),
{
    lemma_point_keys_differ();
    let kind = optional_member("type"@, point.type_document());
    let name = optional_member("name"@, text_document(point.name));
    let x_axis = optional_member("xAxis"@, number_document(point.x_axis));
    let y_axis = optional_member("yAxis"@, number_document(point.y_axis));
    let value = optional_member("value"@, number_document(point.value));
    assert(point.members() == kind + name + x_axis + y_axis + value);
    assert forall|wanted: Seq<char>|
        lookup(point.members(), wanted) == match lookup(kind, wanted) {
            Some(document) => Some(document),
            None => match lookup(name, wanted) {
                Some(document) => Some(document),
                None => match lookup(x_axis, wanted) {
                    Some(document) => Some(document),
                    None => match lookup(y_axis, wanted) {
                        Some(document) => Some(document),
                        None => lookup(value, wanted),
                    },
                },
            },
        } by {
        lemma_lookup_concat(kind + name + x_axis + y_axis, value, wanted);
        lemma_lookup_concat(kind + name + x_axis, y_axis, wanted);
        lemma_lookup_concat(kind + name, x_axis, wanted);
        lemma_lookup_concat(kind, name, wanted);
    }
    assert forall|wanted: Seq<char>|
        lookup(kind, wanted) == (if wanted == "type"@ {
            point.type_document()
        } else {
            None
        }) && lookup(name, wanted) == (if wanted == "name"@ {
            text_document(point.name)
        } else {
            None
        }) && lookup(x_axis, wanted) == (if wanted == "xAxis"@ {
            number_document(point.x_axis)
        } else {
            None
        }) && lookup(y_axis, wanted) == (if wanted == "yAxis"@ {
            number_document(point.y_axis)
        } else {
            None
        }) && lookup(value, wanted) == (if wanted == "value"@ {
            number_document(point.value)
        } else {
            None
        }) by {
        lemma_lookup_optional("type"@, point.type_document(), wanted);
        lemma_lookup_optional("name"@, text_document(point.name), wanted);
        lemma_lookup_optional("xAxis"@, number_document(point.x_axis), wanted);
        lemma_lookup_optional("yAxis"@, number_document(point.y_axis), wanted);
        lemma_lookup_optional("value"@, number_document(point.value), wanted);
    }
}

/// An absent field is left out, never written as a null or another
/// stand-in: every member of a point's document holds a text or a number.
pub proof fn lemma_point_document_never_null(point: PointView, i: int)
    requires
        0 <= i < point.members().len(),
    ensures
        point.members()[i].1 is Text || point.members()[i].1 is Number,
{
}

/// Last write wins: setting a field twice leaves the point as if only the
/// second value had been set. This holds of each of the five fields.
pub proof fn lemma_point_last_write_wins(
    point: PointView,
    first_kind: MarkPointDataType,
    second_kind: MarkPointDataType,
    first_name: Seq<char>,
    second_name: Seq<char>,
    first_number: Number,
    second_number: Number,
)
    ensures
        point.with_type(first_kind).with_type(second_kind) == point.with_type(second_kind),
        point.with_name(first_name).with_name(second_name) == point.with_name(second_name),
        point.with_x_axis(first_number).with_x_axis(second_number) == point.with_x_axis(
            second_number,
        ),
        point.with_y_axis(first_number).with_y_axis(second_number) == point.with_y_axis(
            second_number,
        ),
        point.with_value(first_number).with_value(second_number) == point.with_value(
            second_number,
        ),
{
}

/// No setter unsets a field: whatever was present before a setter is
/// present after it, and so after any run of setters.
pub proof fn lemma_point_setters_only_add(
    point: PointView,
    kind: MarkPointDataType,
    name: Seq<char>,
    number: Number,
)
    ensures
        point.with_type(kind).keeps(point),
        point.with_name(name).keeps(point),
        point.with_x_axis(number).keeps(point),
        point.with_y_axis(number).keeps(point),
        point.with_value(number).keeps(point),
{
}

/// Keeping is transitive: a point that keeps the fields of a second, which
/// keeps those of a third, keeps those of the third.
pub proof fn lemma_keeps_transitive(late: PointView, middle: PointView, early: PointView)
    requires
        late.keeps(middle),
        middle.keeps(early),
    ensures
        late.keeps(early),
{
}

/// One annotated point: which statistic it marks, what it is called, and
/// where and with what value it is drawn. Every field is optional.
#[derive(Clone, Debug, PartialEq)]
pub struct MarkPointData {
    type_: Option<MarkPointDataType>,
    name: Option<String>,
    x_axis: Option<Number>,
    y_axis: Option<Number>,
    value: Option<Number>,
}

impl View for MarkPointData {
    type V = PointView;

    closed spec fn view(&self) -> PointView {
        PointView {
            data_type: self.type_,
            name: match self.name {
                Some(name) => Some(name@),
                None => None,
            },
            x_axis: self.x_axis,
            y_axis: self.y_axis,
            value: self.value,
        }
    }
}

impl MarkPointData {
    /// A point with every field absent.
    pub fn new() -> (point: MarkPointData)
        ensures
            point@ == PointView::empty(),
    {
        MarkPointData { type_: None, name: None, x_axis: None, y_axis: None, value: None }
    }

    /// Sets which statistic the point marks. A text is coerced first, and a
    /// text that names no kind is refused.
    pub fn type_<T: IntoDataType>(self, type_: T) -> (point: Result<
        MarkPointData,
        InvalidDataTypeTag,
    >)
        ensures
            match type_.coerced() {
                Ok(kind) => point is Ok && point->Ok_0@ == self@.with_type(kind),
                Err(refused) => point is Err && point->Err_0.input@ == refused,
            },
    {
        let mut point = self;
        match type_.into_data_type() {
            Ok(kind) => {
                point.type_ = Some(kind);
                Ok(point)
            },
            Err(error) => Err(error),
        }
    }

    /// Sets the display name.
    pub fn name(self, name: &str) -> (point: MarkPointData)
        ensures
            point@ == self@.with_name(name@),
    {
        let mut point = self;
        point.name = Some(name.to_owned());
        point
    }

    /// Sets the horizontal placement.
    pub fn x_axis(self, x_axis: Number) -> (point: MarkPointData)
        ensures
            point@ == self@.with_x_axis(x_axis),
    {
        let mut point = self;
        point.x_axis = Some(x_axis);
        point
    }

    /// Sets the vertical placement.
    pub fn y_axis(self, y_axis: Number) -> (point: MarkPointData)
        ensures
            point@ == self@.with_y_axis(y_axis),
    {
        let mut point = self;
        point.y_axis = Some(y_axis);
        point
    }

    /// Sets the literal value.
    pub fn value(self, value: Number) -> (point: MarkPointData)
        ensures
            point@ == self@.with_value(value),
    {
        let mut point = self;
        point.value = Some(value);
        point
    }

    /// The document that the point is written as: one member for each field
    /// that is present, none for a field that is absent.
    pub fn document(&self) -> (document: Value)
        ensures
            document@ == self@.document(),
    {
        let mut entries: Vec<Entry> = Vec::new();
        assert(members(entries@) =~= Seq::empty());
        if let Some(kind) = self.type_ {
            push_member(&mut entries, "type", Value::Text(kind.as_str().to_owned()));
        }
        if let Some(name) = &self.name {
            push_member(&mut entries, "name", Value::Text(name.clone()));
        }
        if let Some(x_axis) = self.x_axis {
            push_member(&mut entries, "xAxis", Value::Number(x_axis));
        }
        if let Some(y_axis) = self.y_axis {
            push_member(&mut entries, "yAxis", Value::Number(y_axis));
        }
        if let Some(value) = self.value {
            push_member(&mut entries, "value", Value::Number(value));
        }
        proof {
            lemma_object_view(entries);
            assert(members(entries@) =~= self@.members());
        }
        Value::Object(entries)
    }
}

/// Values that a point can be asked from: a point itself, or a pair of a
/// kind's text and a display name.
pub trait IntoPoint: Sized {
    /// The point that this value gives, or the text that is refused.
    spec fn normalized(&self) -> Result<PointView, Seq<char>>;

    fn into_point(self) -> (point: Result<MarkPointData, InvalidDataTypeTag>)
        ensures
            match self.normalized() {
                Ok(given) => point is Ok && point->Ok_0@ == given,
                Err(refused) => point is Err && point->Err_0.input@ == refused,
            },
    ;
}

impl IntoPoint for MarkPointData {
    open spec fn normalized(&self) -> Result<PointView, Seq<char>> {
        Ok(self@)
    }

    fn into_point(self) -> (point: Result<MarkPointData, InvalidDataTypeTag>) {
        Ok(self)
    }
}

impl<'a, 'b> TryFrom<(&'a str, &'b str)> for MarkPointData {
    type Error = InvalidDataTypeTag;

    /// Builds a point from a pair of a kind's text and a display name: the
    /// point that setting the kind and then the name on an empty point
    /// gives. A text that names no kind is refused.
    fn try_from(pair: (&'a str, &'b str)) -> (point: Result<MarkPointData, InvalidDataTypeTag>)
        ensures
            match recognized(pair.0@) {
                Some(kind) => point is Ok && point->Ok_0@ == PointView::empty().with_type(
                    kind,
                ).with_name(pair.1@),
                None => point is Err && point->Err_0.input@ == pair.0@,
            },
    {
        match MarkPointData::new().type_(pair.0) {
            Ok(typed) => Ok(typed.name(pair.1)),
            Err(error) => Err(error),
        }
    }
}

/// Neither a point nor the error of a refused pair can be built by a ghost
/// expression. So the generic law of `try_from` is switched off here, and
/// the contract on `try_from` itself says what is returned.
impl<'a, 'b> TryFromSpecImpl<(&'a str, &'b str)> for MarkPointData {
    open spec fn obeys_try_from_spec() -> bool {
        false
    }

    open spec fn try_from_spec(pair: (&'a str, &'b str)) -> Result<
        MarkPointData,
        InvalidDataTypeTag,
    > {
        match recognized(pair.0@) {
            Some(kind) => Ok(
                choose|point: MarkPointData|
                    (#[trigger] point@) == PointView::empty().with_type(kind).with_name(pair.1@),
            ),
            None => Err(choose|error: InvalidDataTypeTag| error.input@ == pair.0@),
        }
    }
}

impl<'a, 'b> IntoPoint for (&'a str, &'b str) {
    open spec fn normalized(&self) -> Result<PointView, Seq<char>> {
        match recognized(self.0@) {
            Some(kind) => Ok(PointView::empty().with_type(kind).with_name(self.1@)),
            None => Err(self.0@),
        }
    }

    fn into_point(self) -> (point: Result<MarkPointData, InvalidDataTypeTag>) {
        MarkPointData::try_from(self)
    }
}

} // verus!
