//! The overlay as a whole: the points in drawing order, and the presentation
//! overrides they share.

use crate::data_type::InvalidDataTypeTag;
use crate::document::{
    documents, lemma_list_view, lemma_lookup_concat, lemma_lookup_optional, lemma_object_view,
    lookup, members, optional_member, push_member, Doc, Entry, Value,
};
use crate::point::{IntoPoint, MarkPointData, PointView};
use crate::style::{Label, Symbol, SymbolSize};
use vstd::prelude::*;

verus! {

/// What a group is, as a mathematical value. An override is modelled by the
/// document it is written as.
pub struct GroupView {
    pub data: Seq<PointView>,
    pub symbol: Option<Doc>,
    pub symbol_size: Option<Doc>,
    pub label: Option<Doc>,
}

/// The document of the points: none when there is no point, else one list
/// that holds each point's document, in the points' order.
pub open spec fn data_document(data: Seq<PointView>) -> Option<Doc> {
    if data.len() == 0 {
        None
    } else {
        Some(Doc::List(Seq::new(data.len(), |i: int| data[i].document())))
    }
}

impl GroupView {
    /// The group with no point and no override.
    pub open spec fn empty() -> GroupView {
        GroupView { data: Seq::empty(), symbol: None, symbol_size: None, label: None }
    }

    pub open spec fn with_data(self, data: Seq<PointView>) -> GroupView {
        GroupView { data, ..self }
    }

    pub open spec fn with_symbol(self, symbol: Doc) -> GroupView {
        GroupView { symbol: Some(symbol), ..self }
    }

    pub open spec fn with_symbol_size(self, symbol_size: Doc) -> GroupView {
        GroupView { symbol_size: Some(symbol_size), ..self }
    }

    pub open spec fn with_label(self, label: Doc) -> GroupView {
        GroupView { label: Some(label), ..self }
    }

    /// The members of the group's document: `data`, `symbol`, `symbolSize`
    /// and `label`, in this order, each only if there is something to write.
    pub open spec fn members(self) -> Seq<(Seq<char>, Doc)> {
        optional_member("data"@, data_document(self.data))
            + optional_member("symbol"@, self.symbol)
            + optional_member("symbolSize"@, self.symbol_size)
            + optional_member("label"@, self.label)
    }

    /// The document that the group is written as.
    pub open spec fn document(self) -> Doc {
        Doc::Object(self.members())
    }
}

/// The four keys of a group's document are four different texts.
pub proof fn lemma_group_keys_differ()
    ensures
        "data"@ != "symbol"@,
        "data"@ != "symbolSize"@,
        "data"@ != "label"@,
        "symbol"@ != "symbolSize"@,
        "symbol"@ != "label"@,
        "symbolSize"@ != "label"@,
{
    reveal_strlit("data");
    reveal_strlit("symbol");
    reveal_strlit("symbolSize");
    reveal_strlit("label");
    assert("data"@.len() != "symbol"@.len());
    assert("data"@.len() != "symbolSize"@.len());
    assert("data"@.len() != "label"@.len());
    assert("symbol"@.len() != "symbolSize"@.len());
    assert("symbol"@.len() != "label"@.len());
    assert("symbolSize"@.len() != "label"@.len());
}

/// What a group's document holds under each key: under `data` the list of
/// the points' documents unless there is no point, under `symbol`,
/// `symbolSize` and `label` the override of that name if it is set; under
/// any other key, nothing.
pub proof fn lemma_group_document_members(group: GroupView, key: Seq<char>)
    ensures
        lookup(group.members(), "data"@) == data_document(group.data),
        lookup(group.members(), "symbol"@) == group.symbol,
        lookup(group.members(), "symbolSize"@) == group.symbol_size,
        lookup(group.members(), "label"@) == group.label,
        key != "data"@ && key != "symbol"@ && key != "symbolSize"@ && key != "label"@ ==> lookup(
            group.members(),
            key,
        ) is None,
{
    lemma_group_keys_differ();
    let data = optional_member("data"@, data_document(group.data));
    let symbol = optional_member("symbol"@, group.symbol);
    let symbol_size = optional_member("symbolSize"@, group.symbol_size);
    let label = optional_member("label"@, group.label);
    assert(group.members() == data + symbol + symbol_size + label);
    assert forall|wanted: Seq<char>|
        lookup(group.members(), wanted) == match lookup(data, wanted) {
            Some(document) => Some(document),
            None => match lookup(symbol, wanted) {
                Some(document) => Some(document),
                None => match lookup(symbol_size, wanted) {
                    Some(document) => Some(document),
                    None => lookup(label, wanted),
                },
            },
        } by {
        lemma_lookup_concat(data + symbol + symbol_size, label, wanted);
        lemma_lookup_concat(data + symbol, symbol_size, wanted);
        lemma_lookup_concat(data, symbol, wanted);
    }
    assert forall|wanted: Seq<char>|
        lookup(data, wanted) == (if wanted == "data"@ {
            data_document(group.data)
        } else {
            None
        }) && lookup(symbol, wanted) == (if wanted == "symbol"@ {
            group.symbol
        } else {
            None
        }) && lookup(symbol_size, wanted) == (if wanted == "symbolSize"@ {
            group.symbol_size
        } else {
            None
        }) && lookup(label, wanted) == (if wanted == "label"@ {
            group.label
        } else {
            None
        }) by {
        lemma_lookup_optional("data"@, data_document(group.data), wanted);
        lemma_lookup_optional("symbol"@, group.symbol, wanted);
        lemma_lookup_optional("symbolSize"@, group.symbol_size, wanted);
        lemma_lookup_optional("label"@, group.label, wanted);
    }
}

/// Drawing order is kept: a group with points holds, under `data`, a list
/// with one document for each point, and the document at each place is that
/// of the point at the same place.
pub proof fn lemma_points_in_order(group: GroupView)
    requires
        group.data.len() > 0,
    ensures
        lookup(group.members(), "data"@) matches Some(Doc::List(list)) && list.len()
            == group.data.len() && forall|i: int|
            0 <= i < group.data.len() ==> list[i] == (#[trigger] group.data[i]).document(),
{
    lemma_group_document_members(group, "data"@);
}

/// A group without points writes no `data` member at all, and a group with
/// points never writes an empty list.
pub proof fn lemma_empty_data_is_left_out(group: GroupView)
    ensures
        group.data.len() == 0 <==> lookup(group.members(), "data"@) is None,
        lookup(group.members(), "data"@) != Some(Doc::List(Seq::empty())),
{
    lemma_group_document_members(group, "data"@);
    if group.data.len() > 0 {
        assert(data_document(group.data)->Some_0->List_0.len() > 0);
    }
}

/// Last write wins: replacing the points twice, or setting an override
/// twice, leaves the group as if only the second had been done.
pub proof fn lemma_group_last_write_wins(
    group: GroupView,
    first_data: Seq<PointView>,
    second_data: Seq<PointView>,
    first_style: Doc,
    second_style: Doc,
)
    ensures
        group.with_data(first_data).with_data(second_data) == group.with_data(second_data),
        group.with_symbol(first_style).with_symbol(second_style) == group.with_symbol(
            second_style,
        ),
        group.with_symbol_size(first_style).with_symbol_size(second_style)
            == group.with_symbol_size(second_style),
        group.with_label(first_style).with_label(second_style) == group.with_label(second_style),
{
}

/// Whether every item of a list gives a point.
pub open spec fn all_accepted<D: IntoPoint>(items: Seq<D>) -> bool {
    forall|i: int| 0 <= i < items.len() ==> (#[trigger] items[i].normalized()) is Ok
}

/// Whether `k` is the place of the first item that gives no point.
pub open spec fn is_first_refused<D: IntoPoint>(items: Seq<D>, k: int) -> bool {
    &&& 0 <= k < items.len()
    &&& items[k].normalized() is Err
    &&& forall|i: int| 0 <= i < k ==> (#[trigger] items[i].normalized()) is Ok
}

/// The points that the items of a list give, in the list's order.
pub open spec fn normalized_points<D: IntoPoint>(items: Seq<D>) -> Seq<PointView> {
    Seq::new(items.len(), |i: int| items[i].normalized()->Ok_0)
}

/// At most one place is that of the first refused item, so a refused list
/// has exactly one text to report.
pub proof fn lemma_first_refused_unique<D: IntoPoint>(items: Seq<D>, k: int, j: int)
    requires
        is_first_refused(items, k),
        is_first_refused(items, j),
    ensures
        k == j,
{
    if k < j {
        assert(items[k].normalized() is Ok);
    }
    if j < k {
        assert(items[j].normalized() is Ok);
    }
}

/// A list of finished points is never refused, and gives those very points.
pub proof fn lemma_points_are_accepted(items: Seq<MarkPointData>)
    ensures
        all_accepted(items),
        normalized_points(items) == Seq::new(items.len(), |i: int| items[i]@),
{
    assert(normalized_points(items) =~= Seq::new(items.len(), |i: int| items[i]@));
}

/// The overlay: its points in drawing order, and the overrides they share.
#[derive(Clone, Debug, PartialEq)]
pub struct MarkPoint {
    data: Vec<MarkPointData>,
    symbol: Option<Symbol>,
    symbol_size: Option<SymbolSize>,
    label: Option<Label>,
}

impl View for MarkPoint {
    type V = GroupView;

    closed spec fn view(&self) -> GroupView {
        GroupView {
            data: Seq::new(self.data@.len(), |i: int| self.data@[i]@),
            symbol: match self.symbol {
                Some(symbol) => Some(symbol@),
                None => None,
            },
            symbol_size: match self.symbol_size {
                Some(symbol_size) => Some(symbol_size@),
                None => None,
            },
            label: match self.label {
                Some(label) => Some(label@),
                None => None,
            },
        }
    }
}

impl MarkPoint {
    /// A group with no point and no override.
    pub fn new() -> (group: MarkPoint)
        ensures
            group@ == GroupView::empty(),
    {
        let group = MarkPoint { data: Vec::new(), symbol: None, symbol_size: None, label: None };
        assert(group@.data =~= Seq::empty());
        group
    }

    /// Replaces the points by those that the items of `data` give, in the
    /// order of `data`. The first item that gives no point is refused, and
    /// with it the whole list.
    pub fn data<D: IntoPoint>(self, data: Vec<D>) -> (group: Result<MarkPoint, InvalidDataTypeTag>)
        ensures
            group is Ok <==> all_accepted(data@),
            match group {
                Ok(group) => group@ == self@.with_data(normalized_points(data@)),
                Err(error) => exists|k: int|
                    is_first_refused(data@, k) && error.input@ == data@[k].normalized()->Err_0,
            },
    {
        let ghost items = data@;
        let mut points: Vec<MarkPointData> = Vec::new();
        for item in iter: data.into_iter()
            invariant
                iter.seq() == items,
                points.len() == iter.index(),
                forall|i: int|
                    0 <= i < iter.index() ==> (#[trigger] items[i].normalized()) == Ok::<
                        PointView,
                        Seq<char>,
                    >(points[i]@),
        {
            match item.into_point() {
                Ok(point) => {
                    points.push(point);
                },
                Err(error) => {
                    assert(is_first_refused(items, iter.index() as int));
                    return Err(error);
                },
            }
        }
        let mut group = self;
        group.data = points;
        assert(group@.data =~= normalized_points(items));
        Ok(group)
    }

    /// Sets the shape drawn at the points.
    pub fn symbol(self, symbol: Symbol) -> (group: MarkPoint)
        ensures
            group@ == self@.with_symbol(symbol@),
    {
        let mut group = self;
        group.symbol = Some(symbol);
        group
    }

    /// Sets the size at which the shape is drawn.
    pub fn symbol_size(self, symbol_size: SymbolSize) -> (group: MarkPoint)
        ensures
            group@ == self@.with_symbol_size(symbol_size@),
    {
        let mut group = self;
        group.symbol_size = Some(symbol_size);
        group
    }

    /// Sets the style of the text beside the points.
    pub fn label(self, label: Label) -> (group: MarkPoint)
        ensures
            group@ == self@.with_label(label@),
    {
        let mut group = self;
        group.label = Some(label);
        group
    }

    /// The document that the group is written as: the points under `data`
    /// unless there is none, and one member for each override that is set.
    pub fn document(&self) -> (document: Value)
        ensures
            document@ == self@.document(),
    {
        let mut entries: Vec<Entry> = Vec::new();
        assert(members(entries@) =~= Seq::empty());
        if self.data.len() > 0 {
            let mut list: Vec<Value> = Vec::new();
            let mut i: usize = 0;
            while i < self.data.len()
                invariant
                    i <= self.data.len(),
                    list.len() == i,
                    forall|j: int| 0 <= j < i ==> list[j]@ == self.data[j]@.document(),
                decreases self.data.len() - i,
            {
                list.push(self.data[i].document());
                i += 1;
            }
            proof {
                lemma_list_view(list);
                assert(documents(list@) =~= Seq::new(
                    self@.data.len(),
                    |i: int| self@.data[i].document(),
                ));
            }
            push_member(&mut entries, "data", Value::List(list));
        }
        if let Some(symbol) = &self.symbol {
            push_member(&mut entries, "symbol", symbol.document.clone());
        }
        if let Some(symbol_size) = &self.symbol_size {
            push_member(&mut entries, "symbolSize", symbol_size.document.clone());
        }
        if let Some(label) = &self.label {
            push_member(&mut entries, "label", label.document.clone());
        }
        proof {
            lemma_object_view(entries);
            assert(members(entries@) =~= self@.members());
        }
        Value::Object(entries)
    }
}

} // verus!
