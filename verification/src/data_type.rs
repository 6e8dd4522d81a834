//! The kinds of point a mark can select, and their coercion from text.

use crate::text::same_text;
use vstd::prelude::*;
use vstd::std_specs::convert::TryFromSpecImpl;

verus! {

/// Which statistical point of a series a mark selects.
#[derive(Clone, Copy, Debug, PartialEq, Eq, Structural)]
pub enum MarkPointDataType {
    Min,
    Max,
    Average,
}

/// A text that names no kind of point, kept as it was given.
#[derive(Clone, Debug, PartialEq, Eq)]
pub struct InvalidDataTypeTag {
    pub input: String,
}

/// The kind that a text names: `min`, `max`, and either of `avg` and
/// `average`. The match is exact and case-sensitive; every other text names
/// none.
pub open spec fn recognized(text: Seq<char>) -> Option<MarkPointDataType> {
    if text == "min"@ {
        Some(MarkPointDataType::Min)
    } else if text == "max"@ {
        Some(MarkPointDataType::Max)
    } else if text == "avg"@ || text == "average"@ {
        Some(MarkPointDataType::Average)
    } else {
        None
    }
}

impl MarkPointDataType {
    /// The text under which a kind is written into a document.
    pub open spec fn wire_name(self) -> Seq<char> {
        match self {
            MarkPointDataType::Min => "min"@,
            MarkPointDataType::Max => "max"@,
            MarkPointDataType::Average => "average"@,
        }
    }

    /// The text under which this kind is written into a document.
    pub fn as_str(&self) -> (name: &'static str)
        ensures
            name@ == self.wire_name(),
    {
        match self {
            MarkPointDataType::Min => "min",
            MarkPointDataType::Max => "max",
            MarkPointDataType::Average => "average",
        }
    }
}

impl<'a> TryFrom<&'a str> for MarkPointDataType {
    type Error = InvalidDataTypeTag;

    /// Coerces a text into the kind it names, or hands the text back in the
    /// error when it names none.
    fn try_from(text: &'a str) -> (coerced: Result<MarkPointDataType, InvalidDataTypeTag>)
        ensures
            match recognized(text@) {
                Some(kind) => coerced == Ok::<MarkPointDataType, InvalidDataTypeTag>(kind),
                None => coerced is Err && coerced->Err_0.input@ == text@,
            },
    {
        if same_text(text, "min") {
            Ok(MarkPointDataType::Min)
        } else if same_text(text, "max") {
            Ok(MarkPointDataType::Max)
        } else if same_text(text, "avg") || same_text(text, "average") {
            Ok(MarkPointDataType::Average)
        } else {
            Err(InvalidDataTypeTag { input: text.to_owned() })
        }
    }
}

/// The error of a failed coercion owns a fresh copy of the text, and no
/// ghost expression can build an owned string. So the generic law of
/// `try_from` is switched off here, and the contract on `try_from` itself
/// says what is returned.
impl<'a> TryFromSpecImpl<&'a str> for MarkPointDataType {
    open spec fn obeys_try_from_spec() -> bool {
        false
    }

    open spec fn try_from_spec(text: &'a str) -> Result<MarkPointDataType, InvalidDataTypeTag> {
        match recognized(text@) {
            Some(kind) => Ok(kind),
            None => Err(choose|error: InvalidDataTypeTag| error.input@ == text@),
        }
    }
}

/// Values that a kind of point can be asked from: a kind itself, or a text
/// that is to be coerced.
pub trait IntoDataType: Sized {
    /// The kind that this value gives, or the text that is refused.
    spec fn coerced(&self) -> Result<MarkPointDataType, Seq<char>>;

    fn into_data_type(self) -> (kind: Result<MarkPointDataType, InvalidDataTypeTag>)
        ensures
            match self.coerced() {
                Ok(given) => kind == Ok::<MarkPointDataType, InvalidDataTypeTag>(given),
                Err(refused) => kind is Err && kind->Err_0.input@ == refused,
            },
    ;
}

impl IntoDataType for MarkPointDataType {
    open spec fn coerced(&self) -> Result<MarkPointDataType, Seq<char>> {
        Ok(*self)
    }

    fn into_data_type(self) -> (kind: Result<MarkPointDataType, InvalidDataTypeTag>) {
        Ok(self)
    }
}

impl<'a> IntoDataType for &'a str {
    open spec fn coerced(&self) -> Result<MarkPointDataType, Seq<char>> {
        match recognized(self@) {
            Some(kind) => Ok(kind),
            None => Err(self@),
        }
    }

    fn into_data_type(self) -> (kind: Result<MarkPointDataType, InvalidDataTypeTag>) {
        MarkPointDataType::try_from(self)
    }
}

/// Every kind is written under a text that coerces back to that kind.
pub proof fn lemma_wire_name_recognized(kind: MarkPointDataType)
    ensures
        recognized(kind.wire_name()) == Some(kind),
{
    reveal_strlit("min");
    reveal_strlit("max");
    reveal_strlit("avg");
    reveal_strlit("average");
    assert("max"@[1] != "min"@[1]);
    assert("average"@.len() != "min"@.len());
    assert("average"@.len() != "max"@.len());
}

/// The four accepted texts, and what each of them names.
pub proof fn lemma_recognized_aliases()
    ensures
        recognized("min"@) == Some(MarkPointDataType::Min),
        recognized("max"@) == Some(MarkPointDataType::Max),
        recognized("avg"@) == Some(MarkPointDataType::Average),
        recognized("average"@) == Some(MarkPointDataType::Average),
{
    reveal_strlit("min");
    reveal_strlit("max");
    reveal_strlit("avg");
    reveal_strlit("average");
    assert("max"@[1] != "min"@[1]);
    assert("avg"@[0] != "min"@[0]);
    assert("avg"@[0] != "max"@[0]);
    assert("average"@.len() != "min"@.len());
    assert("average"@.len() != "max"@.len());
}

/// A text is accepted exactly when it is one of the four accepted texts.
pub proof fn lemma_recognized_iff_alias(text: Seq<char>)
    ensures
        recognized(text) is Some <==> (text == "min"@ || text == "max"@ || text == "avg"@ || text
            == "average"@),
{
}

} // verus!
