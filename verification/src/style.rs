//! Presentation overrides shared by the points of a group. Their shape is
//! decided elsewhere; here each is carried as the document it is written as.

use crate::document::{Doc, Value};
use vstd::prelude::*;

verus! {

/// The shape drawn at a point.
#[derive(Clone, Debug, PartialEq)]
pub struct Symbol {
    pub document: Value,
}

/// The size at which the shape is drawn.
#[derive(Clone, Debug, PartialEq)]
pub struct SymbolSize {
    pub document: Value,
}

/// The style of the text beside a point.
#[derive(Clone, Debug, PartialEq)]
pub struct Label {
    pub document: Value,
}

impl View for Symbol {
    type V = Doc;

    open spec fn view(&self) -> Doc {
        self.document@
    }
}

impl View for SymbolSize {
    type V = Doc;

    open spec fn view(&self) -> Doc {
        self.document@
    }
}

impl View for Label {
    type V = Doc;

    open spec fn view(&self) -> Doc {
        self.document@
    }
}

impl Symbol {
    pub fn new(document: Value) -> (symbol: Symbol)
        ensures
            symbol@ == document@,
    {
        Symbol { document }
    }
}

impl SymbolSize {
    pub fn new(document: Value) -> (size: SymbolSize)
        ensures
            size@ == document@,
    {
        SymbolSize { document }
    }
}

impl Label {
    pub fn new(document: Value) -> (label: Label)
        ensures
            label@ == document@,
    {
        Label { document }
    }
}

} // verus!
