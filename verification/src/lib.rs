//! Mark-point overlays for charts: the option model, its builders, and the
//! document handed to the renderer.
//!
//! A [`MarkPoint`] is assembled by chained calls and then written as a
//! [`Value`]. Every builder states how the model changes, and `document`
//! states, member by member, what is written.

pub mod data_type;
pub mod document;
pub mod group;
pub mod point;
pub mod style;
pub mod text;

pub use data_type::{IntoDataType, InvalidDataTypeTag, MarkPointDataType};
pub use document::{Entry, Number, Value};
pub use group::MarkPoint;
pub use point::{IntoPoint, MarkPointData};
pub use style::{Label, Symbol, SymbolSize};
