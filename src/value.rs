use vstd::prelude::*;

verus! {

/// A generic value: what one column of one row becomes.
///
/// A number is either a 64-bit signed integer or a double, the latter held as
/// its IEEE-754 bit pattern.
#[derive(Debug, PartialEq)]
pub enum GenericValue {
    Null,
    Bool(bool),
    Int(i64),
    Float(u64),
    String(String),
}

/// The mathematical model of a `GenericValue`.
pub ghost enum ValueView {
    Null,
    Bool(bool),
    Int(int),
    Float(u64),
    String(Seq<char>),
}

/// The kind of a generic value, as a caller of the library sees it.
#[derive(Debug, Clone, Copy, PartialEq, Eq, Structural)]
pub enum ValueTag {
    Null,
    Bool,
    Number,
    String,
}

impl ValueView {
    pub open spec fn tag(self) -> ValueTag {
        match self {
            ValueView::Null => ValueTag::Null,
            ValueView::Bool(_) => ValueTag::Bool,
            ValueView::Int(_) => ValueTag::Number,
            ValueView::Float(_) => ValueTag::Number,
            ValueView::String(_) => ValueTag::String,
        }
    }
}

impl View for GenericValue {
    type V = ValueView;

    open spec fn view(&self) -> ValueView {
        match self {
            GenericValue::Null => ValueView::Null,
            GenericValue::Bool(b) => ValueView::Bool(*b),
            GenericValue::Int(i) => ValueView::Int(*i as int),
            GenericValue::Float(f) => ValueView::Float(*f),
            GenericValue::String(s) => ValueView::String(s@),
        }
    }
}

impl GenericValue {
    /// The kind of this value.
    pub fn tag(&self) -> (r: ValueTag)
        ensures
            r == self@.tag(),
    {
        match self {
            GenericValue::Null => ValueTag::Null,
            GenericValue::Bool(_) => ValueTag::Bool,
            GenericValue::Int(_) => ValueTag::Number,
            GenericValue::Float(_) => ValueTag::Number,
            GenericValue::String(_) => ValueTag::String,
        }
    }
}

} // verus!
