use vstd::prelude::*;

use crate::common::{push_text, text_eq};
use crate::preview::{binary_preview, bytea_as_string};
use crate::value::{GenericValue, ValueTag, ValueView};

verus! {

/// The conversion rule of a column, picked by its declared type name.
#[derive(Debug, Clone, Copy, PartialEq, Eq, Structural)]
pub enum ColumnRule {
    Int2,
    Int4,
    Int8,
    Float4,
    Float8,
    Text,
    TimestampTz,
    Timestamp,
    Bool,
    Bytea,
    Uuid,
    Unhandled,
}

/// The rule for a declared type name: an exact, case-sensitive match.
pub open spec fn rule_of(t: Seq<char>) -> ColumnRule {
    if t == "INT2"@ {
        ColumnRule::Int2
    } else if t == "INT4"@ {
        ColumnRule::Int4
    } else if t == "INT8"@ {
        ColumnRule::Int8
    } else if t == "FLOAT4"@ {
        ColumnRule::Float4
    } else if t == "FLOAT8"@ {
        ColumnRule::Float8
    } else if t == "VARCHAR"@ || t == "TEXT"@ {
        ColumnRule::Text
    } else if t == "TIMESTAMPTZ"@ {
        ColumnRule::TimestampTz
    } else if t == "TIMESTAMP"@ {
        ColumnRule::Timestamp
    } else if t == "BOOL"@ {
        ColumnRule::Bool
    } else if t == "BYTEA"@ {
        ColumnRule::Bytea
    } else if t == "UUID"@ {
        ColumnRule::Uuid
    } else {
        ColumnRule::Unhandled
    }
}

/// Picks the conversion rule for a declared type name.
pub fn rule_for(declared: &str) -> (r: ColumnRule)
    ensures
        r == rule_of(declared@),
{
    if text_eq(declared, "INT2") {
        ColumnRule::Int2
    } else if text_eq(declared, "INT4") {
        ColumnRule::Int4
    } else if text_eq(declared, "INT8") {
        ColumnRule::Int8
    } else if text_eq(declared, "FLOAT4") {
        ColumnRule::Float4
    } else if text_eq(declared, "FLOAT8") {
        ColumnRule::Float8
    } else if text_eq(declared, "VARCHAR") || text_eq(declared, "TEXT") {
        ColumnRule::Text
    } else if text_eq(declared, "TIMESTAMPTZ") {
        ColumnRule::TimestampTz
    } else if text_eq(declared, "TIMESTAMP") {
        ColumnRule::Timestamp
    } else if text_eq(declared, "BOOL") {
        ColumnRule::Bool
    } else if text_eq(declared, "BYTEA") {
        ColumnRule::Bytea
    } else if text_eq(declared, "UUID") {
        ColumnRule::Uuid
    } else {
        ColumnRule::Unhandled
    }
}

/// What the database driver read for one column under its rule: a null, a
/// value of the type the rule decodes (a time stamp or an identifier in its
/// textual form, a double as its bit pattern), or the message of a failed
/// decode.
#[derive(Debug, PartialEq)]
pub enum Decoded {
    Null,
    Int2(i16),
    Int4(i32),
    Int8(i64),
    Float(u64),
    Text(String),
    Bool(bool),
    Bytes(Vec<u8>),
    Failed(String),
}

/// The mathematical model of a `Decoded`.
pub ghost enum DecodedView {
    Null,
    Int2(i16),
    Int4(i32),
    Int8(i64),
    Float(u64),
    Text(Seq<char>),
    Bool(bool),
    Bytes(Seq<u8>),
    Failed(Seq<char>),
}

impl View for Decoded {
    type V = DecodedView;

    open spec fn view(&self) -> DecodedView {
        match self {
            Decoded::Null => DecodedView::Null,
            Decoded::Int2(v) => DecodedView::Int2(*v),
            Decoded::Int4(v) => DecodedView::Int4(*v),
            Decoded::Int8(v) => DecodedView::Int8(*v),
            Decoded::Float(v) => DecodedView::Float(*v),
            Decoded::Text(s) => DecodedView::Text(s@),
            Decoded::Bool(b) => DecodedView::Bool(*b),
            Decoded::Bytes(b) => DecodedView::Bytes(b@),
            Decoded::Failed(m) => DecodedView::Failed(m@),
        }
    }
}

/// Whether a rule renders its values as text, and so embeds the message of a
/// failed decode rather than giving a null.
pub open spec fn renders_text(rule: ColumnRule) -> bool {
    rule == ColumnRule::Text || rule == ColumnRule::TimestampTz || rule == ColumnRule::Timestamp
        || rule == ColumnRule::Uuid
}

/// What a failed decode of a stored value gives.
#[derive(Debug, Clone, Copy, PartialEq, Eq, Structural)]
pub enum OnDecodeError {
    /// A text embedding the message under the textual rules, null under the
    /// others: the behaviour the rule table has always had.
    ByRule,
    /// Null under every rule.
    Null,
    /// A text embedding the message under every rule.
    EmbedMessage,
}

/// Whether a failed decode under `rule` embeds its message.
pub open spec fn embeds_failure(rule: ColumnRule, policy: OnDecodeError) -> bool {
    match policy {
        OnDecodeError::ByRule => renders_text(rule),
        OnDecodeError::Null => false,
        OnDecodeError::EmbedMessage => true,
    }
}

/// The kind of value a rule gives for a stored, well decoded value.
pub open spec fn rule_tag(rule: ColumnRule) -> ValueTag {
    match rule {
        ColumnRule::Int2 | ColumnRule::Int4 | ColumnRule::Int8 => ValueTag::Number,
        ColumnRule::Float4 | ColumnRule::Float8 => ValueTag::Number,
        ColumnRule::Bool => ValueTag::Bool,
        _ => ValueTag::String,
    }
}

/// Whether `d` is a value of the type that `rule` decodes.
pub open spec fn decodes_as(rule: ColumnRule, d: DecodedView) -> bool {
    match d {
        DecodedView::Int2(_) => rule == ColumnRule::Int2,
        DecodedView::Int4(_) => rule == ColumnRule::Int4,
        DecodedView::Int8(_) => rule == ColumnRule::Int8,
        DecodedView::Float(_) => rule == ColumnRule::Float4 || rule == ColumnRule::Float8,
        DecodedView::Text(_) => renders_text(rule),
        DecodedView::Bool(_) => rule == ColumnRule::Bool,
        DecodedView::Bytes(_) => rule == ColumnRule::Bytea,
        _ => false,
    }
}

/// The marker text for a declared type that no rule knows.
pub open spec fn unhandled_marker(t: Seq<char>) -> Seq<char> {
    "(UNHANDLED TYPE: "@ + t + ")"@
}

/// The text that a failed decode under a textual rule gives.
pub open spec fn error_text(msg: Seq<char>) -> Seq<char> {
    "ERROR: "@ + msg
}

/// The generic value of one column, declared as `declared` and given `rule`,
/// whose stored value the driver read as `d`.
///
/// A null stays null under every rule. A declared type that no rule knows
/// gives its marker. A failed decode gives null or a text that embeds the
/// message, as `policy` says. A value of another type than the rule decodes
/// is a failed decode without a message, and gives null.
pub open spec fn converted(
    rule: ColumnRule,
    declared: Seq<char>,
    d: DecodedView,
    policy: OnDecodeError,
) -> ValueView {
    if d is Null {
        ValueView::Null
    } else if rule == ColumnRule::Unhandled {
        ValueView::String(unhandled_marker(declared))
    } else {
        match d {
            DecodedView::Failed(msg) => if embeds_failure(rule, policy) {
                ValueView::String(error_text(msg))
            } else {
                ValueView::Null
            },
            _ => if !decodes_as(rule, d) {
                ValueView::Null
            } else {
                match d {
                    DecodedView::Int2(v) => ValueView::Int(v as int),
                    DecodedView::Int4(v) => ValueView::Int(v as int),
                    DecodedView::Int8(v) => ValueView::Int(v as int),
                    DecodedView::Float(bits) => ValueView::Float(bits),
                    DecodedView::Text(s) => ValueView::String(s),
                    DecodedView::Bool(b) => ValueView::Bool(b),
                    DecodedView::Bytes(b) => ValueView::String(binary_preview(b)),
                    _ => ValueView::Null,
                }
            },
        }
    }
}

/// Converts one column value, read as `d` from a column declared as
/// `declared` whose rule is `rule`; a failed decode is handled by `policy`.
pub fn convert_value(
    rule: ColumnRule,
    declared: &str,
    d: &Decoded,
    policy: OnDecodeError,
) -> (r: GenericValue)
    ensures
        r@ == converted(rule, declared@, d@, policy),
{
    match d {
        Decoded::Null => GenericValue::Null,
        _ => {
            if let ColumnRule::Unhandled = rule {
                let mut s = String::new();
                push_text(&mut s, "(UNHANDLED TYPE: ");
                push_text(&mut s, declared);
                push_text(&mut s, ")");
                return GenericValue::String(s);
            }
            let textual = match rule {
                ColumnRule::Text | ColumnRule::TimestampTz | ColumnRule::Timestamp
                | ColumnRule::Uuid => true,
                _ => false,
            };
            let embed = match policy {
                OnDecodeError::ByRule => textual,
                OnDecodeError::Null => false,
                OnDecodeError::EmbedMessage => true,
            };
            match d {
                Decoded::Failed(msg) => {
                    if embed {
                        let mut s = String::new();
                        push_text(&mut s, "ERROR: ");
                        push_text(&mut s, msg.as_str());
                        GenericValue::String(s)
                    } else {
                        GenericValue::Null
                    }
                },
                Decoded::Int2(v) => match rule {
                    ColumnRule::Int2 => GenericValue::Int(*v as i64),
                    _ => GenericValue::Null,
                },
                Decoded::Int4(v) => match rule {
                    ColumnRule::Int4 => GenericValue::Int(*v as i64),
                    _ => GenericValue::Null,
                },
                Decoded::Int8(v) => match rule {
                    ColumnRule::Int8 => GenericValue::Int(*v),
                    _ => GenericValue::Null,
                },
                Decoded::Float(bits) => match rule {
                    ColumnRule::Float4 | ColumnRule::Float8 => GenericValue::Float(*bits),
                    _ => GenericValue::Null,
                },
                Decoded::Text(s) => if textual {
                    GenericValue::String(s.clone())
                } else {
                    GenericValue::Null
                },
                Decoded::Bool(b) => match rule {
                    ColumnRule::Bool => GenericValue::Bool(*b),
                    _ => GenericValue::Null,
                },
                Decoded::Bytes(b) => match rule {
                    ColumnRule::Bytea => GenericValue::String(bytea_as_string(b.as_slice())),
                    _ => GenericValue::Null,
                },
                Decoded::Null => GenericValue::Null,
            }
        },
    }
}

/// A stored value of the type a known rule decodes gives a value of the kind
/// that rule documents: a number for integers and floats, a boolean for
/// booleans, a text for texts, time stamps, identifiers and binary values.
pub proof fn lemma_supported_value_keeps_tag(
    declared: Seq<char>,
    d: DecodedView,
    policy: OnDecodeError,
)
    requires
        rule_of(declared) != ColumnRule::Unhandled,
        decodes_as(rule_of(declared), d),
    ensures
        converted(rule_of(declared), declared, d, policy).tag() == rule_tag(rule_of(declared)),
{
}

/// A stored null gives a null, whatever the declared type.
pub proof fn lemma_null_stays_null(declared: Seq<char>, policy: OnDecodeError)
    ensures
        converted(rule_of(declared), declared, DecodedView::Null, policy) == ValueView::Null,
{
}

} // verus!
