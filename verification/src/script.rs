use vstd::prelude::*;

verus! {

/// The shape of a value read out of the configuration script's
/// environment, reduced to what the classifier and the field decoders
/// inspect. Scripted functions and cooperative generators are opaque
/// here: only their presence matters to classification; invoking or
/// resuming them is the caller's business.
#[derive(Debug, PartialEq)]
pub enum ScriptValue {
    /// The script bound nothing (or an explicit nil) to the name.
    Nil,
    Boolean(bool),
    Integer(i64),
    Text(String),
    Table(ScriptTable),
    /// A zero-argument scripted function (opaque).
    Function,
    /// A cooperative generator (opaque).
    Coroutine,
    /// Any other runtime shape the decoders never accept.
    Other,
}

/// The slots of a script table that the decoders and the classifier
/// read: the first positional slot and the named keys. A slot that the
/// script left empty is `None`.
#[derive(Debug, PartialEq)]
pub struct ScriptTable {
    /// The first positional slot: a poll interval, a button label or
    /// an image asset, depending on context.
    pub first: Option<Box<ScriptValue>>,
    /// The `text` key: an image caption.
    pub text: Option<Box<ScriptValue>>,
    /// The `url` key: a button target.
    pub url: Option<Box<ScriptValue>>,
    /// The `start` key of a time range.
    pub start: Option<Box<ScriptValue>>,
    /// The `_end` key of a time range.
    pub end: Option<Box<ScriptValue>>,
}

/// The runtime kind of a script value, reported in conversion errors
/// much as a scripting runtime names its types.
#[derive(Clone, Copy, Debug, PartialEq, Eq, Structural)]
pub enum ValueKind {
    Nil,
    Boolean,
    Integer,
    Text,
    Table,
    Function,
    Coroutine,
    Other,
}

pub open spec fn spec_kind_of(v: ScriptValue) -> ValueKind {
    match v {
        ScriptValue::Nil => ValueKind::Nil,
        ScriptValue::Boolean(_) => ValueKind::Boolean,
        ScriptValue::Integer(_) => ValueKind::Integer,
        ScriptValue::Text(_) => ValueKind::Text,
        ScriptValue::Table(_) => ValueKind::Table,
        ScriptValue::Function => ValueKind::Function,
        ScriptValue::Coroutine => ValueKind::Coroutine,
        ScriptValue::Other => ValueKind::Other,
    }
}

impl ScriptValue {
    /// The kind of this value, as named in conversion errors.
    pub fn kind(&self) -> (r: ValueKind)
        ensures
            r == spec_kind_of(*self),
    {
        match self {
            ScriptValue::Nil => ValueKind::Nil,
            ScriptValue::Boolean(_) => ValueKind::Boolean,
            ScriptValue::Integer(_) => ValueKind::Integer,
            ScriptValue::Text(_) => ValueKind::Text,
            ScriptValue::Table(_) => ValueKind::Table,
            ScriptValue::Function => ValueKind::Function,
            ScriptValue::Coroutine => ValueKind::Coroutine,
            ScriptValue::Other => ValueKind::Other,
        }
    }
}

} // verus!
