use vstd::prelude::*;

use crate::script::{spec_kind_of, ScriptValue, ValueKind};

verus! {

/// Names of the eight displayable presence fields. A closed set, fixed
/// at startup.
#[derive(Debug, Clone, Copy, PartialEq, Eq, Structural)]
pub enum ActivityDataTag {
    Active,
    State,
    Details,
    Timestamp,
    FirstButton,
    SecondButton,
    LargeImage,
    SmallImage,
}

/// One field update travelling from a watcher to the aggregator: the
/// field it names and the freshly decoded value.
#[derive(Debug, Clone, PartialEq)]
pub enum ActivityData {
    Active(bool),
    State(String),
    Details(String),
    Timestamp(Timestamp),
    FirstButton(Button),
    SecondButton(Button),
    LargeImage(Image),
    SmallImage(Image),
}

/// An image asset with an optional caption.
#[derive(Debug, Clone, PartialEq)]
pub struct Image {
    pub asset: String,
    pub text: Option<String>,
}

/// A clickable link shown under the presence.
#[derive(Debug, Clone, PartialEq)]
pub struct Button {
    pub text: String,
    pub url: String,
}

/// A displayed time range; either bound may be absent.
#[derive(Debug, Clone, Copy, PartialEq, Eq)]
pub struct Timestamp {
    pub start: Option<i64>,
    pub end: Option<i64>,
}

/// The semantic type a field decodes into, named in conversion errors.
#[derive(Clone, Copy, Debug, PartialEq, Eq, Structural)]
pub enum DecodeTarget {
    Boolean,
    Text,
    Timestamp,
    Button,
    Image,
}

/// Why a field could not be resolved: the non-fatal, per-field error
/// class. The field in question is simply omitted or stops updating.
#[derive(Clone, Copy, Debug, PartialEq, Eq, Structural)]
pub enum FieldError {
    /// The value's runtime shape does not decode into the field's
    /// semantic type.
    Conversion { from: ValueKind, to: DecodeTarget },
    /// Classification chased zero-argument functions past the depth
    /// bound without reaching a classifiable value.
    RecursionLimit,
}

/// A required text slot: the slot must hold text; an empty or nil slot
/// is as much a mismatch as a wrongly typed one. The error carries the
/// offending kind.
pub open spec fn spec_req_text(slot: Option<Box<ScriptValue>>) -> Result<String, ValueKind> {
    match slot {
        Option::None => Result::Err(ValueKind::Nil),
        Option::Some(b) => match *b {
            ScriptValue::Text(s) => Result::Ok(s),
            v => Result::Err(spec_kind_of(v)),
        },
    }
}

/// An optional text slot: absent or nil reads as `None`, text as
/// `Some`, anything else is a mismatch.
pub open spec fn spec_opt_text(slot: Option<Box<ScriptValue>>) -> Result<
    Option<String>,
    ValueKind,
> {
    match slot {
        Option::None => Result::Ok(Option::None),
        Option::Some(b) => match *b {
            ScriptValue::Nil => Result::Ok(Option::None),
            ScriptValue::Text(s) => Result::Ok(Option::Some(s)),
            v => Result::Err(spec_kind_of(v)),
        },
    }
}

/// An optional integer slot: absent or nil reads as `None`, an integer
/// as `Some`, anything else is a mismatch.
pub open spec fn spec_opt_int(slot: Option<Box<ScriptValue>>) -> Result<Option<i64>, ValueKind> {
    match slot {
        Option::None => Result::Ok(Option::None),
        Option::Some(b) => match *b {
            ScriptValue::Nil => Result::Ok(Option::None),
            ScriptValue::Integer(n) => Result::Ok(Option::Some(n)),
            v => Result::Err(spec_kind_of(v)),
        },
    }
}

/// What `Image::from_lua` returns: a table decodes slot by slot (the
/// first slot is the required asset, `text` the optional caption), bare
/// text is an asset with no caption, and every other shape fails.
pub open spec fn spec_image_from(v: ScriptValue) -> Result<Image, FieldError> {
    match v {
        ScriptValue::Table(t) => match spec_req_text(t.first) {
            Result::Err(k) => Result::Err(
                FieldError::Conversion { from: k, to: DecodeTarget::Image },
            ),
            Result::Ok(asset) => match spec_opt_text(t.text) {
                Result::Err(k) => Result::Err(
                    FieldError::Conversion { from: k, to: DecodeTarget::Image },
                ),
                Result::Ok(caption) => Result::Ok(Image { asset, text: caption }),
            },
        },
        ScriptValue::Text(s) => Result::Ok(Image { asset: s, text: Option::None }),
        _ => Result::Err(
            FieldError::Conversion { from: spec_kind_of(v), to: DecodeTarget::Image },
        ),
    }
}

/// What `Button::from_lua` returns: a table decodes the first slot as
/// the label and `url` as the target, bare text serves as both label
/// and target, and every other shape fails.
pub open spec fn spec_button_from(v: ScriptValue) -> Result<Button, FieldError> {
    match v {
        ScriptValue::Table(t) => match spec_req_text(t.first) {
            Result::Err(k) => Result::Err(
                FieldError::Conversion { from: k, to: DecodeTarget::Button },
            ),
            Result::Ok(text) => match spec_req_text(t.url) {
                Result::Err(k) => Result::Err(
                    FieldError::Conversion { from: k, to: DecodeTarget::Button },
                ),
                Result::Ok(url) => Result::Ok(Button { text, url }),
            },
        },
        ScriptValue::Text(s) => Result::Ok(Button { text: s, url: s }),
        _ => Result::Err(
            FieldError::Conversion { from: spec_kind_of(v), to: DecodeTarget::Button },
        ),
    }
}

/// What `Timestamp::from_lua` returns: a table decodes its `start` and
/// `_end` slots, a bare integer is a start time with no end, and every
/// other shape fails.
pub open spec fn spec_timestamp_from(v: ScriptValue) -> Result<Timestamp, FieldError> {
    match v {
        ScriptValue::Table(t) => match spec_opt_int(t.start) {
            Result::Err(k) => Result::Err(
                FieldError::Conversion { from: k, to: DecodeTarget::Timestamp },
            ),
            Result::Ok(start) => match spec_opt_int(t.end) {
                Result::Err(k) => Result::Err(
                    FieldError::Conversion { from: k, to: DecodeTarget::Timestamp },
                ),
                Result::Ok(end) => Result::Ok(Timestamp { start, end }),
            },
        },
        ScriptValue::Integer(n) => Result::Ok(
            Timestamp { start: Option::Some(n), end: Option::None },
        ),
        _ => Result::Err(
            FieldError::Conversion { from: spec_kind_of(v), to: DecodeTarget::Timestamp },
        ),
    }
}

/// The active flag decodes by script truthiness: nil and false are
/// false, everything else is true. It never fails.
pub open spec fn spec_bool_from(v: ScriptValue) -> bool {
    match v {
        ScriptValue::Nil => false,
        ScriptValue::Boolean(b) => b,
        _ => true,
    }
}

/// A text field accepts exactly text.
pub open spec fn spec_text_from(v: ScriptValue) -> Result<String, FieldError> {
    match v {
        ScriptValue::Text(s) => Result::Ok(s),
        _ => Result::Err(
            FieldError::Conversion { from: spec_kind_of(v), to: DecodeTarget::Text },
        ),
    }
}

/// What decoding a value for a given field returns: the tag picks the
/// semantic type, the matching decoder runs, and the result is wrapped
/// in the field's update variant.
pub open spec fn spec_decode(tag: ActivityDataTag, v: ScriptValue) -> Result<
    ActivityData,
    FieldError,
> {
    match tag {
        ActivityDataTag::Active => Result::Ok(ActivityData::Active(spec_bool_from(v))),
        ActivityDataTag::State => match spec_text_from(v) {
            Result::Ok(s) => Result::Ok(ActivityData::State(s)),
            Result::Err(e) => Result::Err(e),
        },
        ActivityDataTag::Details => match spec_text_from(v) {
            Result::Ok(s) => Result::Ok(ActivityData::Details(s)),
            Result::Err(e) => Result::Err(e),
        },
        ActivityDataTag::Timestamp => match spec_timestamp_from(v) {
            Result::Ok(t) => Result::Ok(ActivityData::Timestamp(t)),
            Result::Err(e) => Result::Err(e),
        },
        ActivityDataTag::FirstButton => match spec_button_from(v) {
            Result::Ok(b) => Result::Ok(ActivityData::FirstButton(b)),
            Result::Err(e) => Result::Err(e),
        },
        ActivityDataTag::SecondButton => match spec_button_from(v) {
            Result::Ok(b) => Result::Ok(ActivityData::SecondButton(b)),
            Result::Err(e) => Result::Err(e),
        },
        ActivityDataTag::LargeImage => match spec_image_from(v) {
            Result::Ok(i) => Result::Ok(ActivityData::LargeImage(i)),
            Result::Err(e) => Result::Err(e),
        },
        ActivityDataTag::SmallImage => match spec_image_from(v) {
            Result::Ok(i) => Result::Ok(ActivityData::SmallImage(i)),
            Result::Err(e) => Result::Err(e),
        },
    }
}

/// Reads a required text slot out of a table.
fn req_text(slot: &Option<Box<ScriptValue>>) -> (r: Result<String, ValueKind>)
    ensures
        r == spec_req_text(*slot),
{
    match slot {
        Option::None => Result::Err(ValueKind::Nil),
        Option::Some(b) => match &**b {
            ScriptValue::Text(s) => Result::Ok(s.clone()),
            other => Result::Err(other.kind()),
        },
    }
}

/// Reads an optional text slot out of a table.
fn opt_text(slot: &Option<Box<ScriptValue>>) -> (r: Result<Option<String>, ValueKind>)
    ensures
        r == spec_opt_text(*slot),
{
    match slot {
        Option::None => Result::Ok(Option::None),
        Option::Some(b) => match &**b {
            ScriptValue::Nil => Result::Ok(Option::None),
            ScriptValue::Text(s) => Result::Ok(Option::Some(s.clone())),
            other => Result::Err(other.kind()),
        },
    }
}

/// Reads an optional integer slot out of a table.
fn opt_int(slot: &Option<Box<ScriptValue>>) -> (r: Result<Option<i64>, ValueKind>)
    ensures
        r == spec_opt_int(*slot),
{
    match slot {
        Option::None => Result::Ok(Option::None),
        Option::Some(b) => match &**b {
            ScriptValue::Nil => Result::Ok(Option::None),
            ScriptValue::Integer(n) => Result::Ok(Option::Some(*n)),
            other => Result::Err(other.kind()),
        },
    }
}

impl Image {
    /// Decodes a script value into an image reference.
    pub fn from_lua(v: &ScriptValue) -> (r: Result<Image, FieldError>)
        ensures
            r == spec_image_from(*v),
    {
        match v {
            ScriptValue::Table(t) => {
                let asset = match req_text(&t.first) {
                    Result::Ok(a) => a,
                    Result::Err(k) => {
                        return Result::Err(
                            FieldError::Conversion { from: k, to: DecodeTarget::Image },
                        );
                    },
                };
                let caption = match opt_text(&t.text) {
                    Result::Ok(c) => c,
                    Result::Err(k) => {
                        return Result::Err(
                            FieldError::Conversion { from: k, to: DecodeTarget::Image },
                        );
                    },
                };
                Result::Ok(Image { asset, text: caption })
            },
            ScriptValue::Text(s) => Result::Ok(Image { asset: s.clone(), text: Option::None }),
            _ => Result::Err(
                FieldError::Conversion { from: v.kind(), to: DecodeTarget::Image },
            ),
        }
    }
}

impl Button {
    /// Decodes a script value into a link button.
    pub fn from_lua(v: &ScriptValue) -> (r: Result<Button, FieldError>)
        ensures
            r == spec_button_from(*v),
    {
        match v {
            ScriptValue::Table(t) => {
                let text = match req_text(&t.first) {
                    Result::Ok(s) => s,
                    Result::Err(k) => {
                        return Result::Err(
                            FieldError::Conversion { from: k, to: DecodeTarget::Button },
                        );
                    },
                };
                let url = match req_text(&t.url) {
                    Result::Ok(s) => s,
                    Result::Err(k) => {
                        return Result::Err(
                            FieldError::Conversion { from: k, to: DecodeTarget::Button },
                        );
                    },
                };
                Result::Ok(Button { text, url })
            },
            ScriptValue::Text(s) => Result::Ok(Button { text: s.clone(), url: s.clone() }),
            _ => Result::Err(
                FieldError::Conversion { from: v.kind(), to: DecodeTarget::Button },
            ),
        }
    }
}

impl Timestamp {
    /// Decodes a script value into a time range.
    pub fn from_lua(v: &ScriptValue) -> (r: Result<Timestamp, FieldError>)
        ensures
            r == spec_timestamp_from(*v),
    {
        match v {
            ScriptValue::Table(t) => {
                let start = match opt_int(&t.start) {
                    Result::Ok(s) => s,
                    Result::Err(k) => {
                        return Result::Err(
                            FieldError::Conversion { from: k, to: DecodeTarget::Timestamp },
                        );
                    },
                };
                let end = match opt_int(&t.end) {
                    Result::Ok(e) => e,
                    Result::Err(k) => {
                        return Result::Err(
                            FieldError::Conversion { from: k, to: DecodeTarget::Timestamp },
                        );
                    },
                };
                Result::Ok(Timestamp { start, end })
            },
            ScriptValue::Integer(n) => Result::Ok(
                Timestamp { start: Option::Some(*n), end: Option::None },
            ),
            _ => Result::Err(
                FieldError::Conversion { from: v.kind(), to: DecodeTarget::Timestamp },
            ),
        }
    }
}

impl ActivityDataTag {
    /// Decodes a script value into this field's update, by the field's
    /// own semantic type.
    pub fn decode(&self, v: &ScriptValue) -> (r: Result<ActivityData, FieldError>)
        ensures
            r == spec_decode(*self, *v),
    {
        match self {
            ActivityDataTag::Active => {
                let b = match v {
                    ScriptValue::Nil => false,
                    ScriptValue::Boolean(x) => *x,
                    _ => true,
                };
                Result::Ok(ActivityData::Active(b))
            },
            ActivityDataTag::State => match v {
                ScriptValue::Text(s) => Result::Ok(ActivityData::State(s.clone())),
                _ => Result::Err(
                    FieldError::Conversion { from: v.kind(), to: DecodeTarget::Text },
                ),
            },
            ActivityDataTag::Details => match v {
                ScriptValue::Text(s) => Result::Ok(ActivityData::Details(s.clone())),
                _ => Result::Err(
                    FieldError::Conversion { from: v.kind(), to: DecodeTarget::Text },
                ),
            },
            ActivityDataTag::Timestamp => match Timestamp::from_lua(v) {
                Result::Ok(t) => Result::Ok(ActivityData::Timestamp(t)),
                Result::Err(e) => Result::Err(e),
            },
            ActivityDataTag::FirstButton => match Button::from_lua(v) {
                Result::Ok(b) => Result::Ok(ActivityData::FirstButton(b)),
                Result::Err(e) => Result::Err(e),
            },
            ActivityDataTag::SecondButton => match Button::from_lua(v) {
                Result::Ok(b) => Result::Ok(ActivityData::SecondButton(b)),
                Result::Err(e) => Result::Err(e),
            },
            ActivityDataTag::LargeImage => match Image::from_lua(v) {
                Result::Ok(i) => Result::Ok(ActivityData::LargeImage(i)),
                Result::Err(e) => Result::Err(e),
            },
            ActivityDataTag::SmallImage => match Image::from_lua(v) {
                Result::Ok(i) => Result::Ok(ActivityData::SmallImage(i)),
                Result::Err(e) => Result::Err(e),
            },
        }
    }
}

} // verus!
