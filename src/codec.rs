//! The two codecs of an identifier: the database's dynamic value, which keeps
//! the variant, and the text shapes of a JSON-like format.
use crate::numerals::{hex_of, is_object_id_hex};
use crate::id::{id_of_string, IdView, Oid, ID};
use vstd::prelude::*;

verus! {

/// The kinds of the database's dynamic value that an identifier can be,
/// and one for every other kind.
#[derive(Clone, Debug)]
pub enum DbValue {
    ObjectId(Oid),
    String(String),
    Int64(i64),
    Other,
}

/// What a dynamic value holds, as mathematical values.
pub enum DbView {
    ObjectId(Seq<u8>),
    String(Seq<char>),
    Int64(i64),
    Other,
}

impl View for DbValue {
    type V = DbView;

    open spec fn view(&self) -> DbView {
        match self {
            DbValue::ObjectId(o) => DbView::ObjectId(o@),
            DbValue::String(s) => DbView::String(s@),
            DbValue::Int64(i) => DbView::Int64(*i),
            DbValue::Other => DbView::Other,
        }
    }
}

/// The shapes of text input that are not identifiers.
#[derive(Clone, Copy, Debug, PartialEq, Eq, Structural)]
pub enum Shape {
    Bool,
    Float,
    Null,
    Sequence,
    Bytes,
    Other,
}

/// Why a value could not be decoded as an identifier.
#[derive(Clone, Copy, Debug, PartialEq, Eq, Structural)]
pub enum DecodeError {
    /// A dynamic value of a kind other than native id, string and 64-bit integer.
    UnsupportedDbValue,
    /// Text input of the named shape.
    UnsupportedShape(Shape),
}

/// The text form of an identifier.
#[derive(Clone, Debug)]
pub enum TextValue {
    /// An object with one entry: key, then value.
    SingleKeyMap(String, String),
    Str(String),
    Int(i64),
}

pub enum TextView {
    SingleKeyMap(Seq<char>, Seq<char>),
    Str(Seq<char>),
    Int(i64),
}

impl View for TextValue {
    type V = TextView;

    open spec fn view(&self) -> TextView {
        match self {
            TextValue::SingleKeyMap(k, v) => TextView::SingleKeyMap(k@, v@),
            TextValue::Str(s) => TextView::Str(s@),
            TextValue::Int(i) => TextView::Int(*i),
        }
    }
}

/// Text input as a self-describing format hands it over. An object arrives
/// already read as the database's dynamic value, extended-JSON shapes such as
/// `{"$oid": ...}` included.
#[derive(Clone, Debug)]
pub enum TextInput {
    Object(DbValue),
    Str(String),
    Signed(i64),
    Unsigned(u64),
    Unsupported(Shape),
}

pub enum TextInputView {
    Object(DbView),
    Str(Seq<char>),
    Signed(i64),
    Unsigned(u64),
    Unsupported(Shape),
}

impl View for TextInput {
    type V = TextInputView;

    open spec fn view(&self) -> TextInputView {
        match self {
            TextInput::Object(v) => TextInputView::Object(v@),
            TextInput::Str(s) => TextInputView::Str(s@),
            TextInput::Signed(i) => TextInputView::Signed(*i),
            TextInput::Unsigned(u) => TextInputView::Unsigned(*u),
            TextInput::Unsupported(k) => TextInputView::Unsupported(*k),
        }
    }
}

/// The dynamic value that stores an identifier: the same variant and value.
pub open spec fn db_of_id(v: IdView) -> DbView {
    match v {
        IdView::ObjectId(b) => DbView::ObjectId(b),
        IdView::String(s) => DbView::String(s),
        IdView::Int64(i) => DbView::Int64(i),
    }
}

/// The identifier that a dynamic value stands for, if it is of one of the
/// three kinds.
pub open spec fn id_of_db(v: DbView) -> Result<IdView, DecodeError> {
    match v {
        DbView::ObjectId(b) => Ok(IdView::ObjectId(b)),
        DbView::String(s) => Ok(IdView::String(s)),
        DbView::Int64(i) => Ok(IdView::Int64(i)),
        DbView::Other => Err(DecodeError::UnsupportedDbValue),
    }
}

/// The key of the extended-JSON form of a native id.
pub open spec fn oid_key() -> Seq<char> {
    seq!['$', 'o', 'i', 'd']
}

/// The text form of an identifier: `{"$oid": hex}`, a string, or a number.
pub open spec fn text_of_id(v: IdView) -> TextView {
    match v {
        IdView::ObjectId(b) => TextView::SingleKeyMap(oid_key(), hex_of(b)),
        IdView::String(s) => TextView::Str(s),
        IdView::Int64(i) => TextView::Int(i),
    }
}

/// An unsigned number read as a signed 64-bit one: values above `i64::MAX`
/// wrap to negative numbers.
pub open spec fn signed_of(u: u64) -> i64 {
    if u <= i64::MAX {
        u as i64
    } else {
        (u as int - 0x1_0000_0000_0000_0000int) as i64
    }
}

/// Reads an unsigned number as a signed one, as `u as i64` does.
fn wrap_to_signed(u: u64) -> (r: i64)
    ensures
        r == signed_of(u),
{
    if u <= i64::MAX as u64 {
        u as i64
    } else {
        ((u - 0x8000_0000_0000_0000u64) as i64) + i64::MIN
    }
}

/// The identifier that text input stands for.
pub open spec fn id_of_text(t: TextInputView) -> Result<IdView, DecodeError> {
    match t {
        TextInputView::Object(v) => id_of_db(v),
        TextInputView::Str(s) => Ok(id_of_string(s)),
        TextInputView::Signed(i) => Ok(IdView::Int64(i)),
        TextInputView::Unsigned(u) => Ok(IdView::Int64(signed_of(u))),
        TextInputView::Unsupported(k) => Err(DecodeError::UnsupportedShape(k)),
    }
}

impl ID {
    /// The identifier that a dynamic value of the database stands for; an
    /// error for a value of any kind but native id, string and 64-bit integer.
    pub fn with_bson(value: &DbValue) -> (r: Result<ID, DecodeError>)
        ensures
            r is Ok <==> id_of_db(value@) is Ok,
            r matches Ok(id) ==> id_of_db(value@) == Ok::<IdView, DecodeError>(id@),
            r matches Err(e) ==> id_of_db(value@) == Err::<IdView, DecodeError>(e),
    {
        match value {
            DbValue::ObjectId(o) => Ok(ID::ObjectId(*o)),
            DbValue::String(s) => Ok(ID::String(s.clone())),
            DbValue::Int64(i) => Ok(ID::Int64(*i)),
            DbValue::Other => Err(DecodeError::UnsupportedDbValue),
        }
    }

    /// The dynamic value that stores this identifier, of the same variant.
    pub fn to_bson(&self) -> (r: DbValue)
        ensures
            r@ == db_of_id(self@),
    {
        match self {
            ID::ObjectId(o) => DbValue::ObjectId(*o),
            ID::String(s) => DbValue::String(s.clone()),
            ID::Int64(i) => DbValue::Int64(*i),
        }
    }

    /// The text form: `{"$oid": "<hex>"}` for a native id, a plain string,
    /// or a plain number.
    pub fn to_text(&self) -> (r: TextValue)
        ensures
            r@ == text_of_id(self@),
    {
        match self {
            ID::ObjectId(o) => {
                let k = String::from_str("$oid");
                proof {
                    reveal_strlit("$oid");
                }
                assert(k@ =~= oid_key());
                TextValue::SingleKeyMap(k, o.to_hex())
            },
            ID::String(s) => TextValue::Str(s.clone()),
            ID::Int64(i) => TextValue::Int(*i),
        }
    }

    /// Reads text input: an object through the database's value, a string by
    /// the native-id convention, a number as an integer; any other shape is
    /// an error that names it.
    pub fn from_text(input: &TextInput) -> (r: Result<ID, DecodeError>)
        ensures
            r is Ok <==> id_of_text(input@) is Ok,
            r matches Ok(id) ==> id_of_text(input@) == Ok::<IdView, DecodeError>(id@),
            r matches Err(e) ==> id_of_text(input@) == Err::<IdView, DecodeError>(e),
    {
        match input {
            TextInput::Object(v) => ID::with_bson(v),
            TextInput::Str(s) => Ok(ID::from_string(s.as_str())),
            TextInput::Signed(i) => Ok(ID::Int64(*i)),
            TextInput::Unsigned(u) => Ok(ID::Int64(wrap_to_signed(*u))),
            TextInput::Unsupported(k) => Err(DecodeError::UnsupportedShape(*k)),
        }
    }
}

} // verus!
