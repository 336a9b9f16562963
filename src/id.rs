//! The identifier type, its native object id, and the string convention
//! that tells the three variants apart.
use crate::numerals::{
    decimal_of, decimal_string, hex_decode, hex_of, is_object_id_hex, lemma_decimal_not_object_id, object_id_hex,
    parse_object_id, OID_LEN,
};
use vstd::prelude::*;
use vstd::std_specs::convert::IntoSpec;

verus! {

/// A native object id of the document database: twelve bytes.
#[derive(Clone, Copy, Debug, Eq, Hash)]
pub struct Oid {
    pub bytes: [u8; 12],
}

impl View for Oid {
    type V = Seq<u8>;

    open spec fn view(&self) -> Seq<u8> {
        self.bytes@
    }
}

impl PartialEq for Oid {
    fn eq(&self, other: &Oid) -> (r: bool) {
        let mut i: usize = 0;
        while i < OID_LEN
            invariant
                0 <= i <= OID_LEN,
                self@.len() == OID_LEN,
                other@.len() == OID_LEN,
                forall|j: int| 0 <= j < i ==> self@[j] == other@[j],
            decreases OID_LEN - i,
        {
            if self.bytes[i] != other.bytes[i] {
                return false;
            }
            i = i + 1;
        }
        assert(self@ =~= other@);
        true
    }
}

impl vstd::std_specs::cmp::PartialEqSpecImpl for Oid {
    open spec fn obeys_eq_spec() -> bool {
        true
    }

    open spec fn eq_spec(&self, other: &Oid) -> bool {
        self@ == other@
    }
}

impl Oid {
    /// The id with the given bytes.
    pub fn from_bytes(bytes: [u8; 12]) -> (r: Oid)
        ensures
            r@ == bytes@,
    {
        Oid { bytes }
    }

    /// Reads 24 hex digits of either case; `None` for any other text.
    pub fn parse_str(s: &str) -> (r: Option<Oid>)
        ensures
            r is Some <==> is_object_id_hex(s@),
            r matches Some(o) ==> o@ == hex_decode(s@),
    {
        match parse_object_id(s) {
            Some(b) => Some(Oid { bytes: b }),
            None => None,
        }
    }

    /// The 24 lowercase hex digits of the id.
    pub fn to_hex(&self) -> (r: String)
        ensures
            r@ == hex_of(self@),
    {
        object_id_hex(self.bytes)
    }
}

/// An identifier: a native object id, an opaque string, or a 64-bit integer.
#[derive(Clone, Debug, Eq, Hash)]
pub enum ID {
    ObjectId(Oid),
    String(String),
    Int64(i64),
}

/// What an identifier holds, as mathematical values.
pub enum IdView {
    ObjectId(Seq<u8>),
    String(Seq<char>),
    Int64(i64),
}

impl View for ID {
    type V = IdView;

    open spec fn view(&self) -> IdView {
        match self {
            ID::ObjectId(o) => IdView::ObjectId(o@),
            ID::String(s) => IdView::String(s@),
            ID::Int64(i) => IdView::Int64(*i),
        }
    }
}

impl PartialEq for ID {
    fn eq(&self, other: &ID) -> (r: bool) {
        match (self, other) {
            (ID::ObjectId(a), ID::ObjectId(b)) => a.eq(b),
            (ID::String(a), ID::String(b)) => a.eq(b),
            (ID::Int64(a), ID::Int64(b)) => a == b,
            _ => false,
        }
    }
}

impl vstd::std_specs::cmp::PartialEqSpecImpl for ID {
    open spec fn obeys_eq_spec() -> bool {
        true
    }

    open spec fn eq_spec(&self, other: &ID) -> bool {
        self@ == other@
    }
}

/// The prefix that marks the string form of a native object id.
pub open spec fn oid_prefix() -> Seq<char> {
    seq!['$', 'o', 'i', 'd', ':']
}

/// The string starts with the native-id prefix.
pub open spec fn has_oid_prefix(s: Seq<char>) -> bool {
    s.len() >= 5 && s.subrange(0, 5) == oid_prefix()
}

/// The identifier that a string stands for: a native id where the string is
/// the prefix followed by a valid hex id, else the whole string as text.
pub open spec fn id_of_string(s: Seq<char>) -> IdView {
    if has_oid_prefix(s) && is_object_id_hex(s.subrange(5, s.len() as int)) {
        IdView::ObjectId(hex_decode(s.subrange(5, s.len() as int)))
    } else {
        IdView::String(s)
    }
}

/// The canonical string form of an identifier.
pub open spec fn string_of_id(v: IdView) -> Seq<char> {
    match v {
        IdView::ObjectId(b) => oid_prefix() + hex_of(b),
        IdView::String(s) => s,
        IdView::Int64(i) => decimal_of(i as int),
    }
}

/// The native id that an identifier reads as, where it reads as one.
pub open spec fn object_id_of(v: IdView) -> Option<Seq<u8>> {
    match v {
        IdView::ObjectId(b) => Some(b),
        IdView::String(s) => if is_object_id_hex(s) {
            Some(hex_decode(s))
        } else {
            None
        },
        IdView::Int64(i) => if is_object_id_hex(decimal_of(i as int)) {
            Some(hex_decode(decimal_of(i as int)))
        } else {
            None
        },
    }
}

/// Relies on std's `From<u8> for i64`: a lossless widening, the same value.
pub assume_specification[ <i64 as core::convert::From<u8>>::from ](a: u8) -> (r: i64)
    ensures
        r == a as i64,
;

/// Relies on std's `From<u16> for i64`: a lossless widening, the same value.
pub assume_specification[ <i64 as core::convert::From<u16>>::from ](a: u16) -> (r: i64)
    ensures
        r == a as i64,
;

/// Relies on std's `From<u32> for i64`: a lossless widening, the same value.
pub assume_specification[ <i64 as core::convert::From<u32>>::from ](a: u32) -> (r: i64)
    ensures
        r == a as i64,
;

/// Relies on std's reflexive `impl<T> From<T> for T`: the value itself.
pub assume_specification<T>[ <T as core::convert::From<T>>::from ](t: T) -> (r: T)
    ensures
        r == t,
;

/// The identifier cannot be read as a native object id.
#[derive(Clone, Copy, Debug, PartialEq, Eq, Structural)]
pub struct NotAnObjectId;

impl ID {
    /// Reads a string by the native-id convention: `$oid:` followed by a
    /// valid hex id gives that native id; any other string, a malformed id
    /// after the prefix included, is kept whole as text.
    pub fn from_string(s: &str) -> (r: ID)
        ensures
            r@ == id_of_string(s@),
    {
        let n = s.unicode_len();
        if n >= 5 && s.get_char(0) == '$' && s.get_char(1) == 'o' && s.get_char(2) == 'i'
            && s.get_char(3) == 'd' && s.get_char(4) == ':' {
            assert(s@.subrange(0, 5) =~= oid_prefix());
            let rest = s.substring_char(5, n);
            match parse_object_id(rest) {
                Some(b) => ID::ObjectId(Oid { bytes: b }),
                None => ID::String(String::from_str(s)),
            }
        } else {
            assert(!has_oid_prefix(s@)) by {
                if has_oid_prefix(s@) {
                    assert(s@.subrange(0, 5)[0] == '$');
                    assert(s@.subrange(0, 5)[1] == 'o');
                    assert(s@.subrange(0, 5)[2] == 'i');
                    assert(s@.subrange(0, 5)[3] == 'd');
                    assert(s@.subrange(0, 5)[4] == ':');
                }
            }
            ID::String(String::from_str(s))
        }
    }

    /// A text identifier holding the string as it is.
    pub fn with_string(s: &str) -> (r: ID)
        ensures
            r@ == IdView::String(s@),
    {
        ID::String(String::from_str(s))
    }

    /// An integer identifier from any integer that converts to `i64`.
    pub fn with_i64<I: Into<i64>>(value: I) -> (r: ID)
        ensures
            r is Int64,
            I::obeys_into_spec() ==> r == ID::Int64(value.into_spec()),
            call_ensures(<I as Into<i64>>::into, (value,), r->Int64_0),
    {
        ID::Int64(value.into())
    }

    /// A native-id identifier.
    pub fn with_oid(value: Oid) -> (r: ID)
        ensures
            r == ID::ObjectId(value),
    {
        ID::ObjectId(value)
    }

    /// The canonical string form: `$oid:` and the lowercase hex digits for a
    /// native id, the text itself, or the decimal digits of the integer.
    pub fn to_string(&self) -> (r: String)
        ensures
            r@ == string_of_id(self@),
    {
        match self {
            ID::ObjectId(o) => {
                let mut s = String::from_str("$oid:");
                proof {
                    reveal_strlit("$oid:");
                }
                assert(s@ =~= oid_prefix());
                let h = o.to_hex();
                s.append(h.as_str());
                s
            },
            ID::String(s) => s.clone(),
            ID::Int64(i) => decimal_string(*i),
        }
    }

    /// The native object id this identifier reads as: a native id as it is,
    /// text or the integer's decimal digits parsed as a hex id.
    pub fn to_object_id(&self) -> (r: Result<Oid, NotAnObjectId>)
        ensures
            r is Ok <==> object_id_of(self@) is Some,
            r matches Ok(o) ==> object_id_of(self@) == Some(o@),
            self is Int64 ==> r is Err,
    {
        match self {
            ID::ObjectId(o) => Ok(*o),
            ID::String(s) => match parse_object_id(s.as_str()) {
                Some(b) => Ok(Oid { bytes: b }),
                None => Err(NotAnObjectId),
            },
            ID::Int64(i) => {
                proof {
                    lemma_decimal_not_object_id(*i);
                }
                let d = decimal_string(*i);
                match parse_object_id(d.as_str()) {
                    Some(b) => Ok(Oid { bytes: b }),
                    None => Err(NotAnObjectId),
                }
            },
        }
    }
}

impl From<i64> for ID {
    fn from(i: i64) -> (r: ID) {
        ID::Int64(i)
    }
}

impl vstd::std_specs::convert::FromSpecImpl<i64> for ID {
    open spec fn obeys_from_spec() -> bool {
        true
    }

    open spec fn from_spec(v: i64) -> ID {
        ID::Int64(v)
    }
}

impl From<Oid> for ID {
    fn from(o: Oid) -> (r: ID) {
        ID::ObjectId(o)
    }
}

impl vstd::std_specs::convert::FromSpecImpl<Oid> for ID {
    open spec fn obeys_from_spec() -> bool {
        true
    }

    open spec fn from_spec(v: Oid) -> ID {
        ID::ObjectId(v)
    }
}

} // verus!
