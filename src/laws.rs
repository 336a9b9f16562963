//! Laws that relate the identifier's constructors, string form and codecs.
use crate::codec::{
    db_of_id, id_of_db, id_of_text, oid_key, text_of_id, DbView, DecodeError, Shape,
    TextInputView, TextView,
};
use crate::numerals::{
    decimal_of, hex_decode, hex_of, is_object_id_hex, lemma_hex_round_trip,
};
use crate::id::{has_oid_prefix, id_of_string, oid_prefix, string_of_id, IdView, ID};
use vstd::prelude::*;
use vstd::std_specs::cmp::PartialEqSpec;

verus! {

/// A string that does not start with `$oid:` reads as text holding that
/// string, and that text's string form is the string again.
pub proof fn lemma_plain_string_round_trip(s: Seq<char>)
    requires
        !has_oid_prefix(s),
    ensures
        id_of_string(s) == IdView::String(s),
        string_of_id(id_of_string(s)) == s,
{
}

/// `$oid:` followed by the hex digits of a native id reads as that native id,
/// whose string form is that same string.
pub proof fn lemma_object_id_string_round_trip(b: Seq<u8>)
    requires
        b.len() == 12,
    ensures
        id_of_string(oid_prefix() + hex_of(b)) == IdView::ObjectId(b),
        string_of_id(IdView::ObjectId(b)) == oid_prefix() + hex_of(b),
{
    let s = oid_prefix() + hex_of(b);
    lemma_hex_round_trip(b);
    assert(s.subrange(0, 5) =~= oid_prefix());
    assert(s.subrange(5, s.len() as int) =~= hex_of(b));
}

/// An integer identifier's string form is the decimal text of the integer,
/// and two integer identifiers are equal exactly when their integers are.
pub proof fn lemma_integer_string(n: i64, m: i64)
    ensures
        string_of_id(IdView::Int64(n)) == decimal_of(n as int),
        ID::Int64(n).eq_spec(&ID::Int64(m)) <==> n == m,
{
}

/// Integers of every width up to 64 bits convert to the `i64` of the same
/// value, so the integer identifiers that `with_i64` builds from them (its
/// result holds what `into` returned) are all equal to `Int64(n)`, and have
/// the decimal string form of `n`.
pub proof fn lemma_integer_widths(a: u8, b: u16, c: u32, d: i8, e: i16, f: i32, n: i64)
    requires
        a as int == n as int,
        b as int == n as int,
        c as int == n as int,
        d as int == n as int,
        e as int == n as int,
        f as int == n as int,
    ensures
        forall|x: i64| #[trigger] call_ensures(<u8 as Into<i64>>::into, (a,), x) ==> x == n,
        forall|x: i64| #[trigger] call_ensures(<u16 as Into<i64>>::into, (b,), x) ==> x == n,
        forall|x: i64| #[trigger] call_ensures(<u32 as Into<i64>>::into, (c,), x) ==> x == n,
        forall|x: i64| #[trigger] call_ensures(<i8 as Into<i64>>::into, (d,), x) ==> x == n,
        forall|x: i64| #[trigger] call_ensures(<i16 as Into<i64>>::into, (e,), x) ==> x == n,
        forall|x: i64| #[trigger] call_ensures(<i32 as Into<i64>>::into, (f,), x) ==> x == n,
        forall|x: i64| #[trigger] call_ensures(<i64 as Into<i64>>::into, (n,), x) ==> x == n,
        string_of_id(IdView::Int64(n)) == decimal_of(n as int),
{
}

/// Storing an identifier as a dynamic value and reading it back gives the
/// same variant and value.
pub proof fn lemma_db_round_trip(v: IdView)
    ensures
        id_of_db(db_of_id(v)) == Ok::<IdView, DecodeError>(v),
{
}

/// A native id's text form is `{"$oid": hex}`, and the native id that the
/// database reads from that object (the bytes the hex digits stand for) is
/// decoded back to the same identifier.
pub proof fn lemma_text_object_id_round_trip(b: Seq<u8>)
    requires
        b.len() == 12,
    ensures
        text_of_id(IdView::ObjectId(b)) == TextView::SingleKeyMap(oid_key(), hex_of(b)),
        is_object_id_hex(hex_of(b)),
        id_of_text(TextInputView::Object(DbView::ObjectId(hex_decode(hex_of(b)))))
            == Ok::<IdView, DecodeError>(IdView::ObjectId(b)),
{
    lemma_hex_round_trip(b);
}

/// Text input of an unsupported shape is an error that names the shape.
pub proof fn lemma_unsupported_shape(k: Shape)
    ensures
        id_of_text(TextInputView::Unsupported(k)) == Err::<IdView, DecodeError>(
            DecodeError::UnsupportedShape(k),
        ),
{
}

/// Identifiers of different variants are never equal.
pub proof fn lemma_cross_variant_unequal(a: ID, b: ID)
    requires
        !((a is ObjectId && b is ObjectId) || (a is String && b is String) || (a is Int64
            && b is Int64)),
    ensures
        !a.eq_spec(&b),
{
}

} // verus!
