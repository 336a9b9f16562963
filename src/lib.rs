//! A polymorphic identifier that holds a database-native object id, a
//! string or a 64-bit integer, with its string convention and its two codecs.
pub mod numerals;
pub mod id;
pub mod codec;
pub mod laws;
