//! What every variable catalog offers: a wire token for each member, and decoding of tokens.
use vstd::prelude::*;

use crate::error::DecodeError;

verus! {

/// The outcome that decoding token `t` owes, given what `t` names in its catalog (`named`) and
/// whether a token that names nothing fails as a malformed pressure level (`level_shaped`).
pub open spec fn decode_outcome<V>(
    r: Result<V, DecodeError>,
    t: Seq<char>,
    named: Option<V>,
    level_shaped: bool,
) -> bool {
    match named {
        Some(v) => r == Ok::<V, DecodeError>(v),
        None => match r {
            Ok(_) => false,
            Err(DecodeError::InvalidPressureLevel) => level_shaped,
            Err(DecodeError::UnknownVariable(s)) => !level_shaped && s@ == t,
            Err(_) => false,
        },
    }
}

/// A value with a fixed textual form on the wire.
pub trait Token {
    /// The wire token of this value.
    spec fn wire(&self) -> Seq<char>;

    /// The wire token of this value.
    fn token(&self) -> (r: String)
        ensures
            r@ == self.wire(),
    ;
}

/// A closed catalog of variables, each with a wire token.
pub trait Variable: Token + Sized + Copy {
    /// The member of the catalog that token `t` names, if any.
    spec fn named_by(t: Seq<char>) -> Option<Self>;

    /// Whether a token that names no member fails as a malformed pressure level
    /// (rather than as an unknown variable).
    spec fn level_shaped(t: Seq<char>) -> bool;

    /// The member that token `t` names.
    fn decode(t: &str) -> (r: Result<Self, DecodeError>)
        ensures
            decode_outcome(r, t@, Self::named_by(t@), Self::level_shaped(t@)),
    ;

    /// Whether two members are the same.
    fn same(&self, other: &Self) -> (r: bool)
        ensures
            r == (*self == *other),
    ;
}

} // verus!
