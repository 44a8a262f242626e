//! Status-code classification of HTTP responses.
//!
//! Each API operation declares a closed mapping from HTTP status codes to
//! the typed errors it can produce.  [`classify_response`] checks a response
//! for success first, then looks the status up in the operation's mapping,
//! and falls back to an unknown-status result that preserves the raw body
//! for diagnosis.  The payload of a successful response is decoded
//! elsewhere; classification itself never looks into the body.

use vstd::prelude::*;

verus! {

/// An operation's closed mapping from HTTP status codes to typed errors.
pub trait StatusMapped: Sized {
    /// The mapping itself: the typed error for `code`, if `code` is in the
    /// operation's declared set.
    spec fn spec_from_status(code: u16) -> Option<Self>;

    /// Looks `code` up in the operation's mapping.
    fn from_status(code: u16) -> (r: Option<Self>)
        ensures
            r == Self::spec_from_status(code),
    ;
}

/// A response status that reports success.
pub open spec fn spec_is_success(status: u16) -> bool {
    200 <= status <= 299
}

/// A response status that reports success.
pub fn is_success(status: u16) -> (r: bool)
    ensures
        r == spec_is_success(status),
{
    200 <= status && status <= 299
}

/// The classification of one HTTP response, before its payload is decoded.
#[derive(Debug, Clone)]
#[allow(inconsistent_fields)]
pub enum ResponseClass<E> {
    /// The status reported success; `body` is the enveloped payload text.
    Success { body: String },
    /// The status is in the operation's mapping: a typed error.
    ApiError { status: u16, error: E },
    /// The status is neither success nor mapped; the raw body text is
    /// preserved verbatim for diagnosis.
    UnknownStatus { status: u16, body: String },
}

/// The classification of a response, as a mathematical definition.
pub open spec fn spec_classify<E: StatusMapped>(status: u16, body: String) -> ResponseClass<E> {
    if spec_is_success(status) {
        ResponseClass::Success { body }
    } else {
        match E::spec_from_status(status) {
            Some(error) => ResponseClass::ApiError { status, error },
            None => ResponseClass::UnknownStatus { status, body },
        }
    }
}

/// Classifies one response of the operation whose mapping is `E`: success
/// passes the body through, a mapped status becomes its typed error, and
/// any other status becomes an unknown-status result carrying the body.
pub fn classify_response<E: StatusMapped>(status: u16, body: String) -> (r: ResponseClass<E>)
    ensures
        r == spec_classify::<E>(status, body),
{
    if is_success(status) {
        ResponseClass::Success { body }
    } else {
        match E::from_status(status) {
            Some(error) => ResponseClass::ApiError { status, error },
            None => ResponseClass::UnknownStatus { status, body },
        }
    }
}

/// For every operation and every status code in its mapping, classifying a
/// non-success response with that code yields the mapped typed error —
/// never the unknown-status fallback.
pub proof fn lemma_mapped_status_is_typed<E: StatusMapped>(status: u16, body: String)
    requires
        !spec_is_success(status),
        E::spec_from_status(status) is Some,
    ensures
        spec_classify::<E>(status, body) matches ResponseClass::ApiError { status: s, error } && s
            == status && E::spec_from_status(status) == Some(error),
        !(spec_classify::<E>(status, body) is UnknownStatus),
{
}

/// For every status code that is neither success nor in the operation's
/// mapping, classification yields the unknown-status result, and the body
/// text it carries is the original body, verbatim.
pub proof fn lemma_unmapped_status_preserves_body<E: StatusMapped>(status: u16, body: String)
    requires
        !spec_is_success(status),
        E::spec_from_status(status) is None,
    ensures
        spec_classify::<E>(status, body) matches ResponseClass::UnknownStatus { status: s, body: b }
            && s == status && b == body && b@ == body@,
{
}

/// Errors of the list-my-characters operation; its mapping is empty.
#[derive(Debug, Clone, Copy, PartialEq, Eq, Structural)]
pub struct GetCharactersError;

impl StatusMapped for GetCharactersError {
    open spec fn spec_from_status(code: u16) -> Option<Self> {
        None
    }

    fn from_status(code: u16) -> (r: Option<Self>) {
        None
    }
}

/// Errors of the fight action.
#[derive(Debug, Clone, Copy, PartialEq, Eq, Structural)]
pub enum CharacterFightError {
    ActionAlreadyInProgressForCharacter,
    CharacterInventoryFull,
    CharacterNotFound,
    CharacterInCooldown,
    MonsterNotFound,
}

impl StatusMapped for CharacterFightError {
    open spec fn spec_from_status(code: u16) -> Option<Self> {
        match code {
            486u16 => Some(CharacterFightError::ActionAlreadyInProgressForCharacter),
            497u16 => Some(CharacterFightError::CharacterInventoryFull),
            498u16 => Some(CharacterFightError::CharacterNotFound),
            499u16 => Some(CharacterFightError::CharacterInCooldown),
            598u16 => Some(CharacterFightError::MonsterNotFound),
            _ => None,
        }
    }

    fn from_status(code: u16) -> (r: Option<Self>) {
        match code {
            486u16 => Some(CharacterFightError::ActionAlreadyInProgressForCharacter),
            497u16 => Some(CharacterFightError::CharacterInventoryFull),
            498u16 => Some(CharacterFightError::CharacterNotFound),
            499u16 => Some(CharacterFightError::CharacterInCooldown),
            598u16 => Some(CharacterFightError::MonsterNotFound),
            _ => None,
        }
    }
}

/// Errors of the rest action.
#[derive(Debug, Clone, Copy, PartialEq, Eq, Structural)]
pub enum CharacterRestError {
    ActionAlreadyInProgressForCharacter,
    CharacterNotFound,
    CharacterInCooldown,
}

impl StatusMapped for CharacterRestError {
    open spec fn spec_from_status(code: u16) -> Option<Self> {
        match code {
            486u16 => Some(CharacterRestError::ActionAlreadyInProgressForCharacter),
            498u16 => Some(CharacterRestError::CharacterNotFound),
            499u16 => Some(CharacterRestError::CharacterInCooldown),
            _ => None,
        }
    }

    fn from_status(code: u16) -> (r: Option<Self>) {
        match code {
            486u16 => Some(CharacterRestError::ActionAlreadyInProgressForCharacter),
            498u16 => Some(CharacterRestError::CharacterNotFound),
            499u16 => Some(CharacterRestError::CharacterInCooldown),
            _ => None,
        }
    }
}

/// Errors of the move action.
#[derive(Debug, Clone, Copy, PartialEq, Eq, Structural)]
pub enum CharacterMoveError {
    MapNotFound,
    ActionAlreadyInProgressForCharacter,
    CharacterAlreadyAtLocation,
    CharacterNotFound,
    CharacterInCooldown,
}

impl StatusMapped for CharacterMoveError {
    open spec fn spec_from_status(code: u16) -> Option<Self> {
        match code {
            404u16 => Some(CharacterMoveError::MapNotFound),
            486u16 => Some(CharacterMoveError::ActionAlreadyInProgressForCharacter),
            490u16 => Some(CharacterMoveError::CharacterAlreadyAtLocation),
            498u16 => Some(CharacterMoveError::CharacterNotFound),
            499u16 => Some(CharacterMoveError::CharacterInCooldown),
            _ => None,
        }
    }

    fn from_status(code: u16) -> (r: Option<Self>) {
        match code {
            404u16 => Some(CharacterMoveError::MapNotFound),
            486u16 => Some(CharacterMoveError::ActionAlreadyInProgressForCharacter),
            490u16 => Some(CharacterMoveError::CharacterAlreadyAtLocation),
            498u16 => Some(CharacterMoveError::CharacterNotFound),
            499u16 => Some(CharacterMoveError::CharacterInCooldown),
            _ => None,
        }
    }
}

/// Errors of the fetch-one-character read.
#[derive(Debug, Clone, Copy, PartialEq, Eq, Structural)]
pub enum GetCharacterError {
    CharacterNotFound,
}

impl StatusMapped for GetCharacterError {
    open spec fn spec_from_status(code: u16) -> Option<Self> {
        match code {
            404u16 => Some(GetCharacterError::CharacterNotFound),
            _ => None,
        }
    }

    fn from_status(code: u16) -> (r: Option<Self>) {
        match code {
            404u16 => Some(GetCharacterError::CharacterNotFound),
            _ => None,
        }
    }
}

/// Errors of the delete-character operation.
#[derive(Debug, Clone, Copy, PartialEq, Eq, Structural)]
pub enum DeleteCharacterError {
    CharacterNotFound,
}

impl StatusMapped for DeleteCharacterError {
    open spec fn spec_from_status(code: u16) -> Option<Self> {
        match code {
            498u16 => Some(DeleteCharacterError::CharacterNotFound),
            _ => None,
        }
    }

    fn from_status(code: u16) -> (r: Option<Self>) {
        match code {
            498u16 => Some(DeleteCharacterError::CharacterNotFound),
            _ => None,
        }
    }
}

/// Errors of the list-maps read; its mapping is empty.
#[derive(Debug, Clone, Copy, PartialEq, Eq, Structural)]
pub struct GetAllMapsError;

impl StatusMapped for GetAllMapsError {
    open spec fn spec_from_status(code: u16) -> Option<Self> {
        None
    }

    fn from_status(code: u16) -> (r: Option<Self>) {
        None
    }
}

/// Errors of the fetch-one-map read.
#[derive(Debug, Clone, Copy, PartialEq, Eq, Structural)]
pub enum GetMapError {
    MapNotFound,
}

impl StatusMapped for GetMapError {
    open spec fn spec_from_status(code: u16) -> Option<Self> {
        match code {
            404u16 => Some(GetMapError::MapNotFound),
            _ => None,
        }
    }

    fn from_status(code: u16) -> (r: Option<Self>) {
        match code {
            404u16 => Some(GetMapError::MapNotFound),
            _ => None,
        }
    }
}

/// Errors of the list-monsters read; its mapping is empty.
#[derive(Debug, Clone, Copy, PartialEq, Eq, Structural)]
pub struct GetAllMonstersError;

impl StatusMapped for GetAllMonstersError {
    open spec fn spec_from_status(code: u16) -> Option<Self> {
        None
    }

    fn from_status(code: u16) -> (r: Option<Self>) {
        None
    }
}

/// Errors of the fetch-one-monster read.
#[derive(Debug, Clone, Copy, PartialEq, Eq, Structural)]
pub enum GetMonsterError {
    MonsterNotFound,
}

impl StatusMapped for GetMonsterError {
    open spec fn spec_from_status(code: u16) -> Option<Self> {
        match code {
            404u16 => Some(GetMonsterError::MonsterNotFound),
            _ => None,
        }
    }

    fn from_status(code: u16) -> (r: Option<Self>) {
        match code {
            404u16 => Some(GetMonsterError::MonsterNotFound),
            _ => None,
        }
    }
}

} // verus!
