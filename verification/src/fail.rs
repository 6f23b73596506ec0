//! The ways a request can fail, as data.
use vstd::prelude::*;
use crate::point::Point;

verus! {

/// A request that is wrong in itself.
#[derive(Debug)]
pub enum BadRequest {
    NotFound(NotFound),
    Bad(Bad),
    Illegal(Illegal),
    Wrong(Wrong),
}

/// A value that could not be turned into another type.
#[derive(Debug)]
pub struct BadCoercion {
    pub from: String,
    pub into: String,
}

/// A condition that was not met.
#[derive(Debug)]
pub enum Conditional {
    Timeout(Timeout),
}

/// A wait that ran out.
#[derive(Debug)]
pub struct Timeout {
    pub waited: i32,
    pub message: String,
}

/// Something that was looked for and not found.
#[derive(Debug)]
pub enum NotFound {
    Any,
    ResourceType(String),
    Kind(String),
    Specific(String),
    Address(String),
    Key(String),
}

/// Something that is malformed.
#[derive(Debug)]
pub enum Bad {
    ResourceType(String),
    Kind(String),
    Specific(String),
    Address(String),
    Key(String),
}

/// What identifies a thing.
#[derive(Debug, Clone, Copy, PartialEq, Eq, Structural)]
pub enum Identifier {
    ResourceType,
    Kind,
    Specific,
    Address,
    Key,
}

/// Something that is not allowed.
#[derive(Debug, Clone, Copy, PartialEq, Eq, Structural)]
pub enum Illegal {
    Immutable,
    EmptyToFieldOnMessage,
}

/// A value other than the one expected.
#[derive(Debug)]
pub struct Wrong {
    pub received: String,
    pub expected: String,
}

/// A broken messaging rule.
#[derive(Debug, Clone, Copy, PartialEq, Eq, Structural)]
pub enum Messaging {
    RequestReplyExchangesRequireOneAndOnlyOneRecipient,
}

/// An HTTP error.
#[derive(Debug)]
pub struct Error {
    pub message: String,
}

/// A failure of the mesh.
#[derive(Debug)]
pub enum MeshFail {
    Error(String),
}

/// A failure of a resource command.
#[derive(Debug)]
pub enum ResourceFail {
    Create(CreateFail),
    Update(UpdateFail),
    Select(SelectFail),
    BadRequest(BadRequest),
    Conditional(Conditional),
    Messaging(Messaging),
}

/// Why a creation failed.
#[derive(Debug)]
#[allow(inconsistent_fields)]
pub enum CreateFail {
    AddressAlreadyInUse(String),
    WrongParentResourceType { expected: String, found: String },
    CannotUpdateArchetype,
    InvalidProperty { expected: String, found: String },
}

/// Why an update failed.
#[derive(Debug, Clone, Copy, PartialEq, Eq, Structural)]
pub enum UpdateFail {
    Immutable,
}

/// Why a selection failed.
#[derive(Debug)]
#[allow(inconsistent_fields)]
pub enum SelectFail {
    WrongAddress { required: Point, found: Point },
    BadSelectRouting { required: String, found: String },
    BadCoercion(BadCoercion),
}

/// A failure of a message.
#[derive(Debug)]
pub enum MsgFail {
    Error(String),
    BadRequest(BadRequest),
    Conditional(Conditional),
}

/// A failure of a portal.
#[derive(Debug)]
pub enum PortalFail {
    Error(String),
    Resource(ResourceFail),
    Msg(MsgFail),
    Http(Error),
}

/// A failure anywhere.
#[derive(Debug)]
pub enum Fail {
    Mesh(MeshFail),
    Resource(ResourceFail),
    Portal(PortalFail),
    Error(String),
}

impl Fail {
    /// Every failure prints the same.
    pub fn to_string(&self) -> (r: String)
        ensures
            r@ == "Fail"@,
    {
        "Fail".to_string()
    }
}

} // verus!
