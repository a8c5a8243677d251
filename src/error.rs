use vstd::prelude::*;

verus! {

/// The error every decoding or parsing step of the bridge reports.
#[derive(PartialEq, Eq, Structural, Debug, Clone, Copy)]
pub struct BunyError {
    pub reason: BunyErrorKind,
}

#[derive(PartialEq, Eq, Structural, Debug, Clone, Copy)]
pub enum BunyErrorKind {
    /// A value handle did not hold the kind that was asked for.
    ValueCast(ValueCastError),
    /// Text received from the host was not valid UTF-8.
    Utf8Error(Utf8Error),
    /// This feature is unimplemented.
    Unimplemented,
    /// An HTML document could not be parsed or modified.
    NodeError(NodeError),
    /// JSON parsing error.
    JsonParseError,
    /// The defaults key has no value set.
    DefaultNotFound,
}

#[derive(PartialEq, Eq, Structural, Debug, Clone, Copy)]
pub enum NodeError {
    /// There was an error parsing HTML.
    ParseError,
    /// There was an error modifying HTML.
    ModifyError,
}

#[derive(PartialEq, Eq, Structural, Debug, Clone, Copy)]
pub enum ValueCastError {
    NotArray,
    NotObject,
    NotString,
    NotInt,
    NotFloat,
    NotBool,
    NotNode,
}

/// Where a byte sequence stopped being valid UTF-8: the length of its valid
/// prefix, and the length of the invalid sequence found there (`None` when the
/// input ended in the middle of a character).
#[derive(PartialEq, Eq, Structural, Debug, Clone, Copy)]
pub struct Utf8Error {
    pub valid_up_to: usize,
    pub error_len: Option<u8>,
}

impl From<ValueCastError> for BunyError {
    fn from(why: ValueCastError) -> (r: BunyError)
        ensures
            r == (BunyError { reason: BunyErrorKind::ValueCast(why) }),
    {
        BunyError { reason: BunyErrorKind::ValueCast(why) }
    }
}

impl vstd::std_specs::convert::FromSpecImpl<ValueCastError> for BunyError {
    open spec fn obeys_from_spec() -> bool {
        true
    }

    open spec fn from_spec(why: ValueCastError) -> BunyError {
        BunyError { reason: BunyErrorKind::ValueCast(why) }
    }
}

impl From<Utf8Error> for BunyError {
    fn from(why: Utf8Error) -> (r: BunyError)
        ensures
            r == (BunyError { reason: BunyErrorKind::Utf8Error(why) }),
    {
        BunyError { reason: BunyErrorKind::Utf8Error(why) }
    }
}

impl vstd::std_specs::convert::FromSpecImpl<Utf8Error> for BunyError {
    open spec fn obeys_from_spec() -> bool {
        true
    }

    open spec fn from_spec(why: Utf8Error) -> BunyError {
        BunyError { reason: BunyErrorKind::Utf8Error(why) }
    }
}

impl From<NodeError> for BunyError {
    fn from(why: NodeError) -> (r: BunyError)
        ensures
            r == (BunyError { reason: BunyErrorKind::NodeError(why) }),
    {
        BunyError { reason: BunyErrorKind::NodeError(why) }
    }
}

impl vstd::std_specs::convert::FromSpecImpl<NodeError> for BunyError {
    open spec fn obeys_from_spec() -> bool {
        true
    }

    open spec fn from_spec(why: NodeError) -> BunyError {
        BunyError { reason: BunyErrorKind::NodeError(why) }
    }
}

impl BunyError {
    /// The error of a downcast that found another kind of value.
    pub fn cast(why: ValueCastError) -> (r: BunyError)
        ensures
            r == (BunyError { reason: BunyErrorKind::ValueCast(why) }),
    {
        BunyError { reason: BunyErrorKind::ValueCast(why) }
    }
}

} // verus!
