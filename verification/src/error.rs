use vstd::prelude::*;

verus! {

/// Why a JSON value could not be decoded into a protocol value.
#[derive(Clone, Debug, PartialEq, Eq)]
pub enum DecodeError {
    /// The top-level `seq` or `type` field is missing or has the wrong shape.
    MalformedEnvelope,
    /// The `command` tag names no request or response of the catalog.
    UnknownCommand(String),
    /// The `event` tag names no event of the catalog.
    UnknownEvent(String),
    /// A required field, given by its wire name, is absent.
    MissingField(String),
    /// A value is present but is not of the kind or range that its place demands.
    InvalidType,
}

/// The mathematical content of a [`DecodeError`].
pub enum DecodeErrorView {
    MalformedEnvelope,
    UnknownCommand(Seq<char>),
    UnknownEvent(Seq<char>),
    MissingField(Seq<char>),
    InvalidType,
}

impl View for DecodeError {
    type V = DecodeErrorView;

    open spec fn view(&self) -> DecodeErrorView {
        match self {
            DecodeError::MalformedEnvelope => DecodeErrorView::MalformedEnvelope,
            DecodeError::UnknownCommand(tag) => DecodeErrorView::UnknownCommand(tag@),
            DecodeError::UnknownEvent(tag) => DecodeErrorView::UnknownEvent(tag@),
            DecodeError::MissingField(name) => DecodeErrorView::MissingField(name@),
            DecodeError::InvalidType => DecodeErrorView::InvalidType,
        }
    }
}

/// Why a text could not be read as a message.
#[derive(Clone, Debug, PartialEq, Eq)]
pub enum ReadError {
    /// The text is no JSON document. The account of the fault is the parser's.
    Syntax(String),
    /// The text is a JSON document that is no message.
    Decode(DecodeError),
}

} // verus!
