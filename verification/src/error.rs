//! The error taxonomy: what can go wrong while decoding a payload, and what
//! can go wrong around it.

use crate::enums::ClickType;
use crate::text::{decimal, spec_decimal, starts_with};
use vstd::prelude::*;
use vstd::string::StringExecFns;

verus! {

#[verifier::external_type_specification]
#[verifier::external_body]
pub struct ExIoError(std::io::Error);

#[verifier::external_type_specification]
#[verifier::external_body]
pub struct ExFromUtf8Error(std::string::FromUtf8Error);

/// Why a payload could not be read as an event. The frame that carried it has
/// been consumed whole, so the stream stays in step and the next frame can
/// still be read.
#[derive(Debug)]
pub enum UnmarshalError {
    /// The body is `.0` bytes long where exactly `.1` are called for.
    BadLength(usize, usize),
    /// `.0` bytes are there where at least `.1` are called for.
    BadLengthAtLeast(usize, usize),
    /// A string field does not hold UTF-8.
    BadString(std::string::FromUtf8Error),
    /// Byte `.0` stands for no member of the set named `.1`.
    BadEnum(u8, String),
    /// Byte `.0` is no event opcode.
    BadOpcode(u8),
    /// Click type `.0` is a click type, but not one that the event named `.1` carries.
    BadClickType(ClickType, String),
}

/// What an [`UnmarshalError`] says, as plain values.
pub enum UnmarshalErrorView {
    BadLength(nat, nat),
    BadLengthAtLeast(nat, nat),
    BadString,
    BadEnum(u8, Seq<char>),
    BadOpcode(u8),
    BadClickType(ClickType, Seq<char>),
}

impl View for UnmarshalError {
    type V = UnmarshalErrorView;

    open spec fn view(&self) -> UnmarshalErrorView {
        match self {
            UnmarshalError::BadLength(got, want) => UnmarshalErrorView::BadLength(
                *got as nat,
                *want as nat,
            ),
            UnmarshalError::BadLengthAtLeast(got, want) => UnmarshalErrorView::BadLengthAtLeast(
                *got as nat,
                *want as nat,
            ),
            UnmarshalError::BadString(_) => UnmarshalErrorView::BadString,
            UnmarshalError::BadEnum(v, name) => UnmarshalErrorView::BadEnum(*v, name@),
            UnmarshalError::BadOpcode(v) => UnmarshalErrorView::BadOpcode(*v),
            UnmarshalError::BadClickType(c, name) => UnmarshalErrorView::BadClickType(*c, name@),
        }
    }
}

/// Any failure of the client.
#[derive(Debug)]
pub enum FlicError {
    /// A payload was malformed; the connection is still usable.
    Unmarshal(UnmarshalError),
    /// The connection to the daemon failed; it is not usable any more.
    FlicD(std::io::Error),
    /// Anything else, in words.
    Generic(String),
}

impl From<UnmarshalError> for FlicError {
    fn from(err: UnmarshalError) -> (e: FlicError) {
        FlicError::Unmarshal(err)
    }
}

impl vstd::std_specs::convert::FromSpecImpl<UnmarshalError> for FlicError {
    open spec fn obeys_from_spec() -> bool {
        true
    }

    open spec fn from_spec(err: UnmarshalError) -> FlicError {
        FlicError::Unmarshal(err)
    }
}

impl From<std::io::Error> for FlicError {
    fn from(err: std::io::Error) -> (e: FlicError) {
        FlicError::FlicD(err)
    }
}

impl vstd::std_specs::convert::FromSpecImpl<std::io::Error> for FlicError {
    open spec fn obeys_from_spec() -> bool {
        true
    }

    open spec fn from_spec(err: std::io::Error) -> FlicError {
        FlicError::FlicD(err)
    }
}

impl From<String> for FlicError {
    fn from(err: String) -> (e: FlicError) {
        FlicError::Generic(err)
    }
}

impl vstd::std_specs::convert::FromSpecImpl<String> for FlicError {
    open spec fn obeys_from_spec() -> bool {
        true
    }

    open spec fn from_spec(err: String) -> FlicError {
        FlicError::Generic(err)
    }
}

/// Calls `to_string` of the standard library on a `FromUtf8Error`. Trusted,
/// and nothing is claimed of the wording, which is the standard library's.
#[verifier::external_body]
fn utf8_error_text(err: &std::string::FromUtf8Error) -> (s: String) {
    err.to_string()
}

/// Calls `to_string` of the standard library on an `io::Error`. Trusted, and
/// nothing is claimed of the wording, which comes from the platform.
#[verifier::external_body]
fn io_error_text(err: &std::io::Error) -> (s: String) {
    err.to_string()
}

impl UnmarshalErrorView {
    /// The error in words. For `BadString` these are the words before the
    /// standard library's account of what is wrong with the bytes.
    pub open spec fn message(self) -> Seq<char> {
        match self {
            UnmarshalErrorView::BadLength(got, want) => "body length "@ + spec_decimal(got)
                + ", expected "@ + spec_decimal(want),
            UnmarshalErrorView::BadLengthAtLeast(got, want) => "body length "@ + spec_decimal(got)
                + ", expected at least "@ + spec_decimal(want),
            UnmarshalErrorView::BadString => "string was not valid UTF-8: "@,
            UnmarshalErrorView::BadEnum(v, name) => "enum value "@ + spec_decimal(v as nat)
                + " is invalid for enum "@ + name,
            UnmarshalErrorView::BadOpcode(v) => "unknown opcode "@ + spec_decimal(v as nat),
            UnmarshalErrorView::BadClickType(c, name) => "click type "@ + c.spec_name()
                + " not valid for "@ + name,
        }
    }
}

impl UnmarshalError {
    /// Says in words what is wrong with the payload.
    pub fn to_string(&self) -> (s: String)
        ensures
            self@ is BadString ==> starts_with(s@, self@.message()),
            !(self@ is BadString) ==> s@ == self@.message(),
    {
        match self {
            UnmarshalError::BadLength(got_len, want_len) => {
                let mut s = String::from_str("body length ");
                s.append(decimal(*got_len).as_str());
                s.append(", expected ");
                s.append(decimal(*want_len).as_str());
                s
            },
            UnmarshalError::BadLengthAtLeast(got_len, want_at_least_len) => {
                let mut s = String::from_str("body length ");
                s.append(decimal(*got_len).as_str());
                s.append(", expected at least ");
                s.append(decimal(*want_at_least_len).as_str());
                s
            },
            UnmarshalError::BadString(err) => {
                let mut s = String::from_str("string was not valid UTF-8: ");
                let ghost prefix = s@;
                s.append(utf8_error_text(err).as_str());
                assert(s@.subrange(0, prefix.len() as int) =~= prefix);
                s
            },
            UnmarshalError::BadEnum(field, val) => {
                let mut s = String::from_str("enum value ");
                s.append(decimal(*field as usize).as_str());
                s.append(" is invalid for enum ");
                s.append(val.as_str());
                s
            },
            UnmarshalError::BadOpcode(opcode) => {
                let mut s = String::from_str("unknown opcode ");
                s.append(decimal(*opcode as usize).as_str());
                s
            },
            UnmarshalError::BadClickType(click_type, btn_evt) => {
                let mut s = String::from_str("click type ");
                s.append(click_type.name());
                s.append(" not valid for ");
                s.append(btn_evt.as_str());
                s
            },
        }
    }
}

impl FlicError {
    /// Whether the connection is lost. A failure of the stream is fatal; a
    /// payload that does not decode is not, since its frame was consumed
    /// whole before decoding began.
    pub fn is_fatal(&self) -> (fatal: bool)
        ensures
            fatal == (self is FlicD),
    {
        match self {
            FlicError::FlicD(_) => true,
            _ => false,
        }
    }

    /// Says in words what went wrong: for a decode error a heading and the
    /// decode error's own words, for a failed connection a heading and the
    /// platform's words, and otherwise the words that the error holds.
    pub fn to_string(&self) -> (s: String)
        ensures
            match self {
                FlicError::Unmarshal(err) => {
                    &&& starts_with(s@, "failed during unmarshaling: "@ + err@.message())
                    &&& !(err@ is BadString) ==> s@ == "failed during unmarshaling: "@
                        + err@.message()
                },
                FlicError::FlicD(_) => starts_with(s@, "failed communicating with flicd: "@),
                FlicError::Generic(text) => s@ == text@,
            },
    {
        match self {
            FlicError::Unmarshal(err) => {
                let mut s = String::from_str("failed during unmarshaling: ");
                let ghost head = s@;
                let inner = err.to_string();
                s.append(inner.as_str());
                assert(s@.subrange(0, (head + err@.message()).len() as int) =~= head
                    + err@.message()) by {
                    if err@ is BadString {
                        assert(inner@.subrange(0, err@.message().len() as int) == err@.message());
                    }
                }
                s
            },
            FlicError::FlicD(err) => {
                let mut s = String::from_str("failed communicating with flicd: ");
                let ghost head = s@;
                s.append(io_error_text(err).as_str());
                assert(s@.subrange(0, head.len() as int) =~= head);
                s
            },
            FlicError::Generic(text) => text.clone(),
        }
    }
}

/// The executable outcome `r` is the decoding outcome `want`: the same value
/// by its view, or the same decode error wrapped as [`FlicError::Unmarshal`].
pub open spec fn agrees<T: View>(
    r: Result<T, FlicError>,
    want: Result<T::V, UnmarshalErrorView>,
) -> bool {
    match r {
        Ok(v) => want == Ok::<T::V, UnmarshalErrorView>(v@),
        Err(FlicError::Unmarshal(e)) => want == Err::<T::V, UnmarshalErrorView>(e@),
        Err(_) => false,
    }
}

} // verus!
