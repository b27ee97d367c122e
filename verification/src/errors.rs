//! Errors of the rotator's serial and radio exchanges.
use vstd::prelude::*;

verus! {

#[derive(Debug, Copy, Clone, PartialEq, Eq, Structural)]
pub enum Error {
    /// Invalid UTF-8.
    EncodingError,
    /// Formatting failed.
    FmtError,
    CmdFail,
    PTZWriteErr,
    PTZReadErr,
    PTZPortErr,
    PTZDataErr,
    Timeout,
    E220ReadErr,
    E220WriteErr,
    WrongResp,
    WrongCommand,
    AttemptsOvf,
}

#[verifier::external_type_specification]
#[verifier::external_body]
pub struct ExUtf8Error(core::str::Utf8Error);

#[verifier::external_type_specification]
#[verifier::external_body]
pub struct ExFmtError(core::fmt::Error);

impl From<core::str::Utf8Error> for Error {
    fn from(_e: core::str::Utf8Error) -> (r: Self)
        ensures
            r == Error::EncodingError,
    {
        Error::EncodingError
    }
}

impl vstd::std_specs::convert::FromSpecImpl<core::str::Utf8Error> for Error {
    open spec fn obeys_from_spec() -> bool {
        true
    }

    open spec fn from_spec(v: core::str::Utf8Error) -> Error {
        Error::EncodingError
    }
}

impl From<core::fmt::Error> for Error {
    fn from(_e: core::fmt::Error) -> (r: Self)
        ensures
            r == Error::FmtError,
    {
        Error::FmtError
    }
}

impl vstd::std_specs::convert::FromSpecImpl<core::fmt::Error> for Error {
    open spec fn obeys_from_spec() -> bool {
        true
    }

    open spec fn from_spec(v: core::fmt::Error) -> Error {
        Error::FmtError
    }
}

} // verus!
