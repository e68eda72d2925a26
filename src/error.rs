//! The error type of the password plugins.
use vstd::prelude::*;

verus! {

#[verifier::external_type_specification]
#[verifier::external_body]
pub struct ExIoError(std::io::Error);

pub enum Error {
    StringErr(String),
    IOErr(std::io::Error),
}

impl From<std::io::Error> for Error {
    fn from(err: std::io::Error) -> (r: Error)
        ensures
            r is IOErr,
    {
        Error::IOErr(err)
    }
}

impl vstd::std_specs::convert::FromSpecImpl<std::io::Error> for Error {
    open spec fn obeys_from_spec() -> bool {
        true
    }

    open spec fn from_spec(err: std::io::Error) -> Error {
        Error::IOErr(err)
    }
}

impl From<String> for Error {
    fn from(err: String) -> (r: Error)
        ensures
            r matches Error::StringErr(s) && s@ == err@,
    {
        Error::StringErr(err)
    }
}

impl vstd::std_specs::convert::FromSpecImpl<String> for Error {
    open spec fn obeys_from_spec() -> bool {
        true
    }

    open spec fn from_spec(err: String) -> Error {
        Error::StringErr(err)
    }
}

pub type Result<T> = core::result::Result<T, Error>;

} // verus!
