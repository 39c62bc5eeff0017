//! The library's error type.
use vstd::prelude::*;

verus! {

#[verifier::external_type_specification]
#[verifier::external_body]
pub struct ExIoError(std::io::Error);

#[verifier::external_type_specification]
#[verifier::external_body]
pub struct ExBincodeErrorKind(bincode::ErrorKind);

#[verifier::external_type_specification]
#[verifier::external_body]
pub struct ExImageError(image::ImageError);

/// Everything that can go wrong in the client or the server.
#[derive(Debug)]
pub enum CleverestError {
    IO(std::io::Error),
    Network(String),
    Capture(String),
    Display(String),
    Serialization(Box<bincode::ErrorKind>),
    Image(image::ImageError),
    Client(String),
    Server(String),
    Config(String),
    Unknown(String),
}

pub type Result<T> = core::result::Result<T, CleverestError>;

} // verus!
