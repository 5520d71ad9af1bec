use vstd::prelude::*;

verus! {

/// Errors of the standard library's I/O, carried through unchanged.
#[verifier::external_type_specification]
#[verifier::external_body]
pub struct ExIoError(std::io::Error);

/// Errors of `serde_json`, carried through unchanged.
#[verifier::external_type_specification]
#[verifier::external_body]
pub struct ExSerdeJsonError(serde_json::Error);

/// Errors of `reqwest`, carried through unchanged.
#[verifier::external_type_specification]
#[verifier::external_body]
pub struct ExReqwestError(reqwest::Error);

/// Everything that can go wrong in the application.
#[derive(Debug)]
pub enum AppError {
    Io(std::io::Error),
    Config(String),
    Api { status: u16, message: String },
    Auth(String),
    Player(String),
    Cache(String),
    Image(String),
    Serde(serde_json::Error),
    Http(reqwest::Error),
}

} // verus!
