//! What can go wrong while a render is requested, cached or resolved.

use crate::naming::{decimal, push_decimal};
use vstd::prelude::*;
use vstd::string::*;

verus! {

/// The error of the `uuid` crate; nothing of its inside is used.
#[verifier::external_type_specification]
#[verifier::external_body]
pub struct ExUuidError(uuid::Error);

/// The decode error of the `base64` crate; nothing of its inside is used.
#[verifier::external_type_specification]
#[verifier::external_body]
pub struct ExBase64DecodeError(base64::DecodeError);

/// The error of the `serde_json` crate; nothing of its inside is used.
#[verifier::external_type_specification]
#[verifier::external_body]
pub struct ExJsonError(serde_json::Error);

/// The parse error of the `url` crate; nothing of its inside is used.
#[verifier::external_type_specification]
#[verifier::external_body]
pub struct ExUrlParseError(url::ParseError);

/// The error of the `reqwest` crate; nothing of its inside is used.
#[verifier::external_type_specification]
#[verifier::external_body]
pub struct ExRequestError(reqwest::Error);

/// The input and output error of std; nothing of its inside is used.
#[verifier::external_type_specification]
#[verifier::external_body]
pub struct ExIoError(std::io::Error);

/// The UTF-8 error of std; nothing of its inside is used.
#[verifier::external_type_specification]
#[verifier::external_body]
pub struct ExFromUtf8Error(std::string::FromUtf8Error);

/// Any failure of the service.
pub enum NMSRaaSError {
    RenderRequestError(RenderRequestError),
    ModelCacheError(ModelCacheError),
    MojangRequestError(MojangRequestError),
}

/// A request for a render that cannot be served.
pub enum RenderRequestError {
    InvalidUUID(uuid::Error),
    InvalidPlayerUuidRequest(String, usize),
    InvalidPlayerRequest(String),
    ExplainedIoError(std::io::Error, String),
}

/// A failure of the cache of models and renders.
pub enum ModelCacheError {
    /// The marker of an entry could not be read; holds the entry as text.
    MarkerMetadataError(String),
    InvalidRequestCacheAttempt(String),
    InvalidCacheEntryMarkerRequest(String),
    InvalidCacheBiasConfiguration(String),
}

/// A failure to resolve a player's profile or textures.
pub enum MojangRequestError {
    Base64Error(base64::DecodeError),
    Utf8Error(std::string::FromUtf8Error),
    JsonError(serde_json::Error),
    MissingTexturesProperty,
    InvalidTexturesProperty(serde_json::Error),
    UrlParseError(url::ParseError),
    RequestError(reqwest::Error),
}

pub type Result<T> = std::result::Result<T, NMSRaaSError>;

pub type RenderRequestResult<T> = std::result::Result<T, RenderRequestError>;

pub type ModelCacheResult<T> = std::result::Result<T, ModelCacheError>;

pub type MojangRequestResult<T> = std::result::Result<T, MojangRequestError>;

/// Gives an input or output error the words that say what was being done.
pub trait ExplainableExt<T> {
    fn explain(self, message: String) -> Result<T>;
}

impl<T> ExplainableExt<T> for std::result::Result<T, std::io::Error> {
    fn explain(self, message: String) -> (explained: Result<T>)
        ensures
            explained == match self {
                Ok(value) => Ok::<T, NMSRaaSError>(value),
                Err(error) => Err::<T, NMSRaaSError>(
                    NMSRaaSError::RenderRequestError(
                        RenderRequestError::ExplainedIoError(error, message),
                    ),
                ),
            },
    {
        match self {
            Ok(value) => Ok(value),
            Err(error) => Err(
                NMSRaaSError::RenderRequestError(
                    RenderRequestError::ExplainedIoError(error, message),
                ),
            ),
        }
    }
}

impl From<RenderRequestError> for NMSRaaSError {
    fn from(error: RenderRequestError) -> (wrapped: NMSRaaSError) {
        NMSRaaSError::RenderRequestError(error)
    }
}

impl vstd::std_specs::convert::FromSpecImpl<RenderRequestError> for NMSRaaSError {
    open spec fn obeys_from_spec() -> bool {
        true
    }

    open spec fn from_spec(error: RenderRequestError) -> NMSRaaSError {
        NMSRaaSError::RenderRequestError(error)
    }
}

impl From<ModelCacheError> for NMSRaaSError {
    fn from(error: ModelCacheError) -> (wrapped: NMSRaaSError) {
        NMSRaaSError::ModelCacheError(error)
    }
}

impl vstd::std_specs::convert::FromSpecImpl<ModelCacheError> for NMSRaaSError {
    open spec fn obeys_from_spec() -> bool {
        true
    }

    open spec fn from_spec(error: ModelCacheError) -> NMSRaaSError {
        NMSRaaSError::ModelCacheError(error)
    }
}

impl From<MojangRequestError> for NMSRaaSError {
    fn from(error: MojangRequestError) -> (wrapped: NMSRaaSError) {
        NMSRaaSError::MojangRequestError(error)
    }
}

impl vstd::std_specs::convert::FromSpecImpl<MojangRequestError> for NMSRaaSError {
    open spec fn obeys_from_spec() -> bool {
        true
    }

    open spec fn from_spec(error: MojangRequestError) -> NMSRaaSError {
        NMSRaaSError::MojangRequestError(error)
    }
}

impl From<uuid::Error> for RenderRequestError {
    fn from(error: uuid::Error) -> (wrapped: RenderRequestError) {
        RenderRequestError::InvalidUUID(error)
    }
}

impl vstd::std_specs::convert::FromSpecImpl<uuid::Error> for RenderRequestError {
    open spec fn obeys_from_spec() -> bool {
        true
    }

    open spec fn from_spec(error: uuid::Error) -> RenderRequestError {
        RenderRequestError::InvalidUUID(error)
    }
}

impl From<base64::DecodeError> for MojangRequestError {
    fn from(error: base64::DecodeError) -> (wrapped: MojangRequestError) {
        MojangRequestError::Base64Error(error)
    }
}

impl vstd::std_specs::convert::FromSpecImpl<base64::DecodeError> for MojangRequestError {
    open spec fn obeys_from_spec() -> bool {
        true
    }

    open spec fn from_spec(error: base64::DecodeError) -> MojangRequestError {
        MojangRequestError::Base64Error(error)
    }
}

impl From<std::string::FromUtf8Error> for MojangRequestError {
    fn from(error: std::string::FromUtf8Error) -> (wrapped: MojangRequestError) {
        MojangRequestError::Utf8Error(error)
    }
}

impl vstd::std_specs::convert::FromSpecImpl<std::string::FromUtf8Error> for MojangRequestError {
    open spec fn obeys_from_spec() -> bool {
        true
    }

    open spec fn from_spec(error: std::string::FromUtf8Error) -> MojangRequestError {
        MojangRequestError::Utf8Error(error)
    }
}

impl From<serde_json::Error> for MojangRequestError {
    fn from(error: serde_json::Error) -> (wrapped: MojangRequestError) {
        MojangRequestError::JsonError(error)
    }
}

impl vstd::std_specs::convert::FromSpecImpl<serde_json::Error> for MojangRequestError {
    open spec fn obeys_from_spec() -> bool {
        true
    }

    open spec fn from_spec(error: serde_json::Error) -> MojangRequestError {
        MojangRequestError::JsonError(error)
    }
}

impl From<url::ParseError> for MojangRequestError {
    fn from(error: url::ParseError) -> (wrapped: MojangRequestError) {
        MojangRequestError::UrlParseError(error)
    }
}

impl vstd::std_specs::convert::FromSpecImpl<url::ParseError> for MojangRequestError {
    open spec fn obeys_from_spec() -> bool {
        true
    }

    open spec fn from_spec(error: url::ParseError) -> MojangRequestError {
        MojangRequestError::UrlParseError(error)
    }
}

impl From<reqwest::Error> for MojangRequestError {
    fn from(error: reqwest::Error) -> (wrapped: MojangRequestError) {
        MojangRequestError::RequestError(error)
    }
}

impl vstd::std_specs::convert::FromSpecImpl<reqwest::Error> for MojangRequestError {
    open spec fn obeys_from_spec() -> bool {
        true
    }

    open spec fn from_spec(error: reqwest::Error) -> MojangRequestError {
        MojangRequestError::RequestError(error)
    }
}

/// `message` is `prefix` followed by the words that `error` displays as.
pub open spec fn says<E: core::fmt::Display>(error: &E, prefix: Seq<char>, message: Seq<char>) -> bool {
    exists|text: String| #[trigger]
        to_string_from_display_ensures::<E>(error, text) && message == prefix + text@
}

fn say<E: core::fmt::Display>(prefix: &str, error: &E) -> (message: String)
    ensures
        says(error, prefix@, message@),
{
    let text = error.to_string();
    let mut message = String::from_str(prefix);
    message.append(text.as_str());
    message
}

fn join(prefix: &str, text: &str) -> (message: String)
    ensures
        message@ == prefix@ + text@,
{
    let mut message = String::from_str(prefix);
    message.append(text);
    message
}

impl ModelCacheError {
    /// The words that describe the error.
    pub open spec fn spec_message(self) -> Seq<char> {
        match self {
            ModelCacheError::MarkerMetadataError(entry) => "Unable to read marker for entry "@
                + entry@,
            ModelCacheError::InvalidRequestCacheAttempt(reason) => "Invalid player request attempt: "@
                + reason@,
            ModelCacheError::InvalidCacheEntryMarkerRequest(
                reason,
            ) => "Invalid cache entry marker request: "@ + reason@,
            ModelCacheError::InvalidCacheBiasConfiguration(
                reason,
            ) => "Invalid cache bias configuration: "@ + reason@,
        }
    }

    /// The words that describe the error.
    pub fn message(&self) -> (message: String)
        ensures
            message@ == self.spec_message(),
    {
        match self {
            ModelCacheError::MarkerMetadataError(entry) => join(
                "Unable to read marker for entry ",
                entry.as_str(),
            ),
            ModelCacheError::InvalidRequestCacheAttempt(reason) => join(
                "Invalid player request attempt: ",
                reason.as_str(),
            ),
            ModelCacheError::InvalidCacheEntryMarkerRequest(reason) => join(
                "Invalid cache entry marker request: ",
                reason.as_str(),
            ),
            ModelCacheError::InvalidCacheBiasConfiguration(reason) => join(
                "Invalid cache bias configuration: ",
                reason.as_str(),
            ),
        }
    }
}

impl RenderRequestError {
    /// `message` holds the words that describe the error.
    pub open spec fn is_message(self, message: Seq<char>) -> bool {
        match self {
            RenderRequestError::InvalidUUID(error) => says(&error, "Invalid UUID: "@, message),
            RenderRequestError::InvalidPlayerUuidRequest(id, version) => message
                == "The UUID you requested ("@ + id@ + ") has version "@ + decimal(version as nat)
                + " instead of version 4. Version 4 UUIDs are required for online player skins."@,
            RenderRequestError::InvalidPlayerRequest(reason) => message
                == "Invalid player request: "@ + reason@,
            RenderRequestError::ExplainedIoError(error, _) => says(&error, "Io error: "@, message),
        }
    }

    /// The words that describe the error.
    pub fn message(&self) -> (message: String)
        ensures
            self.is_message(message@),
    {
        match self {
            RenderRequestError::InvalidUUID(error) => say("Invalid UUID: ", error),
            RenderRequestError::InvalidPlayerUuidRequest(id, version) => {
                let mut message = join("The UUID you requested (", id.as_str());
                message.append(") has version ");
                push_decimal(&mut message, *version);
                message.append(
                    " instead of version 4. Version 4 UUIDs are required for online player skins.",
                );
                message
            },
            RenderRequestError::InvalidPlayerRequest(reason) => join(
                "Invalid player request: ",
                reason.as_str(),
            ),
            RenderRequestError::ExplainedIoError(error, _) => say("Io error: ", error),
        }
    }
}

impl MojangRequestError {
    /// `message` holds the words that describe the error.
    pub open spec fn is_message(self, message: Seq<char>) -> bool {
        match self {
            MojangRequestError::Base64Error(error) => says(
                &error,
                "Unable to decode game profile from base64: "@,
                message,
            ),
            MojangRequestError::Utf8Error(error) => says(
                &error,
                "Unable to decode game profile from utf8: "@,
                message,
            ),
            MojangRequestError::JsonError(error) => says(
                &error,
                "Unable to decode game profile from json: "@,
                message,
            ),
            MojangRequestError::MissingTexturesProperty => message
                == "Game profile is missing the textures property"@,
            MojangRequestError::InvalidTexturesProperty(error) => says(
                &error,
                "Game profile has an invalid textures property: "@,
                message,
            ),
            MojangRequestError::UrlParseError(error) => says(&error, "Url parse error: "@, message),
            MojangRequestError::RequestError(error) => says(&error, "Request error: "@, message),
        }
    }

    /// The words that describe the error.
    pub fn message(&self) -> (message: String)
        ensures
            self.is_message(message@),
    {
        match self {
            MojangRequestError::Base64Error(error) => say(
                "Unable to decode game profile from base64: ",
                error,
            ),
            MojangRequestError::Utf8Error(error) => say(
                "Unable to decode game profile from utf8: ",
                error,
            ),
            MojangRequestError::JsonError(error) => say(
                "Unable to decode game profile from json: ",
                error,
            ),
            MojangRequestError::MissingTexturesProperty => String::from_str(
                "Game profile is missing the textures property",
            ),
            MojangRequestError::InvalidTexturesProperty(error) => say(
                "Game profile has an invalid textures property: ",
                error,
            ),
            MojangRequestError::UrlParseError(error) => say("Url parse error: ", error),
            MojangRequestError::RequestError(error) => say("Request error: ", error),
        }
    }
}

impl NMSRaaSError {
    /// `message` holds the words that describe the error: what kind of
    /// failure it is, and the words of the failure itself.
    pub open spec fn is_message(self, message: Seq<char>) -> bool {
        match self {
            NMSRaaSError::RenderRequestError(error) => exists|inner: Seq<char>| #[trigger]
                error.is_message(inner) && message == "Invalid player request: "@ + inner,
            NMSRaaSError::ModelCacheError(error) => message == "Model cache error: "@
                + error.spec_message(),
            NMSRaaSError::MojangRequestError(error) => exists|inner: Seq<char>| #[trigger]
                error.is_message(inner) && message == "Mojang request error: "@ + inner,
        }
    }

    /// The words that describe the error.
    pub fn message(&self) -> (message: String)
        ensures
            self.is_message(message@),
    {
        match self {
            NMSRaaSError::RenderRequestError(error) => join(
                "Invalid player request: ",
                error.message().as_str(),
            ),
            NMSRaaSError::ModelCacheError(error) => join(
                "Model cache error: ",
                error.message().as_str(),
            ),
            NMSRaaSError::MojangRequestError(error) => join(
                "Mojang request error: ",
                error.message().as_str(),
            ),
        }
    }
}

} // verus!
