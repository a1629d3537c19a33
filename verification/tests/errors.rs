use base64::Engine;
use nmsr_core::error::{
    ExplainableExt, ModelCacheError, MojangRequestError, NMSRaaSError, RenderRequestError,
};

fn json_error() -> serde_json::Error {
    serde_json::from_str::<u32>("x").unwrap_err()
}

fn request_error() -> reqwest::Error {
    reqwest::Client::new().get("not an address").build().unwrap_err()
}

#[test]
fn model_cache_errors_say_what_failed() {
    assert_eq!(
        ModelCacheError::MarkerMetadataError(String::from("TextureHash(\"abc\")")).message(),
        "Unable to read marker for entry TextureHash(\"abc\")"
    );
    assert_eq!(
        ModelCacheError::InvalidRequestCacheAttempt(String::from("no skin")).message(),
        "Invalid player request attempt: no skin"
    );
    assert_eq!(
        ModelCacheError::InvalidCacheEntryMarkerRequest(String::from("no marker")).message(),
        "Invalid cache entry marker request: no marker"
    );
    assert_eq!(
        ModelCacheError::InvalidCacheBiasConfiguration(String::from("bias")).message(),
        "Invalid cache bias configuration: bias"
    );
}

#[test]
fn render_request_errors_say_what_failed() {
    let invalid = uuid::Uuid::parse_str("zz").unwrap_err();
    let words = invalid.to_string();
    assert_eq!(
        RenderRequestError::InvalidUUID(invalid).message(),
        format!("Invalid UUID: {}", words)
    );
    assert_eq!(
        RenderRequestError::InvalidPlayerUuidRequest(String::from("abc"), 3).message(),
        "The UUID you requested (abc) has version 3 instead of version 4. Version 4 UUIDs are required for online player skins."
    );
    assert_eq!(
        RenderRequestError::InvalidPlayerUuidRequest(String::new(), 12).message(),
        "The UUID you requested () has version 12 instead of version 4. Version 4 UUIDs are required for online player skins."
    );
    assert_eq!(
        RenderRequestError::InvalidPlayerRequest(String::from("who?")).message(),
        "Invalid player request: who?"
    );
    let io = std::io::Error::new(std::io::ErrorKind::Other, "disk full");
    assert_eq!(
        RenderRequestError::ExplainedIoError(io, String::from("writing the cache")).message(),
        "Io error: disk full"
    );
}

#[test]
fn mojang_request_errors_say_what_failed() {
    let base64 = base64::engine::general_purpose::STANDARD.decode("!").unwrap_err();
    assert_eq!(
        MojangRequestError::Base64Error(base64.clone()).message(),
        format!("Unable to decode game profile from base64: {}", base64)
    );
    let utf8 = String::from_utf8(vec![0xff]).unwrap_err();
    assert_eq!(
        MojangRequestError::Utf8Error(utf8.clone()).message(),
        format!("Unable to decode game profile from utf8: {}", utf8)
    );
    assert_eq!(
        MojangRequestError::JsonError(json_error()).message(),
        format!("Unable to decode game profile from json: {}", json_error())
    );
    assert_eq!(
        MojangRequestError::MissingTexturesProperty.message(),
        "Game profile is missing the textures property"
    );
    assert_eq!(
        MojangRequestError::InvalidTexturesProperty(json_error()).message(),
        format!("Game profile has an invalid textures property: {}", json_error())
    );
    assert_eq!(
        MojangRequestError::UrlParseError(url::ParseError::EmptyHost).message(),
        "Url parse error: empty host"
    );
    assert_eq!(
        MojangRequestError::RequestError(request_error()).message(),
        format!("Request error: {}", request_error())
    );
}

#[test]
fn the_outer_error_names_the_kind_of_failure() {
    assert_eq!(
        NMSRaaSError::RenderRequestError(RenderRequestError::InvalidPlayerRequest(String::from(
            "who?"
        )))
        .message(),
        "Invalid player request: Invalid player request: who?"
    );
    assert_eq!(
        NMSRaaSError::ModelCacheError(ModelCacheError::InvalidCacheBiasConfiguration(
            String::from("bias")
        ))
        .message(),
        "Model cache error: Invalid cache bias configuration: bias"
    );
    assert_eq!(
        NMSRaaSError::MojangRequestError(MojangRequestError::MissingTexturesProperty).message(),
        "Mojang request error: Game profile is missing the textures property"
    );
}

#[test]
fn errors_convert_into_the_errors_that_hold_them() {
    assert!(matches!(
        NMSRaaSError::from(RenderRequestError::InvalidPlayerRequest(String::new())),
        NMSRaaSError::RenderRequestError(RenderRequestError::InvalidPlayerRequest(_))
    ));
    assert!(matches!(
        NMSRaaSError::from(ModelCacheError::InvalidRequestCacheAttempt(String::new())),
        NMSRaaSError::ModelCacheError(ModelCacheError::InvalidRequestCacheAttempt(_))
    ));
    assert!(matches!(
        NMSRaaSError::from(MojangRequestError::MissingTexturesProperty),
        NMSRaaSError::MojangRequestError(MojangRequestError::MissingTexturesProperty)
    ));
    assert!(matches!(
        RenderRequestError::from(uuid::Uuid::parse_str("zz").unwrap_err()),
        RenderRequestError::InvalidUUID(_)
    ));
    assert!(matches!(
        MojangRequestError::from(
            base64::engine::general_purpose::STANDARD.decode("!").unwrap_err()
        ),
        MojangRequestError::Base64Error(_)
    ));
    assert!(matches!(
        MojangRequestError::from(String::from_utf8(vec![0xff]).unwrap_err()),
        MojangRequestError::Utf8Error(_)
    ));
    assert!(matches!(MojangRequestError::from(json_error()), MojangRequestError::JsonError(_)));
    assert!(matches!(
        MojangRequestError::from(url::ParseError::EmptyHost),
        MojangRequestError::UrlParseError(url::ParseError::EmptyHost)
    ));
    assert!(matches!(
        MojangRequestError::from(request_error()),
        MojangRequestError::RequestError(_)
    ));
}

#[test]
fn explain_keeps_a_value_and_wraps_an_error_with_the_words() {
    let fine: Result<u32, std::io::Error> = Ok(5);
    assert!(matches!(fine.explain(String::from("reading")), Ok(5)));
    let failed: Result<u32, std::io::Error> =
        Err(std::io::Error::new(std::io::ErrorKind::NotFound, "gone"));
    match failed.explain(String::from("reading the marker")) {
        Err(NMSRaaSError::RenderRequestError(RenderRequestError::ExplainedIoError(
            error,
            words,
        ))) => {
            assert_eq!(error.kind(), std::io::ErrorKind::NotFound);
            assert_eq!(error.to_string(), "gone");
            assert_eq!(words, "reading the marker");
        }
        _ => panic!("the error was to be wrapped"),
    }
}
