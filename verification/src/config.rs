//! The settings of the service and their defaults.

use vstd::prelude::*;
use vstd::string::*;

verus! {

/// A path of the file system; nothing of its inside is used.
#[verifier::external_type_specification]
#[verifier::external_body]
pub struct ExPathBuf(std::path::PathBuf);

/// The copy of a path; nothing is claimed of it.
pub assume_specification[ <std::path::PathBuf as Clone>::clone ](
    path: &std::path::PathBuf,
) -> std::path::PathBuf;

/// Where the server listens and what it serves from.
#[derive(Debug, Clone)]
pub struct ServerConfiguration {
    /// The address to bind the server to.
    pub address: String,
    /// The port to bind the server to.
    pub port: u16,
    /// The path to the root directory of the parts folder.
    pub parts: String,
    /// The keys of the secure transport, where it is used.
    pub tls: Option<TlsConfiguration>,
    pub cache: CacheConfiguration,
    pub tracing: TracingConfiguration,
}

#[derive(Debug, Clone)]
pub struct TlsConfiguration {
    pub private_key: std::path::PathBuf,
    pub certificate_chain: std::path::PathBuf,
}

/// How long cached things live, in seconds, and how fast the profile server
/// may be asked.
#[derive(Debug, Clone, Copy, PartialEq, Eq, Structural)]
pub struct CacheConfiguration {
    /// After how many seconds cached skins and renders expire.
    pub image_cache_expiry: u32,
    /// After how many seconds a resolved profile is asked for again.
    pub mojang_profile_request_expiry: u32,
    /// Every how many seconds expired files are removed.
    pub cleanup_interval: u32,
    /// How many requests per second the profile server is sent at most.
    pub mojang_profile_requests_per_second: u32,
}

/// Where traces are sent, and under which name.
#[derive(Debug, Clone)]
pub struct TracingConfiguration {
    pub otel_endpoint: String,
    pub otel_service_name: String,
}

/// Where the profile and texture servers are, and how often the profile
/// server may be asked per second.
#[derive(Debug, Clone)]
pub struct MojankConfiguration {
    pub session_server: String,
    pub textures_server: String,
    pub session_server_rate_limit: u32,
}

impl Default for TracingConfiguration {
    fn default() -> (config: Self)
        ensures
            config.otel_endpoint@ == "http://localhost:4317"@,
            config.otel_service_name@ == "nmsr-aas"@,
    {
        TracingConfiguration {
            otel_endpoint: String::from_str("http://localhost:4317"),
            otel_service_name: String::from_str("nmsr-aas"),
        }
    }
}

impl Default for CacheConfiguration {
    /// A day for images, a quarter of an hour for profiles, a clean-up every
    /// hour, ten requests per second.
    fn default() -> (config: Self)
        ensures
            config == (CacheConfiguration {
                image_cache_expiry: 86400,
                mojang_profile_request_expiry: 900,
                cleanup_interval: 3600,
                mojang_profile_requests_per_second: 10,
            }),
    {
        CacheConfiguration {
            image_cache_expiry: 86400,
            mojang_profile_request_expiry: 900,
            cleanup_interval: 3600,
            mojang_profile_requests_per_second: 10,
        }
    }
}

impl Default for ServerConfiguration {
    fn default() -> (config: Self)
        ensures
            config.address@ == "0.0.0.0"@,
            config.port == 8080,
            config.parts@ == "parts"@,
            config.tls is None,
            config.cache == (CacheConfiguration {
                image_cache_expiry: 86400,
                mojang_profile_request_expiry: 900,
                cleanup_interval: 3600,
                mojang_profile_requests_per_second: 10,
            }),
            config.tracing.otel_endpoint@ == "http://localhost:4317"@,
            config.tracing.otel_service_name@ == "nmsr-aas"@,
    {
        ServerConfiguration {
            address: String::from_str("0.0.0.0"),
            port: 8080,
            parts: String::from_str("parts"),
            tls: None,
            cache: CacheConfiguration::default(),
            tracing: TracingConfiguration::default(),
        }
    }
}

} // verus!
