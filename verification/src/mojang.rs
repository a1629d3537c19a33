//! The addresses at which the profile and texture servers are asked.

use crate::config::MojankConfiguration;
use crate::error::MojangRequestResult;
use crate::hex::{hyphenated, hyphenated_text};
use std::sync::Arc;
use vstd::prelude::*;
use vstd::string::*;

verus! {

/// Builds the requests to the profile and texture servers.
pub struct MojangClient {
    mojank_config: Arc<MojankConfiguration>,
}

/// The address of the profile of the player with the given identifier.
pub open spec fn profile_address(session_server: Seq<char>, id: Seq<u8>) -> Seq<char> {
    session_server + "/session/minecraft/profile/"@ + hyphenated(id)
}

/// The address of the texture with the given hash.
pub open spec fn texture_address(textures_server: Seq<char>, texture_id: Seq<char>) -> Seq<char> {
    textures_server + "/texture/"@ + texture_id
}

impl MojangClient {
    /// The configuration that the client was made with.
    pub closed spec fn config(&self) -> MojankConfiguration {
        *self.mojank_config
    }

    /// A client for the servers of the given configuration. Never fails.
    pub fn new(mojank: Arc<MojankConfiguration>) -> (client: MojangRequestResult<Self>)
        ensures
            client matches Ok(client) && client.config() == *mojank,
    {
        Ok(Self { mojank_config: mojank })
    }

    /// The address at which the profile of a player is found.
    pub fn profile_url(&self, id: &[u8; 16]) -> (url: String)
        ensures
            url@ == profile_address(self.config().session_server@, id@),
    {
        let mut url = String::from_str(self.mojank_config().session_server.as_str());
        url.append("/session/minecraft/profile/");
        url.append(hyphenated_text(id).as_str());
        url
    }

    /// The address at which a texture is found.
    pub fn texture_url(&self, texture_id: &str) -> (url: String)
        ensures
            url@ == texture_address(self.config().textures_server@, texture_id@),
    {
        let mut url = String::from_str(self.mojank_config().textures_server.as_str());
        url.append("/texture/");
        url.append(texture_id);
        url
    }

    pub fn mojank_config(&self) -> (config: &MojankConfiguration)
        ensures
            *config == self.config(),
    {
        &self.mojank_config
    }
}

} // verus!
