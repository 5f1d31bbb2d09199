//! The record that the shell's command surface hands to the page.

use vstd::prelude::*;
use crate::port::{first_arg, get_ws_port, resolve_port_spec, text_of};

verus! {

/// The environment variable that may hold the map service's access token.
pub const MAPBOX_TOKEN_ENV_VAR: &'static str = "MAPBOX_TOKEN";

/// What the page needs to draw the map and to reach the companion service.
#[derive(Debug, Clone, PartialEq, Eq)]
pub struct MapConfig {
    /// The map service's access token, where the environment holds one.
    pub mapbox_token: Option<String>,
    /// The resolved port.
    pub ws_port: u16,
}

/// Composes the record: the token as it was found, passed through
/// unchanged, and the port resolved from `args` and `env_port`.
pub fn get_map_config(
    mapbox_token: Option<String>,
    args: &Vec<String>,
    env_port: Option<&str>,
) -> (config: MapConfig)
    ensures
        config.mapbox_token == mapbox_token,
        config.ws_port == resolve_port_spec(first_arg(args@), text_of(env_port)),
{
    MapConfig { mapbox_token, ws_port: get_ws_port(args, env_port) }
}

} // verus!
