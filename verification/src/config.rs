//! The settings of a session.

use vstd::prelude::*;

verus! {

/// Settings of a session: the key and the model for the agent, the
/// directory of retrieved audio, the file of the library index, and the
/// volume to start with.
#[derive(Debug, PartialEq, Eq)]
pub struct Config {
    pub api_key: String,
    pub model: String,
    pub cache_dir: String,
    pub library_path: String,
    pub default_volume: u8,
}

/// Volume that a session starts with.
pub const START_VOLUME: u8 = 70;

impl Config {
    /// The settings for the agent key `api_key` and model `model`, with
    /// the cache at `cache_dir` and the library index at `library_path`.
    /// The volume starts at 70.
    pub fn new(api_key: String, model: String, cache_dir: String, library_path: String) -> (config:
        Config)
        ensures
            config.api_key == api_key,
            config.model == model,
            config.cache_dir == cache_dir,
            config.library_path == library_path,
            config.default_volume == START_VOLUME,
    {
        Config { api_key, model, cache_dir, library_path, default_volume: START_VOLUME }
    }
}

} // verus!
