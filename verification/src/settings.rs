//! Application configuration: the settings snapshot that every component
//! call receives, and the directory-selection rule for the data stores.
//!
//! The live application keeps one mutable settings value behind a lock
//! and clones it at the start of each call; the library works on that
//! immutable snapshot, so a concurrent settings update never mutates a
//! call already in flight.

use vstd::prelude::*;

use crate::text::{all_spaces, is_blank};

verus! {

/// One immutable snapshot of the user-configurable settings.
pub struct AppSettings {
    pub search_top_k: usize,
    pub display_density: String,
    pub embedding_base_url: String,
    pub embedding_api_key: String,
    pub embedding_model: String,
    pub custom_data_path: Option<String>,
    pub enable_ai_chat: bool,
    pub chat_base_url: String,
    pub chat_api_key: String,
    pub chat_model: String,
    pub chat_top_k: usize,
    pub max_agent_loops: i32,
}

impl Clone for AppSettings {
    /// The per-call snapshot: every call starts by cloning the shared
    /// settings, so later updates never touch a call in flight.
    fn clone(&self) -> (r: Self)
        ensures
            r == *self,
    {
        AppSettings {
            search_top_k: self.search_top_k,
            display_density: self.display_density.clone(),
            embedding_base_url: self.embedding_base_url.clone(),
            embedding_api_key: self.embedding_api_key.clone(),
            embedding_model: self.embedding_model.clone(),
            custom_data_path: match &self.custom_data_path {
                Some(p) => Some(p.clone()),
                None => None,
            },
            enable_ai_chat: self.enable_ai_chat,
            chat_base_url: self.chat_base_url.clone(),
            chat_api_key: self.chat_api_key.clone(),
            chat_model: self.chat_model.clone(),
            chat_top_k: self.chat_top_k,
            max_agent_loops: self.max_agent_loops,
        }
    }
}

/// Number of agent-loop iterations configured when the settings file
/// carries no explicit value.
pub fn default_max_loops() -> (r: i32)
    ensures
        r == 5,
{
    5
}

impl Default for AppSettings {
    /// The out-of-the-box configuration: a local OpenAI-compatible
    /// endpoint for both embedding and chat, and chat turned off.
    fn default() -> (r: Self)
        ensures
            r.search_top_k == 50,
            r.display_density@ == "comfortable"@,
            r.embedding_base_url@ == "http://localhost:11434/v1"@,
            r.embedding_api_key@ == "ollama"@,
            r.embedding_model@ == "embeddinggemma:300m"@,
            r.custom_data_path is None,
            r.enable_ai_chat == false,
            r.chat_base_url@ == "http://localhost:11434/v1"@,
            r.chat_api_key@ == "ollama"@,
            r.chat_model@ == "qwen3"@,
            r.chat_top_k == 5,
            r.max_agent_loops == 5,
    {
        AppSettings {
            search_top_k: 50,
            display_density: String::from_str("comfortable"),
            embedding_base_url: String::from_str("http://localhost:11434/v1"),
            embedding_api_key: String::from_str("ollama"),
            embedding_model: String::from_str("embeddinggemma:300m"),
            custom_data_path: None,
            enable_ai_chat: false,
            chat_base_url: String::from_str("http://localhost:11434/v1"),
            chat_api_key: String::from_str("ollama"),
            chat_model: String::from_str("qwen3"),
            chat_top_k: 5,
            max_agent_loops: 5,
        }
    }
}

/// The per-query snapshot of everything the application resolved at
/// startup: the settings and the paths of the settings file, the data
/// directory and the user database.
pub struct AppState {
    pub settings: AppSettings,
    pub settings_path: String,
    pub app_data_dir: String,
    pub user_db_path: String,
}

/// Which directory the stores are read from: the custom path when one
/// is configured, non-blank and present on disk; the resolved
/// application data directory otherwise.
pub open spec fn effective_data_dir_spec(state: AppState, custom_exists: bool) -> Seq<char> {
    match state.settings.custom_data_path {
        Some(p) => if !all_spaces(p@) && custom_exists {
            p@
        } else {
            state.app_data_dir@
        },
        None => state.app_data_dir@,
    }
}

/// Chooses the data directory for this call. `custom_exists` reports
/// whether the configured custom path is present on disk; the caller
/// checks that, since the library itself touches no file system.
pub fn get_effective_data_dir(state: &AppState, custom_exists: bool) -> (r: String)
    ensures
        r@ == effective_data_dir_spec(*state, custom_exists),
{
    match &state.settings.custom_data_path {
        Some(p) => {
            if !is_blank(p.as_str()) && custom_exists {
                p.clone()
            } else {
                state.app_data_dir.clone()
            }
        },
        None => state.app_data_dir.clone(),
    }
}

} // verus!
