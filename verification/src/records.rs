//! Data carried between the user store and its callers: favorites,
//! favorite folders, and search history. The store itself is an
//! external collaborator; the library only shapes its rows.

use vstd::prelude::*;

verus! {

/// One folder that favorites can be filed under.
pub struct UserFolder {
    pub id: i32,
    pub name: String,
    pub created_at: String,
}

/// One favorited statute fragment, as the user store keeps it.
pub struct UserFavorite {
    pub id: i32,
    pub law_id: String,
    pub law_name: String,
    pub article_number: String,
    pub content: String,
    pub created_at: String,
    pub tags: Option<String>,
    pub folder_id: Option<i32>,
}

/// One remembered search query with its timestamp.
pub struct SearchHistoryItem {
    pub id: i32,
    pub query: String,
    pub timestamp: i64,
}

} // verus!
