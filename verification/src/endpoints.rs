//! The OpenAI-compatible endpoint URLs that the embedding and chat
//! clients post to: the configured base with trailing slashes removed,
//! followed by the service path.

use vstd::prelude::*;

use crate::text::{strip_suffix_reps, strip_suffix_reps_range};

verus! {

/// The URL for one service path under a configured base.
pub open spec fn endpoint_url_spec(base: Seq<char>, path: Seq<char>) -> Seq<char> {
    strip_suffix_reps(base, "/"@) + path
}

fn endpoint_url(base: &str, path: &str) -> (r: String)
    ensures
        r@ == endpoint_url_spec(base@, path@),
{
    proof {
        reveal_strlit("/");
        assert(base@.subrange(0, base@.len() as int) =~= base@);
    }
    let n = base.unicode_len();
    let b = strip_suffix_reps_range(base, 0, n, "/");
    let mut out = base.substring_char(0, b).to_owned();
    out.append(path);
    out
}

/// Where embedding requests go.
pub fn embeddings_url(base: &str) -> (r: String)
    ensures
        r@ == endpoint_url_spec(base@, "/embeddings"@),
{
    endpoint_url(base, "/embeddings")
}

/// Where chat-completion requests go, blocking and streaming alike.
pub fn chat_completions_url(base: &str) -> (r: String)
    ensures
        r@ == endpoint_url_spec(base@, "/chat/completions"@),
{
    endpoint_url(base, "/chat/completions")
}

/// Where the model list is probed when a connection is tested.
pub fn models_url(base: &str) -> (r: String)
    ensures
        r@ == endpoint_url_spec(base@, "/models"@),
{
    endpoint_url(base, "/models")
}

} // verus!
