//! The retrieved unit of legal text: one statute fragment with its
//! similarity score and relational metadata.

use vstd::prelude::*;

use crate::text::{strip_suffix_reps, strip_suffix_reps_range};

verus! {

/// Similarity scores arrive from the vector index scaled by 1000, so
/// that the exact relevance cutoff can be stated over integers: a score
/// of 0.8 is stored as 800.
pub const RELEVANCE_THRESHOLD_MILLI: u32 = 1200;

/// One statute fragment: content, metadata from the relational store,
/// and the similarity distance stamped after the join (lower is more
/// similar; zero before the join).
pub struct LawChunk {
    pub id: String,
    pub distance_milli: u32,
    pub content: String,
    pub law_name: String,
    pub category: String,
    pub publish_date: String,
    pub part: String,
    pub chapter: String,
    pub article_number: String,
    pub region: String,
    pub source_file: String,
}

impl Clone for LawChunk {
    fn clone(&self) -> (r: Self)
        ensures
            r == *self,
    {
        LawChunk {
            id: self.id.clone(),
            distance_milli: self.distance_milli,
            content: self.content.clone(),
            law_name: self.law_name.clone(),
            category: self.category.clone(),
            publish_date: self.publish_date.clone(),
            part: self.part.clone(),
            chapter: self.chapter.clone(),
            article_number: self.article_number.clone(),
            region: self.region.clone(),
            source_file: self.source_file.clone(),
        }
    }
}

/// The category string that marks locally-binding law, which is kept
/// only when the caller's region matches.
pub open spec fn local_regulation() -> Seq<char> {
    "地方法规"@
}

pub fn local_regulation_str() -> (r: &'static str)
    ensures
        r@ == local_regulation(),
{
    "地方法规"
}

/// The fragment is locally-binding law.
pub open spec fn is_local_regulation(c: LawChunk) -> bool {
    c.category@ == local_regulation()
}

/// The fragment's score is below the relevance cutoff, so it counts as
/// usable evidence rather than a noise-level match.
pub open spec fn is_relevant(c: LawChunk) -> bool {
    c.distance_milli < RELEVANCE_THRESHOLD_MILLI
}

/// The law name that a source file name stands for: the file name with
/// its `.txt` ending removed.
pub fn law_name_of_source_file(source_file: &str) -> (r: String)
    ensures
        r@ == strip_suffix_reps(source_file@, ".txt"@),
{
    proof {
        reveal_strlit(".txt");
        assert(source_file@.subrange(0, source_file@.len() as int) =~= source_file@);
    }
    let n = source_file.unicode_len();
    let b = strip_suffix_reps_range(source_file, 0, n, ".txt");
    source_file.substring_char(0, b).to_owned()
}

/// Builds a fragment from one relational-store row. The distance is
/// defaulted to zero (it is stamped later from the vector hit), and the
/// source file name is derived from the law name.
pub fn chunk_from_row(
    id: String,
    content: String,
    law_name: String,
    category: String,
    region: String,
    publish_date: String,
    part: String,
    chapter: String,
    article_number: String,
) -> (r: LawChunk)
    ensures
        r.id == id,
        r.distance_milli == 0,
        r.content == content,
        r.law_name == law_name,
        r.category == category,
        r.region == region,
        r.publish_date == publish_date,
        r.part == part,
        r.chapter == chapter,
        r.article_number == article_number,
        r.source_file@ == law_name@ + ".txt"@,
{
    let source_file = law_name.clone().concat(".txt");
    LawChunk {
        id,
        distance_milli: 0,
        content,
        law_name,
        category,
        publish_date,
        part,
        chapter,
        article_number,
        region,
        source_file,
    }
}

} // verus!
