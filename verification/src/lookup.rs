//! Compute around the by-name statute lookups: the LIKE patterns the
//! relational queries use, the ranking of law-name suggestions, and the
//! fallback text when an article is not found.

use vstd::prelude::*;

use crate::text::str_equal;

verus! {

/// One law-name suggestion offered while the user types.
pub struct LawNameSuggestion {
    pub name: String,
    pub region: String,
    pub category: String,
}

impl Clone for LawNameSuggestion {
    fn clone(&self) -> (r: Self)
        ensures
            r == *self,
    {
        LawNameSuggestion {
            name: self.name.clone(),
            region: self.region.clone(),
            category: self.category.clone(),
        }
    }
}

/// The rank of a statute category when suggestions are ordered:
/// national statutes first, then judicial interpretations,
/// administrative regulations and local regulations; anything else
/// last.
pub open spec fn category_priority_spec(cat: Seq<char>) -> int {
    if cat == "法律"@ {
        1
    } else if cat == "司法解释"@ {
        2
    } else if cat == "行政法规"@ {
        3
    } else if cat == "地方法规"@ {
        4
    } else {
        99
    }
}

pub fn get_category_priority(cat: &str) -> (r: i32)
    ensures
        r == category_priority_spec(cat@),
{
    if str_equal(cat, "法律") {
        1
    } else if str_equal(cat, "司法解释") {
        2
    } else if str_equal(cat, "行政法规") {
        3
    } else if str_equal(cat, "地方法规") {
        4
    } else {
        99
    }
}

/// The tie-breaking measure when two suggestions share a category: the
/// byte length of the law name (shorter names first).
pub open spec fn suggestion_byte_len(s: LawNameSuggestion) -> nat {
    vstd::utf8::encode_utf8(s.name@).len() as usize as nat
}

/// The order suggestions are ranked in: by category rank first, then by
/// name byte length.
pub open spec fn key_le(a: LawNameSuggestion, b: LawNameSuggestion) -> bool {
    ||| category_priority_spec(a.category@) < category_priority_spec(b.category@)
    ||| (category_priority_spec(a.category@) == category_priority_spec(b.category@)
        && suggestion_byte_len(a) <= suggestion_byte_len(b))
}

pub open spec fn suggestions_sorted(s: Seq<LawNameSuggestion>) -> bool {
    forall|i: int, j: int| 0 <= i < j < s.len() ==> key_le(#[trigger] s[i], #[trigger] s[j])
}

fn suggestion_le(a: &LawNameSuggestion, b: &LawNameSuggestion) -> (r: bool)
    ensures
        r == key_le(*a, *b),
{
    let pa = get_category_priority(a.category.as_str());
    let pb = get_category_priority(b.category.as_str());
    if pa < pb {
        true
    } else if pb < pa {
        false
    } else {
        a.name.as_str().len() <= b.name.as_str().len()
    }
}

/// Orders suggestions by category rank, then by name length: the result
/// holds exactly the input suggestions, ranked.
pub fn sort_suggestions(v: Vec<LawNameSuggestion>) -> (r: Vec<LawNameSuggestion>)
    ensures
        suggestions_sorted(r@),
        r@.to_multiset() == v@.to_multiset(),
{
    let ghost orig = v@;
    let mut rest = v;
    let mut out: Vec<LawNameSuggestion> = Vec::new();
    proof {
        broadcast use vstd::seq_lib::group_to_multiset_ensures;

        assert(out@.to_multiset().add(rest@.to_multiset()) =~= orig.to_multiset());
    }
    while rest.len() > 0
        invariant
            out@.to_multiset().add(rest@.to_multiset()) == orig.to_multiset(),
            suggestions_sorted(out@),
            forall|i: int, j: int|
                0 <= i < out@.len() && 0 <= j < rest@.len() ==> key_le(
                    #[trigger] out@[i],
                    #[trigger] rest@[j],
                ),
        decreases rest@.len(),
    {
        let ghost pre_out = out@;
        let ghost pre_rest = rest@;
        let mut jmin: usize = 0;
        let mut k: usize = 1;
        while k < rest.len()
            invariant
                0 <= jmin < k <= rest@.len(),
                rest@.len() > 0,
                forall|m: int| 0 <= m < k ==> key_le(rest@[jmin as int], #[trigger] rest@[m]),
            decreases rest@.len() - k,
        {
            if !suggestion_le(&rest[jmin], &rest[k]) {
                jmin = k;
            }
            k = k + 1;
        }
        let x = rest.remove(jmin);
        out.push(x);
        proof {
            broadcast use vstd::seq_lib::group_to_multiset_ensures;

            assert(out@.to_multiset().add(rest@.to_multiset()) =~= orig.to_multiset());
            assert(forall|j: int|
                0 <= j < rest@.len() ==> #[trigger] rest@[j] == (if j < jmin {
                    pre_rest[j]
                } else {
                    pre_rest[j + 1]
                }));
        }
    }
    out
}

/// Ranks suggestions and keeps the first `limit` of them: the result is
/// ordered, holds `limit` suggestions (or all of them, when fewer came
/// in), and holds nothing that was not among the input.
pub fn rank_suggestions(v: Vec<LawNameSuggestion>, limit: usize) -> (r: Vec<LawNameSuggestion>)
    ensures
        suggestions_sorted(r@),
        r@.len() == (if limit < v@.len() {
            limit as int
        } else {
            v@.len() as int
        }),
        r@.to_multiset().subset_of(v@.to_multiset()),
{
    let ghost orig = v@;
    let mut out = sort_suggestions(v);
    let ghost sorted = out@;
    out.truncate(limit);
    proof {
        broadcast use vstd::multiset::group_multiset_axioms;
        broadcast use vstd::seq_lib::group_to_multiset_ensures;

        assert(sorted.to_multiset().len() == sorted.len());
        assert(orig.to_multiset().len() == orig.len());
        if limit < sorted.len() {
            assert(sorted.take(limit as int) + sorted.skip(limit as int) =~= sorted);
            vstd::seq_lib::lemma_multiset_commutative(
                sorted.take(limit as int),
                sorted.skip(limit as int),
            );
            assert(out@ =~= sorted.take(limit as int));
            assert forall|x: LawNameSuggestion|
                #[trigger] out@.to_multiset().count(x) <= orig.to_multiset().count(x) by {
                assert(sorted.to_multiset().count(x) == out@.to_multiset().count(x)
                    + sorted.skip(limit as int).to_multiset().count(x));
            }
        } else {
            assert(out@ =~= sorted);
            assert(forall|x: LawNameSuggestion|
                #[trigger] out@.to_multiset().count(x) <= orig.to_multiset().count(x));
        }
        assert(out@.to_multiset().subset_of(orig.to_multiset()));
    }
    out
}

/// The SQL LIKE pattern that matches the query anywhere in a column.
pub fn like_pattern(query: &str) -> (r: String)
    ensures
        r@ == "%"@ + query@ + "%"@,
{
    let mut out = String::from_str("%");
    out.append(query);
    out.append("%");
    out
}

/// Which law an article snippet is looked up in: the explicit query
/// when one was given, the law currently shown otherwise.
pub fn snippet_target_law(law_name_query: Option<String>, current_law_name: String) -> (r: String)
    ensures
        law_name_query matches Some(q) ==> r == q,
        law_name_query is None ==> r == current_law_name,
{
    match law_name_query {
        Some(name) => name,
        None => current_law_name,
    }
}

/// The message shown when no snippet row matches the law and article.
pub fn snippet_fallback_text(target_law: &str, article_number: &str) -> (r: String)
    ensures
        r@ == "未找到《"@ + target_law@ + "》的"@ + article_number@,
{
    let mut out = String::from_str("未找到《");
    out.append(target_law);
    out.append("》的");
    out.append(article_number);
    out
}

} // verus!
