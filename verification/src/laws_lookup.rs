//! Properties of template lookup, listing order and filtering, stated over the inputs
//! and results of the operations.

use vstd::prelude::*;

use crate::cli::CategoryFilter;
use crate::commands::{list_filtered, list_keeps};
use crate::laws::{law_list_filter, law_listing_sorted, law_search_results_are_matches};
use crate::models::{TemplateCategory, TemplateView};
use crate::repo::{
    alias_target, first_aliased, first_based, first_named, first_where, last_segment, listing,
    match_score, normalized, resolved, search_results, WalkEntry,
};
use crate::sorting::text_le;
use crate::text::unicode_lowercase;

verus! {

/// `list[i]` is the first template of `list` whose normalized name is `n`.
pub open spec fn first_named_at(list: Seq<TemplateView>, n: Seq<char>, i: int) -> bool {
    &&& 0 <= i < list.len()
    &&& normalized(list[i].name) == n
    &&& forall|j: int| 0 <= j < i ==> normalized(#[trigger] list[j].name) != n
}

/// `list[i]` is the first template of `list` whose normalized last name segment is `n`.
pub open spec fn first_based_at(list: Seq<TemplateView>, n: Seq<char>, i: int) -> bool {
    &&& 0 <= i < list.len()
    &&& normalized(last_segment(list[i].name)) == n
    &&& forall|j: int| 0 <= j < i ==> normalized(last_segment(#[trigger] list[j].name)) != n
}

/// Some template of `list` has normalized name `n`.
pub open spec fn some_named(list: Seq<TemplateView>, n: Seq<char>) -> bool {
    exists|i: int| 0 <= i < list.len() && normalized(#[trigger] list[i].name) == n
}

/// Some template of `list` has normalized last name segment `n`.
pub open spec fn some_based(list: Seq<TemplateView>, n: Seq<char>) -> bool {
    exists|i: int| 0 <= i < list.len() && normalized(last_segment(#[trigger] list[i].name)) == n
}

/// The query's alias names a template of `list`, up to normalization.
pub open spec fn alias_listed(list: Seq<TemplateView>, q: Seq<char>) -> bool {
    alias_target(normalized(q)) matches Some(a) && some_named(list, normalized(a))
}

proof fn lemma_first_where_shape(list: Seq<TemplateView>, pred: spec_fn(TemplateView) -> bool)
    ensures
        first_where(list, pred) is None <==> forall|k: int| 0 <= k < list.len() ==> !pred(#[trigger] list[k]),
        first_where(list, pred) matches Some(t) ==> exists|i: int|
            0 <= i < list.len() && list[i] == t && pred(t)
                && forall|j: int| 0 <= j < i ==> !pred(#[trigger] list[j]),
    decreases list.len(),
{
    if list.len() > 0 {
        let rest = list.drop_first();
        lemma_first_where_shape(rest, pred);
        if pred(list[0]) {
            assert(list[0] == list[0]);
        } else {
            assert forall|k: int| 0 <= k < rest.len() implies rest[k] == list[k + 1] by {}
            if first_where(rest, pred) is None {
                assert forall|k: int| 0 <= k < list.len() implies !pred(#[trigger] list[k]) by {
                    if k > 0 {
                        assert(list[k] == rest[k - 1]);
                    }
                }
            } else {
                let t = first_where(rest, pred)->0;
                let i = choose|i: int|
                    0 <= i < rest.len() && rest[i] == t && pred(t)
                        && forall|j: int| 0 <= j < i ==> !pred(#[trigger] rest[j]);
                assert(list[i + 1] == t);
                assert forall|j: int| 0 <= j < i + 1 implies !pred(#[trigger] list[j]) by {
                    if j > 0 {
                        assert(list[j] == rest[j - 1]);
                    }
                }
                assert(!pred(list[0]));
                let k0 = choose|k: int| 0 <= k < rest.len() && pred(#[trigger] rest[k]);
                assert(list[k0 + 1] == rest[k0]);
            }
        }
    }
}

/// How a query is resolved in a listing:
/// - when the query's alias names a listed template, the first such template;
/// - otherwise, when a listed name equals the query up to normalization, the first one;
/// - otherwise, when a listed name's last segment equals the query up to normalization,
///   the first one;
/// - otherwise the best search result, when there is one and it scores above 30, and
///   nothing when there is none or it scores 30 or less.
pub proof fn law_resolution_order(list: Seq<TemplateView>, q: Seq<char>)
    ensures
        alias_listed(list, q) ==> (resolved(list, q) matches Some(t) && exists|i: int|
            #[trigger] first_named_at(list, normalized(alias_target(normalized(q))->0), i) && list[i] == t),
        !alias_listed(list, q) && some_named(list, normalized(q)) ==> (resolved(list, q) matches Some(t)
            && exists|i: int| #[trigger] first_named_at(list, normalized(q), i) && list[i] == t),
        !alias_listed(list, q) && !some_named(list, normalized(q)) && some_based(list, normalized(q))
            ==> (resolved(list, q) matches Some(t) && exists|i: int|
            #[trigger] first_based_at(list, normalized(q), i) && list[i] == t),
        !alias_listed(list, q) && !some_named(list, normalized(q)) && !some_based(list, normalized(q))
            ==> resolved(list, q) == (if search_results(list, q).len() > 0 && search_results(list, q)[0].1 > 30 {
            Some(search_results(list, q)[0].0)
        } else {
            None
        }),
{
    let qn = normalized(q);
    let pn = |t: TemplateView| normalized(t.name) == qn;
    let pb = |t: TemplateView| normalized(last_segment(t.name)) == qn;
    lemma_first_where_shape(list, pn);
    lemma_first_where_shape(list, pb);
    assert(first_named(list, qn) == first_where(list, pn));
    assert(first_based(list, qn) == first_where(list, pb));
    assert(some_named(list, qn) <==> first_named(list, qn) is Some) by {
        if some_named(list, qn) {
            let i = choose|i: int| 0 <= i < list.len() && normalized(#[trigger] list[i].name) == qn;
            assert(pn(list[i]));
        }
    }
    assert(some_based(list, qn) <==> first_based(list, qn) is Some) by {
        if some_based(list, qn) {
            let i = choose|i: int| 0 <= i < list.len() && normalized(last_segment(#[trigger] list[i].name)) == qn;
            assert(pb(list[i]));
        }
    }
    match alias_target(qn) {
        Some(a) => {
            let an = normalized(a);
            let pa = |t: TemplateView| normalized(t.name) == an;
            lemma_first_where_shape(list, pa);
            assert(first_aliased(list, q) == first_where(list, pa));
            assert(alias_listed(list, q) <==> first_aliased(list, q) is Some) by {
                if some_named(list, an) {
                    let i = choose|i: int| 0 <= i < list.len() && normalized(#[trigger] list[i].name) == an;
                    assert(pa(list[i]));
                }
            }
            if alias_listed(list, q) {
                let t = first_aliased(list, q)->0;
                let i = choose|i: int|
                    0 <= i < list.len() && list[i] == t && pa(t) && forall|j: int| 0 <= j < i ==> !pa(#[trigger] list[j]);
                assert(first_named_at(list, an, i));
            }
        },
        None => {},
    }
    if !alias_listed(list, q) && some_named(list, qn) {
        let t = first_named(list, qn)->0;
        let i = choose|i: int|
            0 <= i < list.len() && list[i] == t && pn(t) && forall|j: int| 0 <= j < i ==> !pn(#[trigger] list[j]);
        assert(first_named_at(list, qn, i));
    }
    if !alias_listed(list, q) && !some_named(list, qn) && some_based(list, qn) {
        let t = first_based(list, qn)->0;
        let i = choose|i: int|
            0 <= i < list.len() && list[i] == t && pb(t) && forall|j: int| 0 <= j < i ==> !pb(#[trigger] list[j]);
        assert(first_based_at(list, qn, i));
    }
}

/// Every listed template whose full name fuzzy-matches the query is a search result;
/// unless an alias or exact-name hit gives it 1000 or 900, its score is the fuzzy score
/// of its full name.
pub proof fn law_search_full_name_matches(list: Seq<TemplateView>, q: Seq<char>)
    ensures
        forall|t: TemplateView| #[trigger] list.contains(t) && crate::fuzzy::skim_score(t.name, q) is Some
            ==> exists|s: i64| search_results(list, q).contains((t, s)),
        forall|t: TemplateView| #[trigger] list.contains(t) && crate::fuzzy::skim_score(t.name, q) is Some
            && !(alias_target(normalized(q)) matches Some(a) && normalized(t.name) == normalized(a))
            && normalized(t.name) != normalized(q)
            ==> search_results(list, q).contains((t, crate::fuzzy::skim_score(t.name, q)->0)),
{
    law_search_results_are_matches(list, q);
    assert forall|t: TemplateView| #[trigger] list.contains(t) && crate::fuzzy::skim_score(t.name, q) is Some
        implies exists|s: i64| search_results(list, q).contains((t, s)) by {
        assert(match_score(t.name, q) is Some);
        assert(search_results(list, q).contains((t, match_score(t.name, q)->0)));
    }
}

/// Within a category the listing is in order of lowercased full template name, and the
/// categories come languages first, then global, then community.
pub proof fn law_listing_name_order(root: Seq<char>, es: Seq<WalkEntry>)
    ensures
        forall|i: int, j: int| 0 <= i < j < listing(root, es).len()
            && (#[trigger] listing(root, es)[i]).category == (#[trigger] listing(root, es)[j]).category
            ==> text_le(unicode_lowercase(listing(root, es)[i].name), unicode_lowercase(listing(root, es)[j].name)),
        forall|i: int, j: int| 0 <= i < j < listing(root, es).len()
            && (#[trigger] listing(root, es)[i]).category == TemplateCategory::Global
            ==> (#[trigger] listing(root, es)[j]).category != TemplateCategory::Language,
        forall|i: int, j: int| 0 <= i < j < listing(root, es).len()
            && (#[trigger] listing(root, es)[i]).category == TemplateCategory::Community
            ==> (#[trigger] listing(root, es)[j]).category != TemplateCategory::Language
                && listing(root, es)[j].category != TemplateCategory::Global,
{
    law_listing_sorted(root, es);
}

/// `list --category` keeps exactly the templates of the named category: language
/// templates for `Language`, global ones for `Global`, community ones for `Community`.
pub proof fn law_list_category_filter(list: Seq<TemplateView>, keyword: Option<Seq<char>>)
    ensures
        forall|t: TemplateView| #[trigger] list_filtered(list, Some(CategoryFilter::Language), keyword).contains(t)
            <==> list.contains(t) && t.category == TemplateCategory::Language && list_keeps(t, None, keyword),
        forall|t: TemplateView| #[trigger] list_filtered(list, Some(CategoryFilter::Global), keyword).contains(t)
            <==> list.contains(t) && t.category == TemplateCategory::Global && list_keeps(t, None, keyword),
        forall|t: TemplateView| #[trigger] list_filtered(list, Some(CategoryFilter::Community), keyword).contains(t)
            <==> list.contains(t) && t.category == TemplateCategory::Community && list_keeps(t, None, keyword),
{
    law_list_filter(list, Some(CategoryFilter::Language), keyword);
    law_list_filter(list, Some(CategoryFilter::Global), keyword);
    law_list_filter(list, Some(CategoryFilter::Community), keyword);
}



} // verus!
