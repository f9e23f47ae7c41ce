//! Properties that hold across the library's operations.

use vstd::prelude::*;

use crate::cli::CategoryFilter;
use crate::commands::{count_in, list_filtered, list_keeps, merged};
use crate::interactive::{label_name, label_text};
use crate::models::{category_name, category_of_path, TemplateCategory, TemplateView};
use crate::repo::{
    alias_target, clean_name, collect_templates, is_template_file, template_of, normalized, first_where, listing, listing_key, match_score, resolved, scored,
    search_results, strip_keys, WalkEntry,
};
use crate::sorting::{
    insert_sorted, key_le, lemma_sort_member, lemma_sort_with_key, with_key, lemma_sort_order, sort_stable, Keyed,
};
use crate::sync::{answers, next_stage, SyncAction, SyncEvent, SyncStage};
use crate::text::{trim_start, trimmed, unicode_white_space};

verus! {

/// The records of the template files of a walk, in walk order.
pub open spec fn walk_templates(root: Seq<char>, es: Seq<WalkEntry>) -> Seq<TemplateView> {
    strip_keys(collect_templates(root, es))
}

proof fn lemma_collect_keys(root: Seq<char>, es: Seq<WalkEntry>)
    ensures
        forall|k: int| 0 <= k < collect_templates(root, es).len()
            ==> (#[trigger] collect_templates(root, es)[k]).0 == listing_key(collect_templates(root, es)[k].1),
    decreases es.len(),
{
    if es.len() > 0 {
        lemma_collect_keys(root, es.drop_last());
        let r = collect_templates(root, es.drop_last());
        assert forall|k: int| 0 <= k < collect_templates(root, es).len()
            implies (#[trigger] collect_templates(root, es)[k]).0 == listing_key(collect_templates(root, es)[k].1) by {
            if k < r.len() {
                assert(collect_templates(root, es)[k] == r[k]);
            }
        }
    }
}

/// The listing is in order: by category (languages, then global, then community),
/// then by lowercased name.
pub proof fn law_listing_sorted(root: Seq<char>, es: Seq<WalkEntry>)
    ensures
        forall|i: int, j: int| 0 <= i < j < listing(root, es).len()
            ==> key_le(listing_key(#[trigger] listing(root, es)[i]), listing_key(#[trigger] listing(root, es)[j])),
{
    let c = collect_templates(root, es);
    let s = sort_stable(c);
    lemma_collect_keys(root, es);
    lemma_sort_order(c);
    assert forall|i: int, j: int| 0 <= i < j < listing(root, es).len() implies key_le(
        listing_key(#[trigger] listing(root, es)[i]),
        listing_key(#[trigger] listing(root, es)[j]),
    ) by {
        lemma_sort_member(c, i);
        lemma_sort_member(c, j);
        let mi = choose|m: int| 0 <= m < c.len() && c[m] == s[i];
        let mj = choose|m: int| 0 <= m < c.len() && c[m] == s[j];
        assert(c[mi].0 == listing_key(c[mi].1));
        assert(c[mj].0 == listing_key(c[mj].1));
    }
}

proof fn lemma_collect_records(root: Seq<char>, es: Seq<WalkEntry>)
    ensures
        forall|k: int| 0 <= k < collect_templates(root, es).len() ==> {
            let t = (#[trigger] collect_templates(root, es)[k]).1;
            t.name == clean_name(t.relative_path) && t.category == category_of_path(t.relative_path)
        },
    decreases es.len(),
{
    if es.len() > 0 {
        lemma_collect_records(root, es.drop_last());
        let r = collect_templates(root, es.drop_last());
        assert forall|k: int| 0 <= k < collect_templates(root, es).len() implies {
            let t = (#[trigger] collect_templates(root, es)[k]).1;
            t.name == clean_name(t.relative_path) && t.category == category_of_path(t.relative_path)
        } by {
            if k < r.len() {
                assert(collect_templates(root, es)[k] == r[k]);
            }
        }
    }
}

/// Every listed template is named and categorized after its relative path: the name is
/// the path without `.gitignore`, the category comes from the path's first directory.
pub proof fn law_listing_records_follow_paths(root: Seq<char>, es: Seq<WalkEntry>)
    ensures
        forall|k: int| 0 <= k < listing(root, es).len() ==> {
            let t = #[trigger] listing(root, es)[k];
            t.name == clean_name(t.relative_path) && t.category == category_of_path(t.relative_path)
        },
{
    let c = collect_templates(root, es);
    let s = sort_stable(c);
    lemma_collect_records(root, es);
    assert forall|k: int| 0 <= k < listing(root, es).len() implies {
        let t = #[trigger] listing(root, es)[k];
        t.name == clean_name(t.relative_path) && t.category == category_of_path(t.relative_path)
    } by {
        lemma_sort_member(c, k);
        let m = choose|m: int| 0 <= m < c.len() && c[m] == s[k];
    }
}

proof fn lemma_strip_insert_multiset<V>(s: Seq<Keyed<V>>, x: Keyed<V>)
    ensures
        strip_keys(insert_sorted(s, x)).to_multiset() =~= strip_keys(s).to_multiset().insert(x.1),
    decreases s.len(),
{
    broadcast use vstd::seq_lib::group_to_multiset_ensures, vstd::multiset::group_multiset_axioms;

    if s.len() == 0 {
        assert(strip_keys(insert_sorted(s, x)) == Seq::<V>::empty().push(x.1));
        assert(strip_keys(s) == Seq::<V>::empty());
    } else if key_le(s[0].0, x.0) {
        let t = s.drop_first();
        lemma_strip_insert_multiset(t, x);
        let r = insert_sorted(t, x);
        assert(strip_keys(seq![s[0]] + r) == seq![s[0].1] + strip_keys(r));
        assert(strip_keys(s) == seq![s[0].1] + strip_keys(t));
        vstd::seq_lib::lemma_multiset_commutative(seq![s[0].1], strip_keys(r));
        vstd::seq_lib::lemma_multiset_commutative(seq![s[0].1], strip_keys(t));
    } else {
        assert(strip_keys(seq![x] + s) == seq![x.1] + strip_keys(s));
        vstd::seq_lib::lemma_multiset_commutative(seq![x.1], strip_keys(s));
        assert(seq![x.1] == Seq::<V>::empty().push(x.1));
    }
}

proof fn lemma_strip_sort_multiset<V>(s: Seq<Keyed<V>>)
    ensures
        strip_keys(sort_stable(s)).to_multiset() =~= strip_keys(s).to_multiset(),
    decreases s.len(),
{
    broadcast use vstd::seq_lib::group_to_multiset_ensures;

    if s.len() > 0 {
        lemma_strip_sort_multiset(s.drop_last());
        lemma_strip_insert_multiset(sort_stable(s.drop_last()), s.last());
        assert(strip_keys(s) == strip_keys(s.drop_last()).push(s.last().1));
    }
}

/// The listing holds exactly one record for each template file of the walk: it is a
/// reordering of them.
pub proof fn law_listing_keeps_templates(root: Seq<char>, es: Seq<WalkEntry>)
    ensures
        listing(root, es).to_multiset() =~= walk_templates(root, es).to_multiset(),
{
    lemma_strip_sort_multiset(collect_templates(root, es));
}

proof fn lemma_scored_entries(list: Seq<TemplateView>, q: Seq<char>)
    ensures
        forall|k: int| 0 <= k < scored(list, q).len() ==> {
            let e = #[trigger] scored(list, q)[k];
            &&& list.contains(e.1.0)
            &&& match_score(e.1.0.name, q) == Some(e.1.1)
            &&& e.0 == (-e.1.1, Seq::<char>::empty())
        },
        forall|t: TemplateView| #[trigger] list.contains(t) && match_score(t.name, q) is Some
            ==> scored(list, q).contains(((-match_score(t.name, q)->0, Seq::<char>::empty()), (t, match_score(t.name, q)->0))),
    decreases list.len(),
{
    if list.len() > 0 {
        let p = list.drop_last();
        lemma_scored_entries(p, q);
        let r = scored(p, q);
        assert forall|k: int| 0 <= k < scored(list, q).len() implies {
            let e = #[trigger] scored(list, q)[k];
            &&& list.contains(e.1.0)
            &&& match_score(e.1.0.name, q) == Some(e.1.1)
            &&& e.0 == (-e.1.1, Seq::<char>::empty())
        } by {
            if k < r.len() {
                assert(scored(list, q)[k] == r[k]);
                let m = choose|m: int| 0 <= m < p.len() && p[m] == r[k].1.0;
                assert(list[m] == p[m]);
            } else {
                assert(list[list.len() - 1] == list.last());
            }
        }
        assert forall|t: TemplateView| #[trigger] list.contains(t) && match_score(t.name, q) is Some implies
            scored(list, q).contains(((-match_score(t.name, q)->0, Seq::<char>::empty()), (t, match_score(t.name, q)->0))) by {
            let m = choose|m: int| 0 <= m < list.len() && list[m] == t;
            let e = ((-match_score(t.name, q)->0, Seq::<char>::empty()), (t, match_score(t.name, q)->0));
            if m < p.len() {
                assert(p[m] == t);
                assert(p.contains(t));
                let j = choose|j: int| 0 <= j < r.len() && r[j] == e;
                assert(scored(list, q)[j] == r[j]);
            } else {
                assert(scored(list, q) == r.push(e));
                assert(scored(list, q)[r.len() as int] == e);
            }
        }
    }
}

/// Search results come best score first.
pub proof fn law_search_best_first(list: Seq<TemplateView>, q: Seq<char>)
    ensures
        forall|i: int, j: int| 0 <= i < j < search_results(list, q).len()
            ==> (#[trigger] search_results(list, q)[i]).1 >= (#[trigger] search_results(list, q)[j]).1,
{
    let c = scored(list, q);
    let s = sort_stable(c);
    lemma_scored_entries(list, q);
    lemma_sort_order(c);
    assert forall|i: int, j: int| 0 <= i < j < search_results(list, q).len() implies
        (#[trigger] search_results(list, q)[i]).1 >= (#[trigger] search_results(list, q)[j]).1 by {
        lemma_sort_member(c, i);
        lemma_sort_member(c, j);
        let mi = choose|m: int| 0 <= m < c.len() && c[m] == s[i];
        let mj = choose|m: int| 0 <= m < c.len() && c[m] == s[j];
        assert(key_le(s[i].0, s[j].0));
    }
}

/// Each search result is a listed template with the score that `match_score` gives it,
/// and every listed template that matches is among the results.
pub proof fn law_search_results_are_matches(list: Seq<TemplateView>, q: Seq<char>)
    ensures
        forall|k: int| 0 <= k < search_results(list, q).len() ==> {
            let e = #[trigger] search_results(list, q)[k];
            list.contains(e.0) && match_score(e.0.name, q) == Some(e.1)
        },
        forall|t: TemplateView| #[trigger] list.contains(t) && match_score(t.name, q) is Some
            ==> search_results(list, q).contains((t, match_score(t.name, q)->0)),
{
    broadcast use vstd::seq_lib::group_to_multiset_ensures;

    let c = scored(list, q);
    let s = sort_stable(c);
    lemma_scored_entries(list, q);
    assert forall|k: int| 0 <= k < search_results(list, q).len() implies {
        let e = #[trigger] search_results(list, q)[k];
        list.contains(e.0) && match_score(e.0.name, q) == Some(e.1)
    } by {
        lemma_sort_member(c, k);
        let m = choose|m: int| 0 <= m < c.len() && c[m] == s[k];
    }
    assert forall|t: TemplateView| #[trigger] list.contains(t) && match_score(t.name, q) is Some implies
        search_results(list, q).contains((t, match_score(t.name, q)->0)) by {
        let e = ((-match_score(t.name, q)->0, Seq::<char>::empty()), (t, match_score(t.name, q)->0));
        crate::sorting::lemma_sort_multiset(c);
        assert(c.to_multiset().count(e) > 0);
        assert(s.to_multiset().count(e) > 0);
        assert(s.contains(e));
        let j = choose|j: int| 0 <= j < s.len() && s[j] == e;
        assert(search_results(list, q)[j] == e.1);
    }
}

proof fn lemma_first_where_member(list: Seq<TemplateView>, pred: spec_fn(TemplateView) -> bool)
    ensures
        first_where(list, pred) matches Some(t) ==> list.contains(t) && pred(t),
    decreases list.len(),
{
    if list.len() > 0 && !pred(list[0]) {
        lemma_first_where_member(list.drop_first(), pred);
        match first_where(list.drop_first(), pred) {
            Some(t) => {
                let m = choose|m: int| 0 <= m < list.drop_first().len() && list.drop_first()[m] == t;
                assert(list[m + 1] == t);
            },
            None => {},
        }
    } else if list.len() > 0 {
        assert(list[0] == list[0]);
    }
}

/// Whatever a query resolves to is a template of the listing.
pub proof fn law_resolved_is_listed(list: Seq<TemplateView>, q: Seq<char>)
    ensures
        resolved(list, q) matches Some(t) ==> list.contains(t),
{
    let qn = crate::repo::normalized(q);
    lemma_first_where_member(list, |t: TemplateView| crate::repo::normalized(t.name) == qn);
    lemma_first_where_member(list, |t: TemplateView| crate::repo::normalized(crate::repo::last_segment(t.name)) == qn);
    if let Some(a) = crate::repo::alias_target(qn) {
        lemma_first_where_member(list, |t: TemplateView| crate::repo::normalized(t.name) == crate::repo::normalized(a));
    }
    law_search_results_are_matches(list, q);
    if search_results(list, q).len() > 0 {
        let e = search_results(list, q)[0];
    }
}

/// `list` shows exactly the templates of the chosen category that hold the keyword.
pub proof fn law_list_filter(list: Seq<TemplateView>, category: Option<CategoryFilter>, keyword: Option<Seq<char>>)
    ensures
        forall|t: TemplateView| #[trigger] list_filtered(list, category, keyword).contains(t)
            <==> list.contains(t) && list_keeps(t, category, keyword),
    decreases list.len(),
{
    if list.len() > 0 {
        let p = list.drop_last();
        law_list_filter(p, category, keyword);
        assert forall|t: TemplateView| #[trigger] list_filtered(list, category, keyword).contains(t)
            <==> list.contains(t) && list_keeps(t, category, keyword) by {
            let r = list_filtered(p, category, keyword);
            if list.contains(t) && list_keeps(t, category, keyword) {
                let m = choose|m: int| 0 <= m < list.len() && list[m] == t;
                if m < p.len() {
                    assert(p[m] == t);
                    assert(p.contains(t));
                    assert(r.contains(t));
                    let j = choose|j: int| 0 <= j < r.len() && r[j] == t;
                    if list_keeps(list.last(), category, keyword) {
                        assert(r.push(list.last())[j] == t);
                    }
                } else {
                    assert(r.push(list.last())[r.len() as int] == t);
                }
            }
            if list_filtered(list, category, keyword).contains(t) {
                let j = choose|j: int| 0 <= j < list_filtered(list, category, keyword).len()
                    && list_filtered(list, category, keyword)[j] == t;
                if j < r.len() {
                    assert(r[j] == t);
                    assert(r.contains(t));
                    let m = choose|m: int| 0 <= m < p.len() && p[m] == t;
                    assert(list[m] == t);
                } else {
                    assert(list[list.len() - 1] == t);
                }
            }
        }
    }
}

/// Joining picked names keeps the given names first and in order, holds every picked
/// name, adds nothing else, and adds no name twice.
pub proof fn law_merge_selection(names: Seq<Seq<char>>, selected: Seq<Seq<char>>)
    ensures
        merged(names, selected).len() >= names.len(),
        merged(names, selected).take(names.len() as int) == names,
        forall|s: Seq<char>| #[trigger] selected.contains(s) ==> merged(names, selected).contains(s),
        forall|m: Seq<char>| #[trigger] merged(names, selected).contains(m) ==> names.contains(m) || selected.contains(m),
        names.no_duplicates() ==> merged(names, selected).no_duplicates(),
    decreases selected.len(),
{
    if selected.len() > 0 {
        let p = selected.drop_last();
        law_merge_selection(names, p);
        let m = merged(names, p);
        let x = selected.last();
        assert(m.push(x).take(names.len() as int) == m.take(names.len() as int));
        assert forall|s: Seq<char>| #[trigger] selected.contains(s) implies merged(names, selected).contains(s) by {
            let i = choose|i: int| 0 <= i < selected.len() && selected[i] == s;
            if i < p.len() {
                assert(p[i] == s);
                assert(p.contains(s));
                let j = choose|j: int| 0 <= j < m.len() && m[j] == s;
                if !m.contains(x) {
                    assert(m.push(x)[j] == s);
                }
            } else if !m.contains(x) {
                assert(m.push(x)[m.len() as int] == x);
            }
        }
        assert forall|y: Seq<char>| #[trigger] merged(names, selected).contains(y) implies names.contains(y) || selected.contains(y) by {
            let j = choose|j: int| 0 <= j < merged(names, selected).len() && merged(names, selected)[j] == y;
            if j < m.len() {
                assert(m[j] == y);
                assert(m.contains(y));
                if p.contains(y) {
                    let i = choose|i: int| 0 <= i < p.len() && p[i] == y;
                    assert(selected[i] == y);
                }
            } else {
                assert(selected[selected.len() - 1] == y);
            }
        }
    }
}

/// A menu entry reads back as the template's name without surrounding white space.
pub proof fn law_label_round_trip(t: TemplateView)
    ensures
        label_name(label_text(t)) == trimmed(t.name),
{
    let c = category_name(t.category);
    let l = label_text(t);
    reveal_strlit("[");
    reveal_strlit("] ");
    reveal_strlit("Language");
    reveal_strlit("Global");
    reveal_strlit("Community");
    let p: int = c.len() as int + 1;
    assert(l[p] == ']');
    assert forall|k: int| 0 <= k < p implies l[k] != ']' by {
        if k > 0 {
            assert(l[k] == c[k - 1]);
        }
    }
    crate::text::lemma_first_index_of(l, ']', p);
    let rest = l.subrange(p + 1, l.len() as int);
    assert(rest == seq![' '] + t.name);
    assert(unicode_white_space(' '));
    assert(rest.drop_first() == t.name);
    assert(trim_start(rest) == trim_start(t.name));
}

/// The category counts add up to the number of templates.
pub proof fn law_category_counts(list: Seq<TemplateView>)
    ensures
        count_in(list, TemplateCategory::Language) + count_in(list, TemplateCategory::Global)
            + count_in(list, TemplateCategory::Community) == list.len(),
    decreases list.len(),
{
    if list.len() > 0 {
        law_category_counts(list.drop_last());
    }
}

/// Distance of a stage from the end of its job.
pub open spec fn stages_left(stage: SyncStage) -> nat {
    match stage {
        SyncStage::AwaitGit { updating } => if updating { 10 } else { 8 },
        SyncStage::AwaitCached => 9,
        SyncStage::AwaitParent => 7,
        SyncStage::AwaitClear => 6,
        SyncStage::AwaitClone => 5,
        SyncStage::AwaitPull => 4,
        SyncStage::AwaitFetch => 3,
        SyncStage::AwaitResetHead => 2,
        SyncStage::AwaitResetMain => 1,
        SyncStage::Finished => 0,
    }
}

/// Every step of a job brings it closer to its end, so every job ends.
pub proof fn law_sync_progress(stage: SyncStage, event: SyncEvent)
    requires
        answers(stage, event),
    ensures
        stages_left(next_stage(stage, event)) < stages_left(stage),
{
}

/// A job ends exactly when its step reports success or failure.
pub proof fn law_sync_reports_end(stage: SyncStage, event: SyncEvent, a: SyncAction)
    requires
        answers(stage, event),
        crate::sync::action_fits(stage, event, a),
    ensures
        next_stage(stage, event) == SyncStage::Finished <==> (a is Done || a is Fail),
{
}


/// The templates of `list` whose listing key is `k`, in order.
pub open spec fn listed_with_key(list: Seq<TemplateView>, k: (int, Seq<char>)) -> Seq<TemplateView>
    decreases list.len(),
{
    if list.len() == 0 {
        list
    } else if listing_key(list.last()) == k {
        listed_with_key(list.drop_last(), k).push(list.last())
    } else {
        listed_with_key(list.drop_last(), k)
    }
}

proof fn lemma_listed_with_key_strip(s: Seq<Keyed<TemplateView>>, k: (int, Seq<char>))
    requires
        forall|j: int| 0 <= j < s.len() ==> (#[trigger] s[j]).0 == listing_key(s[j].1),
    ensures
        listed_with_key(strip_keys(s), k) == strip_keys(with_key(s, k)),
    decreases s.len(),
{
    if s.len() > 0 {
        let p = s.drop_last();
        lemma_listed_with_key_strip(p, k);
        assert(strip_keys(s).drop_last() == strip_keys(p));
        assert(strip_keys(s).last() == s.last().1);
        if s.last().0 == k {
            assert(strip_keys(with_key(p, k).push(s.last())) == strip_keys(with_key(p, k)).push(s.last().1));
        }
    }
}

/// Templates with the same listing key (same category and lowercased name) keep the
/// order in which the walk met them.
pub proof fn law_listing_ties_keep_walk_order(root: Seq<char>, es: Seq<WalkEntry>, k: (int, Seq<char>))
    ensures
        listed_with_key(listing(root, es), k) == listed_with_key(walk_templates(root, es), k),
{
    let c = collect_templates(root, es);
    let s = sort_stable(c);
    lemma_collect_keys(root, es);
    assert forall|j: int| 0 <= j < s.len() implies (#[trigger] s[j]).0 == listing_key(s[j].1) by {
        lemma_sort_member(c, j);
        let m = choose|m: int| 0 <= m < c.len() && c[m] == s[j];
    }
    lemma_listed_with_key_strip(s, k);
    lemma_listed_with_key_strip(c, k);
    lemma_sort_with_key(c, k);
}

/// The key under which a search result of score `c` is sorted.
pub open spec fn score_key(c: i64) -> (int, Seq<char>) {
    (-c, Seq::<char>::empty())
}

/// The templates of search results `res` that scored `c`, in order.
pub open spec fn results_with_score(res: Seq<(TemplateView, i64)>, c: i64) -> Seq<TemplateView>
    decreases res.len(),
{
    if res.len() == 0 {
        Seq::empty()
    } else if res.last().1 == c {
        results_with_score(res.drop_last(), c).push(res.last().0)
    } else {
        results_with_score(res.drop_last(), c)
    }
}

/// The templates of `list` that score `c` for `q`, in list order.
pub open spec fn listed_with_score(list: Seq<TemplateView>, q: Seq<char>, c: i64) -> Seq<TemplateView>
    decreases list.len(),
{
    if list.len() == 0 {
        list
    } else if match_score(list.last().name, q) == Some(c) {
        listed_with_score(list.drop_last(), q, c).push(list.last())
    } else {
        listed_with_score(list.drop_last(), q, c)
    }
}

/// The templates of scored entries, in order.
pub open spec fn scored_templates(w: Seq<Keyed<(TemplateView, i64)>>) -> Seq<TemplateView> {
    Seq::new(w.len(), |i: int| w[i].1.0)
}

proof fn lemma_results_with_score(s: Seq<Keyed<(TemplateView, i64)>>, c: i64)
    requires
        forall|j: int| 0 <= j < s.len() ==> (#[trigger] s[j]).0 == score_key(s[j].1.1),
    ensures
        results_with_score(strip_keys(s), c) == scored_templates(with_key(s, score_key(c))),
    decreases s.len(),
{
    if s.len() > 0 {
        let p = s.drop_last();
        lemma_results_with_score(p, c);
        assert(strip_keys(s).drop_last() == strip_keys(p));
        assert(strip_keys(s).last() == s.last().1);
        assert(s.last().0 == score_key(s.last().1.1));
        if s.last().1.1 == c {
            assert(scored_templates(with_key(p, score_key(c)).push(s.last()))
                == scored_templates(with_key(p, score_key(c))).push(s.last().1.0));
        } else {
            assert(score_key(s.last().1.1) != score_key(c));
        }
    }
}

proof fn lemma_listed_with_score(list: Seq<TemplateView>, q: Seq<char>, c: i64)
    ensures
        listed_with_score(list, q, c) == scored_templates(with_key(scored(list, q), score_key(c))),
    decreases list.len(),
{
    if list.len() > 0 {
        let p = list.drop_last();
        lemma_listed_with_score(p, q, c);
        let t = list.last();
        match match_score(t.name, q) {
            Some(sc) => {
                let e = ((-sc, Seq::<char>::empty()), (t, sc));
                assert(scored(list, q) == scored(p, q).push(e));
                assert(scored(list, q).drop_last() == scored(p, q));
                if sc == c {
                    assert(scored_templates(with_key(scored(p, q), score_key(c)).push(e))
                        == scored_templates(with_key(scored(p, q), score_key(c))).push(t));
                } else {
                    assert(score_key(sc) != score_key(c));
                }
            },
            None => {},
        }
    }
}

/// Search results of equal score keep the listing's order: the results that scored `c`
/// are, in order, the listed templates whose score is `c`.
pub proof fn law_search_ties_keep_listing_order(list: Seq<TemplateView>, q: Seq<char>, c: i64)
    ensures
        results_with_score(search_results(list, q), c) == listed_with_score(list, q, c),
{
    let w = scored(list, q);
    let s = sort_stable(w);
    lemma_scored_entries(list, q);
    assert forall|j: int| 0 <= j < s.len() implies (#[trigger] s[j]).0 == score_key(s[j].1.1) by {
        lemma_sort_member(w, j);
        let m = choose|m: int| 0 <= m < w.len() && w[m] == s[j];
    }
    lemma_results_with_score(s, c);
    lemma_sort_with_key(w, score_key(c));
    lemma_listed_with_score(list, q, c);
}

proof fn lemma_scored_distinct(list: Seq<TemplateView>, q: Seq<char>)
    requires
        list.no_duplicates(),
    ensures
        strip_keys(scored(list, q)).no_duplicates(),
    decreases list.len(),
{
    if list.len() > 0 {
        let p = list.drop_last();
        assert(p.no_duplicates()) by {
            assert forall|i: int, j: int| 0 <= i < p.len() && 0 <= j < p.len() && i != j implies p[i] != p[j] by {
                assert(p[i] == list[i] && p[j] == list[j]);
            }
        }
        lemma_scored_distinct(p, q);
        lemma_scored_entries(p, q);
        let t = list.last();
        match match_score(t.name, q) {
            Some(sc) => {
                let e = ((-sc, Seq::<char>::empty()), (t, sc));
                let r = strip_keys(scored(p, q));
                assert(strip_keys(scored(list, q)) == r.push((t, sc)));
                assert forall|i: int| 0 <= i < r.len() implies r[i] != (t, sc) by {
                    assert(r[i] == scored(p, q)[i].1);
                    if r[i].0 == t {
                        let m = choose|m: int| 0 <= m < p.len() && p[m] == t;
                        assert(list[m] == list[list.len() - 1]);
                    }
                }
                let rr = r.push((t, sc));
                assert forall|i: int, j: int| 0 <= i < rr.len() && 0 <= j < rr.len() && i != j implies rr[i] != rr[j] by {
                    if i < r.len() && j < r.len() {
                        assert(rr[i] == r[i] && rr[j] == r[j]);
                    } else if i < r.len() {
                        assert(rr[i] == r[i]);
                    } else {
                        assert(rr[j] == r[j]);
                    }
                }
            },
            None => {},
        }
    }
}

/// When the listing holds no template twice, no template appears twice among the
/// search results.
pub proof fn law_search_results_distinct(list: Seq<TemplateView>, q: Seq<char>)
    requires
        list.no_duplicates(),
    ensures
        forall|i: int, j: int| 0 <= i < search_results(list, q).len() && 0 <= j < search_results(list, q).len()
            && i != j ==> (#[trigger] search_results(list, q)[i]).0 != (#[trigger] search_results(list, q)[j]).0,
{
    broadcast use vstd::multiset::group_multiset_axioms;

    let w = scored(list, q);
    let res = search_results(list, q);
    lemma_scored_distinct(list, q);
    lemma_strip_sort_multiset(w);
    strip_keys(w).lemma_multiset_has_no_duplicates();
    res.lemma_multiset_has_no_duplicates_conv();
    law_search_results_are_matches(list, q);
    assert forall|i: int, j: int| 0 <= i < res.len() && 0 <= j < res.len() && i != j
        implies (#[trigger] res[i]).0 != (#[trigger] res[j]).0 by {
        if res[i].0 == res[j].0 {
            assert(match_score(res[i].0.name, q) == Some(res[i].1));
            assert(match_score(res[j].0.name, q) == Some(res[j].1));
            assert(res[i] == res[j]);
        }
    }
}

/// The query's alias names a template called `name`, up to normalization.
pub open spec fn alias_hit(name: Seq<char>, q: Seq<char>) -> bool {
    alias_target(normalized(q)) matches Some(a) && normalized(name) == normalized(a)
}

/// A listed template named by the alias of the query is found with score 1000; any
/// other listed template whose normalized name is the normalized query, with score 900.
pub proof fn law_search_alias_and_exact_hits(list: Seq<TemplateView>, q: Seq<char>)
    ensures
        forall|t: TemplateView| #[trigger] list.contains(t) && alias_hit(t.name, q)
            ==> search_results(list, q).contains((t, 1000i64)),
        forall|t: TemplateView| #[trigger] list.contains(t) && !alias_hit(t.name, q)
            && normalized(t.name) == normalized(q) ==> search_results(list, q).contains((t, 900i64)),
{
    law_search_results_are_matches(list, q);
}


/// The entry is a template file lying under the collection directory.
pub open spec fn is_listed_entry(e: WalkEntry) -> bool {
    is_template_file(e) && e.rel_path is Some
}

/// No two template files of the walk share a relative path.
pub open spec fn template_rels_distinct(es: Seq<WalkEntry>) -> bool {
    forall|i: int, j: int|
        0 <= i < j < es.len() && is_listed_entry(#[trigger] es[i]) && is_listed_entry(#[trigger] es[j])
            ==> es[i].rel_path->0@ != es[j].rel_path->0@
}

proof fn lemma_walk_templates_from_entries(root: Seq<char>, es: Seq<WalkEntry>)
    ensures
        forall|k: int| 0 <= k < walk_templates(root, es).len() ==> exists|i: int|
            0 <= i < es.len() && is_listed_entry(#[trigger] es[i])
                && es[i].rel_path->0@ == (#[trigger] walk_templates(root, es)[k]).relative_path,
    decreases es.len(),
{
    if es.len() > 0 {
        let p = es.drop_last();
        lemma_walk_templates_from_entries(root, p);
        let w = walk_templates(root, es);
        let wp = walk_templates(root, p);
        assert forall|k: int| 0 <= k < w.len() implies exists|i: int|
            0 <= i < es.len() && is_listed_entry(#[trigger] es[i])
                && es[i].rel_path->0@ == (#[trigger] w[k]).relative_path by {
            if k < wp.len() {
                assert(w[k] == wp[k]);
                let i = choose|i: int| 0 <= i < p.len() && is_listed_entry(#[trigger] p[i])
                    && p[i].rel_path->0@ == wp[k].relative_path;
                assert(es[i] == p[i]);
            } else {
                let i = es.len() - 1;
                assert(es[i] == es.last());
            }
        }
    }
}

proof fn lemma_walk_templates_distinct(root: Seq<char>, es: Seq<WalkEntry>)
    requires
        template_rels_distinct(es),
    ensures
        walk_templates(root, es).no_duplicates(),
    decreases es.len(),
{
    if es.len() > 0 {
        let p = es.drop_last();
        assert(template_rels_distinct(p)) by {
            assert forall|i: int, j: int|
                0 <= i < j < p.len() && is_listed_entry(#[trigger] p[i]) && is_listed_entry(#[trigger] p[j])
                implies p[i].rel_path->0@ != p[j].rel_path->0@ by {
                assert(p[i] == es[i] && p[j] == es[j]);
            }
        }
        lemma_walk_templates_distinct(root, p);
        lemma_walk_templates_from_entries(root, p);
        let w = walk_templates(root, es);
        let wp = walk_templates(root, p);
        let e = es.last();
        if is_listed_entry(e) {
            let t = template_of(root, e.rel_path->0@);
            assert(w == wp.push(t));
            assert forall|k: int| 0 <= k < wp.len() implies wp[k] != t by {
                let i = choose|i: int| 0 <= i < p.len() && is_listed_entry(#[trigger] p[i])
                    && p[i].rel_path->0@ == (#[trigger] wp[k]).relative_path;
                assert(p[i] == es[i]);
                assert(es[es.len() - 1] == e);
            }
            assert forall|a: int, b: int| 0 <= a < w.len() && 0 <= b < w.len() && a != b implies w[a] != w[b] by {
                if a < wp.len() && b < wp.len() {
                    assert(w[a] == wp[a] && w[b] == wp[b]);
                } else if a < wp.len() {
                    assert(w[a] == wp[a]);
                } else {
                    assert(w[b] == wp[b]);
                }
            }
        } else {
            assert(w == wp);
        }
    }
}

/// When no two template files of the walk share a relative path, each appears once in
/// the listing: the listing holds no record twice.
pub proof fn law_listing_distinct(root: Seq<char>, es: Seq<WalkEntry>)
    requires
        template_rels_distinct(es),
    ensures
        listing(root, es).no_duplicates(),
{
    broadcast use vstd::multiset::group_multiset_axioms;

    lemma_walk_templates_distinct(root, es);
    law_listing_keeps_templates(root, es);
    walk_templates(root, es).lemma_multiset_has_no_duplicates();
    listing(root, es).lemma_multiset_has_no_duplicates_conv();
}

/// For the listing of a walk whose template files have distinct relative paths, no
/// template appears twice among the search results.
pub proof fn law_search_results_distinct_for_scans(root: Seq<char>, es: Seq<WalkEntry>, q: Seq<char>)
    requires
        template_rels_distinct(es),
    ensures
        forall|i: int, j: int| 0 <= i < search_results(listing(root, es), q).len()
            && 0 <= j < search_results(listing(root, es), q).len() && i != j
            ==> (#[trigger] search_results(listing(root, es), q)[i]).0
                != (#[trigger] search_results(listing(root, es), q)[j]).0,
{
    law_listing_distinct(root, es);
    law_search_results_distinct(listing(root, es), q);
}

} // verus!
