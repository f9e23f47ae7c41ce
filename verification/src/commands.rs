//! Decisions the subcommands make on plain data: which templates `list` shows, how
//! picked templates join the named ones, and how many templates each category holds.

use vstd::prelude::*;

use crate::cli::{filter_category, CategoryFilter, ListArgs};
use crate::models::{TemplateCategory, TemplateInfo, TemplateView};
use crate::repo::{infos_view, results_view};
use crate::text::{chars_of, contains_chars, has_infix, to_lowercase, unicode_lowercase};

verus! {

/// The characters of each string of `v`.
pub open spec fn strings_view(v: Seq<String>) -> Seq<Seq<char>> {
    Seq::new(v.len(), |i: int| v[i]@)
}

/// `t`'s name or relative path contains `kw` once lowercased.
pub open spec fn keyword_hit(t: TemplateView, kw: Seq<char>) -> bool {
    has_infix(unicode_lowercase(t.name), kw) || has_infix(unicode_lowercase(t.relative_path), kw)
}

/// `list` shows `t`: it is in the chosen category and holds the lowercased keyword.
pub open spec fn list_keeps(t: TemplateView, category: Option<CategoryFilter>, keyword: Option<Seq<char>>) -> bool {
    &&& category matches Some(c) ==> t.category == filter_category(c)
    &&& keyword matches Some(k) ==> keyword_hit(t, unicode_lowercase(k))
}

/// The templates of `list` that `list` shows, in order.
pub open spec fn list_filtered(
    list: Seq<TemplateView>,
    category: Option<CategoryFilter>,
    keyword: Option<Seq<char>>,
) -> Seq<TemplateView>
    decreases list.len(),
{
    if list.len() == 0 {
        list
    } else {
        let r = list_filtered(list.drop_last(), category, keyword);
        if list_keeps(list.last(), category, keyword) {
            r.push(list.last())
        } else {
            r
        }
    }
}

/// The keyword of `list`'s arguments.
pub open spec fn filter_keyword(args: ListArgs) -> Option<Seq<char>> {
    match args.filter {
        Some(k) => Some(k@),
        None => None,
    }
}

/// Keep the templates that `list` shows for `args`: those of the chosen category whose
/// lowercased name or relative path contains the lowercased keyword.
pub fn filter_templates(templates: Vec<TemplateInfo>, args: &ListArgs) -> (r: Vec<TemplateInfo>)
    ensures
        infos_view(r@) == list_filtered(infos_view(templates@), args.category, filter_keyword(*args)),
{
    let ghost lv = infos_view(templates@);
    let keyword: Option<Vec<char>> = match &args.filter {
        Some(k) => Some(chars_of(to_lowercase(k.as_str()).as_str())),
        None => None,
    };
    let mut rest = templates;
    let n = rest.len();
    let mut out: Vec<TemplateInfo> = Vec::new();
    assert(lv.take(0) == Seq::<TemplateView>::empty());
    while rest.len() > 0
        invariant
            n == lv.len(),
            rest.len() <= n,
            infos_view(rest@) == lv.skip(n - rest.len()),
            infos_view(out@) == list_filtered(lv.take(n - rest.len()), args.category, filter_keyword(*args)),
            match keyword {
                Some(k) => filter_keyword(*args) matches Some(f) && k@ == unicode_lowercase(f),
                None => filter_keyword(*args) is None,
            },
        decreases rest.len(),
    {
        let ghost done = (n - rest.len()) as int;
        let ghost before_rest = rest@;
        let t = rest.remove(0);
        assert(infos_view(before_rest)[0] == lv[done]);
        assert(infos_view(rest@) =~= infos_view(before_rest).drop_first());
        assert(lv.skip(done).drop_first() =~= lv.skip(done + 1));
        assert(lv.take(done + 1).drop_last() == lv.take(done));
        assert(lv.take(done + 1).last() == t@);
        let in_category = match args.category {
            Some(c) => t.category == c.category(),
            None => true,
        };
        let has_keyword = match &keyword {
            Some(k) => {
                contains_chars(&chars_of(to_lowercase(t.name.as_str()).as_str()), k) || contains_chars(
                    &chars_of(to_lowercase(t.relative_path.as_str()).as_str()),
                    k,
                )
            },
            None => true,
        };
        if in_category && has_keyword {
            let ghost before = out@;
            out.push(t);
            assert(infos_view(out@) =~= infos_view(before).push(lv[done]));
        }
    }
    assert(lv.take(n as int) == lv);
    out
}

/// The number of templates of `list` in category `c`.
pub open spec fn count_in(list: Seq<TemplateView>, c: TemplateCategory) -> nat
    decreases list.len(),
{
    if list.len() == 0 {
        0
    } else {
        count_in(list.drop_last(), c) + if list.last().category == c { 1nat } else { 0nat }
    }
}

/// How many templates of each category `templates` holds: language, global, community.
pub fn count_by_category(templates: &Vec<TemplateInfo>) -> (r: (usize, usize, usize))
    ensures
        r.0 == count_in(infos_view(templates@), TemplateCategory::Language),
        r.1 == count_in(infos_view(templates@), TemplateCategory::Global),
        r.2 == count_in(infos_view(templates@), TemplateCategory::Community),
{
    let ghost lv = infos_view(templates@);
    let mut language: usize = 0;
    let mut global: usize = 0;
    let mut community: usize = 0;
    let mut i: usize = 0;
    assert(lv.take(0) == Seq::<TemplateView>::empty());
    while i < templates.len()
        invariant
            lv == infos_view(templates@),
            i <= templates.len(),
            language + global + community == i,
            language == count_in(lv.take(i as int), TemplateCategory::Language),
            global == count_in(lv.take(i as int), TemplateCategory::Global),
            community == count_in(lv.take(i as int), TemplateCategory::Community),
        decreases templates.len() - i,
    {
        assert(lv.take(i + 1).drop_last() == lv.take(i as int));
        assert(lv.take(i + 1).last() == templates@[i as int]@);
        match templates[i].category {
            TemplateCategory::Language => language = language + 1,
            TemplateCategory::Global => global = global + 1,
            TemplateCategory::Community => community = community + 1,
        }
        i = i + 1;
    }
    assert(lv.take(templates.len() as int) == lv);
    (language, global, community)
}

/// Why no templates are at hand.
#[derive(Debug, Clone, Copy, PartialEq, Eq, Structural)]
pub enum SelectionError {
    /// The interactive menu returned nothing and no name was given.
    NothingSelected,
    /// `init` was given no template.
    NoTemplatesForInit,
    /// `add` was given no template.
    NoTemplatesForAdd,
}

/// The text a selection error is reported with.
pub open spec fn selection_error_text(e: SelectionError) -> Seq<char> {
    match e {
        SelectionError::NothingSelected => "No templates were selected. Operation aborted."@,
        SelectionError::NoTemplatesForInit =>
            "No templates specified. Provide template names (e.g. `ign init rust macos`) or use `--interactive`."@,
        SelectionError::NoTemplatesForAdd =>
            "No templates specified. Run `ign add <TEMPLATE>...` or `ign add -i`."@,
    }
}

impl SelectionError {
    /// The text this error is reported with.
    pub fn message(&self) -> (r: String)
        ensures
            r@ == selection_error_text(*self),
    {
        match self {
            SelectionError::NothingSelected => String::from_str("No templates were selected. Operation aborted."),
            SelectionError::NoTemplatesForInit => String::from_str(
                "No templates specified. Provide template names (e.g. `ign init rust macos`) or use `--interactive`.",
            ),
            SelectionError::NoTemplatesForAdd => String::from_str(
                "No templates specified. Run `ign add <TEMPLATE>...` or `ign add -i`.",
            ),
        }
    }
}

/// Whether the interactive menu is shown: no name was given, or it was asked for.
pub fn needs_selection(names: &Vec<String>, interactive: bool) -> (r: bool)
    ensures
        r == (names.len() == 0 || interactive),
{
    names.len() == 0 || interactive
}

/// `names` followed by each picked name that is not already there, in pick order.
pub open spec fn merged(names: Seq<Seq<char>>, selected: Seq<Seq<char>>) -> Seq<Seq<char>>
    decreases selected.len(),
{
    if selected.len() == 0 {
        names
    } else {
        let m = merged(names, selected.drop_last());
        if m.contains(selected.last()) {
            m
        } else {
            m.push(selected.last())
        }
    }
}

/// Whether `v` holds a string equal to `s`.
fn holds(v: &Vec<String>, s: &String) -> (r: bool)
    ensures
        r == strings_view(v@).contains(s@),
{
    let mut i: usize = 0;
    while i < v.len()
        invariant
            i <= v.len(),
            forall|k: int| 0 <= k < i ==> v@[k]@ != s@,
        decreases v.len() - i,
    {
        if v[i] == *s {
            assert(strings_view(v@)[i as int] == s@);
            return true;
        }
        i = i + 1;
    }
    assert forall|k: int| 0 <= k < strings_view(v@).len() implies strings_view(v@)[k] != s@ by {
        assert(strings_view(v@)[k] == v@[k]@);
    }
    false
}

/// Join the names picked in the menu to the given ones, skipping names already present;
/// fails when neither gave any name.
pub fn merge_selection(names: Vec<String>, selected: Vec<String>) -> (r: Result<Vec<String>, SelectionError>)
    ensures
        r is Err <==> (names.len() == 0 && selected.len() == 0),
        r matches Err(e) ==> e == SelectionError::NothingSelected,
        r matches Ok(v) ==> strings_view(v@) == merged(strings_view(names@), strings_view(selected@)),
{
    if selected.len() == 0 && names.len() == 0 {
        return Err(SelectionError::NothingSelected);
    }
    let ghost nv = strings_view(names@);
    let ghost sv = strings_view(selected@);
    let mut out = names;
    let mut rest = selected;
    let n = rest.len();
    assert(sv.take(0) == Seq::<Seq<char>>::empty());
    while rest.len() > 0
        invariant
            n == sv.len(),
            rest.len() <= n,
            strings_view(rest@) == sv.skip(n - rest.len()),
            strings_view(out@) == merged(nv, sv.take(n - rest.len())),
        decreases rest.len(),
    {
        let ghost done = (n - rest.len()) as int;
        let ghost before_rest = rest@;
        let s = rest.remove(0);
        assert(strings_view(before_rest)[0] == sv[done]);
        assert(strings_view(rest@) =~= strings_view(before_rest).drop_first());
        assert(sv.skip(done).drop_first() =~= sv.skip(done + 1));
        assert(sv.take(done + 1).drop_last() == sv.take(done));
        assert(sv.take(done + 1).last() == s@);
        if !holds(&out, &s) {
            let ghost before = out@;
            out.push(s);
            assert(strings_view(out@) =~= strings_view(before).push(sv[done]));
        }
    }
    assert(sv.take(n as int) == sv);
    Ok(out)
}

/// Fails when, after any menu, no template name is at hand.
pub fn require_templates(names: &Vec<String>, for_add: bool) -> (r: Result<(), SelectionError>)
    ensures
        r is Err <==> names.len() == 0,
        r matches Err(e) ==> e == (if for_add {
            SelectionError::NoTemplatesForAdd
        } else {
            SelectionError::NoTemplatesForInit
        }),
{
    if names.len() == 0 {
        if for_add {
            Err(SelectionError::NoTemplatesForAdd)
        } else {
            Err(SelectionError::NoTemplatesForInit)
        }
    } else {
        Ok(())
    }
}


/// The first `limit` search results, or all of them when there are fewer.
pub fn top_results(results: Vec<(TemplateInfo, i64)>, limit: usize) -> (r: Vec<(TemplateInfo, i64)>)
    ensures
        results_view(r@) == results_view(results@).take(
            if limit < results.len() { limit as int } else { results.len() as int },
        ),
{
    let n = results.len();
    let ghost before = results@;
    let mut out = results;
    out.truncate(limit);
    assert(results_view(out@) =~= results_view(before).take(
        if limit < n { limit as int } else { n as int },
    ));
    out
}

} // verus!
