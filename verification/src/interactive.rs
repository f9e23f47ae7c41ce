//! The entries of the interactive template menu and the names read back from them.

use vstd::prelude::*;

use crate::commands::strings_view;
use crate::models::{category_name, TemplateInfo, TemplateView};
use crate::text::{chars_of, find_char, first_index_of, string_of, trim_chars, trimmed};

verus! {

/// The menu entry of a template: `[Category] Name`.
pub open spec fn label_text(t: TemplateView) -> Seq<char> {
    "["@ + category_name(t.category) + "] "@ + t.name
}

/// The template name read back from a menu entry: the trimmed text after the first `]`,
/// or the whole entry when it has none.
pub open spec fn label_name(item: Seq<char>) -> Seq<char> {
    match first_index_of(item, ']') {
        Some(p) => trimmed(item.subrange(p + 1, item.len() as int)),
        None => item,
    }
}

/// Why the menu cannot be shown.
#[derive(Debug, Clone, Copy, PartialEq, Eq, Structural)]
pub enum MenuError {
    /// There is no template to pick from.
    NoTemplates,
}

/// The text a menu error is reported with.
pub open spec fn menu_error_text(e: MenuError) -> Seq<char> {
    "No templates available to select from"@
}

impl MenuError {
    /// The text this error is reported with.
    pub fn message(&self) -> (r: String)
        ensures
            r@ == menu_error_text(*self),
    {
        String::from_str("No templates available to select from")
    }
}

/// The menu entry of a template.
pub fn menu_label(t: &TemplateInfo) -> (r: String)
    ensures
        r@ == label_text(t@),
{
    let mut s = String::from_str("[");
    s.append(t.category.as_str());
    s.append("] ");
    s.append(t.name.as_str());
    s
}

/// The template name read back from a menu entry.
pub fn label_to_name(item: &str) -> (r: String)
    ensures
        r@ == label_name(item@),
{
    let v = chars_of(item);
    match find_char(&v, ']') {
        Some(p) => {
            let mut rest: Vec<char> = Vec::new();
            let mut k: usize = p + 1;
            while k < v.len()
                invariant
                    p < v.len(),
                    p + 1 <= k <= v.len(),
                    rest@ == v@.subrange(p + 1, k as int),
                decreases v.len() - k,
            {
                rest.push(v[k]);
                k = k + 1;
            }
            string_of(&trim_chars(&rest))
        },
        None => String::from_str(item),
    }
}

/// The menu entries for `templates`, in order; there must be at least one template.
pub fn menu_items(templates: &Vec<TemplateInfo>) -> (r: Result<Vec<String>, MenuError>)
    ensures
        r is Err <==> templates.len() == 0,
        r matches Ok(items) ==> strings_view(items@) == Seq::new(
            templates.len() as nat,
            |i: int| label_text(templates@[i]@),
        ),
{
    if templates.len() == 0 {
        return Err(MenuError::NoTemplates);
    }
    let mut items: Vec<String> = Vec::new();
    let mut i: usize = 0;
    while i < templates.len()
        invariant
            i <= templates.len(),
            strings_view(items@) == Seq::new(i as nat, |k: int| label_text(templates@[k]@)),
        decreases templates.len() - i,
    {
        let label = menu_label(&templates[i]);
        let ghost before = items@;
        items.push(label);
        assert(strings_view(items@) =~= strings_view(before).push(label_text(templates@[i as int]@)));
        assert(strings_view(items@) =~= Seq::new((i + 1) as nat, |k: int| label_text(templates@[k]@)));
        i = i + 1;
    }
    Ok(items)
}

/// The template names read back from the picked menu entries, in order.
pub fn names_from_labels(selected: &Vec<String>) -> (r: Vec<String>)
    ensures
        strings_view(r@) == Seq::new(selected.len() as nat, |i: int| label_name(selected@[i]@)),
{
    let mut names: Vec<String> = Vec::new();
    let mut i: usize = 0;
    while i < selected.len()
        invariant
            i <= selected.len(),
            strings_view(names@) == Seq::new(i as nat, |k: int| label_name(selected@[k]@)),
        decreases selected.len() - i,
    {
        let name = label_to_name(selected[i].as_str());
        let ghost before = names@;
        names.push(name);
        assert(strings_view(names@) =~= strings_view(before).push(label_name(selected@[i as int]@)));
        assert(strings_view(names@) =~= Seq::new((i + 1) as nat, |k: int| label_name(selected@[k]@)));
        i = i + 1;
    }
    names
}

} // verus!
