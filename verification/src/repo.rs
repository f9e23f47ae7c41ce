//! Template lookup: names, aliases, listing, fuzzy search and resolution.

use vstd::prelude::*;

use crate::models::{category_of_path, category_rank, TemplateCategory, TemplateInfo, TemplateView};
use crate::errors::RepoError;
use crate::fuzzy::{fuzzy_score, skim_score};
use crate::sorting::{keyed_view, sort_by_key, sort_stable, Keyed, SortKey};
use crate::text::{all_ascii, ascii_lowercase, lemma_trimmed_ascii, push_char, chars_of, ends_with, has_suffix, replace_char, replace_chars, str_eq, string_of, to_lowercase, trim_chars, trimmed, unicode_lowercase};

verus! {

/// Characters that name comparison ignores.
pub open spec fn is_separator(c: char) -> bool {
    c == '_' || c == '-' || c == ' ' || c == '.' || c == '/'
}

/// `s` without the characters that name comparison ignores.
pub open spec fn drop_separators(s: Seq<char>) -> Seq<char>
    decreases s.len(),
{
    if s.len() == 0 {
        s
    } else if is_separator(s.last()) {
        drop_separators(s.drop_last())
    } else {
        drop_separators(s.drop_last()).push(s.last())
    }
}

/// The form in which names are compared: trimmed, lowercased, without separators.
pub open spec fn normalized(s: Seq<char>) -> Seq<char> {
    drop_separators(unicode_lowercase(trimmed(s)))
}

/// The normalized form of ASCII text, where lowercasing is the ASCII mapping.
pub open spec fn ascii_normalized(s: Seq<char>) -> Seq<char> {
    drop_separators(ascii_lowercase(trimmed(s)))
}

/// Template name that a normalized shorthand stands for.
pub open spec fn alias_target(n: Seq<char>) -> Option<Seq<char>> {
    if n == "macos"@ || n == "osx"@ || n == "mac"@ || n == "darwin"@ || n == "apple"@ {
        Some("Global/macOS"@)
    } else if n == "vscode"@ || n == "visualstudiocode"@ || n == "vs-code"@ || n == "code"@ {
        Some("Global/Visual_Studio_Code"@)
    } else if n == "idea"@ || n == "intellij"@ || n == "jetbrains"@ || n == "pycharm"@ || n == "clion"@ || n == "webstorm"@ || n == "goland"@ || n == "rider"@ || n == "phpstorm"@ || n == "rubymine"@ {
        Some("Global/JetBrains"@)
    } else if n == "windows"@ || n == "win"@ || n == "win32"@ || n == "win64"@ {
        Some("Global/Windows"@)
    } else if n == "linux"@ {
        Some("Global/Linux"@)
    } else if n == "vim"@ || n == "nvim"@ || n == "neovim"@ {
        Some("Global/Vim"@)
    } else if n == "emacs"@ {
        Some("Global/Emacs"@)
    } else if n == "sublime"@ || n == "sublimetext"@ {
        Some("Global/SublimeText"@)
    } else if n == "eclipse"@ {
        Some("Global/Eclipse"@)
    } else if n == "xcode"@ {
        Some("Global/Xcode"@)
    } else if n == "node"@ || n == "nodejs"@ || n == "npm"@ || n == "yarn"@ || n == "pnpm"@ || n == "bun"@ {
        Some("Node"@)
    } else if n == "python"@ || n == "py"@ || n == "pip"@ || n == "venv"@ || n == "conda"@ {
        Some("Python"@)
    } else if n == "rust"@ || n == "rs"@ || n == "cargo"@ {
        Some("Rust"@)
    } else if n == "go"@ || n == "golang"@ {
        Some("Go"@)
    } else if n == "java"@ || n == "jvm"@ || n == "maven"@ || n == "mvn"@ || n == "gradle"@ {
        Some("Java"@)
    } else if n == "c++"@ || n == "cpp"@ || n == "cplusplus"@ {
        Some("C++"@)
    } else if n == "c"@ {
        Some("C"@)
    } else if n == "c#"@ || n == "csharp"@ || n == "cs"@ || n == "dotnet"@ {
        Some("VisualStudio"@)
    } else if n == "ruby"@ || n == "rb"@ || n == "gem"@ || n == "rails"@ {
        Some("Ruby"@)
    } else if n == "php"@ || n == "composer"@ {
        Some("PHP"@)
    } else if n == "swift"@ {
        Some("Swift"@)
    } else if n == "kotlin"@ || n == "kt"@ {
        Some("Kotlin"@)
    } else if n == "dart"@ || n == "flutter"@ {
        Some("Dart"@)
    } else if n == "android"@ {
        Some("Android"@)
    } else if n == "unity"@ {
        Some("Unity"@)
    } else if n == "unreal"@ || n == "unrealengine"@ || n == "ue4"@ || n == "ue5"@ {
        Some("UnrealEngine"@)
    } else if n == "elixir"@ || n == "ex"@ || n == "phoenix"@ {
        Some("Elixir"@)
    } else if n == "haskell"@ || n == "hs"@ || n == "cabal"@ || n == "stack"@ {
        Some("Haskell"@)
    } else if n == "lua"@ {
        Some("Lua"@)
    } else if n == "r"@ {
        Some("R"@)
    } else if n == "scala"@ || n == "sbt"@ {
        Some("Scala"@)
    } else if n == "tex"@ || n == "latex"@ {
        Some("TeX"@)
    } else if n == "zig"@ {
        Some("Zig"@)
    } else {
        None
    }
}

/// The template name without `.gitignore`, with `\` read as `/`.
pub open spec fn clean_name(rel: Seq<char>) -> Seq<char> {
    let n = replace_char(rel, '\\', '/');
    if has_suffix(n, ".gitignore"@) {
        n.subrange(0, n.len() - 10)
    } else {
        n
    }
}

/// Extract the template name from its relative path, without the `.gitignore` extension.
pub fn extract_clean_name(rel_path: &str) -> (r: String)
    ensures
        r@ == clean_name(rel_path@),
{
    let normalized = replace_chars(&chars_of(rel_path), '\\', '/');
    proof {
        reveal_strlit(".gitignore");
    }
    if ends_with(&normalized, ".gitignore") {
        let mut v: Vec<char> = Vec::new();
        let end = normalized.len() - 10;
        let mut i: usize = 0;
        while i < end
            invariant
                end <= normalized.len(),
                i <= end,
                v@ == normalized@.subrange(0, i as int),
            decreases end - i,
        {
            v.push(normalized[i]);
            i = i + 1;
        }
        string_of(&v)
    } else {
        string_of(&normalized)
    }
}

/// Normalize a name for comparison: trim, lowercase, drop `_ - space . /`.
pub fn normalize_string(s: &str) -> (r: String)
    ensures
        r@ == normalized(s@),
        all_ascii(s@) ==> r@ == ascii_normalized(s@),
{
    let t = string_of(&trim_chars(&chars_of(s)));
    proof {
        lemma_trimmed_ascii(s@);
    }
    let lower = chars_of(to_lowercase(t.as_str()).as_str());
    let mut v: Vec<char> = Vec::new();
    let mut i: usize = 0;
    while i < lower.len()
        invariant
            i <= lower.len(),
            v@ == drop_separators(lower@.subrange(0, i as int)),
        decreases lower.len() - i,
    {
        let c = lower[i];
        assert(lower@.subrange(0, i + 1).drop_last() == lower@.subrange(0, i as int));
        if !(c == '_' || c == '-' || c == ' ' || c == '.' || c == '/') {
            v.push(c);
        }
        i = i + 1;
    }
    assert(lower@.subrange(0, lower.len() as int) == lower@);
    string_of(&v)
}

/// Resolve a popular shorthand to the standard template name.
pub fn resolve_smart_alias(query: &str) -> (r: Option<&'static str>)
    ensures
        match r {
            Some(t) => alias_target(normalized(query@)) == Some(t@),
            None => alias_target(normalized(query@)) is None,
        },
        all_ascii(query@) ==> match r {
            Some(t) => alias_target(ascii_normalized(query@)) == Some(t@),
            None => alias_target(ascii_normalized(query@)) is None,
        },
{
    let norm = normalize_string(query);
    let n = norm.as_str();
    if str_eq(n, "macos") || str_eq(n, "osx") || str_eq(n, "mac") || str_eq(n, "darwin") || str_eq(n, "apple") {
        Some("Global/macOS")
    } else if str_eq(n, "vscode") || str_eq(n, "visualstudiocode") || str_eq(n, "vs-code") || str_eq(n, "code") {
        Some("Global/Visual_Studio_Code")
    } else if str_eq(n, "idea") || str_eq(n, "intellij") || str_eq(n, "jetbrains") || str_eq(n, "pycharm") || str_eq(n, "clion") || str_eq(n, "webstorm") || str_eq(n, "goland") || str_eq(n, "rider") || str_eq(n, "phpstorm") || str_eq(n, "rubymine") {
        Some("Global/JetBrains")
    } else if str_eq(n, "windows") || str_eq(n, "win") || str_eq(n, "win32") || str_eq(n, "win64") {
        Some("Global/Windows")
    } else if str_eq(n, "linux") {
        Some("Global/Linux")
    } else if str_eq(n, "vim") || str_eq(n, "nvim") || str_eq(n, "neovim") {
        Some("Global/Vim")
    } else if str_eq(n, "emacs") {
        Some("Global/Emacs")
    } else if str_eq(n, "sublime") || str_eq(n, "sublimetext") {
        Some("Global/SublimeText")
    } else if str_eq(n, "eclipse") {
        Some("Global/Eclipse")
    } else if str_eq(n, "xcode") {
        Some("Global/Xcode")
    } else if str_eq(n, "node") || str_eq(n, "nodejs") || str_eq(n, "npm") || str_eq(n, "yarn") || str_eq(n, "pnpm") || str_eq(n, "bun") {
        Some("Node")
    } else if str_eq(n, "python") || str_eq(n, "py") || str_eq(n, "pip") || str_eq(n, "venv") || str_eq(n, "conda") {
        Some("Python")
    } else if str_eq(n, "rust") || str_eq(n, "rs") || str_eq(n, "cargo") {
        Some("Rust")
    } else if str_eq(n, "go") || str_eq(n, "golang") {
        Some("Go")
    } else if str_eq(n, "java") || str_eq(n, "jvm") || str_eq(n, "maven") || str_eq(n, "mvn") || str_eq(n, "gradle") {
        Some("Java")
    } else if str_eq(n, "c++") || str_eq(n, "cpp") || str_eq(n, "cplusplus") {
        Some("C++")
    } else if str_eq(n, "c") {
        Some("C")
    } else if str_eq(n, "c#") || str_eq(n, "csharp") || str_eq(n, "cs") || str_eq(n, "dotnet") {
        Some("VisualStudio")
    } else if str_eq(n, "ruby") || str_eq(n, "rb") || str_eq(n, "gem") || str_eq(n, "rails") {
        Some("Ruby")
    } else if str_eq(n, "php") || str_eq(n, "composer") {
        Some("PHP")
    } else if str_eq(n, "swift") {
        Some("Swift")
    } else if str_eq(n, "kotlin") || str_eq(n, "kt") {
        Some("Kotlin")
    } else if str_eq(n, "dart") || str_eq(n, "flutter") {
        Some("Dart")
    } else if str_eq(n, "android") {
        Some("Android")
    } else if str_eq(n, "unity") {
        Some("Unity")
    } else if str_eq(n, "unreal") || str_eq(n, "unrealengine") || str_eq(n, "ue4") || str_eq(n, "ue5") {
        Some("UnrealEngine")
    } else if str_eq(n, "elixir") || str_eq(n, "ex") || str_eq(n, "phoenix") {
        Some("Elixir")
    } else if str_eq(n, "haskell") || str_eq(n, "hs") || str_eq(n, "cabal") || str_eq(n, "stack") {
        Some("Haskell")
    } else if str_eq(n, "lua") {
        Some("Lua")
    } else if str_eq(n, "r") {
        Some("R")
    } else if str_eq(n, "scala") || str_eq(n, "sbt") {
        Some("Scala")
    } else if str_eq(n, "tex") || str_eq(n, "latex") {
        Some("TeX")
    } else if str_eq(n, "zig") {
        Some("Zig")
    } else {
        None
    }
}

/// Whether a directory-walk entry is hidden (its name starts with `.`, `.git` included).
pub fn is_hidden_or_git(file_name: Option<&str>) -> (r: bool)
    ensures
        r == (file_name matches Some(n) && n@.len() > 0 && n@[0] == '.'),
{
    match file_name {
        Some(n) => {
            let v = chars_of(n);
            proof {
                reveal_strlit(".git");
            }
            if v.len() > 0 {
                v[0] == '.' || str_eq(n, ".git")
            } else {
                false
            }
        },
        None => false,
    }
}


/// The characters after the last `/` of `s` (all of `s` when it has none).
pub open spec fn last_segment(s: Seq<char>) -> Seq<char>
    decreases s.len(),
{
    if s.len() == 0 {
        s
    } else if s.last() == '/' {
        Seq::empty()
    } else {
        last_segment(s.drop_last()).push(s.last())
    }
}

/// The last `/`-separated segment of `s`, as `s.split('/').last()` gives it.
pub fn last_segment_of(s: &str) -> (r: String)
    ensures
        r@ == last_segment(s@),
{
    let v = chars_of(s);
    let mut j: usize = v.len();
    assert(v@.take(v.len() as int) == v@);
    assert(v@.skip(v.len() as int) == Seq::<char>::empty());
    while j > 0 && v[j - 1] != '/'
        invariant
            j <= v.len(),
            last_segment(v@) == last_segment(v@.take(j as int)) + v@.skip(j as int),
        decreases j,
    {
        assert(v@.take(j as int).drop_last() == v@.take(j - 1));
        assert(v@.skip(j - 1) == seq![v@[j - 1]] + v@.skip(j as int));
        assert(last_segment(v@.take(j - 1)).push(v@[j - 1]) + v@.skip(j as int)
            == last_segment(v@.take(j - 1)) + v@.skip(j - 1));
        j = j - 1;
    }
    let mut r: Vec<char> = Vec::new();
    let mut k: usize = j;
    while k < v.len()
        invariant
            j <= k <= v.len(),
            r@ == v@.subrange(j as int, k as int),
        decreases v.len() - k,
    {
        r.push(v[k]);
        k = k + 1;
    }
    assert(v@.skip(j as int) == v@.subrange(j as int, v.len() as int));
    string_of(&r)
}

/// Whether a walk of the collection enters an entry at `depth` below the collection
/// directory: the directory itself always, anything below it unless hidden.
pub fn walk_enters(depth: usize, file_name: Option<&str>) -> (r: bool)
    ensures
        r == (depth == 0 || !(file_name matches Some(n) && n@.len() > 0 && n@[0] == '.')),
{
    depth == 0 || !is_hidden_or_git(file_name)
}

/// `rel` appended to `root` with one `/` between them.
pub fn join_path_string(root: &str, rel: &str) -> (r: String)
    ensures
        r@ == join_path(root@, rel@),
{
    let rv = chars_of(root);
    let mut s = String::from_str(root);
    if rv.len() == 0 || rv[rv.len() - 1] == '/' {
        s.append(rel);
    } else {
        push_char(&mut s, '/');
        assert(root@.push('/') == root@ + seq!['/']);
        s.append(rel);
    }
    s
}

/// One entry met while walking the template collection.
pub struct WalkEntry {
    /// Path relative to the collection root, when it lies under it.
    pub rel_path: Option<String>,
    /// Final component of the path, when it is valid UTF-8.
    pub file_name: Option<String>,
    /// The entry is a regular file.
    pub is_file: bool,
}

/// What a look at the template collection on disk found.
pub struct CollectionScan {
    /// The collection directory as an absolute path.
    pub root: String,
    /// The collection path is a directory.
    pub is_dir: bool,
    /// The collection holds a `.git` entry.
    pub has_git_dir: bool,
    /// The entries of a walk of the collection that skips hidden entries below the
    /// collection directory, and their contents.
    pub entries: Vec<WalkEntry>,
}

/// The entry is a file whose name ends with `.gitignore`.
pub open spec fn is_template_file(e: WalkEntry) -> bool {
    &&& e.is_file
    &&& e.file_name matches Some(n)
    &&& has_suffix(n@, ".gitignore"@)
}

/// The collection is ready: a git checkout holding at least one template file.
pub open spec fn scan_is_cached(scan: CollectionScan) -> bool {
    &&& scan.is_dir
    &&& scan.has_git_dir
    &&& exists|i: int| 0 <= i < scan.entries@.len() && is_template_file(#[trigger] scan.entries@[i])
}

/// `rel` appended to `root` with one `/` between them, as `Path::join` does for a
/// relative `rel`.
pub open spec fn join_path(root: Seq<char>, rel: Seq<char>) -> Seq<char> {
    if root.len() == 0 || root.last() == '/' {
        root + rel
    } else {
        root + seq!['/'] + rel
    }
}

/// The record of the template file at `rel` in the collection at `root`.
pub open spec fn template_of(root: Seq<char>, rel: Seq<char>) -> TemplateView {
    TemplateView {
        name: clean_name(rel),
        path: join_path(root, rel),
        category: category_of_path(rel),
        relative_path: rel,
    }
}

/// Listing order: by category, then by lowercased name.
pub open spec fn listing_key(t: TemplateView) -> (int, Seq<char>) {
    (category_rank(t.category), unicode_lowercase(t.name))
}

/// The template files among `es`, in walk order, each with its listing key.
pub open spec fn collect_templates(root: Seq<char>, es: Seq<WalkEntry>) -> Seq<Keyed<TemplateView>>
    decreases es.len(),
{
    if es.len() == 0 {
        Seq::empty()
    } else {
        let r = collect_templates(root, es.drop_last());
        let e = es.last();
        if is_template_file(e) && e.rel_path is Some {
            let t = template_of(root, e.rel_path->0@);
            r.push((listing_key(t), t))
        } else {
            r
        }
    }
}

/// The entries of `s` without their keys.
pub open spec fn strip_keys<V>(s: Seq<Keyed<V>>) -> Seq<V> {
    Seq::new(s.len(), |i: int| s[i].1)
}

/// The templates of a walk, sorted by category and then by lowercased name.
pub open spec fn listing(root: Seq<char>, es: Seq<WalkEntry>) -> Seq<TemplateView> {
    strip_keys(sort_stable(collect_templates(root, es)))
}

/// The records of `v`, each by its view.
pub open spec fn infos_view(v: Seq<TemplateInfo>) -> Seq<TemplateView> {
    Seq::new(v.len(), |i: int| v[i]@)
}

/// Score of a template named `name` for `query`: an alias hit, then an exact
/// normalized hit, then skim's fuzzy score on the whole name, then on its last segment.
pub open spec fn match_score(name: Seq<char>, query: Seq<char>) -> Option<i64> {
    if alias_target(normalized(query)) matches Some(a) && normalized(name) == normalized(a) {
        Some(1000i64)
    } else if normalized(name) == normalized(query) {
        Some(900i64)
    } else if skim_score(name, query) is Some {
        skim_score(name, query)
    } else {
        skim_score(last_segment(name), query)
    }
}

/// The templates of `list` that match `query`, in list order, keyed by descending score.
pub open spec fn scored(list: Seq<TemplateView>, query: Seq<char>) -> Seq<Keyed<(TemplateView, i64)>>
    decreases list.len(),
{
    if list.len() == 0 {
        Seq::empty()
    } else {
        let r = scored(list.drop_last(), query);
        let t = list.last();
        match match_score(t.name, query) {
            Some(sc) => r.push(((-sc, Seq::empty()), (t, sc))),
            None => r,
        }
    }
}

/// Search results: the matching templates by descending score, ties in list order.
pub open spec fn search_results(list: Seq<TemplateView>, query: Seq<char>) -> Seq<(TemplateView, i64)> {
    strip_keys(sort_stable(scored(list, query)))
}

/// The scored records of `v`, each record by its view.
pub open spec fn results_view(v: Seq<(TemplateInfo, i64)>) -> Seq<(TemplateView, i64)> {
    Seq::new(v.len(), |i: int| (v[i].0@, v[i].1))
}

/// The first template of `list` that satisfies `pred`.
pub open spec fn first_where(list: Seq<TemplateView>, pred: spec_fn(TemplateView) -> bool) -> Option<TemplateView>
    decreases list.len(),
{
    if list.len() == 0 {
        None
    } else if pred(list[0]) {
        Some(list[0])
    } else {
        first_where(list.drop_first(), pred)
    }
}

/// The first template whose normalized name is `n`.
pub open spec fn first_named(list: Seq<TemplateView>, n: Seq<char>) -> Option<TemplateView> {
    first_where(list, |t: TemplateView| normalized(t.name) == n)
}

/// The first template whose normalized last name segment is `n`.
pub open spec fn first_based(list: Seq<TemplateView>, n: Seq<char>) -> Option<TemplateView> {
    first_where(list, |t: TemplateView| normalized(last_segment(t.name)) == n)
}

/// The first template named by the alias that `query` stands for, if any.
pub open spec fn first_aliased(list: Seq<TemplateView>, query: Seq<char>) -> Option<TemplateView> {
    match alias_target(normalized(query)) {
        Some(a) => first_named(list, normalized(a)),
        None => None,
    }
}

/// The template that `query` designates in `list`: by alias, by normalized name, by
/// normalized last segment, and finally the best fuzzy result when it scores above 30.
pub open spec fn resolved(list: Seq<TemplateView>, query: Seq<char>) -> Option<TemplateView> {
    let qn = normalized(query);
    if first_aliased(list, query) is Some {
        first_aliased(list, query)
    } else if first_named(list, qn) is Some {
        first_named(list, qn)
    } else if first_based(list, qn) is Some {
        first_based(list, qn)
    } else {
        let res = search_results(list, query);
        if res.len() > 0 && res[0].1 > 30 {
            Some(res[0].0)
        } else {
            None
        }
    }
}

proof fn lemma_first_where(list: Seq<TemplateView>, pred: spec_fn(TemplateView) -> bool, i: int)
    requires
        0 <= i <= list.len(),
        forall|k: int| 0 <= k < i ==> !pred(#[trigger] list[k]),
    ensures
        i < list.len() && pred(list[i]) ==> first_where(list, pred) == Some(list[i]),
        i == list.len() ==> first_where(list, pred) is None,
    decreases i,
{
    if i > 0 {
        let t = list.drop_first();
        assert forall|k: int| 0 <= k < i - 1 implies !pred(#[trigger] t[k]) by {
            assert(t[k] == list[k + 1]);
        }
        lemma_first_where(t, pred, i - 1);
        if i < list.len() {
            assert(t[i - 1] == list[i]);
        }
    }
}

/// Score one template name; `query_norm` and `alias_norm` are the normalized query and
/// the normalized alias target, computed once by the caller.
fn score_name(name: &str, query: &str, query_norm: &String, alias_norm: &Option<String>) -> (r: Option<i64>)
    requires
        query_norm@ == normalized(query@),
        match alias_norm {
            Some(a) => alias_target(normalized(query@)) matches Some(t) && a@ == normalized(t),
            None => alias_target(normalized(query@)) is None,
        },
    ensures
        r == match_score(name@, query@),
{
    let name_norm = normalize_string(name);
    match alias_norm {
        Some(a) => {
            if name_norm == *a {
                return Some(1000);
            }
        },
        None => {},
    }
    if name_norm == *query_norm {
        return Some(900);
    }
    match fuzzy_score(name, query) {
        Some(sc) => Some(sc),
        None => {
            let seg = last_segment_of(name);
            fuzzy_score(seg.as_str(), query)
        },
    }
}

/// The index of the first template whose normalized name (or, with `by_segment`, whose
/// normalized last segment) equals `target`.
fn position_of(list: &Vec<TemplateInfo>, target: &String, by_segment: bool) -> (r: Option<usize>)
    ensures
        !by_segment ==> match r {
            Some(i) => i < list.len() && first_named(infos_view(list@), target@) == Some(list@[i as int]@),
            None => first_named(infos_view(list@), target@) is None,
        },
        by_segment ==> match r {
            Some(i) => i < list.len() && first_based(infos_view(list@), target@) == Some(list@[i as int]@),
            None => first_based(infos_view(list@), target@) is None,
        },
{
    let ghost pred = if by_segment {
        |t: TemplateView| normalized(last_segment(t.name)) == target@
    } else {
        |t: TemplateView| normalized(t.name) == target@
    };
    let ghost lv = infos_view(list@);
    let mut i: usize = 0;
    while i < list.len()
        invariant
            i <= list.len(),
            lv == infos_view(list@),
            pred == (if by_segment {
                |t: TemplateView| normalized(last_segment(t.name)) == target@
            } else {
                |t: TemplateView| normalized(t.name) == target@
            }),
            forall|k: int| 0 <= k < i ==> !pred(#[trigger] lv[k]),
        decreases list.len() - i,
    {
        let n = if by_segment {
            normalize_string(last_segment_of(list[i].name.as_str()).as_str())
        } else {
            normalize_string(list[i].name.as_str())
        };
        if n == *target {
            proof {
                lemma_first_where(lv, pred, i as int);
            }
            return Some(i);
        }
        i = i + 1;
    }
    proof {
        lemma_first_where(lv, pred, i as int);
    }
    None
}

/// Manager of the local copy of the github/gitignore template collection.
#[derive(Debug, Clone)]
pub struct GitignoreRepo {
    templates_dir: String,
}

/// The collection directory that `GitignoreRepo::new` picks: `IGN_TEMPLATES_DIR`, then
/// `IGN_CACHE_DIR`, then the one under `$HOME`, then the one under the platform's
/// configuration directory, then `.ign/templates`.
pub open spec fn chosen_dir(
    templates_env: Option<Seq<char>>,
    cache_env: Option<Seq<char>>,
    home_default: Option<Seq<char>>,
    config_default: Option<Seq<char>>,
) -> Seq<char> {
    if templates_env is Some {
        templates_env->0
    } else if cache_env is Some {
        cache_env->0
    } else if home_default is Some {
        home_default->0
    } else if config_default is Some {
        config_default->0
    } else {
        ".ign/templates"@
    }
}

/// The characters of an optional string.
pub open spec fn opt_chars(o: Option<String>) -> Option<Seq<char>> {
    match o {
        Some(s) => Some(s@),
        None => None,
    }
}

impl GitignoreRepo {
    /// Location of the template collection.
    pub closed spec fn location(&self) -> Seq<char> {
        self.templates_dir@
    }

    /// Pick the collection directory from the environment's candidates, in order of
    /// precedence: `IGN_TEMPLATES_DIR`, `IGN_CACHE_DIR`, `$HOME/.config/ign/templates`,
    /// the configuration directory's `ign/templates`, and `.ign/templates`.
    pub fn new(
        templates_env: Option<String>,
        cache_env: Option<String>,
        home_default: Option<String>,
        config_default: Option<String>,
    ) -> (r: Result<Self, RepoError>)
        ensures
            r matches Ok(repo) && repo.location() == chosen_dir(
                opt_chars(templates_env),
                opt_chars(cache_env),
                opt_chars(home_default),
                opt_chars(config_default),
            ),
    {
        let templates_dir = match templates_env {
            Some(d) => d,
            None => match cache_env {
                Some(d) => d,
                None => match home_default {
                    Some(d) => d,
                    None => match config_default {
                        Some(d) => d,
                        None => String::from_str(".ign/templates"),
                    },
                },
            },
        };
        Ok(GitignoreRepo { templates_dir })
    }

    /// A manager for the collection at `path`.
    pub fn with_templates_dir(path: String) -> (r: Self)
        ensures
            r.location() == path@,
    {
        GitignoreRepo { templates_dir: path }
    }

    /// Same as `with_templates_dir`.
    pub fn with_cache_dir(path: String) -> (r: Self)
        ensures
            r.location() == path@,
    {
        Self::with_templates_dir(path)
    }

    /// The collection directory.
    pub fn templates_dir(&self) -> (r: &str)
        ensures
            r@ == self.location(),
    {
        self.templates_dir.as_str()
    }

    /// Same as `templates_dir`.
    pub fn cache_dir(&self) -> (r: &str)
        ensures
            r@ == self.location(),
    {
        self.templates_dir()
    }

    /// Whether the collection is a git checkout holding at least one template file.
    pub fn is_cached(&self, scan: &CollectionScan) -> (r: bool)
        ensures
            r == scan_is_cached(*scan),
    {
        if !scan.is_dir || !scan.has_git_dir {
            return false;
        }
        proof {
            reveal_strlit(".gitignore");
        }
        let mut i: usize = 0;
        while i < scan.entries.len()
            invariant
                scan.is_dir && scan.has_git_dir,
                i <= scan.entries.len(),
                forall|k: int| 0 <= k < i ==> !is_template_file(#[trigger] scan.entries@[k]),
            decreases scan.entries.len() - i,
        {
            let e = &scan.entries[i];
            if e.is_file {
                match &e.file_name {
                    Some(n) => {
                        if ends_with(&chars_of(n.as_str()), ".gitignore") {
                            assert(is_template_file(scan.entries@[i as int]));
                            return true;
                        }
                    },
                    None => {},
                }
            }
            i = i + 1;
        }
        false
    }

    /// Succeeds exactly when the collection is ready; otherwise names its directory.
    pub fn ensure_cache_ready(&self, scan: &CollectionScan) -> (r: Result<(), RepoError>)
        ensures
            scan_is_cached(*scan) <==> r is Ok,
            r matches Err(e) ==> e matches RepoError::NotInitialized { dir } && dir@ == self.location(),
    {
        if !self.is_cached(scan) {
            return Err(RepoError::NotInitialized { dir: self.templates_dir.clone() });
        }
        Ok(())
    }

    /// All templates of the collection, sorted by category and then by lowercased name.
    pub fn list_templates(&self, scan: &CollectionScan) -> (r: Result<Vec<TemplateInfo>, RepoError>)
        ensures
            scan_is_cached(*scan) <==> r is Ok,
            r matches Err(e) ==> e matches RepoError::NotInitialized { dir } && dir@ == self.location(),
            r matches Ok(v) ==> infos_view(v@) == listing(scan.root@, scan.entries@),
    {
        self.ensure_cache_ready(scan)?;
        let entries = &scan.entries;
        let mut keyed: Vec<(SortKey, TemplateInfo)> = Vec::new();
        let mut i: usize = 0;
        proof {
            reveal_strlit(".gitignore");
        }
        assert(entries@.take(0) == Seq::<WalkEntry>::empty());
        while i < entries.len()
            invariant
                i <= entries.len(),
                keyed_view(keyed@) == collect_templates(scan.root@, entries@.take(i as int)),
            decreases entries.len() - i,
        {
            let e = &entries[i];
            assert(entries@.take(i + 1).drop_last() == entries@.take(i as int));
            assert(entries@.take(i + 1).last() == *e);
            if e.is_file {
                match (&e.file_name, &e.rel_path) {
                    (Some(n), Some(rel)) => {
                        if ends_with(&chars_of(n.as_str()), ".gitignore") {
                            let name = extract_clean_name(rel.as_str());
                            let category = TemplateCategory::from_relative_path(rel.as_str());
                            let lower = chars_of(to_lowercase(name.as_str()).as_str());
                            let key = SortKey { rank: category.rank() as i128, text: lower };
                            let info = TemplateInfo {
                                name: name,
                                path: join_path_string(scan.root.as_str(), rel.as_str()),
                                category: category,
                                relative_path: rel.clone(),
                            };
                            let ghost before = keyed@;
                            keyed.push((key, info));
                            assert(keyed_view(keyed@) == keyed_view(before).push(keyed_view(keyed@).last()));
                        }
                    },
                    _ => {},
                }
            }
            i = i + 1;
        }
        assert(entries@.take(entries.len() as int) == entries@);
        let mut sorted = sort_by_key(keyed);
        let ghost sv = keyed_view(sorted@);
        let mut out: Vec<TemplateInfo> = Vec::new();
        let n = sorted.len();
        while out.len() < n
            invariant
                out.len() + sorted.len() == n,
                sv.len() == n,
                keyed_view(sorted@) == sv.skip(out.len() as int),
                infos_view(out@) == strip_keys(sv).take(out.len() as int),
            decreases n - out.len(),
        {
            let ghost before_sorted = sorted@;
            let ghost before_out = out@;
            let (_, t) = sorted.remove(0);
            assert(keyed_view(before_sorted)[0] == sv[before_out.len() as int]);
            assert(keyed_view(sorted@) =~= keyed_view(before_sorted).drop_first());
            assert(sv.skip(before_out.len() as int).drop_first() =~= sv.skip(before_out.len() as int + 1));
            out.push(t);
            assert(infos_view(out@) =~= strip_keys(sv).take(out.len() as int));
        }
        assert(strip_keys(sv).take(n as int) =~= strip_keys(sv));
        Ok(out)
    }

    /// Templates matching `query`, best score first; equal scores keep listing order.
    pub fn search_templates(&self, scan: &CollectionScan, query: &str) -> (r: Result<Vec<(TemplateInfo, i64)>, RepoError>)
        ensures
            scan_is_cached(*scan) <==> r is Ok,
            r matches Err(e) ==> e matches RepoError::NotInitialized { dir } && dir@ == self.location(),
            r matches Ok(v) ==> results_view(v@) == search_results(listing(scan.root@, scan.entries@), query@),
    {
        let all = self.list_templates(scan)?;
        let ghost lv = infos_view(all@);
        let query_norm = normalize_string(query);
        let alias_norm = match resolve_smart_alias(query) {
            Some(a) => Some(normalize_string(a)),
            None => None,
        };
        let mut rest = all;
        let n = rest.len();
        let mut keyed: Vec<(SortKey, (TemplateInfo, i64))> = Vec::new();
        assert(lv.take(0) == Seq::<TemplateView>::empty());
        while rest.len() > 0
            invariant
                n == lv.len(),
                rest.len() <= n,
                infos_view(rest@) == lv.skip(n - rest.len()),
                keyed_view(keyed@) == scored(lv.take(n - rest.len()), query@),
                query_norm@ == normalized(query@),
                match alias_norm {
                    Some(a) => alias_target(normalized(query@)) matches Some(t) && a@ == normalized(t),
                    None => alias_target(normalized(query@)) is None,
                },
            decreases rest.len(),
        {
            let ghost done = (n - rest.len()) as int;
            let ghost before_rest = rest@;
            let t = rest.remove(0);
            assert(infos_view(before_rest)[0] == lv[done]);
            assert(infos_view(rest@) =~= infos_view(before_rest).drop_first());
            assert(lv.skip(done).drop_first() =~= lv.skip(done + 1));
            assert(lv.take(done + 1).drop_last() == lv.take(done));
            assert(lv.take(done + 1).last() == t@);
            let sc = score_name(t.name.as_str(), query, &query_norm, &alias_norm);
            match sc {
                Some(v) => {
                    let key = SortKey { rank: -(v as i128), text: Vec::new() };
                    let ghost before = keyed@;
                    keyed.push((key, (t, v)));
                    assert(keyed_view(keyed@) =~= keyed_view(before).push(((-v as int, Seq::<char>::empty()), (lv[done], v))));
                },
                None => {},
            }
        }
        assert(lv.take(n as int) == lv);
        let mut sorted = sort_by_key(keyed);
        let ghost sv = keyed_view(sorted@);
        let mut out: Vec<(TemplateInfo, i64)> = Vec::new();
        let m = sorted.len();
        while out.len() < m
            invariant
                out.len() + sorted.len() == m,
                sv.len() == m,
                keyed_view(sorted@) == sv.skip(out.len() as int),
                results_view(out@) == strip_keys(sv).take(out.len() as int),
            decreases m - out.len(),
        {
            let ghost before_sorted = sorted@;
            let ghost before_out = out@;
            let (_, item) = sorted.remove(0);
            assert(keyed_view(before_sorted)[0] == sv[before_out.len() as int]);
            assert(keyed_view(sorted@) =~= keyed_view(before_sorted).drop_first());
            assert(sv.skip(before_out.len() as int).drop_first() =~= sv.skip(before_out.len() as int + 1));
            out.push(item);
            assert(results_view(out@) =~= strip_keys(sv).take(out.len() as int));
        }
        assert(strip_keys(sv).take(m as int) =~= strip_keys(sv));
        Ok(out)
    }

    /// The template that `query` designates: by alias, by normalized name, by normalized
    /// last segment, and finally by fuzzy search when the best score is above 30.
    pub fn find_template(&self, scan: &CollectionScan, query: &str) -> (r: Result<TemplateInfo, RepoError>)
        ensures
            !scan_is_cached(*scan) ==> (r matches Err(e) && e matches RepoError::NotInitialized { dir }
                && dir@ == self.location()),
            scan_is_cached(*scan) ==> match resolved(listing(scan.root@, scan.entries@), query@) {
                Some(t) => (r matches Ok(info) && info@ == t),
                None => (r matches Err(e) && e matches RepoError::TemplateNotFound { query: q } && q@ == query@),
            },
    {
        let all = self.list_templates(scan)?;
        let query_norm = normalize_string(query);
        match resolve_smart_alias(query) {
            Some(a) => {
                let alias_norm = normalize_string(a);
                match position_of(&all, &alias_norm, false) {
                    Some(i) => return Ok(all[i].clone()),
                    None => {},
                }
            },
            None => {},
        }
        match position_of(&all, &query_norm, false) {
            Some(i) => return Ok(all[i].clone()),
            None => {},
        }
        match position_of(&all, &query_norm, true) {
            Some(i) => return Ok(all[i].clone()),
            None => {},
        }
        let results = self.search_templates(scan, query)?;
        if results.len() > 0 && results[0].1 > 30 {
            assert(results_view(results@)[0] == (results@[0].0@, results@[0].1));
            return Ok(results[0].0.clone());
        }
        Err(RepoError::TemplateNotFound { query: String::from_str(query) })
    }
}

} // verus!
