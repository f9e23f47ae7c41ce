use ign::cli::{CategoryFilter, ListArgs};
use ign::commands::{top_results, count_by_category, filter_templates, merge_selection, needs_selection, require_templates, SelectionError};
use ign::errors::{code_string, RepoError};
use ign::interactive::{label_to_name, menu_items, menu_label, names_from_labels};
use ign::models::{TemplateCategory, TemplateInfo};
use ign::repo::{is_hidden_or_git, join_path_string, last_segment_of, normalize_string, walk_enters, CollectionScan, GitignoreRepo, WalkEntry};
use ign::sync::{CommandOutcome, SyncAction, SyncEvent, SyncOutcome, SyncStage};

fn file(rel: &str) -> WalkEntry {
    let name = rel.rsplit('/').next().unwrap().to_string();
    WalkEntry {
        rel_path: Some(rel.to_string()),
        file_name: Some(name),
        is_file: true,
    }
}

fn dir(rel: &str) -> WalkEntry {
    let name = rel.rsplit('/').next().unwrap().to_string();
    WalkEntry {
        rel_path: Some(rel.to_string()),
        file_name: Some(name),
        is_file: false,
    }
}

/// The entries a walk of a small mock collection yields.
fn mock_scan() -> CollectionScan {
    CollectionScan {
        root: "/cache/templates".to_string(),
        is_dir: true,
        has_git_dir: true,
        entries: vec![
            dir(""),
            file("Rust.gitignore"),
            file("Python.gitignore"),
            dir("Global"),
            file("Global/macOS.gitignore"),
            file("Global/JetBrains.gitignore"),
            file("Global/Visual_Studio_Code.gitignore"),
            dir("community"),
            dir("community/Rust"),
            file("community/Rust/Bevy.gitignore"),
        ],
    }
}

fn info(name: &str, rel: &str, category: TemplateCategory) -> TemplateInfo {
    TemplateInfo {
        name: name.to_string(),
        path: format!("/t/{}", rel),
        category,
        relative_path: rel.to_string(),
    }
}

#[test]
fn listing_of_a_scanned_collection() {
    let repo = GitignoreRepo::with_templates_dir("/cache/templates".to_string());
    let scan = mock_scan();
    assert!(repo.is_cached(&scan));
    assert_eq!(repo.templates_dir(), "/cache/templates");
    assert_eq!(repo.cache_dir(), "/cache/templates");
    let templates = repo.list_templates(&scan).unwrap();
    let names: Vec<&str> = templates.iter().map(|t| t.name.as_str()).collect();
    assert_eq!(
        names,
        vec!["Python", "Rust", "Global/JetBrains", "Global/macOS", "Global/Visual_Studio_Code", "community/Rust/Bevy"]
    );
    assert_eq!(templates[3].path, "/cache/templates/Global/macOS.gitignore");
    assert_eq!(templates[3].relative_path, "Global/macOS.gitignore");
    assert_eq!(templates[3].category, TemplateCategory::Global);
    assert_eq!(templates[5].category, TemplateCategory::Community);
}

#[test]
fn find_by_alias_name_and_segment() {
    let repo = GitignoreRepo::with_cache_dir("/cache/templates".to_string());
    let scan = mock_scan();
    assert_eq!(repo.find_template(&scan, "macos").unwrap().name, "Global/macOS");
    assert_eq!(repo.find_template(&scan, "vscode").unwrap().name, "Global/Visual_Studio_Code");
    assert_eq!(repo.find_template(&scan, "idea").unwrap().name, "Global/JetBrains");
    assert_eq!(repo.find_template(&scan, "jetbrains").unwrap().name, "Global/JetBrains");
    assert_eq!(repo.find_template(&scan, "rust").unwrap().name, "Rust");
    assert_eq!(repo.find_template(&scan, "  PYTHON ").unwrap().name, "Python");
    assert_eq!(repo.find_template(&scan, "bevy").unwrap().name, "community/Rust/Bevy");
    assert_eq!(repo.find_template(&scan, "Global/Visual-Studio-Code").unwrap().name, "Global/Visual_Studio_Code");
    match repo.find_template(&scan, "zzzzqqq") {
        Err(RepoError::TemplateNotFound { query }) => assert_eq!(query, "zzzzqqq"),
        other => panic!("unexpected {:?}", other),
    }
}

#[test]
fn search_ranks_best_first() {
    let repo = GitignoreRepo::with_templates_dir("/cache/templates".to_string());
    let scan = mock_scan();
    let res = repo.search_templates(&scan, "mac").unwrap();
    assert!(!res.is_empty());
    assert_eq!(res[0].0.name, "Global/macOS");
    assert_eq!(res[0].1, 1000);
    for w in res.windows(2) {
        assert!(w[0].1 >= w[1].1);
    }
    let exact = repo.search_templates(&scan, "python").unwrap();
    assert_eq!(exact[0].0.name, "Python");
    assert_eq!(exact[0].1, 1000);
    let by_name = repo.search_templates(&scan, "Community_Rust_Bevy").unwrap();
    assert_eq!(by_name[0].0.name, "community/Rust/Bevy");
    assert_eq!(by_name[0].1, 900);
}

#[test]
fn fuzzy_scores_come_from_the_matcher() {
    let repo = GitignoreRepo::with_templates_dir("/c".to_string());
    let scan = mock_scan();
    let res = repo.search_templates(&scan, "vsc").unwrap();
    assert_eq!(res[0].0.name, "Global/Visual_Studio_Code");
    assert!(res[0].1 > 0 && res[0].1 < 900);
    let none = repo.search_templates(&scan, "qqqq").unwrap();
    assert!(none.is_empty());
}

#[test]
fn uninitialized_collection_is_reported() {
    let repo = GitignoreRepo::with_templates_dir("/tmp/empty_templates".to_string());
    let empty = CollectionScan { root: "/tmp/empty_templates".to_string(), is_dir: false, has_git_dir: false, entries: vec![] };
    assert!(!repo.is_cached(&empty));
    let err = repo.ensure_cache_ready(&empty).unwrap_err();
    let text = err.message();
    assert!(text.contains("Template library is not initialized or empty"));
    assert!(text.contains("ign template init"));
    assert!(text.contains("ign update"));
    assert!(text.contains("'/tmp/empty_templates'"));
    assert!(repo.list_templates(&empty).unwrap_err().message().contains("Template library is not initialized or empty"));

    let git_only = CollectionScan { root: "/tmp/empty_templates".to_string(), is_dir: true, has_git_dir: true, entries: vec![dir("")] };
    assert!(!repo.is_cached(&git_only));
    let ready = CollectionScan { root: "/tmp/empty_templates".to_string(), is_dir: true, has_git_dir: true, entries: vec![dir(""), file("Rust.gitignore")] };
    assert!(repo.is_cached(&ready));
    assert!(repo.ensure_cache_ready(&ready).is_ok());
    let no_git = CollectionScan { root: "/tmp/empty_templates".to_string(), is_dir: true, has_git_dir: false, entries: vec![file("Rust.gitignore")] };
    assert!(!repo.is_cached(&no_git));
}

#[test]
fn templates_dir_precedence() {
    let s = |x: &str| Some(x.to_string());
    let r = GitignoreRepo::new(s("/a"), s("/b"), s("/h"), s("/c")).unwrap();
    assert_eq!(r.templates_dir(), "/a");
    let r = GitignoreRepo::new(None, s("/b"), s("/h"), s("/c")).unwrap();
    assert_eq!(r.templates_dir(), "/b");
    let r = GitignoreRepo::new(None, None, s("/h"), s("/c")).unwrap();
    assert_eq!(r.templates_dir(), "/h");
    let r = GitignoreRepo::new(None, None, None, s("/c")).unwrap();
    assert_eq!(r.templates_dir(), "/c");
    let r = GitignoreRepo::new(None, None, None, None).unwrap();
    assert_eq!(r.templates_dir(), ".ign/templates");
}

#[test]
fn normalization_and_segments() {
    assert_eq!(normalize_string("  Visual_Studio-Code. "), "visualstudiocode");
    assert_eq!(normalize_string("Global/macOS"), "globalmacos");
    assert_eq!(normalize_string("C++"), "c++");
    assert_eq!(normalize_string("\tRust\n"), "rust");
    assert_eq!(last_segment_of("Global/macOS"), "macOS");
    assert_eq!(last_segment_of("Rust"), "Rust");
    assert_eq!(last_segment_of("a/b/"), "");
    assert!(is_hidden_or_git(Some(".git")));
    assert!(is_hidden_or_git(Some(".github")));
    assert!(!is_hidden_or_git(Some("Global")));
    assert!(!is_hidden_or_git(Some("")));
    assert!(!is_hidden_or_git(None));
}

#[test]
fn categories_and_names() {
    assert_eq!(TemplateCategory::Language.as_str(), "Language");
    assert_eq!(TemplateCategory::Global.as_str(), "Global");
    assert_eq!(TemplateCategory::Community.as_str(), "Community");
    assert_eq!(TemplateCategory::from_relative_path("global/Foo.gitignore"), TemplateCategory::Global);
    assert_eq!(TemplateCategory::from_relative_path("Community\\X\\Y.gitignore"), TemplateCategory::Community);
    assert_eq!(TemplateCategory::from_relative_path("Globals.gitignore"), TemplateCategory::Language);
    assert_eq!(ign::repo::extract_clean_name("Global\\Vim.gitignore"), "Global/Vim");
    assert_eq!(ign::repo::extract_clean_name("README.md"), "README.md");
    assert_eq!(ign::repo::resolve_smart_alias("Visual Studio Code"), Some("Global/Visual_Studio_Code"));
    assert_eq!(ign::repo::resolve_smart_alias("c++"), Some("C++"));
    assert_eq!(ign::repo::resolve_smart_alias("C#"), Some("VisualStudio"));
    assert_eq!(ign::repo::resolve_smart_alias("unknown"), None);
}

#[test]
fn menu_labels_read_back() {
    let t = info("Global/macOS", "Global/macOS.gitignore", TemplateCategory::Global);
    assert_eq!(menu_label(&t), "[Global] Global/macOS");
    assert_eq!(label_to_name(&menu_label(&t)), "Global/macOS");
    assert_eq!(label_to_name("no bracket"), "no bracket");
    assert_eq!(label_to_name("[a] b ] c "), "b ] c");
    let items = menu_items(&vec![t]).unwrap();
    assert_eq!(items, vec!["[Global] Global/macOS".to_string()]);
    assert!(menu_items(&vec![]).is_err());
    assert_eq!(menu_items(&vec![]).unwrap_err().message(), "No templates available to select from");
    assert_eq!(names_from_labels(&items), vec!["Global/macOS".to_string()]);
}

#[test]
fn selection_merging() {
    let v = |xs: &[&str]| xs.iter().map(|s| s.to_string()).collect::<Vec<String>>();
    assert!(needs_selection(&vec![], false));
    assert!(needs_selection(&v(&["rust"]), true));
    assert!(!needs_selection(&v(&["rust"]), false));
    assert_eq!(merge_selection(v(&["rust"]), v(&["macos", "rust", "macos", "go"])).unwrap(), v(&["rust", "macos", "go"]));
    assert_eq!(merge_selection(vec![], vec![]).unwrap_err(), SelectionError::NothingSelected);
    assert_eq!(merge_selection(v(&["a"]), vec![]).unwrap(), v(&["a"]));
    assert_eq!(require_templates(&vec![], true).unwrap_err(), SelectionError::NoTemplatesForAdd);
    assert_eq!(require_templates(&vec![], false).unwrap_err(), SelectionError::NoTemplatesForInit);
    assert!(require_templates(&v(&["x"]), false).is_ok());
    assert_eq!(SelectionError::NothingSelected.message(), "No templates were selected. Operation aborted.");
}

#[test]
fn list_filters_and_counts() {
    let all = vec![
        info("Rust", "Rust.gitignore", TemplateCategory::Language),
        info("Global/macOS", "Global/macOS.gitignore", TemplateCategory::Global),
        info("community/Rust/Bevy", "community/Rust/Bevy.gitignore", TemplateCategory::Community),
    ];
    let by_kw = filter_templates(all.clone(), &ListArgs { category: None, filter: Some("RUST".to_string()) });
    assert_eq!(by_kw.iter().map(|t| t.name.as_str()).collect::<Vec<_>>(), vec!["Rust", "community/Rust/Bevy"]);
    let by_cat = filter_templates(all.clone(), &ListArgs { category: Some(CategoryFilter::Global), filter: None });
    assert_eq!(by_cat.len(), 1);
    assert_eq!(by_cat[0].name, "Global/macOS");
    let both = filter_templates(all.clone(), &ListArgs { category: Some(CategoryFilter::Language), filter: Some("bevy".to_string()) });
    assert!(both.is_empty());
    let none = filter_templates(all.clone(), &ListArgs { category: None, filter: None });
    assert_eq!(none.len(), 3);
    assert_eq!(count_by_category(&all), (1, 1, 1));
    assert_eq!(CategoryFilter::Community.category(), TemplateCategory::Community);
}

fn ran(spawned: bool, success: bool, code: Option<i32>, stderr: &str) -> SyncEvent {
    SyncEvent::Ran(CommandOutcome { spawned, success, code, stderr: stderr.to_string() })
}

#[test]
fn update_falls_back_to_fetch_and_reset() {
    let repo = GitignoreRepo::with_templates_dir("/t".to_string());
    let (mut job, first) = repo.update();
    assert!(matches!(first, SyncAction::CheckGit { announce_init: false }));
    assert!(matches!(job.step(SyncEvent::GitProbed(true)), SyncAction::CheckCached));
    assert!(matches!(job.step(SyncEvent::CacheChecked(true)), SyncAction::Pull));
    assert!(matches!(job.step(ran(true, false, Some(1), "")), SyncAction::Fetch));
    assert!(matches!(job.step(ran(true, true, Some(0), "")), SyncAction::ResetToHead));
    assert!(matches!(job.step(ran(true, false, Some(128), "")), SyncAction::ResetToMain));
    assert!(matches!(job.step(ran(false, false, None, "")), SyncAction::Done(SyncOutcome::Updated)));
    assert_eq!(job.stage, SyncStage::Finished);
}

#[test]
fn update_of_missing_collection_clones() {
    let repo = GitignoreRepo::with_templates_dir("/t".to_string());
    let (mut job, _) = repo.update_repo();
    job.step(SyncEvent::GitProbed(true));
    assert!(matches!(job.step(SyncEvent::CacheChecked(false)), SyncAction::CheckGit { announce_init: true }));
    assert!(matches!(job.step(SyncEvent::GitProbed(true)), SyncAction::PrepareParent));
    assert!(matches!(job.step(SyncEvent::ParentPrepared(None)), SyncAction::ClearIncomplete));
    match job.step(SyncEvent::Cleared) {
        SyncAction::Clone { url } => assert_eq!(url, "https://github.com/github/gitignore.git"),
        other => panic!("unexpected {:?}", other),
    }
    match job.step(ran(true, false, Some(128), "  fatal: unable to access\n")) {
        SyncAction::Fail(e) => {
            assert_eq!(
                e.message(),
                "Failed to clone GitHub gitignore repository (exit code: Some(128)):\nfatal: unable to access\n\nPlease check your network connection or configure a proxy if needed."
            );
        },
        other => panic!("unexpected {:?}", other),
    }
}

#[test]
fn sync_failures() {
    let repo = GitignoreRepo::with_templates_dir("/t".to_string());
    let (mut job, _) = repo.init_repo();
    match job.step(SyncEvent::GitProbed(false)) {
        SyncAction::Fail(e) => assert_eq!(
            e.message(),
            "Git executable was not found on your system. Please install Git and make sure it is in your PATH."
        ),
        other => panic!("unexpected {:?}", other),
    }
    let (mut job, _) = repo.clone_repo();
    job.step(SyncEvent::GitProbed(true));
    match job.step(SyncEvent::ParentPrepared(Some("\"/x\"".to_string()))) {
        SyncAction::Fail(e) => assert_eq!(e.message(), "Failed to create parent directory for templates: \"/x\""),
        other => panic!("unexpected {:?}", other),
    }
    let (mut job, _) = repo.init_repo();
    job.step(SyncEvent::GitProbed(true));
    job.step(SyncEvent::ParentPrepared(None));
    job.step(SyncEvent::Cleared);
    assert!(matches!(job.step(ran(true, true, Some(0), "")), SyncAction::Done(SyncOutcome::Initialized)));
    let (mut job, _) = repo.update();
    job.step(SyncEvent::GitProbed(true));
    job.step(SyncEvent::CacheChecked(true));
    assert!(matches!(job.step(ran(true, true, Some(0), "")), SyncAction::Done(SyncOutcome::UpToDate)));
    let (mut job, _) = repo.update();
    job.step(SyncEvent::GitProbed(true));
    job.step(SyncEvent::CacheChecked(true));
    job.step(ran(true, false, Some(1), ""));
    match job.step(ran(true, false, Some(1), " no route \n")) {
        SyncAction::Fail(e) => assert_eq!(e.message(), "Failed to fetch updates from GitHub gitignore repository:\nno route"),
        other => panic!("unexpected {:?}", other),
    }
    let (mut job, _) = repo.update();
    job.step(SyncEvent::GitProbed(true));
    job.step(SyncEvent::CacheChecked(true));
    assert!(matches!(job.step(ran(false, false, None, "")), SyncAction::Fail(RepoError::PullNotRun)));
}

#[test]
fn error_texts() {
    assert_eq!(code_string(Some(128)), "Some(128)");
    assert_eq!(code_string(Some(0)), "Some(0)");
    assert_eq!(code_string(Some(-2147483648)), "Some(-2147483648)");
    assert_eq!(code_string(None), "None");
    let nf = RepoError::TemplateNotFound { query: "foo".to_string() };
    assert_eq!(nf.message(), "Template 'foo' not found. Run `ign search foo` or `ign list` to view available templates.");
    assert_eq!(RepoError::CloneNotRun.message(), "Failed to execute `git clone` command. Please verify `git` is installed and available in PATH.");
    assert_eq!(RepoError::PullNotRun.message(), "Failed to execute `git pull` in templates directory");
    assert_eq!(RepoError::FetchNotRun.message(), "Failed to execute `git fetch` in templates directory");
    assert_eq!(RepoError::ResetNotRun.message(), "Failed to execute `git reset` in templates directory");
}

#[test]
fn equal_listing_keys_keep_walk_order() {
    let repo = GitignoreRepo::with_templates_dir("/c".to_string());
    let scan = CollectionScan {
        root: "/cache/templates".to_string(),
        is_dir: true,
        has_git_dir: true,
        entries: vec![file("zig.gitignore"), file("rust.gitignore"), file("Global/A.gitignore"), file("Rust.gitignore")],
    };
    let names: Vec<String> = repo.list_templates(&scan).unwrap().into_iter().map(|t| t.name).collect();
    assert_eq!(names, vec!["rust", "Rust", "zig", "Global/A"]);
}

#[test]
fn record_paths_join_the_absolute_root() {
    assert_eq!(join_path_string("/abs/templates", "Global/macOS.gitignore"), "/abs/templates/Global/macOS.gitignore");
    assert_eq!(join_path_string("/abs/templates/", "Rust.gitignore"), "/abs/templates/Rust.gitignore");
    assert_eq!(join_path_string("", "Rust.gitignore"), "Rust.gitignore");
    let repo = GitignoreRepo::with_templates_dir(".ign/templates".to_string());
    let scan = CollectionScan {
        root: "/home/u/.ign/templates".to_string(),
        is_dir: true,
        has_git_dir: true,
        entries: vec![dir(""), file("Rust.gitignore")],
    };
    let listed = repo.list_templates(&scan).unwrap();
    assert_eq!(listed[0].path, "/home/u/.ign/templates/Rust.gitignore");
    let copy = repo.clone();
    assert_eq!(copy.templates_dir(), ".ign/templates");
}

#[test]
fn walk_enters_the_root_even_when_hidden() {
    assert!(walk_enters(0, Some(".templates")));
    assert!(!walk_enters(1, Some(".git")));
    assert!(!walk_enters(2, Some(".hidden")));
    assert!(walk_enters(1, Some("Global")));
    assert!(walk_enters(1, None));
}

#[test]
fn equal_scores_keep_listing_order() {
    let repo = GitignoreRepo::with_templates_dir("/c".to_string());
    let scan = CollectionScan {
        root: "/c".to_string(),
        is_dir: true,
        has_git_dir: true,
        entries: vec![file("Global/macOS.gitignore"), file("Global/mac_OS.gitignore")],
    };
    let res = repo.search_templates(&scan, "macos").unwrap();
    let got: Vec<(&str, i64)> = res.iter().map(|(t, s)| (t.name.as_str(), *s)).collect();
    assert_eq!(got, vec![("Global/mac_OS", 1000), ("Global/macOS", 1000)]);
}

#[test]
fn top_results_keep_the_first_ones() {
    let repo = GitignoreRepo::with_templates_dir("/c".to_string());
    let scan = mock_scan();
    let res = repo.search_templates(&scan, "mac").unwrap();
    let n = res.len();
    let names: Vec<String> = res.iter().map(|(t, _)| t.name.clone()).collect();
    let one = top_results(repo.search_templates(&scan, "mac").unwrap(), 1);
    assert_eq!(one.len(), 1);
    assert_eq!(one[0].0.name, names[0]);
    let all = top_results(res, 100);
    assert_eq!(all.len(), n);
    assert!(top_results(Vec::new(), 3).is_empty());
    let none = top_results(repo.search_templates(&scan, "mac").unwrap(), 0);
    assert!(none.is_empty());
}
