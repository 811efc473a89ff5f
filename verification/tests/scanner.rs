use dotwell::config::{Compiler, DotfileEntry, Format};
use dotwell::installer::install_command;
use dotwell::scanner::{
    descriptor_file_name, is_skipped, system_root, DotfileScanner, ScanReply, ScanRequest,
    Subdirectory,
};
use std::path::PathBuf;

struct FakeDir {
    path: &'static str,
    toml: Option<Option<&'static str>>,
    json: Option<Option<&'static str>>,
    subdirs: Vec<&'static str>,
}

fn dir(path: &'static str, subdirs: &[&'static str]) -> FakeDir {
    FakeDir { path, toml: None, json: None, subdirs: subdirs.to_vec() }
}

fn lookup<'a>(dirs: &'a [FakeDir], path: &PathBuf) -> Option<&'a FakeDir> {
    dirs.iter().find(|d| PathBuf::from(d.path) == *path)
}

fn answer(dirs: &[FakeDir], request: &ScanRequest) -> ScanReply {
    match request {
        ScanRequest::Probe { dir } => match lookup(dirs, dir) {
            Some(d) => ScanReply::Probed {
                is_dir: true,
                has_toml: d.toml.is_some(),
                has_json: d.json.is_some(),
            },
            None => ScanReply::Probed { is_dir: false, has_toml: false, has_json: false },
        },
        ScanRequest::Read { dir, format } => {
            let d = lookup(dirs, dir).unwrap();
            let file = match format {
                Format::Toml => d.toml,
                Format::Json => d.json,
            };
            ScanReply::Content(file.unwrap().map(|text| text.to_string()))
        }
        ScanRequest::List { dir } => {
            let d = lookup(dirs, dir).unwrap();
            ScanReply::Subdirectories(
                d.subdirs
                    .iter()
                    .map(|name| Subdirectory { name: Some(name.to_string()), path: dir.join(name) })
                    .collect(),
            )
        }
        ScanRequest::Done => unreachable!(),
    }
}

fn run(roots: &[&str], dirs: &[FakeDir]) -> (Vec<DotfileEntry>, Vec<String>) {
    let scanner = DotfileScanner::with_paths(roots.iter().map(PathBuf::from).collect());
    let mut scan = scanner.scan();
    let mut request = scan.request();
    let mut asked = Vec::new();
    while !matches!(request, ScanRequest::Done) {
        asked.push(match &request {
            ScanRequest::Probe { dir } => format!("probe {}", dir.display()),
            ScanRequest::Read { dir, format } => {
                format!("read {} {}", dir.display(), descriptor_file_name(*format))
            }
            ScanRequest::List { dir } => format!("list {}", dir.display()),
            ScanRequest::Done => unreachable!(),
        });
        assert!(!scan.is_done());
        request = scan.advance(answer(dirs, &request));
    }
    assert!(scan.is_done());
    (scan.into_entries(), asked)
}

fn names(entries: &[DotfileEntry]) -> Vec<String> {
    entries.iter().map(|e| e.config.name.clone()).collect()
}

const MAKE_ZSH: &str = "name = \"zsh\"\n[compiler]\ntype = \"make\"\n";

#[test]
fn a_scan_of_nothing_is_over_at_once() {
    let (entries, asked) = run(&[], &[]);
    assert!(entries.is_empty());
    assert!(asked.is_empty());
}

#[test]
fn roots_that_are_no_directories_are_passed_over() {
    let (entries, asked) = run(&["/missing", "/also-missing"], &[]);
    assert!(entries.is_empty());
    assert_eq!(asked, vec!["probe /missing", "probe /also-missing"]);
}

#[test]
fn a_scan_without_descriptors_finds_nothing() {
    let dirs = [dir("/r", &["a", "b"]), dir("/r/a", &[]), dir("/r/b", &[])];
    let (entries, asked) = run(&["/r"], &dirs);
    assert!(entries.is_empty());
    assert_eq!(
        asked,
        vec!["probe /r", "list /r", "probe /r/a", "list /r/a", "probe /r/b", "list /r/b"]
    );
}

#[test]
fn a_bundle_is_found_in_its_directory() {
    let mut bundle = dir("/r/zsh", &[]);
    bundle.toml = Some(Some(MAKE_ZSH));
    let dirs = [dir("/r", &["zsh"]), bundle];
    let (entries, asked) = run(&["/r"], &dirs);
    assert_eq!(entries.len(), 1);
    assert_eq!(entries[0].config.name, "zsh");
    assert_eq!(entries[0].config.compiler, Compiler::Make { target: None });
    assert_eq!(entries[0].path, PathBuf::from("/r/zsh"));
    assert_eq!(
        asked,
        vec!["probe /r", "list /r", "probe /r/zsh", "read /r/zsh dotwell.toml", "list /r/zsh"]
    );
}

#[test]
fn a_found_bundle_is_installed_by_make_install_in_its_directory() {
    let mut bundle = dir("/r/zsh", &[]);
    bundle.toml = Some(Some(MAKE_ZSH));
    let dirs = [dir("/r", &["zsh"]), bundle];
    let (entries, _) = run(&["/r"], &dirs);
    let command = install_command(&entries[0], false);
    assert_eq!(command.program, "make");
    assert_eq!(command.args, vec!["install".to_string()]);
    assert_eq!(command.directory, PathBuf::from("/r/zsh"));
}

#[test]
fn the_toml_descriptor_is_preferred() {
    let mut both = dir("/r", &[]);
    both.toml = Some(Some("name = \"from-toml\"\n[compiler]\ntype = \"nix\"\n"));
    both.json = Some(Some("{\"name\": \"from-json\", \"compiler\": {\"type\": \"nix\"}}"));
    let (entries, asked) = run(&["/r"], &[both]);
    assert_eq!(names(&entries), vec!["from-toml"]);
    assert_eq!(asked, vec!["probe /r", "read /r dotwell.toml", "list /r"]);
}

#[test]
fn a_malformed_toml_descriptor_is_not_made_up_for_by_json() {
    let mut both = dir("/r", &[]);
    both.toml = Some(Some("name = "));
    both.json = Some(Some("{\"name\": \"from-json\", \"compiler\": {\"type\": \"nix\"}}"));
    let (entries, asked) = run(&["/r"], &[both]);
    assert!(entries.is_empty());
    assert_eq!(asked, vec!["probe /r", "read /r dotwell.toml", "list /r"]);
}

#[test]
fn the_json_descriptor_is_read_where_there_is_no_toml() {
    let mut only_json = dir("/r", &[]);
    only_json.json = Some(Some("{\"name\": \"j\", \"compiler\": {\"type\": \"cargo\"}}"));
    let (entries, asked) = run(&["/r"], &[only_json]);
    assert_eq!(names(&entries), vec!["j"]);
    assert_eq!(asked, vec!["probe /r", "read /r dotwell.json", "list /r"]);
}

#[test]
fn a_malformed_descriptor_is_skipped_and_the_scan_goes_on() {
    let mut bad = dir("/r/bad", &["child"]);
    bad.toml = Some(Some("name = \"x\"\n[compiler]\ntype = \"clang\"\n"));
    let mut child = dir("/r/bad/child", &[]);
    child.toml = Some(Some("name = \"child\"\n[compiler]\ntype = \"gcc\"\n"));
    let mut sibling = dir("/r/good", &[]);
    sibling.json = Some(Some("{\"name\": \"sibling\", \"compiler\": {\"type\": \"nix\"}}"));
    let dirs = [dir("/r", &["bad", "good"]), bad, child, sibling];
    let (entries, _) = run(&["/r"], &dirs);
    assert_eq!(names(&entries), vec!["child", "sibling"]);
}

#[test]
fn an_unreadable_descriptor_is_skipped() {
    let mut unreadable = dir("/r", &["sub"]);
    unreadable.toml = Some(None);
    let mut sub = dir("/r/sub", &[]);
    sub.toml = Some(Some(MAKE_ZSH));
    let (entries, asked) = run(&["/r"], &[unreadable, sub]);
    assert_eq!(names(&entries), vec!["zsh"]);
    assert_eq!(
        asked,
        vec![
            "probe /r",
            "read /r dotwell.toml",
            "list /r",
            "probe /r/sub",
            "read /r/sub dotwell.toml",
            "list /r/sub"
        ]
    );
}

#[test]
fn hidden_and_build_directories_are_not_entered() {
    let dirs = [
        dir("/r", &[".git", "target", "node_modules", "build", "src", ".hidden"]),
        dir("/r/.git", &[]),
        dir("/r/target", &[]),
        dir("/r/node_modules", &[]),
        dir("/r/build", &[]),
        dir("/r/src", &[]),
        dir("/r/.hidden", &[]),
    ];
    let (_, asked) = run(&["/r"], &dirs);
    assert_eq!(asked, vec!["probe /r", "list /r", "probe /r/src", "list /r/src"]);
}

#[test]
fn a_root_is_scanned_whatever_its_name() {
    let mut hidden_root = dir("/home/u/.dotfiles", &[]);
    hidden_root.toml = Some(Some(MAKE_ZSH));
    let (entries, _) = run(&["/home/u/.dotfiles"], &[hidden_root]);
    assert_eq!(names(&entries), vec!["zsh"]);
}

#[test]
fn a_subdirectory_without_a_unicode_name_is_not_entered() {
    let scanner = DotfileScanner::with_paths(vec![PathBuf::from("/r")]);
    let mut scan = scanner.scan();
    scan.advance(ScanReply::Probed { is_dir: true, has_toml: false, has_json: false });
    let request = scan.advance(ScanReply::Subdirectories(vec![Subdirectory {
        name: None,
        path: PathBuf::from("/r/odd"),
    }]));
    assert!(matches!(request, ScanRequest::Done));
}

#[test]
fn directories_are_visited_depth_first_in_listing_order() {
    let bundle = |path: &'static str, text: &'static str, subdirs: &[&'static str]| FakeDir {
        path,
        toml: Some(Some(text)),
        json: None,
        subdirs: subdirs.to_vec(),
    };
    let dirs = [
        bundle("/r", "name = \"r\"\n[compiler]\ntype = \"nix\"\n", &["b", "a"]),
        bundle("/r/b", "name = \"b\"\n[compiler]\ntype = \"nix\"\n", &["x", "y"]),
        bundle("/r/b/x", "name = \"bx\"\n[compiler]\ntype = \"nix\"\n", &[]),
        bundle("/r/b/y", "name = \"by\"\n[compiler]\ntype = \"nix\"\n", &[]),
        bundle("/r/a", "name = \"a\"\n[compiler]\ntype = \"nix\"\n", &[]),
        bundle("/s", "name = \"s\"\n[compiler]\ntype = \"nix\"\n", &[]),
    ];
    let (entries, _) = run(&["/r", "/s"], &dirs);
    assert_eq!(names(&entries), vec!["r", "b", "bx", "by", "a", "s"]);
    let paths: Vec<PathBuf> = entries.iter().map(|e| e.path.clone()).collect();
    assert_eq!(
        paths,
        ["/r", "/r/b", "/r/b/x", "/r/b/y", "/r/a", "/s"].iter().map(PathBuf::from).collect::<Vec<_>>()
    );
}

#[test]
fn a_reply_that_does_not_answer_the_request_changes_nothing() {
    let scanner = DotfileScanner::with_paths(vec![PathBuf::from("/r")]);
    let mut scan = scanner.scan();
    let request = scan.advance(ScanReply::Content(Some(MAKE_ZSH.to_string())));
    assert!(matches!(request, ScanRequest::Probe { .. }));
    let request = scan.advance(ScanReply::Subdirectories(Vec::new()));
    assert!(matches!(request, ScanRequest::Probe { .. }));
    assert!(scan.entries().is_empty());
    let request = scan.advance(ScanReply::Probed { is_dir: true, has_toml: true, has_json: true });
    assert!(matches!(request, ScanRequest::Read { format: Format::Toml, .. }));
    let request = scan.advance(ScanReply::Probed { is_dir: false, has_toml: false, has_json: false });
    assert!(matches!(request, ScanRequest::Read { format: Format::Toml, .. }));
}

#[test]
fn a_reply_after_the_end_changes_nothing() {
    let scanner = DotfileScanner::with_paths(Vec::new());
    let mut scan = scanner.scan();
    let request = scan.advance(ScanReply::Probed { is_dir: true, has_toml: true, has_json: false });
    assert!(matches!(request, ScanRequest::Done));
    assert!(scan.into_entries().is_empty());
}

#[test]
fn skipped_names_are_hidden_ones_and_build_directories() {
    for name in [".git", ".", ".config", "target", "node_modules", "build"] {
        assert!(is_skipped(&name.to_string()), "{}", name);
    }
    for name in ["", "src", "Target", "builds", "targets", "a.b", "node-modules", "dotfiles"] {
        assert!(!is_skipped(&name.to_string()), "{}", name);
    }
}

#[test]
fn descriptor_files_are_named_by_format() {
    assert_eq!(descriptor_file_name(Format::Toml), "dotwell.toml");
    assert_eq!(descriptor_file_name(Format::Json), "dotwell.json");
}

#[test]
fn default_search_paths_come_in_their_order() {
    let scanner = DotfileScanner::from_environment(
        Some(PathBuf::from("/home/u")),
        true,
        Some(PathBuf::from("/work")),
    );
    assert_eq!(
        *scanner.search_paths(),
        vec![
            PathBuf::from("/home/u/.config"),
            PathBuf::from("/home/u/dotfiles"),
            PathBuf::from("/home/u/.dotfiles"),
            PathBuf::from("/etc/nixos"),
            PathBuf::from("/work"),
        ]
    );
    assert_eq!(system_root(), PathBuf::from("/etc/nixos"));
}

#[test]
fn default_search_paths_leave_out_what_is_not_there() {
    let scanner = DotfileScanner::from_environment(None, false, None);
    assert!(scanner.search_paths().is_empty());
    let scanner = DotfileScanner::from_environment(None, false, Some(PathBuf::from("/work")));
    assert_eq!(*scanner.search_paths(), vec![PathBuf::from("/work")]);
}

#[test]
fn a_new_scanner_adds_the_home_paths_where_there_is_a_home() {
    let scanner = DotfileScanner::new(true, Some(PathBuf::from("/work")));
    let paths = scanner.search_paths();
    assert!(paths.len() == 2 || paths.len() == 5);
    assert_eq!(paths[paths.len() - 1], PathBuf::from("/work"));
    assert_eq!(paths[paths.len() - 2], PathBuf::from("/etc/nixos"));
    if paths.len() == 5 {
        assert_eq!(paths[0].file_name().unwrap(), ".config");
        assert_eq!(paths[1].file_name().unwrap(), "dotfiles");
        assert_eq!(paths[2].file_name().unwrap(), ".dotfiles");
        assert_eq!(paths[0].parent(), paths[1].parent());
    }
}

#[test]
fn scanning_the_paths_given_starts_with_the_first() {
    let scanner = DotfileScanner::with_paths(vec![PathBuf::from("/a"), PathBuf::from("/b")]);
    let scan = scanner.scan();
    match scan.request() {
        ScanRequest::Probe { dir } => assert_eq!(dir, PathBuf::from("/a")),
        _ => panic!("a scan begins with a probe"),
    }
}
