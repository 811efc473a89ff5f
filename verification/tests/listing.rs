use dotwell::config::{Compiler, DotfileConfig, DotfileEntry};
use dotwell::listing::{decimal_text, join_texts, listing, summary};
use std::path::PathBuf;

fn bundle(name: &str, compiler: Compiler, dependencies: &[&str]) -> DotfileEntry {
    DotfileEntry {
        config: DotfileConfig {
            name: name.to_string(),
            description: format!("{} settings", name),
            category: "shell".to_string(),
            compiler,
            dependencies: dependencies.iter().map(|d| d.to_string()).collect(),
            files: vec![".rc".to_string()],
        },
        path: PathBuf::from("/home/u/dotfiles").join(name),
    }
}

#[test]
fn an_empty_listing_says_that_nothing_was_found() {
    assert_eq!(
        listing(&Vec::new()),
        "No dotfiles found.\n\nCreate a dotwell.toml or dotwell.json file in your dotfiles directory.\n"
    );
}

#[test]
fn a_listing_of_one_bundle_counts_in_the_singular() {
    let text = listing(&vec![bundle("zsh", Compiler::Make { target: None }, &["git", "curl"])]);
    assert_eq!(
        text,
        "Found 1 dotfile configuration:\n\n\
         1. zsh [make]\n   zsh settings\n   Path: /home/u/dotfiles/zsh\n   Category: shell\n   \
         Dependencies: git, curl\n\n"
    );
}

#[test]
fn a_listing_numbers_the_bundles_from_one() {
    let text = listing(&vec![
        bundle("zsh", Compiler::Gcc { flags: None }, &[]),
        bundle("vim", Compiler::Nix { flake: Some(true) }, &["git"]),
    ]);
    assert_eq!(
        text,
        "Found 2 dotfile configurations:\n\n\
         1. zsh [gcc]\n   zsh settings\n   Path: /home/u/dotfiles/zsh\n   Category: shell\n   \
         Dependencies: \n\n\
         2. vim [nix]\n   vim settings\n   Path: /home/u/dotfiles/vim\n   Category: shell\n   \
         Dependencies: git\n\n"
    );
}

#[test]
fn a_long_listing_numbers_with_several_digits() {
    let bundles: Vec<DotfileEntry> =
        (0..12).map(|_| bundle("b", Compiler::Cargo { release: None }, &[])).collect();
    let text = listing(&bundles);
    assert!(text.starts_with("Found 12 dotfile configurations:\n\n1. b [cargo]\n"));
    assert!(text.contains("\n\n10. b [cargo]\n"));
    assert!(text.ends_with("12. b [cargo]\n   b settings\n   Path: /home/u/dotfiles/b\n   Category: shell\n   Dependencies: \n\n"));
}

#[test]
fn a_summary_counts_the_bundles() {
    assert_eq!(summary(0), "Found 0 dotfile configurations");
    assert_eq!(summary(1), "Found 1 dotfile configuration");
    assert_eq!(summary(2), "Found 2 dotfile configurations");
    assert_eq!(summary(110), "Found 110 dotfile configurations");
}

#[test]
fn numbers_are_written_in_decimal() {
    assert_eq!(decimal_text(0), "0");
    assert_eq!(decimal_text(7), "7");
    assert_eq!(decimal_text(10), "10");
    assert_eq!(decimal_text(309), "309");
    assert_eq!(decimal_text(1234567890), "1234567890");
    assert_eq!(decimal_text(usize::MAX), usize::MAX.to_string());
}

#[test]
fn texts_are_joined_with_the_separator_between() {
    let texts = |items: &[&str]| items.iter().map(|t| t.to_string()).collect::<Vec<String>>();
    assert_eq!(join_texts(&texts(&[]), ", "), "");
    assert_eq!(join_texts(&texts(&["a"]), ", "), "a");
    assert_eq!(join_texts(&texts(&["a", "b", "c"]), ", "), "a, b, c");
    assert_eq!(join_texts(&texts(&["", ""]), "-"), "-");
}
