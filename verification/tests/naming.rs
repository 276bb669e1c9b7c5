use asset_loaders::loaders::info::Info;
use asset_loaders::loaders::naming::artifact_name;

#[test]
fn artifact_takes_the_output_extension() {
    assert_eq!(artifact_name("a.src", "out"), "a.out");
    assert_eq!(artifact_name("style.scss", "css"), "style.css");
}

#[test]
fn artifact_keeps_all_but_the_last_extension() {
    assert_eq!(artifact_name("archive.tar.gz", "css"), "archive.tar.css");
}

#[test]
fn artifact_of_a_name_without_extension() {
    assert_eq!(artifact_name("Makefile", "css"), "Makefile.css");
}

#[test]
fn artifact_of_a_dot_file_keeps_the_whole_name() {
    assert_eq!(artifact_name(".profile", "css"), ".profile.css");
    assert_eq!(artifact_name(".profile.scss", "css"), ".profile.css");
}

#[test]
fn artifact_of_the_parent_marker_keeps_the_whole_name() {
    assert_eq!(artifact_name("..", "css"), "...css");
    assert_eq!(artifact_name(".", "css"), "..css");
}

#[test]
fn artifact_of_a_name_that_ends_in_a_dot() {
    assert_eq!(artifact_name("a.", "css"), "a.css");
    assert_eq!(artifact_name("a..", "css"), "a..css");
}

#[test]
fn artifact_with_an_empty_extension_is_the_base_name() {
    assert_eq!(artifact_name("a.src", ""), "a");
    assert_eq!(artifact_name("plain", ""), "plain");
}

#[test]
fn artifact_of_the_empty_name() {
    assert_eq!(artifact_name("", "css"), ".css");
    assert_eq!(artifact_name("", ""), "");
}

#[test]
fn artifact_counts_characters_not_bytes() {
    assert_eq!(artifact_name("caf\u{e9}.scss", "css"), "caf\u{e9}.css");
    assert_eq!(artifact_name("\u{26a1}\u{fe0f}.\u{e9}t\u{e9}", "css"), "\u{26a1}\u{fe0f}.css");
}

#[test]
fn two_sources_can_share_an_artifact() {
    assert_eq!(artifact_name("a.scss", "css"), artifact_name("a.sass", "css"));
    assert_ne!(artifact_name("a.scss", "css"), artifact_name("b.scss", "css"));
}

#[test]
fn info_keeps_what_it_was_made_with() {
    let info = Info::new(
        "Sass",
        "sass-loader",
        String::from("/site/styles"),
        String::from("/site/public/css"),
        "css",
    )
    .unwrap();
    assert_eq!(info.name(), "Sass");
    assert_eq!(info.loader_name(), "sass-loader");
    assert_eq!(info.source_directory(), "/site/styles");
    assert_eq!(info.output_directory(), "/site/public/css");
    assert_eq!(info.output_extension(), "css");
}

#[test]
fn info_refuses_one_directory_for_both() {
    let made = Info::new("Sass", "sass-loader", String::from("/site"), String::from("/site"), "css");
    assert!(made.is_none());
}

#[test]
fn info_accepts_directories_that_differ_by_one_character() {
    let made = Info::new("Sass", "sass-loader", String::from("/site"), String::from("/site/"), "css");
    assert!(made.is_some());
}
