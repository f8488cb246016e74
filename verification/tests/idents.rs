use butte::error::BuildError;
use butte::file::{FileExtension, FileIdentifier, Include};
use butte::ident::{Attribute, Ident, Namespace, Root};
use butte::text::text_eq;

fn parts_of(ns: &Namespace<'_>) -> Vec<String> {
    ns.parts().iter().map(|p| p.as_str().to_string()).collect()
}

#[test]
fn ident_keeps_its_text() {
    let id = Ident::new("monster").unwrap();
    assert_eq!(id.as_str(), "monster");
}

#[test]
fn ident_is_a_view_into_the_source() {
    let source = String::from("table Monster {}");
    let name = &source[6..13];
    let id = Ident::new(name).unwrap();
    assert_eq!(id.as_str().as_ptr(), name.as_ptr());
    assert_eq!(id.as_str().len(), 7);
}

#[test]
fn empty_ident_is_refused() {
    assert_eq!(Ident::new(""), Err(BuildError::EmptyIdent));
}

#[test]
fn idents_compare_by_text() {
    let owned = String::from("abc");
    assert_eq!(Ident::new(&owned).unwrap(), Ident::new("abc").unwrap());
    assert_ne!(Ident::new("abc").unwrap(), Ident::new("abd").unwrap());
}

#[test]
fn namespace_of_three_components() {
    let ns = Namespace::parse("a::b::c").unwrap();
    assert_eq!(parts_of(&ns), vec!["a", "b", "c"]);
}

#[test]
fn namespace_of_one_component() {
    let ns = Namespace::parse("a").unwrap();
    assert_eq!(parts_of(&ns), vec!["a"]);
}

#[test]
fn namespace_of_empty_path_is_global() {
    let ns = Namespace::parse("").unwrap();
    assert!(parts_of(&ns).is_empty());
    assert_eq!(ns, Namespace::default());
    assert_eq!(ns, Namespace::new(vec![]));
}

#[test]
fn namespace_longer_components() {
    let ns = Namespace::parse("my_game::sample::v2").unwrap();
    assert_eq!(parts_of(&ns), vec!["my_game", "sample", "v2"]);
    let by_parts = Namespace::new(vec![
        Ident::new("my_game").unwrap(),
        Ident::new("sample").unwrap(),
        Ident::new("v2").unwrap(),
    ]);
    assert_eq!(ns, by_parts);
    assert_eq!(ns.clone(), ns);
}

#[test]
fn namespace_single_colon_is_no_separator() {
    let ns = Namespace::parse("a:b").unwrap();
    assert_eq!(parts_of(&ns), vec!["a:b"]);
    let ns = Namespace::parse("a:::b").unwrap();
    assert_eq!(parts_of(&ns), vec!["a", ":b"]);
    let ns = Namespace::parse(":").unwrap();
    assert_eq!(parts_of(&ns), vec![":"]);
}

#[test]
fn namespace_beyond_ascii() {
    let ns = Namespace::parse("h\u{e9}::\u{4e16}\u{754c}::z").unwrap();
    assert_eq!(parts_of(&ns), vec!["h\u{e9}", "\u{4e16}\u{754c}", "z"]);
}

#[test]
fn namespace_with_empty_component_is_refused() {
    assert_eq!(Namespace::parse("a::::b"), Err(BuildError::EmptyIdent));
    assert_eq!(Namespace::parse("::a"), Err(BuildError::EmptyIdent));
    assert_eq!(Namespace::parse("a::"), Err(BuildError::EmptyIdent));
    assert_eq!(Namespace::parse("::"), Err(BuildError::EmptyIdent));
}

#[test]
fn namespace_components_are_views_into_the_path() {
    let path = String::from("ab::cd");
    let ns = Namespace::parse(&path).unwrap();
    assert_eq!(ns.parts()[0].as_str().as_ptr(), path.as_ptr());
    assert_eq!(ns.parts()[1].as_str().as_ptr(), path[4..].as_ptr());
}

#[test]
fn include_carries_path_and_stem() {
    let inc = Include::new("dir/monster.fbs", "monster");
    assert_eq!(inc.path(), "dir/monster.fbs");
    assert_eq!(inc.stem(), "monster");
}

#[test]
fn include_stem_comes_from_the_path() {
    let inc = Include::from_path("dir/monster.fbs").unwrap();
    assert_eq!(inc.path(), "dir/monster.fbs");
    assert_eq!(inc.stem(), "monster");
    assert_eq!(inc, Include::new("dir/monster.fbs", "monster"));

    let inc = Include::from_path("plain").unwrap();
    assert_eq!(inc.stem(), "plain");

    let inc = Include::from_path("a/b/c.tar.gz").unwrap();
    assert_eq!(inc.stem(), "c.tar");
}

#[test]
fn include_without_file_name_is_nothing() {
    assert_eq!(Include::from_path(""), None);
    assert_eq!(Include::from_path(".."), None);
    assert_eq!(Include::from_path("/"), None);
}

#[test]
fn file_metadata_keeps_its_text() {
    assert_eq!(FileExtension::new("bin").as_str(), "bin");
    assert_eq!(FileIdentifier::new("MONS").as_str(), "MONS");
    assert_eq!(FileExtension::new("bin"), FileExtension::new("bin"));
    assert_ne!(FileIdentifier::new("MONS"), FileIdentifier::new("MONT"));
}

#[test]
fn attribute_and_root_carry_their_name() {
    let name = Ident::new("priority").unwrap();
    assert_eq!(Attribute::new(name).name(), name);
    let table = Ident::new("Monster").unwrap();
    assert_eq!(Root::new(table).table(), table);
}

#[test]
fn text_eq_compares_characters() {
    assert!(text_eq("", ""));
    assert!(text_eq("abc", "abc"));
    assert!(!text_eq("abc", "abd"));
    assert!(!text_eq("abc", "ab"));
    assert!(!text_eq("", "a"));
    assert!(text_eq("h\u{e9}", "h\u{e9}"));
    assert!(!text_eq("h\u{e9}", "he"));
}

#[test]
fn include_with_or_without_stem() {
    assert_eq!(
        Include::with_stem("a/b.fbs", Some("b")),
        Some(Include::new("a/b.fbs", "b"))
    );
    assert_eq!(Include::with_stem("a/b.fbs", None), None);
}
