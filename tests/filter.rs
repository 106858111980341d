use dep_expand::{filter, ExpandError};
use syn_select::Selector;

const SOURCE: &str = "#!/usr/bin/env run-cargo-script\n#![allow(dead_code)]\nfn a() {}\nfn b() -> u8 { 1 }\nstruct C;\n";

#[test]
fn keeps_only_selected_item() {
    let out = filter(SOURCE.to_string(), Selector::try_from("b").unwrap()).unwrap();
    let file = syn::parse_file(&out).unwrap();
    assert_eq!(file.items.len(), 1);
    assert!(file.shebang.is_none());
    assert!(file.attrs.is_empty());
    assert!(out.contains("fn b"));
    assert!(!out.contains("fn a"));
    assert!(!out.contains("struct C"));
    assert!(!out.contains("allow"));
    assert!(!out.contains("run-cargo-script"));
}

#[test]
fn filtering_twice_is_stable() {
    let once = filter(SOURCE.to_string(), Selector::try_from("b").unwrap()).unwrap();
    let twice = filter(once.clone(), Selector::try_from("b").unwrap()).unwrap();
    assert_eq!(once, twice);
}

#[test]
fn no_match_leaves_no_items() {
    let out = filter(SOURCE.to_string(), Selector::try_from("zz").unwrap()).unwrap();
    let file = syn::parse_file(&out).unwrap();
    assert!(file.items.is_empty());
}

#[test]
fn broken_text_is_parse_error() {
    assert_eq!(
        filter("fn a( {".to_string(), Selector::try_from("a").unwrap()),
        Err(ExpandError::ParseError)
    );
}
