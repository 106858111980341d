use dep_expand::Expander;

#[test]
fn default_is_empty() {
    let e = Expander::default();
    assert!(e.features.is_empty());
    assert!(e.unstable_flags.is_empty());
    assert!(!e.all_features && !e.no_default_features && !e.tests && !e.release);
    assert_eq!(e.manifest_path, None);
}

#[test]
fn builders_set_their_option_only() {
    let e = Expander::default().with_tests();
    assert!(e.tests && !e.release && !e.all_features && !e.no_default_features);
    let e = e.with_release();
    assert!(e.tests && e.release);
    let e = e.with_all_features().with_no_default_features();
    assert!(e.tests && e.release && e.all_features && e.no_default_features);
    let e = e.with_manifest("/a/Cargo.toml");
    assert_eq!(e.manifest_path.as_deref(), Some("/a/Cargo.toml"));
    assert!(e.features.is_empty() && e.unstable_flags.is_empty());
}

#[test]
fn features_accumulate_in_any_order() {
    let ab = Expander::default().add_feature("f1").add_feature("f2");
    let ba = Expander::default().add_feature("f2").add_feature("f1");
    let mut x = ab.features.clone();
    let mut y = ba.features.clone();
    x.sort();
    y.sort();
    assert_eq!(x, y);
    assert_eq!(ab.features, vec!["f1".to_string(), "f2".to_string()]);
}

#[test]
fn repeated_feature_is_kept_once() {
    let e = Expander::default().add_feature("f1").add_feature("f1");
    assert_eq!(e.features, vec!["f1".to_string()]);
}

#[test]
fn unstable_flags_keep_their_order() {
    let e = Expander::default().add_unstable_flag("a").add_unstable_flag("b");
    assert_eq!(e.unstable_flags, vec!["a".to_string(), "b".to_string()]);
    let f = Expander::default().add_unstable_flag("b").add_unstable_flag("a");
    let mut x = e.unstable_flags.clone();
    let mut y = f.unstable_flags.clone();
    x.sort();
    y.sort();
    assert_eq!(x, y);
}

#[test]
fn mutators_keep_earlier_options() {
    let e = Expander::default()
        .add_feature("f1")
        .add_unstable_flag("z")
        .with_release()
        .with_manifest("m")
        .add_feature("f2");
    assert_eq!(e.features, vec!["f1".to_string(), "f2".to_string()]);
    assert_eq!(e.unstable_flags, vec!["z".to_string()]);
    assert!(e.release);
    assert_eq!(e.manifest_path.as_deref(), Some("m"));
}
