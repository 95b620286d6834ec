use rustlog::transform::{
    apply_pipeline, build_pipeline, Transform, TransformError, TransformSpec, TransformStep,
};

fn spec(name: &str, arg: Option<&str>, pattern: Option<&str>, replacement: Option<&str>) -> TransformSpec {
    TransformSpec {
        name: name.into(),
        arg: arg.map(|s| s.to_string()),
        pattern: pattern.map(|s| s.to_string()),
        replacement: replacement.map(|s| s.to_string()),
    }
}

#[test]
fn trim_and_lowercase_chain() {
    let chain: Vec<TransformStep> = vec![TransformStep::Trim, TransformStep::Lowercase];
    let out = apply_pipeline("  HELLO  ", &chain).unwrap();
    assert_eq!(out, "hello");
}

#[test]
fn strip_prefix_works() {
    let chain: Vec<TransformStep> = vec![TransformStep::StripPrefix("LOG:".into())];
    assert_eq!(apply_pipeline("LOG:hello", &chain).unwrap(), "hello");
}

#[test]
fn drop_if_matches() {
    let chain: Vec<TransformStep> = vec![TransformStep::drop_if_matches("^SKIP").unwrap()];
    assert!(apply_pipeline("SKIP this", &chain).is_none());
    assert_eq!(apply_pipeline("KEEP this", &chain).unwrap(), "KEEP this");
}

#[test]
fn drop_if_empty_after_trim() {
    let chain: Vec<TransformStep> = vec![TransformStep::Trim, TransformStep::DropIfEmpty];
    assert!(apply_pipeline("   \n", &chain).is_none());
    assert_eq!(apply_pipeline(" x ", &chain).unwrap(), "x");
}

#[test]
fn build_unknown_plugin_errors() {
    let specs = vec![TransformSpec {
        name: "not-a-real-plugin".into(),
        arg: None,
        pattern: None,
        replacement: None,
    }];
    assert!(build_pipeline(&specs).is_err());
}

#[test]
fn build_strip_prefix_missing_arg_errors() {
    let specs = vec![TransformSpec {
        name: "strip_prefix".into(),
        arg: None,
        pattern: None,
        replacement: None,
    }];
    assert!(build_pipeline(&specs).is_err());
}

#[test]
fn regex_replace_invalid_pattern_errors() {
    let specs = vec![TransformSpec {
        name: "regex_replace".into(),
        arg: None,
        pattern: Some("(".into()),
        replacement: Some("".into()),
    }];
    assert!(build_pipeline(&specs).is_err());
}

#[test]
fn build_pipeline_roundtrip() {
    let specs = vec![
        TransformSpec {
            name: "trim".into(),
            arg: None,
            pattern: None,
            replacement: None,
        },
        TransformSpec {
            name: "prepend".into(),
            arg: Some("P:".into()),
            pattern: None,
            replacement: None,
        },
    ];
    let chain = build_pipeline(&specs).unwrap();
    assert_eq!(apply_pipeline("  hi ", &chain).unwrap(), "P:hi");
}

#[test]
fn empty_chain_is_identity() {
    assert_eq!(apply_pipeline("  as is \n", &[]).unwrap(), "  as is \n");
}

#[test]
fn build_reports_each_error_kind() {
    let e = |s: TransformSpec| build_pipeline(&[s]).err().unwrap();
    assert_eq!(e(spec("nope", None, None, None)), TransformError::UnknownPlugin("nope".into()));
    assert_eq!(e(spec("prepend", None, None, None)), TransformError::MissingArg("prepend".into()));
    assert_eq!(e(spec("append", None, Some("x"), None)), TransformError::MissingArg("append".into()));
    assert_eq!(
        e(spec("regex_replace", None, None, Some("r"))),
        TransformError::MissingPattern("regex_replace".into())
    );
    assert_eq!(e(spec("regex_replace", None, Some("a"), None)), TransformError::MissingReplacement);
    assert_eq!(
        e(spec("drop_if_matches", None, None, None)),
        TransformError::MissingPattern("drop_if_matches".into())
    );
    assert_eq!(e(spec("drop_if_matches", None, Some("["), None)), TransformError::InvalidRegex("[".into()));
}

#[test]
fn first_bad_spec_is_reported() {
    let specs = vec![
        spec("trim", None, None, None),
        spec("bogus", None, None, None),
        spec("prepend", None, None, None),
    ];
    assert_eq!(build_pipeline(&specs).err(), Some(TransformError::UnknownPlugin("bogus".into())));
}

#[test]
fn every_plugin_builds_and_applies() {
    let specs = vec![
        spec("trim", None, None, None),
        spec("uppercase", None, None, None),
        spec("strip_prefix", Some("LOG:"), None, None),
        spec("regex_replace", None, Some(r"\d+"), Some("#")),
        spec("append", Some("!"), None, None),
        spec("prepend", Some(">"), None, None),
        spec("lowercase", None, None, None),
        spec("drop_if_empty", None, None, None),
        spec("drop_if_matches", None, Some("^>skip"), None),
    ];
    let chain = build_pipeline(&specs).unwrap();
    assert_eq!(chain.len(), 9);
    assert_eq!(apply_pipeline("  log:err 42 at 7 ", &chain).unwrap(), ">err # at #!");
    assert!(apply_pipeline("skip 1", &chain).is_none());
}

#[test]
fn strip_prefix_leaves_other_lines() {
    let chain = vec![TransformStep::StripPrefix("LOG:".into())];
    assert_eq!(apply_pipeline("LOG", &chain).unwrap(), "LOG");
    assert_eq!(apply_pipeline("xLOG:a", &chain).unwrap(), "xLOG:a");
    assert_eq!(apply_pipeline("LOG:LOG:a", &chain).unwrap(), "LOG:a");
}

#[test]
fn strip_prefix_undoes_prepend() {
    let chain = vec![TransformStep::Prepend("é:".into()), TransformStep::StripPrefix("é:".into())];
    assert_eq!(apply_pipeline("ünï", &chain).unwrap(), "ünï");
}

#[test]
fn regex_replace_uses_groups() {
    let chain = vec![TransformStep::regex_replace(r"(\w+)=(\w+)", "$2=$1").unwrap()];
    assert_eq!(apply_pipeline("a=b c=d", &chain).unwrap(), "b=a d=c");
}

#[test]
fn case_mapping_is_unicode() {
    assert_eq!(TransformStep::Lowercase.apply("ÀÉ X".into()).unwrap(), "àé x");
    assert_eq!(TransformStep::Uppercase.apply("straße".into()).unwrap(), "STRASSE");
}

#[test]
fn trim_uses_unicode_whitespace() {
    assert_eq!(TransformStep::Trim.apply("\u{3000}\t x y \u{a0}\r\n".into()).unwrap(), "x y");
    assert!(TransformStep::DropIfEmpty.apply("\u{2003} \u{85}".into()).is_none());
    assert_eq!(TransformStep::DropIfEmpty.apply(" . ".into()).unwrap(), " . ");
}

#[test]
fn drop_stops_the_chain() {
    let chain = vec![
        TransformStep::drop_if_matches("x").unwrap(),
        TransformStep::Append("never".into()),
    ];
    assert!(apply_pipeline("axb", &chain).is_none());
    assert_eq!(apply_pipeline("ab", &chain).unwrap(), "abnever");
}

#[test]
fn chains_compose() {
    let a = vec![TransformStep::Trim, TransformStep::Append("|".into())];
    let b = vec![TransformStep::Uppercase, TransformStep::Prepend("<".into())];
    let mid = apply_pipeline(" x y ", &a).unwrap();
    let both: Vec<TransformStep> = vec![
        TransformStep::Trim,
        TransformStep::Append("|".into()),
        TransformStep::Uppercase,
        TransformStep::Prepend("<".into()),
    ];
    assert_eq!(apply_pipeline(&mid, &b), apply_pipeline(" x y ", &both));
    assert_eq!(apply_pipeline(" x y ", &both).unwrap(), "<X Y|");
}

#[test]
fn regex_steps_refuse_invalid_patterns() {
    assert_eq!(
        TransformStep::drop_if_matches("(").err(),
        Some(TransformError::InvalidRegex("(".into()))
    );
    assert_eq!(
        TransformStep::regex_replace("[", "x").err(),
        Some(TransformError::InvalidRegex("[".into()))
    );
}
