use ferrink::collector::{parse_arguments, ParseResult};

#[test]
fn output_is_optional_and_redaction_has_no_disable_flag() {
    let parsed = parse_arguments(&Vec::new()).unwrap();
    let ParseResult::Run(arguments) = parsed else {
        panic!("expected runnable arguments");
    };
    assert!(arguments.output.is_none());
    assert!(arguments.pretty);
}

#[test]
fn unknown_flags_are_rejected() {
    let error = parse_arguments(&vec![Some("--unredacted".to_owned())]).unwrap_err();
    assert!(error.contains("unknown argument"));
}
