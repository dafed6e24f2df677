use kubectl_copi::invocation::{set_namespace_invocation, use_context_invocation, Invocation};

#[test]
fn use_context_has_the_documented_arguments() {
    let invocation = use_context_invocation("prod".to_string());
    assert_eq!(
        invocation,
        Invocation {
            program: "kubectl".to_string(),
            args: vec!["config".to_string(), "use-context".to_string(), "prod".to_string()],
        }
    );
}

#[test]
fn set_namespace_has_the_documented_arguments() {
    let invocation = set_namespace_invocation("default".to_string());
    assert_eq!(
        invocation,
        Invocation {
            program: "kubectl".to_string(),
            args: vec![
                "config".to_string(),
                "set-context".to_string(),
                "--current".to_string(),
                "--namespace".to_string(),
                "default".to_string(),
            ],
        }
    );
}

#[test]
fn the_name_is_passed_as_one_argument() {
    let invocation = use_context_invocation("my context --flag".to_string());
    assert_eq!(invocation.args.len(), 3);
    assert_eq!(invocation.args[2], "my context --flag");
    let invocation = set_namespace_invocation("a b".to_string());
    assert_eq!(invocation.args.len(), 5);
    assert_eq!(invocation.args[4], "a b");
}
