use kubectl_copi::outcome::{classify_probe_failure, Failure, Outcome, UNAUTHORIZED_STATUS};

#[test]
fn unauthorized_status_is_401() {
    assert_eq!(UNAUTHORIZED_STATUS, 401);
}

#[test]
fn probe_with_status_401_is_unauthorized() {
    let failure = classify_probe_failure(Some(401), "ApiError: Unauthorized".to_string());
    assert_eq!(failure, Failure::Unauthorized);
}

#[test]
fn probe_with_another_status_keeps_the_error() {
    let failure = classify_probe_failure(Some(403), "ApiError: Forbidden".to_string());
    assert_eq!(failure, Failure::Cluster("ApiError: Forbidden".to_string()));
    let failure = classify_probe_failure(Some(500), "ApiError: boom".to_string());
    assert_eq!(failure, Failure::Cluster("ApiError: boom".to_string()));
    let failure = classify_probe_failure(Some(400), "bad".to_string());
    assert_eq!(failure, Failure::Cluster("bad".to_string()));
    let failure = classify_probe_failure(Some(402), "pay".to_string());
    assert_eq!(failure, Failure::Cluster("pay".to_string()));
    let failure = classify_probe_failure(Some(0), "unset".to_string());
    assert_eq!(failure, Failure::Cluster("unset".to_string()));
}

#[test]
fn probe_without_a_status_keeps_the_error() {
    let failure = classify_probe_failure(None, "HyperError: connection refused".to_string());
    assert_eq!(failure, Failure::Cluster("HyperError: connection refused".to_string()));
}

#[test]
fn unauthorized_message_is_its_own() {
    let failure = classify_probe_failure(Some(401), "ApiError: Unauthorized".to_string());
    assert_eq!(failure.message(), "Unauthorized - are you logged in on the cluster?");
}

#[test]
fn underlying_errors_are_reported_unchanged() {
    assert_eq!(Failure::Config("no such file".to_string()).message(), "no such file");
    assert_eq!(Failure::Cluster("timeout".to_string()).message(), "timeout");
    assert_eq!(Failure::Prompt("Operation was canceled by the user".to_string()).message(),
        "Operation was canceled by the user");
    assert_eq!(Failure::Launch("No such file or directory".to_string()).message(),
        "No such file or directory");
}

#[test]
fn fixed_messages() {
    assert_eq!(Failure::Command(Some(1)).message(), "kubectl did not exit successfully");
    assert_eq!(Failure::Command(None).message(), "kubectl did not exit successfully");
    assert_eq!(Failure::Protocol.message(), "event does not answer the pending action");
}

#[test]
fn success_exits_with_zero() {
    assert_eq!(Outcome::Success.exit_code(), 0);
    assert!(Outcome::Success.is_success());
}

#[test]
fn command_failure_exits_with_the_code_of_the_command() {
    assert_eq!(Outcome::Failure(Failure::Command(Some(1))).exit_code(), 1);
    assert_eq!(Outcome::Failure(Failure::Command(Some(3))).exit_code(), 3);
    assert_eq!(Outcome::Failure(Failure::Command(Some(127))).exit_code(), 127);
    assert_eq!(Outcome::Failure(Failure::Command(Some(-1))).exit_code(), -1);
    assert_eq!(Outcome::Failure(Failure::Command(Some(i32::MAX))).exit_code(), i32::MAX);
    assert_eq!(Outcome::Failure(Failure::Command(Some(i32::MIN))).exit_code(), i32::MIN);
}

#[test]
fn command_failure_without_a_code_exits_with_one() {
    assert_eq!(Outcome::Failure(Failure::Command(None)).exit_code(), 1);
}

#[test]
fn a_failure_never_exits_with_zero() {
    assert_eq!(Outcome::Failure(Failure::Command(Some(0))).exit_code(), 1);
    assert_eq!(Outcome::Failure(Failure::Unauthorized).exit_code(), 1);
    assert_eq!(Outcome::Failure(Failure::Config("x".to_string())).exit_code(), 1);
    assert_eq!(Outcome::Failure(Failure::Cluster("x".to_string())).exit_code(), 1);
    assert_eq!(Outcome::Failure(Failure::Prompt("x".to_string())).exit_code(), 1);
    assert_eq!(Outcome::Failure(Failure::Launch("x".to_string())).exit_code(), 1);
    assert_eq!(Outcome::Failure(Failure::Protocol).exit_code(), 1);
    assert!(!Outcome::Failure(Failure::Unauthorized).is_success());
}
