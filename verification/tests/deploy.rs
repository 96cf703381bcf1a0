use kbr_api_rust::deploy::step_command;
use hmac::{Hmac, Mac};
use kbr_api_rust::deploy::{
    after_step, deploy_log_entry, digest_matches, handle_webhook, non_empty_lines,
    outcome_from_ref, verify_signature, BuildGate, DeployNext, DeployStep, WebhookOutcome,
};
use sha2::Sha256;

type HmacSha256 = Hmac<Sha256>;

fn make_payload(ref_branch: &str) -> String {
    format!(
        r#"{{"ref":"refs/heads/{}","before":"abc","after":"def","repository":{{}},"pusher":{{}},"sender":{{}}}}"#,
        ref_branch
    )
}

fn sign_payload(payload: &[u8], secret: &str) -> String {
    let mut mac = HmacSha256::new_from_slice(secret.as_bytes()).unwrap();
    mac.update(payload);
    format!("sha256={}", hex::encode(mac.finalize().into_bytes()))
}

#[test]
fn test_handler_main_branch_triggers_deploy() {
    let secret = "test-secret-123";
    let payload = make_payload("main");
    let signature = sign_payload(payload.as_bytes(), secret);
    let outcome = handle_webhook("push", &signature, payload.as_bytes(), Some(secret));
    assert_eq!(outcome, WebhookOutcome::Deploy);
    assert_eq!(outcome.status_code(), 200);
}

#[test]
fn test_handler_wrong_branch_ignores() {
    let secret = "test-secret-123";
    let payload = make_payload("develop");
    let signature = sign_payload(payload.as_bytes(), secret);
    let outcome = handle_webhook("push", &signature, payload.as_bytes(), Some(secret));
    assert_eq!(outcome, WebhookOutcome::OtherBranch);
    assert_eq!(outcome.status_code(), 200);
}

#[test]
fn test_handler_bad_signature_returns_401() {
    let payload = make_payload("main");
    let bad_signature = sign_payload(payload.as_bytes(), "wrong-secret");
    let outcome = handle_webhook("push", &bad_signature, payload.as_bytes(), Some("real-secret"));
    assert_eq!(outcome, WebhookOutcome::BadSignature);
    assert_eq!(outcome.status_code(), 401);
}

#[test]
fn test_handler_non_push_event_ignores() {
    let outcome = handle_webhook("ping", "", b"{}", None);
    assert_eq!(outcome, WebhookOutcome::NotPush);
    assert_eq!(outcome.status_code(), 200);
}

#[test]
fn handler_invalid_json_is_acknowledged() {
    let secret = "s";
    let payload = b"not json";
    let signature = sign_payload(payload, secret);
    let outcome = handle_webhook("push", &signature, payload, Some(secret));
    assert_eq!(outcome, WebhookOutcome::InvalidPayload);
    assert_eq!(outcome.status_code(), 200);
}

#[test]
fn test_verify_signature_tampered() {
    let payload = b"test payload";
    let mut mac = HmacSha256::new_from_slice(b"my-secret").unwrap();
    mac.update(payload);
    let mut sig = format!("sha256={}", hex::encode(mac.finalize().into_bytes()));
    // Tamper with the signature
    sig.pop();
    sig.push('0');

    assert!(!verify_signature(b"tampered payload", &sig, Some("my-secret")));
}

#[test]
fn test_verify_signature_missing_prefix() {
    assert!(!verify_signature(b"test", "noshaprefix", Some("my-secret")));
}

#[test]
fn test_verify_signature_no_secret() {
    assert!(!verify_signature(b"test", "sha256=abc", None));
}

#[test]
fn verify_signature_accepts_correct_signature() {
    let sig = sign_payload(b"hello", "k");
    assert!(verify_signature(b"hello", &sig, Some("k")));
    assert!(!verify_signature(b"hello", &sig.to_uppercase(), Some("k")));
}

#[test]
fn digest_matches_lowercase_hex_only() {
    assert!(digest_matches(&[0xab, 0x01], "ab01"));
    assert!(!digest_matches(&[0xab, 0x01], "AB01"));
    assert!(!digest_matches(&[0xab, 0x01], "ab0"));
}

#[test]
fn outcome_from_ref_only_main_deploys() {
    assert_eq!(outcome_from_ref(Some(Some("refs/heads/main"))), WebhookOutcome::Deploy);
    assert_eq!(outcome_from_ref(Some(Some("refs/heads/mainline"))), WebhookOutcome::OtherBranch);
    assert_eq!(outcome_from_ref(Some(None)), WebhookOutcome::OtherBranch);
    assert_eq!(outcome_from_ref(None), WebhookOutcome::InvalidPayload);
}

#[test]
fn build_gate_allows_one_build_at_a_time() {
    let mut gate = BuildGate::new();
    assert!(gate.try_start());
    assert!(!gate.try_start());
    gate.finish();
    assert!(gate.try_start());
}

#[test]
fn lines_split_like_str_lines() {
    let text = "a\r\n\nb\n\nc\r";
    let expected: Vec<String> = text.lines().filter(|l| !l.is_empty()).map(|s| s.to_string()).collect();
    assert_eq!(non_empty_lines(text), expected);
    assert_eq!(non_empty_lines(""), Vec::<String>::new());
    assert_eq!(non_empty_lines("x\n"), vec!["x".to_string()]);
}

#[test]
fn failed_pull_keeps_last_twenty_lines() {
    let out: String = (1..=30).map(|i| format!("line {}\n", i)).collect();
    match after_step(DeployStep::Pull, false, &out, "err\n") {
        DeployNext::Failed(lines) => {
            assert_eq!(lines.len(), 20);
            assert_eq!(lines[0], "line 12");
            assert_eq!(lines[19], "err");
        }
        other => panic!("unexpected {:?}", other),
    }
}

#[test]
fn failed_build_joins_stdout_and_stderr() {
    match after_step(DeployStep::Build, false, "a\nb", "c\n") {
        DeployNext::Failed(lines) => assert_eq!(lines, vec!["a".to_string(), "bc".to_string()]),
        other => panic!("unexpected {:?}", other),
    }
}

#[test]
fn failed_restart_keeps_first_twenty_stderr_lines() {
    let err: String = (1..=25).map(|i| format!("e{}\n\n", i)).collect();
    match after_step(DeployStep::Restart, false, "ignored\n", &err) {
        DeployNext::Failed(lines) => {
            assert_eq!(lines.len(), 20);
            assert_eq!(lines[0], "e1");
            assert_eq!(lines[19], "e20");
        }
        other => panic!("unexpected {:?}", other),
    }
}

#[test]
fn successful_steps_run_in_order() {
    assert_eq!(after_step(DeployStep::Pull, true, "", ""), DeployNext::Run(DeployStep::Build));
    assert_eq!(after_step(DeployStep::Build, true, "", ""), DeployNext::Run(DeployStep::Restart));
    assert_eq!(after_step(DeployStep::Restart, true, "", ""), DeployNext::Succeeded);
}

#[test]
fn deploy_log_entry_layout() {
    let entry = deploy_log_entry("2024-01-01 00:00:00 UTC", false, "3s", "1s", "2s", "0ns", &["boom".to_string()]);
    assert_eq!(
        entry,
        "\n=== 2024-01-01 00:00:00 UTC FAILED ===\nTotal elapsed: 3s\nPull: 1s\nBuild: 2s\nRestart: 0ns\nLast error lines:\n  boom\n---\n"
    );
    let ok = deploy_log_entry("t", true, "a", "b", "c", "d", &[]);
    assert_eq!(ok, "\n=== t SUCCESS ===\nTotal elapsed: a\nPull: b\nBuild: c\nRestart: d\n---\n");
}

#[test]
fn deploy_steps_run_their_commands() {

    assert_eq!(step_command(DeployStep::Pull), vec!["git", "pull", "origin", "main"]);
    assert_eq!(step_command(DeployStep::Build), vec!["cargo", "build", "--release"]);
    assert_eq!(step_command(DeployStep::Restart), vec!["sudo", "/usr/bin/systemctl", "restart", "kbr-api-rust"]);
}
