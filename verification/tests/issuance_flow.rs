use tunnel_client::issuance::{
    certificate_file_name, derive_domain_pair, private_key_file_name, Issuance, IssuanceAction,
    IssuanceEvent, IssuancePhase,
};
use tunnel_client::{TunnelClient, TunnelClientError};

fn start_flow() -> Issuance {
    let c = TunnelClient::new("http://127.0.0.1:1", Some("tok".to_string()));
    c.lets_encrypt("example.com", "foo").unwrap()
}

#[test]
fn domain_pair_is_derived_exactly() {
    let pair = derive_domain_pair("foo", "example.com");
    assert_eq!(pair.remote, "foo.box.example.com");
    assert_eq!(pair.local, "local.foo.box.example.com");
}

#[test]
fn artifact_file_names_are_fixed() {
    assert_eq!(certificate_file_name(), "certificate.pem");
    assert_eq!(private_key_file_name(), "privatekey.pem");
}

#[test]
fn full_success_asks_for_each_step_once_and_in_order() {
    let mut flow = start_flow();
    let events = vec![
        IssuanceEvent::AccountRegistered,
        IssuanceEvent::ChallengeReady { signature: "sig-remote".to_string() },
        IssuanceEvent::ChallengePublished,
        IssuanceEvent::ChallengeValidated,
        IssuanceEvent::ChallengeReady { signature: "sig-local".to_string() },
        IssuanceEvent::ChallengePublished,
        IssuanceEvent::ChallengeValidated,
        IssuanceEvent::CertificateSigned,
        IssuanceEvent::ArtifactsSaved,
    ];
    let mut seen: Vec<String> = Vec::new();
    for event in events {
        match flow.next_action().unwrap() {
            IssuanceAction::RegisterAccount => seen.push("account".to_string()),
            IssuanceAction::FetchChallenge { domain } => seen.push(format!("fetch {}", domain)),
            IssuanceAction::PublishChallenge { signature } => {
                seen.push(format!("publish {}", signature))
            }
            IssuanceAction::ValidateChallenge { domain } => {
                seen.push(format!("validate {}", domain))
            }
            IssuanceAction::SignCertificate { remote, local } => {
                seen.push(format!("sign {} {}", remote, local))
            }
            IssuanceAction::SaveArtifacts => seen.push("save".to_string()),
        }
        flow = flow.step(event);
    }
    assert!(flow.next_action().is_none());
    assert!(matches!(flow.phase, IssuancePhase::Completed));
    assert_eq!(
        seen,
        vec![
            "account".to_string(),
            "fetch foo.box.example.com".to_string(),
            "publish sig-remote".to_string(),
            "validate foo.box.example.com".to_string(),
            "fetch local.foo.box.example.com".to_string(),
            "publish sig-local".to_string(),
            "validate local.foo.box.example.com".to_string(),
            "sign foo.box.example.com local.foo.box.example.com".to_string(),
            "save".to_string(),
        ]
    );
}

#[test]
fn first_domain_publication_failure_aborts_everything() {
    let mut flow = start_flow();
    flow = flow.step(IssuanceEvent::AccountRegistered);
    flow = flow.step(IssuanceEvent::ChallengeReady { signature: "sig".to_string() });
    assert!(matches!(
        flow.next_action(),
        Some(IssuanceAction::PublishChallenge { .. })
    ));
    flow = flow.step(IssuanceEvent::PublicationFailed {
        error: TunnelClientError::RejectedRequest { status: 404 },
    });
    // The abort is final: the local-facing domain is never fetched and no
    // artifact is written, whatever happens afterwards.
    assert!(flow.next_action().is_none());
    assert!(matches!(
        flow.phase,
        IssuancePhase::Failed { error: TunnelClientError::RejectedRequest { status: 404 } }
    ));
    flow = flow.step(IssuanceEvent::ChallengeValidated);
    flow = flow.step(IssuanceEvent::CertificateSigned);
    assert!(flow.next_action().is_none());
    assert!(matches!(flow.phase, IssuancePhase::Failed { .. }));
}

#[test]
fn missing_challenge_aborts_with_no_challenge_available() {
    let mut flow = start_flow();
    flow = flow.step(IssuanceEvent::AccountRegistered);
    flow = flow.step(IssuanceEvent::ChallengeMissing);
    assert!(flow.next_action().is_none());
    assert!(matches!(
        flow.phase,
        IssuancePhase::Failed { error: TunnelClientError::NoChallengeAvailable }
    ));
}

#[test]
fn second_domain_validation_failure_aborts_without_signing() {
    let mut flow = start_flow();
    flow = flow.step(IssuanceEvent::AccountRegistered);
    flow = flow.step(IssuanceEvent::ChallengeReady { signature: "s1".to_string() });
    flow = flow.step(IssuanceEvent::ChallengePublished);
    flow = flow.step(IssuanceEvent::ChallengeValidated);
    flow = flow.step(IssuanceEvent::ChallengeReady { signature: "s2".to_string() });
    flow = flow.step(IssuanceEvent::ChallengePublished);
    flow = flow.step(IssuanceEvent::ValidationRejected { detail: "nope".to_string() });
    // The certificate is never requested and nothing is written.
    assert!(flow.next_action().is_none());
    assert!(matches!(
        flow.phase,
        IssuancePhase::Failed { error: TunnelClientError::AcmeProtocolError { .. } }
    ));
    flow = flow.step(IssuanceEvent::CertificateSigned);
    flow = flow.step(IssuanceEvent::ArtifactsSaved);
    assert!(flow.next_action().is_none());
    assert!(matches!(flow.phase, IssuancePhase::Failed { .. }));
}

#[test]
fn account_rejection_is_an_acme_protocol_error() {
    let mut flow = start_flow();
    flow = flow.step(IssuanceEvent::AccountRejected { detail: "boom".to_string() });
    match flow.phase {
        IssuancePhase::Failed { error: TunnelClientError::AcmeProtocolError { detail } } => {
            assert_eq!(detail, "boom");
        }
        other => panic!("expected an acme protocol failure, got {:?}", other),
    }
}

#[test]
fn an_event_that_answers_nothing_changes_nothing() {
    let flow = start_flow();
    let flow = flow.step(IssuanceEvent::CertificateSigned);
    assert!(matches!(flow.phase, IssuancePhase::AwaitingAccount));
    assert!(matches!(flow.next_action(), Some(IssuanceAction::RegisterAccount)));
}
