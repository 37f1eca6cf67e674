//! The certificate-issuance flow: account registration, then for each of the
//! two derived domains a challenge is fetched, published through the tunnel
//! service and validated, and only when both domains validated is the
//! certificate signed and persisted. The flow is a linear state machine with
//! early abort: its decisions live here and are verified, while the
//! certificate-authority collaborator and the filesystem perform the steps
//! it asks for and feed the outcomes back as events.

use vstd::prelude::*;

use crate::client::TunnelClient;
use crate::error::TunnelClientError;

verus! {

/// The remote-facing domain derived for a logical hostname under a root.
pub open spec fn remote_domain(name: Seq<char>, domain: Seq<char>) -> Seq<char> {
    name + ".box."@ + domain
}

/// The local-facing domain derived for a logical hostname under a root.
pub open spec fn local_domain(name: Seq<char>, domain: Seq<char>) -> Seq<char> {
    "local."@ + name + ".box."@ + domain
}

/// The two fully-qualified domains validated together for one logical name.
pub struct DomainPair {
    pub remote: String,
    pub local: String,
}

/// Derive the domain pair for `name` under `domain`: the remote-facing
/// `name.box.domain` and the local-facing `local.name.box.domain`.
pub fn derive_domain_pair(name: &str, domain: &str) -> (p: DomainPair)
    ensures
        p.remote@ == remote_domain(name@, domain@),
        p.local@ == local_domain(name@, domain@),
{
    let mut remote: String = name.to_owned();
    remote.append(".box.");
    remote.append(domain);
    let mut local: String = "local.".to_owned();
    local.append(name);
    local.append(".box.");
    local.append(domain);
    DomainPair { remote, local }
}

/// Which of the pair's domains a per-domain step concerns. The remote-facing
/// domain is processed first.
#[derive(Clone, Copy, Debug, PartialEq, Eq, Structural)]
pub enum WhichDomain {
    Remote,
    Local,
}

/// Where the flow stands: what it waits for next, or how it ended.
#[derive(Debug)]
pub enum IssuancePhase {
    /// Waiting for the account to be registered with the authority.
    AwaitingAccount,
    /// Waiting for a domain's authorization and its DNS challenge signature.
    AwaitingChallenge { which: WhichDomain },
    /// Waiting for the signature to be published through the tunnel service.
    AwaitingPublication { which: WhichDomain, signature: String },
    /// Waiting for the authority to validate the published challenge.
    AwaitingValidation { which: WhichDomain },
    /// Both domains validated: waiting for the signed certificate.
    AwaitingCertificate,
    /// Waiting for the two artifacts to be written.
    AwaitingPersistence,
    /// Both artifacts exist; nothing more happens.
    Completed,
    /// The flow aborted with the first classified error it met; nothing more
    /// happens.
    Failed { error: TunnelClientError },
}

/// The outcome of a step a collaborator performed, fed back into the flow.
#[derive(Debug)]
pub enum IssuanceEvent {
    AccountRegistered,
    AccountRejected { detail: String },
    /// The domain's authorization offered a DNS challenge; its required TXT
    /// signature value is carried along.
    ChallengeReady { signature: String },
    /// The authorization offered no DNS challenge.
    ChallengeMissing,
    ChallengeRejected { detail: String },
    ChallengePublished,
    /// Publishing through the tunnel service failed with the call executor's
    /// classified error.
    PublicationFailed { error: TunnelClientError },
    ChallengeValidated,
    ValidationRejected { detail: String },
    CertificateSigned,
    SigningRejected { detail: String },
    ArtifactsSaved,
    PersistenceFailed { detail: String },
}

/// What the flow asks its collaborators to do next.
#[derive(Debug)]
pub enum IssuanceAction {
    /// Register (or reuse) an account with the certificate authority.
    RegisterAccount,
    /// Fetch the domain's authorization and compute its DNS challenge
    /// signature.
    FetchChallenge { domain: String },
    /// Publish the signature through the token-gated DNS-configuration
    /// operation of the tunnel service.
    PublishChallenge { signature: String },
    /// Ask the authority to validate the published challenge.
    ValidateChallenge { domain: String },
    /// Request a certificate covering both domains.
    SignCertificate { remote: String, local: String },
    /// Write the certificate chain and the private key under the caller's
    /// destination directory.
    SaveArtifacts,
}

/// A certificate-issuance flow over one derived domain pair.
pub struct Issuance {
    pub domains: DomainPair,
    pub phase: IssuancePhase,
}

/// The flow's transition relation: how one collaborator outcome moves the
/// phase forward, or aborts it. An event that does not answer the phase's
/// pending step changes nothing; `Completed` and `Failed` absorb everything.
pub open spec fn next_phase(phase: IssuancePhase, event: IssuanceEvent) -> IssuancePhase {
    match (phase, event) {
        (IssuancePhase::AwaitingAccount, IssuanceEvent::AccountRegistered) => {
            IssuancePhase::AwaitingChallenge { which: WhichDomain::Remote }
        },
        (IssuancePhase::AwaitingAccount, IssuanceEvent::AccountRejected { detail }) => {
            IssuancePhase::Failed { error: TunnelClientError::AcmeProtocolError { detail } }
        },
        (
            IssuancePhase::AwaitingChallenge { which },
            IssuanceEvent::ChallengeReady { signature },
        ) => IssuancePhase::AwaitingPublication { which, signature },
        (IssuancePhase::AwaitingChallenge { .. }, IssuanceEvent::ChallengeMissing) => {
            IssuancePhase::Failed { error: TunnelClientError::NoChallengeAvailable }
        },
        (IssuancePhase::AwaitingChallenge { .. }, IssuanceEvent::ChallengeRejected { detail }) => {
            IssuancePhase::Failed { error: TunnelClientError::AcmeProtocolError { detail } }
        },
        (IssuancePhase::AwaitingPublication { which, .. }, IssuanceEvent::ChallengePublished) => {
            IssuancePhase::AwaitingValidation { which }
        },
        (
            IssuancePhase::AwaitingPublication { .. },
            IssuanceEvent::PublicationFailed { error },
        ) => IssuancePhase::Failed { error },
        (
            IssuancePhase::AwaitingValidation { which: WhichDomain::Remote },
            IssuanceEvent::ChallengeValidated,
        ) => IssuancePhase::AwaitingChallenge { which: WhichDomain::Local },
        (
            IssuancePhase::AwaitingValidation { which: WhichDomain::Local },
            IssuanceEvent::ChallengeValidated,
        ) => IssuancePhase::AwaitingCertificate,
        (IssuancePhase::AwaitingValidation { .. }, IssuanceEvent::ValidationRejected { detail }) => {
            IssuancePhase::Failed { error: TunnelClientError::AcmeProtocolError { detail } }
        },
        (IssuancePhase::AwaitingCertificate, IssuanceEvent::CertificateSigned) => {
            IssuancePhase::AwaitingPersistence
        },
        (IssuancePhase::AwaitingCertificate, IssuanceEvent::SigningRejected { detail }) => {
            IssuancePhase::Failed { error: TunnelClientError::AcmeProtocolError { detail } }
        },
        (IssuancePhase::AwaitingPersistence, IssuanceEvent::ArtifactsSaved) => {
            IssuancePhase::Completed
        },
        (IssuancePhase::AwaitingPersistence, IssuanceEvent::PersistenceFailed { detail }) => {
            IssuancePhase::Failed { error: TunnelClientError::AcmeProtocolError { detail } }
        },
        (p, _) => p,
    }
}

/// One transition of a whole flow value: the domain pair never changes.
pub open spec fn step_spec(flow: Issuance, event: IssuanceEvent) -> Issuance {
    Issuance { domains: flow.domains, phase: next_phase(flow.phase, event) }
}

/// The step the flow's phase asks for, if it still asks for one.
pub open spec fn action_of(flow: Issuance) -> Option<IssuanceAction> {
    match flow.phase {
        IssuancePhase::AwaitingAccount => Option::Some(IssuanceAction::RegisterAccount),
        IssuancePhase::AwaitingChallenge { which } => Option::Some(
            IssuanceAction::FetchChallenge {
                domain: match which {
                    WhichDomain::Remote => flow.domains.remote,
                    WhichDomain::Local => flow.domains.local,
                },
            },
        ),
        IssuancePhase::AwaitingPublication { signature, .. } => Option::Some(
            IssuanceAction::PublishChallenge { signature },
        ),
        IssuancePhase::AwaitingValidation { which } => Option::Some(
            IssuanceAction::ValidateChallenge {
                domain: match which {
                    WhichDomain::Remote => flow.domains.remote,
                    WhichDomain::Local => flow.domains.local,
                },
            },
        ),
        IssuancePhase::AwaitingCertificate => Option::Some(
            IssuanceAction::SignCertificate {
                remote: flow.domains.remote,
                local: flow.domains.local,
            },
        ),
        IssuancePhase::AwaitingPersistence => Option::Some(IssuanceAction::SaveArtifacts),
        IssuancePhase::Completed => Option::None,
        IssuancePhase::Failed { .. } => Option::None,
    }
}

/// A flow after a sequence of events, one transition per event.
pub open spec fn run_events(flow: Issuance, events: Seq<IssuanceEvent>) -> Issuance
    decreases events.len(),
{
    if events.len() == 0 {
        flow
    } else {
        run_events(step_spec(flow, events[0]), events.drop_first())
    }
}

impl Issuance {
    /// The step the flow asks for next: its pending action, or nothing once
    /// it completed or failed.
    pub fn next_action(&self) -> (r: Option<IssuanceAction>)
        ensures
            r == action_of(*self),
    {
        match &self.phase {
            IssuancePhase::AwaitingAccount => Some(IssuanceAction::RegisterAccount),
            IssuancePhase::AwaitingChallenge { which } => Some(
                IssuanceAction::FetchChallenge {
                    domain: match which {
                        WhichDomain::Remote => self.domains.remote.clone(),
                        WhichDomain::Local => self.domains.local.clone(),
                    },
                },
            ),
            IssuancePhase::AwaitingPublication { signature, .. } => Some(
                IssuanceAction::PublishChallenge { signature: signature.clone() },
            ),
            IssuancePhase::AwaitingValidation { which } => Some(
                IssuanceAction::ValidateChallenge {
                    domain: match which {
                        WhichDomain::Remote => self.domains.remote.clone(),
                        WhichDomain::Local => self.domains.local.clone(),
                    },
                },
            ),
            IssuancePhase::AwaitingCertificate => Some(
                IssuanceAction::SignCertificate {
                    remote: self.domains.remote.clone(),
                    local: self.domains.local.clone(),
                },
            ),
            IssuancePhase::AwaitingPersistence => Some(IssuanceAction::SaveArtifacts),
            IssuancePhase::Completed => None,
            IssuancePhase::Failed { .. } => None,
        }
    }

    /// Feed one collaborator outcome into the flow.
    pub fn step(self, event: IssuanceEvent) -> (r: Self)
        ensures
            r == step_spec(self, event),
    {
        let Issuance { domains, phase } = self;
        let next = match (phase, event) {
            (IssuancePhase::AwaitingAccount, IssuanceEvent::AccountRegistered) => {
                IssuancePhase::AwaitingChallenge { which: WhichDomain::Remote }
            },
            (IssuancePhase::AwaitingAccount, IssuanceEvent::AccountRejected { detail }) => {
                IssuancePhase::Failed { error: TunnelClientError::AcmeProtocolError { detail } }
            },
            (
                IssuancePhase::AwaitingChallenge { which },
                IssuanceEvent::ChallengeReady { signature },
            ) => IssuancePhase::AwaitingPublication { which, signature },
            (IssuancePhase::AwaitingChallenge { .. }, IssuanceEvent::ChallengeMissing) => {
                IssuancePhase::Failed { error: TunnelClientError::NoChallengeAvailable }
            },
            (
                IssuancePhase::AwaitingChallenge { .. },
                IssuanceEvent::ChallengeRejected { detail },
            ) => IssuancePhase::Failed {
                error: TunnelClientError::AcmeProtocolError { detail },
            },
            (
                IssuancePhase::AwaitingPublication { which, .. },
                IssuanceEvent::ChallengePublished,
            ) => IssuancePhase::AwaitingValidation { which },
            (
                IssuancePhase::AwaitingPublication { .. },
                IssuanceEvent::PublicationFailed { error },
            ) => IssuancePhase::Failed { error },
            (
                IssuancePhase::AwaitingValidation { which: WhichDomain::Remote },
                IssuanceEvent::ChallengeValidated,
            ) => IssuancePhase::AwaitingChallenge { which: WhichDomain::Local },
            (
                IssuancePhase::AwaitingValidation { which: WhichDomain::Local },
                IssuanceEvent::ChallengeValidated,
            ) => IssuancePhase::AwaitingCertificate,
            (
                IssuancePhase::AwaitingValidation { .. },
                IssuanceEvent::ValidationRejected { detail },
            ) => IssuancePhase::Failed {
                error: TunnelClientError::AcmeProtocolError { detail },
            },
            (IssuancePhase::AwaitingCertificate, IssuanceEvent::CertificateSigned) => {
                IssuancePhase::AwaitingPersistence
            },
            (IssuancePhase::AwaitingCertificate, IssuanceEvent::SigningRejected { detail }) => {
                IssuancePhase::Failed { error: TunnelClientError::AcmeProtocolError { detail } }
            },
            (IssuancePhase::AwaitingPersistence, IssuanceEvent::ArtifactsSaved) => {
                IssuancePhase::Completed
            },
            (IssuancePhase::AwaitingPersistence, IssuanceEvent::PersistenceFailed { detail }) => {
                IssuancePhase::Failed { error: TunnelClientError::AcmeProtocolError { detail } }
            },
            (p, _) => p,
        };
        Issuance { domains, phase: next }
    }
}

/// Failure is final: a failed flow asks for nothing further, and no sequence
/// of events moves it anywhere. Whatever was already published for an earlier
/// domain stays as it is; nothing is rolled back and nothing new is done.
pub proof fn lemma_failure_is_final(flow: Issuance, events: Seq<IssuanceEvent>)
    requires
        flow.phase matches IssuancePhase::Failed { .. },
    ensures
        run_events(flow, events) == flow,
        action_of(flow) is None,
    decreases events.len(),
{
    if events.len() > 0 {
        assert(step_spec(flow, events[0]) == flow);
        lemma_failure_is_final(flow, events.drop_first());
    }
}

/// Success is terminal too: once both artifacts are written the flow asks
/// for nothing further, and no event moves it — no step is ever performed a
/// second time.
pub proof fn lemma_completion_is_final(flow: Issuance, events: Seq<IssuanceEvent>)
    requires
        flow.phase matches IssuancePhase::Completed,
    ensures
        run_events(flow, events) == flow,
        action_of(flow) is None,
    decreases events.len(),
{
    if events.len() > 0 {
        assert(step_spec(flow, events[0]) == flow);
        lemma_completion_is_final(flow, events.drop_first());
    }
}

/// Whether an event reports the failure of exactly the per-domain step the
/// phase is waiting for: no challenge offered or the challenge rejected
/// while one is awaited, publication refused while publication is awaited,
/// validation rejected while validation is awaited.
pub open spec fn reports_domain_step_failure(phase: IssuancePhase, event: IssuanceEvent) -> bool {
    match (phase, event) {
        (IssuancePhase::AwaitingChallenge { .. }, IssuanceEvent::ChallengeMissing) => true,
        (IssuancePhase::AwaitingChallenge { .. }, IssuanceEvent::ChallengeRejected { .. }) => true,
        (IssuancePhase::AwaitingPublication { .. }, IssuanceEvent::PublicationFailed { .. }) => true,
        (IssuancePhase::AwaitingValidation { .. }, IssuanceEvent::ValidationRejected { .. }) => true,
        _ => false,
    }
}

/// Whichever per-domain step fails, for either domain — no challenge
/// offered, the challenge rejected by the authority, its publication
/// refused by the tunnel service, or its validation rejected — the flow
/// fails at once and stays failed whatever follows: the certificate is
/// never requested and no artifact is ever written.
pub proof fn lemma_any_domain_step_failure_aborts(
    flow: Issuance,
    event: IssuanceEvent,
    events: Seq<IssuanceEvent>,
)
    requires
        reports_domain_step_failure(flow.phase, event),
    ensures
        ({
            let aborted = step_spec(flow, event);
            aborted.phase matches IssuancePhase::Failed { .. } && run_events(aborted, events)
                == aborted && action_of(run_events(aborted, events)) is None
        }),
{
    let aborted = step_spec(flow, event);
    lemma_failure_is_final(aborted, events);
}

/// If the first (remote-facing) domain's challenge publication fails, the
/// flow aborts with exactly the publication's classified error: the second
/// domain's challenge is never fetched, no certificate is requested, no
/// artifact is written, and no later events revive the flow.
pub proof fn lemma_abort_on_first_domain_failure(
    flow: Issuance,
    error: TunnelClientError,
    events: Seq<IssuanceEvent>,
)
    requires
        flow.phase matches IssuancePhase::AwaitingPublication {
            which: WhichDomain::Remote,
            ..
        },
    ensures
        ({
            let aborted = step_spec(flow, IssuanceEvent::PublicationFailed { error });
            aborted.phase == (IssuancePhase::Failed { error }) && run_events(aborted, events)
                == aborted && action_of(run_events(aborted, events)) is None
        }),
{
    let aborted = step_spec(flow, IssuanceEvent::PublicationFailed { error });
    lemma_failure_is_final(aborted, events);
}

/// The full-success path, exactly: when every collaborator outcome is a
/// success, the flow asks for each step once and in order — account
/// registration, then challenge, publication and validation for the
/// remote-facing domain, then the same for the local-facing domain, then
/// signing, then persistence — and completes.
pub proof fn lemma_full_success_trace(flow: Issuance, sig_remote: String, sig_local: String)
    requires
        flow.phase matches IssuancePhase::AwaitingAccount,
    ensures
        ({
            let s1 = step_spec(flow, IssuanceEvent::AccountRegistered);
            let s2 = step_spec(s1, IssuanceEvent::ChallengeReady { signature: sig_remote });
            let s3 = step_spec(s2, IssuanceEvent::ChallengePublished);
            let s4 = step_spec(s3, IssuanceEvent::ChallengeValidated);
            let s5 = step_spec(s4, IssuanceEvent::ChallengeReady { signature: sig_local });
            let s6 = step_spec(s5, IssuanceEvent::ChallengePublished);
            let s7 = step_spec(s6, IssuanceEvent::ChallengeValidated);
            let s8 = step_spec(s7, IssuanceEvent::CertificateSigned);
            let s9 = step_spec(s8, IssuanceEvent::ArtifactsSaved);
            action_of(flow) == Option::Some(IssuanceAction::RegisterAccount) && action_of(s1)
                == Option::Some(
                IssuanceAction::FetchChallenge { domain: flow.domains.remote },
            ) && action_of(s2) == Option::Some(
                IssuanceAction::PublishChallenge { signature: sig_remote },
            ) && action_of(s3) == Option::Some(
                IssuanceAction::ValidateChallenge { domain: flow.domains.remote },
            ) && action_of(s4) == Option::Some(
                IssuanceAction::FetchChallenge { domain: flow.domains.local },
            ) && action_of(s5) == Option::Some(
                IssuanceAction::PublishChallenge { signature: sig_local },
            ) && action_of(s6) == Option::Some(
                IssuanceAction::ValidateChallenge { domain: flow.domains.local },
            ) && action_of(s7) == Option::Some(
                IssuanceAction::SignCertificate {
                    remote: flow.domains.remote,
                    local: flow.domains.local,
                },
            ) && action_of(s8) == Option::Some(IssuanceAction::SaveArtifacts) && action_of(s9)
                is None && s9.phase matches IssuancePhase::Completed
        }),
{
}

impl TunnelClient {
    /// Begin a certificate issuance over the pair derived for `name` under
    /// `domain`. Fails with `MissingToken` before any network or authority
    /// interaction when no token is held; otherwise the flow starts by
    /// asking for account registration.
    pub fn lets_encrypt(&self, domain: &str, name: &str) -> (r: Result<
        Issuance,
        TunnelClientError,
    >)
        ensures
            self.token is None <==> r matches Err(TunnelClientError::MissingToken),
            r matches Err(e) ==> e matches TunnelClientError::MissingToken,
            r matches Ok(flow) ==> flow.phase matches IssuancePhase::AwaitingAccount
                && flow.domains.remote@ == remote_domain(name@, domain@) && flow.domains.local@
                == local_domain(name@, domain@),
    {
        if self.token.is_none() {
            return Err(TunnelClientError::MissingToken);
        }
        Ok(Issuance { domains: derive_domain_pair(name, domain), phase: IssuancePhase::AwaitingAccount })
    }
}

/// The file name the signed certificate chain is written under.
pub fn certificate_file_name() -> (r: &'static str)
    ensures
        r@ == "certificate.pem"@,
{
    "certificate.pem"
}

/// The file name the private key is written under.
pub fn private_key_file_name() -> (r: &'static str)
    ensures
        r@ == "privatekey.pem"@,
{
    "privatekey.pem"
}

} // verus!
