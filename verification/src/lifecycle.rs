//! Installing and uninstalling the root, one step at a time.
//!
//! Three resources have to agree: the key material on disk, the entry in the
//! system trust store, and the thumbprint recorded in the identity. None of
//! them can be changed from here, and together they cannot be changed at once.
//! So an operation is a small machine: it names the next [`Action`], the caller
//! performs it and reports the [`Outcome`], and [`advance`] names what follows,
//! until the operation is finished.
//!
//! Installing persists the key material first, which is cheap to redo, then
//! adds the certificate to the trust store, and records the thumbprint last.
//! Uninstalling removes the entry from the trust store first, then deletes the
//! key material, and clears the thumbprint last. A step that fails ends the
//! operation; whatever the earlier steps changed stays changed.

use crate::authority::{ca_profile, create_ca, material_of, KeyMaterial};
use crate::config::{Config, ConfigView};
use crate::error::{Error, ErrorView};
use crate::thumbprint::{compute, thumbprint_of};
use crate::x509::{
    certificate_bytes, certificate_pem_text, certificate_view, certified, holds_key, key_bytes,
    key_pem_text, on_curve, self_issued, signed_with, Curve,
};
use rcgen::{Certificate, KeyPair};
use vstd::prelude::*;

verus! {

/// What the caller is to do next.
#[derive(Debug, Clone)]
pub enum Action {
    /// Write the private key and the certificate of the root to their files.
    PersistKeyMaterial { key_pem: String, cert_pem: String },
    /// Add the persisted certificate, whose DER encoding this is, to the
    /// system trust store.
    AddToTrustStore { cert_der: Vec<u8> },
    /// Remove the certificate with this thumbprint from the system trust
    /// store.
    RemoveFromTrustStore { thumbprint: String },
    /// Remove the files of the root.
    DeleteKeyMaterial,
    /// Write this identity to storage.
    SaveIdentity { identity: Config },
}

/// How an action went: done, or failed with what was reported.
#[derive(Debug, Clone)]
pub enum Outcome {
    Done,
    Failed(String),
}

/// Where an operation stands while the caller performs an action.
#[derive(Debug, Clone)]
pub enum State {
    /// Installing: the key material is being persisted.
    Persisting { identity: Config, cert_der: Vec<u8> },
    /// Installing: the certificate is being added to the trust store.
    Trusting { identity: Config, cert_der: Vec<u8> },
    /// Uninstalling: the entry is being removed from the trust store.
    Untrusting { identity: Config },
    /// Uninstalling: the key material is being deleted.
    Deleting { identity: Config },
    /// The identity is being saved, with the thumbprint set or cleared.
    Saving,
}

/// What an operation asks for: an action to perform and the state to come
/// back with, or nothing more.
#[derive(Debug)]
pub enum Step {
    Next { state: State, action: Action },
    Finished { result: Result<(), Error> },
}

/// An [`Action`] with its strings and bytes as sequences.
pub enum ActionView {
    PersistKeyMaterial { key_pem: Seq<char>, cert_pem: Seq<char> },
    AddToTrustStore { cert_der: Seq<u8> },
    RemoveFromTrustStore { thumbprint: Seq<char> },
    DeleteKeyMaterial,
    SaveIdentity { identity: ConfigView },
}

/// An [`Outcome`] with its text as a sequence.
pub enum OutcomeView {
    Done,
    Failed(Seq<char>),
}

/// A [`State`] with its strings and bytes as sequences.
pub enum StateView {
    Persisting { identity: ConfigView, cert_der: Seq<u8> },
    Trusting { identity: ConfigView, cert_der: Seq<u8> },
    Untrusting { identity: ConfigView },
    Deleting { identity: ConfigView },
    Saving,
}

/// A [`Step`] with its strings and bytes as sequences.
pub enum StepView {
    Next { state: StateView, action: ActionView },
    Finished { result: Result<(), ErrorView> },
}

impl View for Action {
    type V = ActionView;

    open spec fn view(&self) -> ActionView {
        match self {
            Action::PersistKeyMaterial { key_pem, cert_pem } => ActionView::PersistKeyMaterial {
                key_pem: key_pem@,
                cert_pem: cert_pem@,
            },
            Action::AddToTrustStore { cert_der } => ActionView::AddToTrustStore {
                cert_der: cert_der@,
            },
            Action::RemoveFromTrustStore { thumbprint } => ActionView::RemoveFromTrustStore {
                thumbprint: thumbprint@,
            },
            Action::DeleteKeyMaterial => ActionView::DeleteKeyMaterial,
            Action::SaveIdentity { identity } => ActionView::SaveIdentity { identity: identity@ },
        }
    }
}

impl View for Outcome {
    type V = OutcomeView;

    open spec fn view(&self) -> OutcomeView {
        match self {
            Outcome::Done => OutcomeView::Done,
            Outcome::Failed(report) => OutcomeView::Failed(report@),
        }
    }
}

impl View for State {
    type V = StateView;

    open spec fn view(&self) -> StateView {
        match self {
            State::Persisting { identity, cert_der } => StateView::Persisting {
                identity: identity@,
                cert_der: cert_der@,
            },
            State::Trusting { identity, cert_der } => StateView::Trusting {
                identity: identity@,
                cert_der: cert_der@,
            },
            State::Untrusting { identity } => StateView::Untrusting { identity: identity@ },
            State::Deleting { identity } => StateView::Deleting { identity: identity@ },
            State::Saving => StateView::Saving,
        }
    }
}

/// The view of a final result.
pub open spec fn result_view(result: Result<(), Error>) -> Result<(), ErrorView> {
    match result {
        Ok(_) => Ok(()),
        Err(e) => Err(e@),
    }
}

impl View for Step {
    type V = StepView;

    open spec fn view(&self) -> StepView {
        match self {
            Step::Next { state, action } => StepView::Next { state: state@, action: action@ },
            Step::Finished { result } => StepView::Finished { result: result_view(*result) },
        }
    }
}

/// How an install starts once the root was created, or could not be: with
/// the key material to persist, or finished with the failure.
pub open spec fn install_started(
    identity: ConfigView,
    created: Result<(Seq<char>, Seq<char>, Seq<u8>), ErrorView>,
) -> StepView {
    match created {
        Ok((key_pem, cert_pem, cert_der)) => StepView::Next {
            state: StateView::Persisting { identity, cert_der },
            action: ActionView::PersistKeyMaterial { key_pem, cert_pem },
        },
        Err(e) => StepView::Finished { result: Err(e) },
    }
}

/// How an uninstall starts: with the removal from the trust store of the
/// thumbprint that is recorded, or, with none recorded, finished at once:
/// there is nothing installed.
pub open spec fn uninstall_started(identity: ConfigView) -> StepView {
    match identity.thumbprint {
        Some(thumbprint) => StepView::Next {
            state: StateView::Untrusting { identity },
            action: ActionView::RemoveFromTrustStore { thumbprint },
        },
        None => StepView::Finished { result: Err(ErrorView::NotInstalled) },
    }
}

/// What follows in `state` once its action went as `outcome` says.
pub open spec fn advanced(state: StateView, outcome: OutcomeView) -> StepView {
    match (state, outcome) {
        (StateView::Persisting { identity, cert_der }, OutcomeView::Done) => StepView::Next {
            state: StateView::Trusting { identity, cert_der },
            action: ActionView::AddToTrustStore { cert_der },
        },
        (StateView::Persisting { .. }, OutcomeView::Failed(report)) => StepView::Finished {
            result: Err(ErrorView::Io(report)),
        },
        (StateView::Trusting { identity, cert_der }, OutcomeView::Done) => StepView::Next {
            state: StateView::Saving,
            action: ActionView::SaveIdentity {
                identity: identity.with_thumbprint(thumbprint_of(cert_der)),
            },
        },
        (StateView::Trusting { .. }, OutcomeView::Failed(report)) => StepView::Finished {
            result: Err(ErrorView::TrustStore(report)),
        },
        (StateView::Untrusting { identity }, OutcomeView::Done) => StepView::Next {
            state: StateView::Deleting { identity },
            action: ActionView::DeleteKeyMaterial,
        },
        (StateView::Untrusting { .. }, OutcomeView::Failed(report)) => StepView::Finished {
            result: Err(ErrorView::TrustStore(report)),
        },
        (StateView::Deleting { identity }, OutcomeView::Done) => StepView::Next {
            state: StateView::Saving,
            action: ActionView::SaveIdentity { identity: identity.without_thumbprint() },
        },
        (StateView::Deleting { .. }, OutcomeView::Failed(report)) => StepView::Finished {
            result: Err(ErrorView::Io(report)),
        },
        (StateView::Saving, OutcomeView::Done) => StepView::Finished { result: Ok(()) },
        (StateView::Saving, OutcomeView::Failed(report)) => StepView::Finished {
            result: Err(ErrorView::Io(report)),
        },
    }
}

/// The stored forms of a key pair and of a certificate: the key in PEM, and
/// the certificate in PEM and in DER.
pub open spec fn stored_forms(key: KeyPair, certificate: Certificate) -> (
    Seq<char>,
    Seq<char>,
    Seq<u8>,
) {
    (
        key_pem_text(key_bytes(key)),
        certificate_pem_text(certificate_bytes(certificate)),
        certificate_bytes(certificate),
    )
}

/// Whether `forms` is a root created for `identity` on `curve`: the stored
/// forms of one key pair and of one certificate, the certificate in PEM being
/// the one in DER. The certificate says what the certificate of a root says
/// and names itself as its issuer; the key is on the curve, and the
/// certificate certifies its public half and is signed with it.
pub open spec fn is_created_root(
    identity: ConfigView,
    curve: Curve,
    forms: (Seq<char>, Seq<char>, Seq<u8>),
) -> bool {
    &&& forms.1 == certificate_pem_text(forms.2)
    &&& certificate_view(forms.2) == certified(ca_profile(identity))
    &&& self_issued(forms.2)
    &&& exists|key: KeyPair, certificate: Certificate|
        forms == #[trigger] stored_forms(key, certificate)
    &&& exists|document: Seq<u8>|
        {
            &&& forms.0 == #[trigger] key_pem_text(document)
            &&& on_curve(document, curve)
            &&& holds_key(forms.2, document)
            &&& signed_with(forms.2, document)
        }
}

/// The key material as [`install_started`] takes it.
pub open spec fn created_view(created: Result<KeyMaterial, Error>) -> Result<
    (Seq<char>, Seq<char>, Seq<u8>),
    ErrorView,
> {
    match created {
        Ok(material) => Ok((material.key_pem@, material.cert_pem@, material.cert_der@)),
        Err(e) => Err(e@),
    }
}

/// Starts an install for `identity`, given how creating the root went.
pub fn begin_install(identity: Config, created: Result<KeyMaterial, Error>) -> (step: Step)
    ensures
        step@ == install_started(identity@, created_view(created)),
{
    match created {
        Ok(material) => Step::Next {
            state: State::Persisting { identity, cert_der: material.cert_der },
            action: Action::PersistKeyMaterial {
                key_pem: material.key_pem,
                cert_pem: material.cert_pem,
            },
        },
        Err(e) => Step::Finished { result: Err(e) },
    }
}

/// Starts an install for `identity`: creates a root on `curve` and asks for
/// its key material to be persisted. If the root cannot be created the
/// install is finished with that failure, which is cryptographic, and nothing
/// was touched.
///
/// Which root is created, and whether one is, is not for this library to
/// say; the step is [`install_started`] of whatever came of it, and what came
/// of it is a failure of the codec or a root as [`is_created_root`] has it.
pub fn install_ca(identity: Config, curve: Curve) -> (step: Step)
    ensures
        exists|created: Result<(Seq<char>, Seq<char>, Seq<u8>), ErrorView>|
            step@ == #[trigger] install_started(identity@, created) && (created matches Err(e)
                ==> e is Crypto) && (created matches Ok(forms) ==> is_created_root(
                identity@,
                curve,
                forms,
            )),
{
    let created = create_ca(&identity, curve);
    let ghost made = created_view(created);
    proof {
        if created is Ok {
            let material = created->Ok_0;
            let (key, certificate) = choose|key: KeyPair, certificate: Certificate|
                material_of(material, key, certificate);
            assert(made == Ok::<(Seq<char>, Seq<char>, Seq<u8>), ErrorView>(
                stored_forms(key, certificate),
            ));
        }
    }
    let step = begin_install(identity, created);
    assert(step@ == install_started(identity@, made));
    step
}

/// Starts an uninstall for `identity`. It takes a recorded thumbprint: with
/// none the uninstall is finished at once with [`Error::NotInstalled`], and
/// no action was asked for.
pub fn uninstall_ca(identity: Config) -> (step: Step)
    ensures
        step@ == uninstall_started(identity@),
{
    let recorded = match &identity.thumbprint {
        Some(thumbprint) => Some(thumbprint.clone()),
        None => None,
    };
    match recorded {
        Some(thumbprint) => Step::Next {
            state: State::Untrusting { identity },
            action: Action::RemoveFromTrustStore { thumbprint },
        },
        None => Step::Finished { result: Err(Error::NotInstalled) },
    }
}

/// Names what follows in `state` once its action went as `outcome` says.
pub fn advance(state: State, outcome: Outcome) -> (step: Step)
    ensures
        step@ == advanced(state@, outcome@),
{
    match (state, outcome) {
        (State::Persisting { identity, cert_der }, Outcome::Done) => {
            let to_add = cert_der.clone();
            Step::Next {
                state: State::Trusting { identity, cert_der },
                action: Action::AddToTrustStore { cert_der: to_add },
            }
        },
        (State::Persisting { .. }, Outcome::Failed(report)) => Step::Finished {
            result: Err(Error::Io(report)),
        },
        (State::Trusting { identity, cert_der }, Outcome::Done) => {
            let thumbprint = compute(cert_der.as_slice());
            Step::Next {
                state: State::Saving,
                action: Action::SaveIdentity { identity: identity.with_thumbprint(thumbprint) },
            }
        },
        (State::Trusting { .. }, Outcome::Failed(report)) => Step::Finished {
            result: Err(Error::TrustStore(report)),
        },
        (State::Untrusting { identity }, Outcome::Done) => Step::Next {
            state: State::Deleting { identity },
            action: Action::DeleteKeyMaterial,
        },
        (State::Untrusting { .. }, Outcome::Failed(report)) => Step::Finished {
            result: Err(Error::TrustStore(report)),
        },
        (State::Deleting { identity }, Outcome::Done) => Step::Next {
            state: State::Saving,
            action: Action::SaveIdentity { identity: identity.without_thumbprint() },
        },
        (State::Deleting { .. }, Outcome::Failed(report)) => Step::Finished {
            result: Err(Error::Io(report)),
        },
        (State::Saving, Outcome::Done) => Step::Finished { result: Ok(()) },
        (State::Saving, Outcome::Failed(report)) => Step::Finished {
            result: Err(Error::Io(report)),
        },
    }
}

} // verus!
