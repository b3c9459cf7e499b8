//! What installing and uninstalling do to the three resources they touch,
//! stated over a model of them and proved of the steps in
//! [`crate::lifecycle`].
//!
//! The model takes an action that is reported done to have had its effect,
//! and one that is reported failed to have changed nothing.

use crate::config::ConfigView;
use crate::error::ErrorView;
use crate::lifecycle::{
    advanced, install_started, uninstall_started, ActionView, OutcomeView, StepView,
};
use crate::thumbprint::thumbprint_of;
use vstd::prelude::*;

verus! {

/// The resources that have to agree.
pub struct World {
    /// The key and the certificate of the root on disk, in PEM, if they are
    /// there.
    pub key_material: Option<(Seq<char>, Seq<char>)>,
    /// The thumbprints of the certificates in the system trust store.
    pub trusted: Set<Seq<char>>,
    /// The identity in storage.
    pub identity: ConfigView,
}

/// The world after `action` was performed and went as `outcome` says.
pub open spec fn performed(world: World, action: ActionView, outcome: OutcomeView) -> World {
    match outcome {
        OutcomeView::Failed(_) => world,
        OutcomeView::Done => match action {
            ActionView::PersistKeyMaterial { key_pem, cert_pem } => World {
                key_material: Some((key_pem, cert_pem)),
                ..world
            },
            ActionView::AddToTrustStore { cert_der } => World {
                trusted: world.trusted.insert(thumbprint_of(cert_der)),
                ..world
            },
            ActionView::RemoveFromTrustStore { thumbprint } => World {
                trusted: world.trusted.remove(thumbprint),
                ..world
            },
            ActionView::DeleteKeyMaterial => World { key_material: None, ..world },
            ActionView::SaveIdentity { identity } => World { identity, ..world },
        },
    }
}

/// An operation carried on from `step` with `outcomes` reported one after the
/// other: the world it leaves, and its result if it came to its end.
pub open spec fn run(world: World, step: StepView, outcomes: Seq<OutcomeView>) -> (
    World,
    Option<Result<(), ErrorView>>,
)
    decreases outcomes.len(),
{
    match step {
        StepView::Finished { result } => (world, Some(result)),
        StepView::Next { state, action } => if outcomes.len() == 0 {
            (world, None)
        } else {
            run(
                performed(world, action, outcomes[0]),
                advanced(state, outcomes[0]),
                outcomes.drop_first(),
            )
        },
    }
}

/// Whether the root whose certificate is `cert_der` is installed: its key
/// material is on disk, its certificate is in the trust store, and its
/// thumbprint is recorded.
pub open spec fn installed(world: World, cert_der: Seq<u8>) -> bool {
    &&& world.key_material is Some
    &&& world.trusted.contains(thumbprint_of(cert_der))
    &&& world.identity.thumbprint == Some(thumbprint_of(cert_der))
}

/// Whether no root is installed: there is no key material on disk and no
/// thumbprint recorded.
pub open spec fn absent(world: World) -> bool {
    world.key_material is None && world.identity.thumbprint is None
}

/// Whether what the identity records is in the trust store: the library never
/// believes installed what did not reach the trust store.
pub open spec fn record_backed(world: World) -> bool {
    world.identity.thumbprint matches Some(thumbprint) ==> world.trusted.contains(thumbprint)
}

/// Three actions that all went well.
pub open spec fn all_done() -> Seq<OutcomeView> {
    seq![OutcomeView::Done, OutcomeView::Done, OutcomeView::Done]
}

/// An install in which every action goes well succeeds, and leaves the key
/// material on disk, the certificate in the trust store and its thumbprint
/// recorded. An uninstall that follows it, and goes well too, succeeds and
/// leaves no thumbprint recorded, no key material on disk and the certificate
/// out of the trust store; the attributes of the identity are as they were.
pub proof fn install_then_uninstall_restores(
    world: World,
    identity: ConfigView,
    key_pem: Seq<char>,
    cert_pem: Seq<char>,
    cert_der: Seq<u8>,
)
    ensures
        ({
            let after_install = run(
                world,
                install_started(identity, Ok((key_pem, cert_pem, cert_der))),
                all_done(),
            );
            let after_uninstall = run(
                after_install.0,
                uninstall_started(after_install.0.identity),
                all_done(),
            );
            &&& after_install.1 == Some(Ok::<(), ErrorView>(()))
            &&& installed(after_install.0, cert_der)
            &&& after_install.0.key_material == Some((key_pem, cert_pem))
            &&& after_install.0.identity == identity.with_thumbprint(thumbprint_of(cert_der))
            &&& after_uninstall.1 == Some(Ok::<(), ErrorView>(()))
            &&& absent(after_uninstall.0)
            &&& after_uninstall.0.identity == identity.without_thumbprint()
            &&& !after_uninstall.0.trusted.contains(thumbprint_of(cert_der))
        }),
{
    let first = install_started(identity, Ok((key_pem, cert_pem, cert_der)));
    operation_ends_within_three(world, first, all_done());
    let after_install = run(world, first, all_done());
    operation_ends_within_three(
        after_install.0,
        uninstall_started(after_install.0.identity),
        all_done(),
    );
}

/// An uninstall with no thumbprint recorded fails with `NotInstalled` and
/// changes nothing, whatever is reported to it: it asks for no action.
pub proof fn uninstall_without_install_changes_nothing(
    world: World,
    identity: ConfigView,
    outcomes: Seq<OutcomeView>,
)
    requires
        identity.thumbprint is None,
    ensures
        uninstall_started(identity) == (StepView::Finished {
            result: Err(ErrorView::NotInstalled),
        }),
        run(world, uninstall_started(identity), outcomes) == (
            world,
            Some(Err::<(), ErrorView>(ErrorView::NotInstalled)),
        ),
{
}

/// One action performed and the step that follows it; a finished operation
/// stays as it is.
pub open spec fn stepped(at: (World, StepView), outcome: OutcomeView) -> (World, StepView) {
    match at.1 {
        StepView::Finished { .. } => at,
        StepView::Next { state, action } => (
            performed(at.0, action, outcome),
            advanced(state, outcome),
        ),
    }
}

/// The world and the result where an operation stands.
pub open spec fn ended(at: (World, StepView)) -> (World, Option<Result<(), ErrorView>>) {
    match at.1 {
        StepView::Finished { result } => (at.0, Some(result)),
        StepView::Next { .. } => (at.0, None),
    }
}

/// [`run`] written out: no operation takes more than three actions.
pub open spec fn run_three(world: World, step: StepView, outcomes: Seq<OutcomeView>) -> (
    World,
    Option<Result<(), ErrorView>>,
) {
    let start = (world, step);
    if start.1 is Finished || outcomes.len() == 0 {
        ended(start)
    } else {
        let first = stepped(start, outcomes[0]);
        if first.1 is Finished || outcomes.len() == 1 {
            ended(first)
        } else {
            let second = stepped(first, outcomes[1]);
            if second.1 is Finished || outcomes.len() == 2 {
                ended(second)
            } else {
                ended(stepped(second, outcomes[2]))
            }
        }
    }
}

/// An operation is over after three actions at the latest, whatever it is and
/// however its actions go: [`run`] is [`run_three`].
pub proof fn operation_ends_within_three(world: World, step: StepView, outcomes: Seq<OutcomeView>)
    ensures
        run(world, step, outcomes) == run_three(world, step, outcomes),
        outcomes.len() >= 3 ==> run(world, step, outcomes).1 is Some,
{
    reveal_with_fuel(run, 5);
    if outcomes.len() >= 2 {
        assert(outcomes.drop_first()[0] == outcomes[1]);
    }
    if outcomes.len() >= 3 {
        assert(outcomes.drop_first().drop_first()[0] == outcomes[2]);
    }
}

/// An install never leaves a thumbprint recorded that the trust store does
/// not hold: however far it gets and whichever of its actions fails, what the
/// identity records stays backed if it was backed before.
pub proof fn install_keeps_record_backed(
    world: World,
    identity: ConfigView,
    created: Result<(Seq<char>, Seq<char>, Seq<u8>), ErrorView>,
    outcomes: Seq<OutcomeView>,
)
    requires
        record_backed(world),
    ensures
        record_backed(run(world, install_started(identity, created), outcomes).0),
{
    operation_ends_within_three(world, install_started(identity, created), outcomes);
}

/// An install that succeeds has left the key material on disk, the certificate
/// in the trust store and its thumbprint recorded; one that fails, or has not
/// come to its end, has left the identity in storage as it was.
pub proof fn install_records_on_success_only(
    world: World,
    identity: ConfigView,
    created: Result<(Seq<char>, Seq<char>, Seq<u8>), ErrorView>,
    outcomes: Seq<OutcomeView>,
)
    ensures
        ({
            let after = run(world, install_started(identity, created), outcomes);
            if after.1 == Some(Ok::<(), ErrorView>(())) {
                &&& created matches Ok(material)
                &&& after.0.identity == identity.with_thumbprint(thumbprint_of(material.2))
                &&& after.0.trusted.contains(thumbprint_of(material.2))
                &&& after.0.key_material == Some((material.0, material.1))
            } else {
                after.0.identity == world.identity
            }
        }),
{
    operation_ends_within_three(world, install_started(identity, created), outcomes);
}

/// An uninstall clears the thumbprint last. If it succeeds, the thumbprint
/// that was recorded is gone from the identity and from the trust store, and
/// the key material is gone from disk. If it fails, or has not come to its
/// end, the identity in storage is as it was: the handle for a later cleanup
/// is never lost.
pub proof fn uninstall_clears_on_success_only(world: World, outcomes: Seq<OutcomeView>)
    ensures
        ({
            let after = run(world, uninstall_started(world.identity), outcomes);
            if after.1 == Some(Ok::<(), ErrorView>(())) {
                &&& world.identity.thumbprint matches Some(thumbprint)
                &&& after.0.identity == world.identity.without_thumbprint()
                &&& !after.0.trusted.contains(thumbprint)
                &&& after.0.key_material is None
            } else {
                after.0.identity == world.identity
            }
        }),
{
    operation_ends_within_three(world, uninstall_started(world.identity), outcomes);
}

/// The order of an uninstall: it touches the disk only after the trust store
/// let the certificate go. If the removal from the trust store fails, the
/// uninstall fails with what the trust store reported, and the key material
/// and the identity are as they were, so that it can be run again.
pub proof fn uninstall_stops_at_trust_store_failure(
    world: World,
    report: Seq<char>,
    later: Seq<OutcomeView>,
)
    requires
        world.identity.thumbprint is Some,
    ensures
        run(
            world,
            uninstall_started(world.identity),
            seq![OutcomeView::Failed(report)] + later,
        ) == (world, Some(Err::<(), ErrorView>(ErrorView::TrustStore(report)))),
{
    operation_ends_within_three(
        world,
        uninstall_started(world.identity),
        seq![OutcomeView::Failed(report)] + later,
    );
}

/// The order of an install: if the trust store refuses the certificate, the
/// install fails with what the trust store reported and records no
/// thumbprint; the key material stays on disk, where the next install
/// overwrites it.
pub proof fn install_stops_at_trust_store_failure(
    world: World,
    identity: ConfigView,
    key_pem: Seq<char>,
    cert_pem: Seq<char>,
    cert_der: Seq<u8>,
    report: Seq<char>,
    later: Seq<OutcomeView>,
)
    ensures
        run(
            world,
            install_started(identity, Ok((key_pem, cert_pem, cert_der))),
            seq![OutcomeView::Done, OutcomeView::Failed(report)] + later,
        ) == (
            World { key_material: Some((key_pem, cert_pem)), ..world },
            Some(Err::<(), ErrorView>(ErrorView::TrustStore(report))),
        ),
{
    operation_ends_within_three(
        world,
        install_started(identity, Ok((key_pem, cert_pem, cert_der))),
        seq![OutcomeView::Done, OutcomeView::Failed(report)] + later,
    );
}

} // verus!
