use warp_server::account::{
    AccountError, CreateIdentityFlow, Directive, Event, IdentityOutcome, Phase, StoreStatus,
    UnlockOutcome, POLL_INTERVAL_MS,
};
use warp_server::request::CreateIdentityQuery;

/// A secret store held in memory: a fresh store takes any passphrase as
/// its own, a store with a keypair takes only the one it was made with.
struct MemoryStore {
    passphrase: Option<String>,
    has_keypair: bool,
    unlocked: bool,
    sealed: bool,
}

/// An identity subsystem that is unavailable a given number of times.
struct StubIdentity {
    unavailable: u32,
    fail_poll: bool,
    username: Option<String>,
}

struct Run {
    result: Result<String, AccountError>,
    sleeps: Vec<u64>,
    resets: u32,
    unlocked_fresh_store: bool,
}

fn drive(
    store: &mut MemoryStore,
    identity: &mut StubIdentity,
    query: &CreateIdentityQuery,
    poll_limit: Option<u64>,
) -> Run {
    let mut flow = CreateIdentityFlow::new(poll_limit);
    let mut directive = flow.directive();
    let mut sleeps = Vec::new();
    let mut resets = 0;
    let mut unlocked_fresh_store = false;
    loop {
        let event = match directive {
            Directive::ProbeKeypair => Event::KeypairProbed { exists: store.has_keypair },
            Directive::WipeAccountData => {
                resets += 1;
                *store = MemoryStore { passphrase: None, has_keypair: false, unlocked: false, sealed: false };
                Event::AccountDataWiped { ok: true }
            }
            Directive::ReopenStore => Event::StoreReopened { ok: true },
            Directive::RebuildBackends => {
                *identity = StubIdentity { username: None, ..*identity };
                Event::BackendsRebuilt { ok: true }
            }
            Directive::Unlock => {
                let outcome = match &store.passphrase {
                    None => {
                        unlocked_fresh_store = !store.has_keypair;
                        store.passphrase = Some(query.passphrase.clone());
                        UnlockOutcome::Unlocked
                    }
                    Some(p) if *p == query.passphrase => UnlockOutcome::Unlocked,
                    Some(_) => UnlockOutcome::WrongPassphrase,
                };
                store.unlocked = outcome == UnlockOutcome::Unlocked;
                Event::UnlockFinished { outcome }
            }
            Directive::CreateIdentity => {
                store.has_keypair = true;
                identity.username = Some(query.username.clone());
                Event::IdentityCreated { ok: true }
            }
            Directive::QueryIdentity => {
                let outcome = if identity.fail_poll {
                    IdentityOutcome::Failed
                } else if identity.unavailable > 0 {
                    identity.unavailable -= 1;
                    IdentityOutcome::NotYetAvailable
                } else {
                    IdentityOutcome::Ready
                };
                Event::IdentityQueried { outcome }
            }
            Directive::Sleep { millis } => {
                sleeps.push(millis);
                Event::Slept
            }
            Directive::Succeed => {
                let name = identity.username.clone().unwrap();
                return Run { result: Ok(name), sleeps, resets, unlocked_fresh_store };
            }
            Directive::Fail { error, seal } => {
                if seal {
                    store.unlocked = false;
                    store.sealed = true;
                }
                return Run { result: Err(error), sleeps, resets, unlocked_fresh_store };
            }
        };
        directive = flow.step(event);
    }
}

fn empty_store() -> MemoryStore {
    MemoryStore { passphrase: None, has_keypair: false, unlocked: false, sealed: false }
}

fn ready_identity(unavailable: u32) -> StubIdentity {
    StubIdentity { unavailable, fail_poll: false, username: None }
}

fn query(username: &str, passphrase: &str) -> CreateIdentityQuery {
    CreateIdentityQuery {
        username: username.to_string(),
        passphrase: passphrase.to_string(),
        seed_words: "seed seed seed".to_string(),
    }
}

#[test]
fn new_flow_probes_first() {
    let flow = CreateIdentityFlow::new(None);
    assert_eq!(flow.directive(), Directive::ProbeKeypair);
    assert!(!flow.is_finished());
    assert_eq!(flow.store, StoreStatus::Unknown);
}

#[test]
fn existing_keypair_leads_to_reset() {
    let mut flow = CreateIdentityFlow::new(None);
    assert_eq!(flow.step(Event::KeypairProbed { exists: true }), Directive::WipeAccountData);
    assert_eq!(flow.step(Event::AccountDataWiped { ok: true }), Directive::ReopenStore);
    assert_eq!(flow.step(Event::StoreReopened { ok: true }), Directive::RebuildBackends);
    assert_eq!(flow.store, StoreStatus::Fresh);
    assert_eq!(flow.step(Event::BackendsRebuilt { ok: true }), Directive::Unlock);
    assert_eq!(flow.store, StoreStatus::Fresh);
    assert!(flow.overwrote);
}

#[test]
fn failed_delete_does_not_stop_the_reset() {
    let mut flow = CreateIdentityFlow::new(None);
    flow.step(Event::KeypairProbed { exists: true });
    assert_eq!(flow.step(Event::AccountDataWiped { ok: false }), Directive::ReopenStore);
    assert_eq!(flow.step(Event::StoreReopened { ok: true }), Directive::RebuildBackends);
    assert_eq!(flow.store, StoreStatus::Reopened);
    assert!(!flow.wiped);
}

#[test]
fn missing_keypair_goes_straight_to_unlock() {
    let mut flow = CreateIdentityFlow::new(None);
    assert_eq!(flow.step(Event::KeypairProbed { exists: false }), Directive::Unlock);
    assert_eq!(flow.store, StoreStatus::Vacant);
    assert!(!flow.overwrote);
}

#[test]
fn unrelated_event_changes_nothing() {
    let mut flow = CreateIdentityFlow::new(None);
    let before = flow;
    assert_eq!(flow.step(Event::Slept), Directive::ProbeKeypair);
    assert_eq!(flow, before);
}

#[test]
fn each_failure_maps_to_its_error() {
    let mut flow = CreateIdentityFlow::new(None);
    flow.step(Event::KeypairProbed { exists: true });
    flow.step(Event::AccountDataWiped { ok: true });
    assert_eq!(
        flow.step(Event::StoreReopened { ok: false }),
        Directive::Fail { error: AccountError::Storage, seal: false }
    );

    let mut flow = CreateIdentityFlow::new(None);
    flow.step(Event::KeypairProbed { exists: true });
    flow.step(Event::AccountDataWiped { ok: true });
    flow.step(Event::StoreReopened { ok: true });
    assert_eq!(
        flow.step(Event::BackendsRebuilt { ok: false }),
        Directive::Fail { error: AccountError::Construction, seal: false }
    );

    let mut flow = CreateIdentityFlow::new(None);
    flow.step(Event::KeypairProbed { exists: false });
    assert_eq!(
        flow.step(Event::UnlockFinished { outcome: UnlockOutcome::WrongPassphrase }),
        Directive::Fail { error: AccountError::Authentication, seal: false }
    );

    let mut flow = CreateIdentityFlow::new(None);
    flow.step(Event::KeypairProbed { exists: false });
    assert_eq!(
        flow.step(Event::UnlockFinished { outcome: UnlockOutcome::Corrupt }),
        Directive::Fail { error: AccountError::Decode, seal: false }
    );

    let mut flow = CreateIdentityFlow::new(None);
    flow.step(Event::KeypairProbed { exists: false });
    flow.step(Event::UnlockFinished { outcome: UnlockOutcome::Unlocked });
    assert_eq!(
        flow.step(Event::IdentityCreated { ok: false }),
        Directive::Fail { error: AccountError::Creation, seal: false }
    );
    assert!(flow.is_finished());
}

#[test]
fn poll_sleeps_exactly_n_times() {
    for n in [0u32, 1, 3, 10] {
        let mut store = empty_store();
        let mut identity = ready_identity(n);
        let run = drive(&mut store, &mut identity, &query("alice", "pw"), None);
        assert_eq!(run.result, Ok("alice".to_string()));
        assert_eq!(run.sleeps, vec![POLL_INTERVAL_MS; n as usize]);
        assert_eq!(POLL_INTERVAL_MS, 100);
    }
}

#[test]
fn poll_limit_ends_the_wait() {
    let mut store = empty_store();
    let mut identity = ready_identity(5);
    let run = drive(&mut store, &mut identity, &query("alice", "pw"), Some(2));
    assert_eq!(run.result, Err(AccountError::PollLimit));
    assert_eq!(run.sleeps.len(), 2);
    assert!(store.sealed);

    let mut store = empty_store();
    let mut identity = ready_identity(2);
    let run = drive(&mut store, &mut identity, &query("alice", "pw"), Some(2));
    assert_eq!(run.result, Ok("alice".to_string()));
}

#[test]
fn poll_failure_seals_the_store() {
    let mut store = empty_store();
    let mut identity = StubIdentity { unavailable: 0, fail_poll: true, username: None };
    let run = drive(&mut store, &mut identity, &query("alice", "pw"), None);
    assert_eq!(run.result, Err(AccountError::Identity));
    assert!(store.sealed);
    assert!(!store.unlocked);
}

#[test]
fn create_then_overwrite_with_new_username() {
    let mut store = empty_store();
    let mut identity = ready_identity(2);
    let first = drive(&mut store, &mut identity, &query("alice", "correct-horse"), None);
    assert_eq!(first.result, Ok("alice".to_string()));
    assert_eq!(first.resets, 0);

    let mut identity = ready_identity(1);
    let second = drive(&mut store, &mut identity, &query("bob", "correct-horse"), None);
    assert_eq!(second.result, Ok("bob".to_string()));
    assert_eq!(second.resets, 1);
    assert!(second.unlocked_fresh_store);
}

#[test]
fn overwrite_happens_on_every_call() {
    let mut store = empty_store();
    let mut identity = ready_identity(0);
    drive(&mut store, &mut identity, &query("alice", "one"), None);
    for name in ["bob", "carol"] {
        let run = drive(&mut store, &mut identity, &query(name, "two"), None);
        assert_eq!(run.resets, 1);
        assert!(run.unlocked_fresh_store);
        assert_eq!(run.result, Ok(name.to_string()));
    }
}

#[test]
fn overwrite_path_takes_any_passphrase() {
    let mut store = empty_store();
    let mut identity = ready_identity(0);
    drive(&mut store, &mut identity, &query("alice", "correct-horse"), None);
    let run = drive(&mut store, &mut identity, &query("alice", "battery-staple"), None);
    assert_eq!(run.result, Ok("alice".to_string()));
}

#[test]
fn first_time_path_fails_on_mismatched_passphrase() {
    let mut store = MemoryStore {
        passphrase: Some("correct-horse".to_string()),
        has_keypair: false,
        unlocked: false,
        sealed: false,
    };
    let mut identity = ready_identity(0);
    let run = drive(&mut store, &mut identity, &query("alice", "wrong"), None);
    assert_eq!(run.result, Err(AccountError::Authentication));
    assert_eq!(run.resets, 0);
}
