use vstd::prelude::*;

verus! {

/// How long the readiness poll waits between two queries.
pub const POLL_INTERVAL_MS: u64 = 100;

/// Why an identity could not be created.
#[derive(Clone, Copy, Debug, PartialEq, Eq, Structural)]
pub enum AccountError {
    /// The secret store could not be reset or reopened.
    Storage,
    /// The subsystem handles could not be rebuilt.
    Construction,
    /// The passphrase does not open the secret store.
    Authentication,
    /// The secret store's contents could not be decoded.
    Decode,
    /// The identity subsystem refused to create the identity.
    Creation,
    /// The identity subsystem failed while the identity was awaited.
    Identity,
    /// The identity was still not available after the allowed waits.
    PollLimit,
}

/// What unlocking the secret store came to.
#[derive(Clone, Copy, Debug, PartialEq, Eq, Structural)]
pub enum UnlockOutcome {
    Unlocked,
    WrongPassphrase,
    Corrupt,
}

/// What one query for the own identity came to.
#[derive(Clone, Copy, Debug, PartialEq, Eq, Structural)]
pub enum IdentityOutcome {
    Ready,
    NotYetAvailable,
    Failed,
}

/// The result of the work last asked for.
#[allow(inconsistent_fields)]
#[derive(Clone, Copy, Debug, PartialEq, Eq, Structural)]
pub enum Event {
    KeypairProbed { exists: bool },
    /// `ok` holds when the account data is gone, whether it was deleted or
    /// was not there.
    AccountDataWiped { ok: bool },
    StoreReopened { ok: bool },
    BackendsRebuilt { ok: bool },
    UnlockFinished { outcome: UnlockOutcome },
    IdentityCreated { ok: bool },
    IdentityQueried { outcome: IdentityOutcome },
    Slept,
}

/// Where the creation of an identity stands.
#[derive(Clone, Copy, Debug, PartialEq, Eq, Structural)]
pub enum Phase {
    Inspecting,
    Wiping,
    Reopening,
    Rebuilding,
    Unlocking,
    Creating,
    Polling,
    Sleeping,
    Done,
    Failed { error: AccountError },
}

/// What is known of the secret store.
#[derive(Clone, Copy, Debug, PartialEq, Eq, Structural)]
pub enum StoreStatus {
    /// Not yet inspected.
    Unknown,
    /// It holds no keypair.
    Vacant,
    /// It holds the keypair of an earlier account.
    HoldsAccount,
    /// It was reopened after the account data was deleted, and is empty.
    Fresh,
    /// It was reopened although deleting the account data failed, so it may
    /// still hold the earlier account.
    Reopened,
    /// It was unlocked with the given passphrase.
    Unlocked,
    /// It was locked again after a failure while awaiting the identity.
    Sealed,
}

/// The work to do next.
#[derive(Clone, Copy, Debug, PartialEq, Eq, Structural)]
pub enum Directive {
    /// Check whether the secret store holds a keypair.
    ProbeKeypair,
    /// Delete the account data and recreate the storage directory; both
    /// are best effort.
    WipeAccountData,
    /// Open the secret store, creating it when it is missing.
    ReopenStore,
    /// Rebuild all subsystem handles from the current secret store.
    RebuildBackends,
    /// Unlock the secret store with the passphrase.
    Unlock,
    /// Ask the identity subsystem to create the identity.
    CreateIdentity,
    /// Ask the identity subsystem for the own identity.
    QueryIdentity,
    /// Wait before the next query.
    Sleep { millis: u64 },
    /// Hand the identity to the caller.
    Succeed,
    /// Report the error; lock the secret store first when `seal` holds.
    Fail { error: AccountError, seal: bool },
}

/// The decisions of one identity creation.
#[derive(Clone, Copy, Debug, PartialEq, Eq)]
pub struct CreateIdentityFlow {
    pub phase: Phase,
    pub store: StoreStatus,
    /// Whether an existing account was found and is being replaced.
    pub overwrote: bool,
    /// Whether the account data was deleted during the overwrite.
    pub wiped: bool,
    /// How many waits the readiness poll has made.
    pub sleeps: u64,
    /// The most waits allowed; `None` waits without bound.
    pub poll_limit: Option<u64>,
}

/// A flow that has not inspected anything yet.
pub open spec fn start_spec(poll_limit: Option<u64>) -> CreateIdentityFlow {
    CreateIdentityFlow {
        phase: Phase::Inspecting,
        store: StoreStatus::Unknown,
        overwrote: false,
        wiped: false,
        sleeps: 0,
        poll_limit,
    }
}

/// The work that a state asks for.
pub open spec fn directive_of(s: CreateIdentityFlow) -> Directive {
    match s.phase {
        Phase::Inspecting => Directive::ProbeKeypair,
        Phase::Wiping => Directive::WipeAccountData,
        Phase::Reopening => Directive::ReopenStore,
        Phase::Rebuilding => Directive::RebuildBackends,
        Phase::Unlocking => Directive::Unlock,
        Phase::Creating => Directive::CreateIdentity,
        Phase::Polling => Directive::QueryIdentity,
        Phase::Sleeping => Directive::Sleep { millis: POLL_INTERVAL_MS },
        Phase::Done => Directive::Succeed,
        Phase::Failed { error } => Directive::Fail { error, seal: s.store is Sealed },
    }
}

/// Whether the poll may wait once more.
pub open spec fn may_wait(s: CreateIdentityFlow) -> bool {
    match s.poll_limit {
        Some(l) => s.sleeps < l,
        None => true,
    }
}

/// The state after an event. An event that does not answer the work the
/// state asks for leaves it unchanged.
pub open spec fn step_spec(s: CreateIdentityFlow, e: Event) -> CreateIdentityFlow {
    match (s.phase, e) {
        (Phase::Inspecting, Event::KeypairProbed { exists }) => if exists {
            CreateIdentityFlow { phase: Phase::Wiping, store: StoreStatus::HoldsAccount, overwrote: true, ..s }
        } else {
            CreateIdentityFlow { phase: Phase::Unlocking, store: StoreStatus::Vacant, ..s }
        },
        (Phase::Wiping, Event::AccountDataWiped { ok }) => CreateIdentityFlow {
            phase: Phase::Reopening,
            wiped: ok,
            ..s
        },
        (Phase::Reopening, Event::StoreReopened { ok }) => if ok {
            CreateIdentityFlow {
                phase: Phase::Rebuilding,
                store: if s.wiped { StoreStatus::Fresh } else { StoreStatus::Reopened },
                ..s
            }
        } else {
            CreateIdentityFlow { phase: Phase::Failed { error: AccountError::Storage }, ..s }
        },
        (Phase::Rebuilding, Event::BackendsRebuilt { ok }) => if ok {
            CreateIdentityFlow { phase: Phase::Unlocking, ..s }
        } else {
            CreateIdentityFlow { phase: Phase::Failed { error: AccountError::Construction }, ..s }
        },
        (Phase::Unlocking, Event::UnlockFinished { outcome }) => match outcome {
            UnlockOutcome::Unlocked => CreateIdentityFlow { phase: Phase::Creating, store: StoreStatus::Unlocked, ..s },
            UnlockOutcome::WrongPassphrase => CreateIdentityFlow {
                phase: Phase::Failed { error: AccountError::Authentication },
                ..s
            },
            UnlockOutcome::Corrupt => CreateIdentityFlow { phase: Phase::Failed { error: AccountError::Decode }, ..s },
        },
        (Phase::Creating, Event::IdentityCreated { ok }) => if ok {
            CreateIdentityFlow { phase: Phase::Polling, ..s }
        } else {
            CreateIdentityFlow { phase: Phase::Failed { error: AccountError::Creation }, ..s }
        },
        (Phase::Polling, Event::IdentityQueried { outcome }) => match outcome {
            IdentityOutcome::Ready => CreateIdentityFlow { phase: Phase::Done, ..s },
            IdentityOutcome::NotYetAvailable => if may_wait(s) {
                CreateIdentityFlow { phase: Phase::Sleeping, ..s }
            } else {
                CreateIdentityFlow {
                    phase: Phase::Failed { error: AccountError::PollLimit },
                    store: StoreStatus::Sealed,
                    ..s
                }
            },
            IdentityOutcome::Failed => CreateIdentityFlow {
                phase: Phase::Failed { error: AccountError::Identity },
                store: StoreStatus::Sealed,
                ..s
            },
        },
        (Phase::Sleeping, Event::Slept) => CreateIdentityFlow {
            phase: Phase::Polling,
            sleeps: if s.sleeps < u64::MAX { (s.sleeps + 1) as u64 } else { s.sleeps },
            ..s
        },
        _ => s,
    }
}

impl CreateIdentityFlow {
    /// Starts a creation; `poll_limit` bounds the waits for readiness.
    pub fn new(poll_limit: Option<u64>) -> (r: CreateIdentityFlow)
        ensures
            r == start_spec(poll_limit),
    {
        CreateIdentityFlow {
            phase: Phase::Inspecting,
            store: StoreStatus::Unknown,
            overwrote: false,
            wiped: false,
            sleeps: 0,
            poll_limit,
        }
    }

    /// The work to do next.
    pub fn directive(&self) -> (d: Directive)
        ensures
            d == directive_of(*self),
    {
        match self.phase {
            Phase::Inspecting => Directive::ProbeKeypair,
            Phase::Wiping => Directive::WipeAccountData,
            Phase::Reopening => Directive::ReopenStore,
            Phase::Rebuilding => Directive::RebuildBackends,
            Phase::Unlocking => Directive::Unlock,
            Phase::Creating => Directive::CreateIdentity,
            Phase::Polling => Directive::QueryIdentity,
            Phase::Sleeping => Directive::Sleep { millis: POLL_INTERVAL_MS },
            Phase::Done => Directive::Succeed,
            Phase::Failed { error } => Directive::Fail {
                error,
                seal: match self.store {
                    StoreStatus::Sealed => true,
                    _ => false,
                },
            },
        }
    }

    /// Whether the creation has come to an end.
    pub fn is_finished(&self) -> (r: bool)
        ensures
            r == (self.phase is Done || self.phase is Failed),
    {
        match self.phase {
            Phase::Done | Phase::Failed { .. } => true,
            _ => false,
        }
    }

    fn wait_allowed(&self) -> (r: bool)
        ensures
            r == may_wait(*self),
    {
        match self.poll_limit {
            Some(l) => self.sleeps < l,
            None => true,
        }
    }

    /// Takes the result of the work last asked for, and returns the work to
    /// do next.
    pub fn step(&mut self, event: Event) -> (d: Directive)
        ensures
            *final(self) == step_spec(*old(self), event),
            d == directive_of(*final(self)),
    {
        match (self.phase, event) {
            (Phase::Inspecting, Event::KeypairProbed { exists }) => {
                if exists {
                    self.phase = Phase::Wiping;
                    self.store = StoreStatus::HoldsAccount;
                    self.overwrote = true;
                } else {
                    self.phase = Phase::Unlocking;
                    self.store = StoreStatus::Vacant;
                }
            },
            (Phase::Wiping, Event::AccountDataWiped { ok }) => {
                self.phase = Phase::Reopening;
                self.wiped = ok;
            },
            (Phase::Reopening, Event::StoreReopened { ok }) => {
                if ok {
                    self.phase = Phase::Rebuilding;
                    self.store = if self.wiped {
                        StoreStatus::Fresh
                    } else {
                        StoreStatus::Reopened
                    };
                } else {
                    self.phase = Phase::Failed { error: AccountError::Storage };
                }
            },
            (Phase::Rebuilding, Event::BackendsRebuilt { ok }) => {
                if ok {
                    self.phase = Phase::Unlocking;
                } else {
                    self.phase = Phase::Failed { error: AccountError::Construction };
                }
            },
            (Phase::Unlocking, Event::UnlockFinished { outcome }) => match outcome {
                UnlockOutcome::Unlocked => {
                    self.phase = Phase::Creating;
                    self.store = StoreStatus::Unlocked;
                },
                UnlockOutcome::WrongPassphrase => {
                    self.phase = Phase::Failed { error: AccountError::Authentication };
                },
                UnlockOutcome::Corrupt => {
                    self.phase = Phase::Failed { error: AccountError::Decode };
                },
            },
            (Phase::Creating, Event::IdentityCreated { ok }) => {
                if ok {
                    self.phase = Phase::Polling;
                } else {
                    self.phase = Phase::Failed { error: AccountError::Creation };
                }
            },
            (Phase::Polling, Event::IdentityQueried { outcome }) => match outcome {
                IdentityOutcome::Ready => {
                    self.phase = Phase::Done;
                },
                IdentityOutcome::NotYetAvailable => {
                    if self.wait_allowed() {
                        self.phase = Phase::Sleeping;
                    } else {
                        self.phase = Phase::Failed { error: AccountError::PollLimit };
                        self.store = StoreStatus::Sealed;
                    }
                },
                IdentityOutcome::Failed => {
                    self.phase = Phase::Failed { error: AccountError::Identity };
                    self.store = StoreStatus::Sealed;
                },
            },
            (Phase::Sleeping, Event::Slept) => {
                self.phase = Phase::Polling;
                if self.sleeps < u64::MAX {
                    self.sleeps = self.sleeps + 1;
                }
            },
            _ => {},
        }
        self.directive()
    }
}


/// The state after a sequence of events, the first taken first.
pub open spec fn run(s: CreateIdentityFlow, evs: Seq<Event>) -> CreateIdentityFlow
    decreases evs.len(),
{
    if evs.len() == 0 {
        s
    } else {
        run(step_spec(s, evs[0]), evs.drop_first())
    }
}

/// The directives handed out after each event of a sequence.
pub open spec fn directives(s: CreateIdentityFlow, evs: Seq<Event>) -> Seq<Directive>
    decreases evs.len(),
{
    if evs.len() == 0 {
        Seq::<Directive>::empty()
    } else {
        let t = step_spec(s, evs[0]);
        seq![directive_of(t)] + directives(t, evs.drop_first())
    }
}

/// How many of the directives ask for a wait.
pub open spec fn sleep_count(ds: Seq<Directive>) -> nat
    decreases ds.len(),
{
    if ds.len() == 0 {
        0
    } else {
        (if ds[0] is Sleep { 1nat } else { 0nat }) + sleep_count(ds.drop_first())
    }
}

/// The answers of an identity subsystem that is not available `n` times
/// and then ready, with the waits between them.
pub open spec fn poll_events(n: nat) -> Seq<Event>
    decreases n,
{
    if n == 0 {
        seq![Event::IdentityQueried { outcome: IdentityOutcome::Ready }]
    } else {
        seq![Event::IdentityQueried { outcome: IdentityOutcome::NotYetAvailable }, Event::Slept] + poll_events(
            (n - 1) as nat,
        )
    }
}

/// What holds of the secret store in each phase.
pub open spec fn flow_inv(s: CreateIdentityFlow) -> bool {
    &&& !s.overwrote ==> !s.wiped
    &&& s.phase is Inspecting ==> s.store is Unknown && !s.overwrote
    &&& (s.phase is Wiping || s.phase is Reopening) ==> s.store is HoldsAccount && s.overwrote
    &&& s.phase is Wiping ==> !s.wiped
    &&& (s.phase is Rebuilding || s.phase is Unlocking) ==> if s.overwrote {
        if s.wiped { s.store is Fresh } else { s.store is Reopened }
    } else {
        s.store is Vacant
    }
    &&& (s.phase is Creating || s.phase is Polling || s.phase is Sleeping || s.phase is Done)
        ==> s.store is Unlocked
    &&& s.store is Sealed <==> (s.phase matches Phase::Failed { error } && (error is Identity
        || error is PollLimit))
}

proof fn lemma_step_keeps_inv(s: CreateIdentityFlow, e: Event)
    requires
        flow_inv(s),
    ensures
        flow_inv(step_spec(s, e)),
{
}

proof fn lemma_run_keeps_inv(s: CreateIdentityFlow, evs: Seq<Event>)
    requires
        flow_inv(s),
    ensures
        flow_inv(run(s, evs)),
    decreases evs.len(),
{
    if evs.len() > 0 {
        lemma_step_keeps_inv(s, evs[0]);
        lemma_run_keeps_inv(step_spec(s, evs[0]), evs.drop_first());
    }
}

proof fn lemma_run_keeps_overwrote(s: CreateIdentityFlow, evs: Seq<Event>)
    requires
        s.overwrote,
    ensures
        run(s, evs).overwrote,
    decreases evs.len(),
{
    if evs.len() > 0 {
        lemma_run_keeps_overwrote(step_spec(s, evs[0]), evs.drop_first());
    }
}

proof fn lemma_finished_stays(s: CreateIdentityFlow, evs: Seq<Event>)
    requires
        s.phase is Done || s.phase is Failed,
    ensures
        run(s, evs) == s,
    decreases evs.len(),
{
    if evs.len() > 0 {
        lemma_finished_stays(s, evs.drop_first());
    }
}

/// Whatever the collaborators answer, each phase finds the secret store as
/// the flow left it, and the store is sealed exactly when the wait for the
/// identity failed.
pub proof fn flow_invariant_holds(poll_limit: Option<u64>, evs: Seq<Event>)
    ensures
        flow_inv(run(start_spec(poll_limit), evs)),
{
    lemma_run_keeps_inv(start_spec(poll_limit), evs);
}

/// When the secret store held a keypair, the account data is deleted and
/// the store reopened before it is unlocked; when the deletion succeeded,
/// the unlock meets an empty store, never the earlier account. This holds
/// on every call, since each call starts with the probe.
pub proof fn existing_account_is_reset_before_unlock(poll_limit: Option<u64>, evs: Seq<Event>)
    requires
        evs.len() > 0,
        evs[0] == (Event::KeypairProbed { exists: true }),
    ensures
        directive_of(step_spec(start_spec(poll_limit), evs[0])) == Directive::WipeAccountData,
        run(start_spec(poll_limit), evs).overwrote,
        run(start_spec(poll_limit), evs).phase is Unlocking && run(start_spec(poll_limit), evs).wiped
            ==> run(start_spec(poll_limit), evs).store is Fresh,
        run(start_spec(poll_limit), evs).phase is Unlocking ==> !(run(start_spec(poll_limit), evs).store is Unlocked),
{
    let t = step_spec(start_spec(poll_limit), evs[0]);
    lemma_run_keeps_overwrote(t, evs.drop_first());
    lemma_run_keeps_inv(start_spec(poll_limit), evs);
}

/// Two calls in sequence on an existing account both overwrite it: each
/// call runs a flow of its own that starts knowing nothing of the store, so
/// no call unlocks a store that an earlier call left unlocked.
pub proof fn repeated_calls_each_overwrite(poll_limit: Option<u64>, first: Seq<Event>, second: Seq<Event>)
    requires
        first.len() > 0,
        second.len() > 0,
        first[0] == (Event::KeypairProbed { exists: true }),
        second[0] == (Event::KeypairProbed { exists: true }),
    ensures
        run(start_spec(poll_limit), first).overwrote,
        run(start_spec(poll_limit), second).overwrote,
        run(start_spec(poll_limit), second).phase is Unlocking ==> !(run(start_spec(poll_limit), second).store is Unlocked),
{
    existing_account_is_reset_before_unlock(poll_limit, first);
    existing_account_is_reset_before_unlock(poll_limit, second);
}

/// With an identity subsystem that is not available `n` times and then
/// ready, the poll asks for exactly `n` waits and succeeds.
pub proof fn poll_waits_exactly(s: CreateIdentityFlow, n: nat)
    requires
        s.phase is Polling,
        match s.poll_limit {
            Some(l) => s.sleeps + n <= l,
            None => s.sleeps + n <= u64::MAX,
        },
    ensures
        sleep_count(directives(s, poll_events(n))) == n,
        run(s, poll_events(n)).phase is Done,
        run(s, poll_events(n)).sleeps == s.sleeps + n,
    decreases n,
{
    let evs = poll_events(n);
    if n == 0 {
        let t = step_spec(s, evs[0]);
        assert(evs.len() == 1);
        assert(evs.drop_first() =~= Seq::<Event>::empty());
        assert(directives(t, evs.drop_first()) == Seq::<Directive>::empty());
        assert(run(t, evs.drop_first()) == t);
        assert(directives(s, evs) =~= seq![directive_of(t)]);
        assert(seq![directive_of(t)].drop_first() =~= Seq::<Directive>::empty());
        assert(sleep_count(Seq::<Directive>::empty()) == 0);
        assert(sleep_count(directives(s, evs)) == 0);
    } else {
        let rest = poll_events((n - 1) as nat);
        let t1 = step_spec(s, evs[0]);
        let t2 = step_spec(t1, Event::Slept);
        assert(evs.drop_first() =~= seq![Event::Slept] + rest);
        assert(evs.drop_first()[0] == Event::Slept);
        assert(evs.drop_first().drop_first() =~= rest);
        poll_waits_exactly(t2, (n - 1) as nat);
        assert(directives(t1, evs.drop_first()) == seq![directive_of(t2)] + directives(t2, rest));
        assert(run(t1, evs.drop_first()) == run(t2, rest));
        let ds = directives(s, evs);
        assert(ds =~= seq![directive_of(t1)] + (seq![directive_of(t2)] + directives(t2, rest)));
        assert(ds.drop_first() =~= seq![directive_of(t2)] + directives(t2, rest));
        assert(ds.drop_first().drop_first() =~= directives(t2, rest));
        assert(ds[0] is Sleep);
        assert(!(ds.drop_first()[0] is Sleep));
        assert(sleep_count(ds.drop_first()) == sleep_count(directives(t2, rest)));
        assert(sleep_count(ds) == 1 + sleep_count(ds.drop_first()));
    }
}

/// A failure of the identity subsystem while the identity is awaited seals
/// the secret store, reports the failure, and nothing after it changes that.
pub proof fn poll_failure_seals_store(s: CreateIdentityFlow, later: Seq<Event>)
    requires
        s.phase is Polling,
    ensures
        ({
            let t = step_spec(s, Event::IdentityQueried { outcome: IdentityOutcome::Failed });
            &&& t.store is Sealed
            &&& directive_of(t) == (Directive::Fail { error: AccountError::Identity, seal: true })
            &&& run(t, later) == t
        }),
{
    let t = step_spec(s, Event::IdentityQueried { outcome: IdentityOutcome::Failed });
    lemma_finished_stays(t, later);
}

} // verus!
