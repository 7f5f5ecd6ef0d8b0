use vstd::prelude::*;

verus! {

/// The four subsystem handles built together from one secret store.
pub struct BackendParts<I, M, S, C> {
    pub identity: I,
    pub messaging: M,
    pub storage: S,
    pub calling: C,
}

/// The live subsystem handles with the configuration they were built from.
/// Each handle carries the generation it was built in; all four always
/// carry the same one, so they never mix two builds.
pub struct BackendBundle<I, M, S, C, K> {
    identity: (u64, I),
    messaging: (u64, M),
    storage: (u64, S),
    calling: (u64, C),
    config: K,
    generation: u64,
}

impl<I, M, S, C, K> BackendBundle<I, M, S, C, K> {
    /// Every handle carries the generation of the bundle.
    pub closed spec fn consistent(self) -> bool {
        &&& self.identity.0 == self.generation
        &&& self.messaging.0 == self.generation
        &&& self.storage.0 == self.generation
        &&& self.calling.0 == self.generation
    }

    /// The generation of the current build; the first build is generation 0.
    pub closed spec fn spec_generation(self) -> u64 {
        self.generation
    }

    /// The generation tags of the identity, messaging, storage and calling
    /// handles, in that order.
    pub closed spec fn slot_generations(self) -> Seq<u64> {
        seq![self.identity.0, self.messaging.0, self.storage.0, self.calling.0]
    }

    /// The identity handle.
    pub closed spec fn spec_identity(self) -> I {
        self.identity.1
    }

    /// The messaging handle.
    pub closed spec fn spec_messaging(self) -> M {
        self.messaging.1
    }

    /// The storage handle.
    pub closed spec fn spec_storage(self) -> S {
        self.storage.1
    }

    /// The calling handle.
    pub closed spec fn spec_calling(self) -> C {
        self.calling.1
    }

    /// The configuration every build uses.
    pub closed spec fn spec_config(self) -> K {
        self.config
    }

    /// Whether the bundle holds exactly the handles of `parts`.
    pub open spec fn holds(self, parts: BackendParts<I, M, S, C>) -> bool {
        &&& self.spec_identity() == parts.identity
        &&& self.spec_messaging() == parts.messaging
        &&& self.spec_storage() == parts.storage
        &&& self.spec_calling() == parts.calling
    }

    /// Takes the handles of the first build.
    pub fn new(config: K, parts: BackendParts<I, M, S, C>) -> (r: BackendBundle<I, M, S, C, K>)
        ensures
            r.consistent(),
            r.spec_generation() == 0,
            r.holds(parts),
            r.spec_config() == config,
    {
        BackendBundle {
            identity: (0, parts.identity),
            messaging: (0, parts.messaging),
            storage: (0, parts.storage),
            calling: (0, parts.calling),
            config,
            generation: 0,
        }
    }

    /// Replaces all four handles by those of a new build, or, when the build
    /// failed, keeps the bundle as it was and hands the error back.
    pub fn reinit<E>(&mut self, built: Result<BackendParts<I, M, S, C>, E>) -> (r: Result<(), E>)
        requires
            old(self).consistent(),
            old(self).spec_generation() < u64::MAX,
        ensures
            final(self).consistent(),
            match built {
                Ok(parts) => {
                    &&& r is Ok
                    &&& final(self).spec_generation() == old(self).spec_generation() + 1
                    &&& final(self).holds(parts)
                    &&& final(self).spec_config() == old(self).spec_config()
                },
                Err(e) => r == Err::<(), E>(e) && *final(self) == *old(self),
            },
    {
        match built {
            Ok(parts) => {
                let g = self.generation + 1;
                self.identity = (g, parts.identity);
                self.messaging = (g, parts.messaging);
                self.storage = (g, parts.storage);
                self.calling = (g, parts.calling);
                self.generation = g;
                Ok(())
            },
            Err(e) => Err(e),
        }
    }

    /// The generation of the current build.
    pub fn generation(&self) -> (r: u64)
        ensures
            r == self.spec_generation(),
    {
        self.generation
    }

    /// The generation tags of the identity, messaging, storage and calling
    /// handles.
    pub fn handle_generations(&self) -> (r: (u64, u64, u64, u64))
        ensures
            seq![r.0, r.1, r.2, r.3] == self.slot_generations(),
    {
        (self.identity.0, self.messaging.0, self.storage.0, self.calling.0)
    }

    pub fn identity(&self) -> (r: &I)
        ensures
            *r == self.spec_identity(),
    {
        &self.identity.1
    }

    pub fn messaging(&self) -> (r: &M)
        ensures
            *r == self.spec_messaging(),
    {
        &self.messaging.1
    }

    pub fn storage(&self) -> (r: &S)
        ensures
            *r == self.spec_storage(),
    {
        &self.storage.1
    }

    pub fn calling(&self) -> (r: &C)
        ensures
            *r == self.spec_calling(),
    {
        &self.calling.1
    }

    pub fn config(&self) -> (r: &K)
        ensures
            *r == self.spec_config(),
    {
        &self.config
    }
}

/// At every moment the four handles of a bundle carry the generation of
/// the bundle: after a rebuild they are all new, after a failed one all old.
pub proof fn handles_share_generation<I, M, S, C, K>(b: BackendBundle<I, M, S, C, K>)
    requires
        b.consistent(),
    ensures
        b.slot_generations() == seq![b.spec_generation(), b.spec_generation(), b.spec_generation(), b.spec_generation()],
{
}

} // verus!
