use vstd::prelude::*;

verus! {

#[derive(Clone, Copy, Debug, PartialEq, Eq, Structural)]
pub enum StoreError {
    /// The store was read before a model was put in it.
    NotInitialized,
    /// A second initialisation was attempted; the first model stays.
    AlreadyInitialized,
}

#[derive(Clone, Copy, Debug, PartialEq, Eq, Structural)]
pub enum LoadError {
    /// The persisted model was missing, unreadable or did not deserialise.
    ModelUnavailable,
}

/// A single slot holding the active model. Empty until initialised; after that a
/// replacement swaps the whole model at once.
pub struct ModelStore<M> {
    slot: Option<M>,
}

impl<M> View for ModelStore<M> {
    type V = Option<M>;

    closed spec fn view(&self) -> Option<M> {
        self.slot
    }
}

impl<M> ModelStore<M> {
    /// An empty store: no model is active yet.
    pub fn new() -> (r: Self)
        ensures
            r@ == None::<M>,
    {
        ModelStore { slot: None }
    }

    /// Start-up: a store exists, and the service can serve, only when the persisted model
    /// was loaded.
    pub fn from_loaded(loaded: Option<M>) -> (r: Result<Self, LoadError>)
        ensures
            loaded is None ==> r == Err::<Self, LoadError>(LoadError::ModelUnavailable),
            loaded is Some ==> r is Ok && r->Ok_0@ == loaded,
    {
        match loaded {
            Some(m) => {
                let mut store = Self::new();
                let _ = store.initialize(m);
                Ok(store)
            },
            None => Err(LoadError::ModelUnavailable),
        }
    }

    /// Installs the model loaded at start-up. Only the first call takes effect.
    pub fn initialize(&mut self, model: M) -> (r: Result<(), StoreError>)
        ensures
            old(self)@ is None ==> r is Ok && final(self)@ == Some(model),
            old(self)@ is Some ==> r == Err::<(), StoreError>(StoreError::AlreadyInitialized)
                && final(self)@ == old(self)@,
    {
        if self.slot.is_some() {
            Err(StoreError::AlreadyInitialized)
        } else {
            self.slot = Some(model);
            Ok(())
        }
    }

    /// Whether a model is active, that is whether the service can serve.
    pub fn is_ready(&self) -> (r: bool)
        ensures
            r == self@ is Some,
    {
        self.slot.is_some()
    }

    /// The active model, read-only.
    pub fn get(&self) -> (r: Result<&M, StoreError>)
        ensures
            self@ is None ==> r == Err::<&M, StoreError>(StoreError::NotInitialized),
            self@ is Some ==> r is Ok && *r->Ok_0 == self@->Some_0,
    {
        match &self.slot {
            Some(m) => Ok(m),
            None => Err(StoreError::NotInitialized),
        }
    }

    /// Makes `model` the active model and hands back the one it supersedes.
    pub fn replace(&mut self, model: M) -> (r: Option<M>)
        ensures
            final(self)@ == Some(model),
            r == old(self)@,
    {
        let prev = self.slot.take();
        self.slot = Some(model);
        prev
    }
}

} // verus!
