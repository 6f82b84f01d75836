use crate::registry::Registry;
use vstd::prelude::*;

verus! {

/// The phases of a singleton cell's lifetime. Transitions are monotonic:
/// `Initial -> Loading -> Ready -> Finalized` (or `Initial -> Finalized`
/// directly, when a never-initialized cell is torn down). A finalized cell is
/// permanently dead; no transition leads back to an earlier phase.
#[derive(Clone, Copy, Debug, PartialEq, Eq, Structural)]
pub enum SingletonState {
    /// No value has ever been stored.
    Initial,
    /// An initializer is running; the phase is transient and never observable
    /// between calls.
    Loading,
    /// A value is stored and every access yields it.
    Ready,
    /// The value (if any) has been released; the cell is permanently dead.
    Finalized,
}

/// The mathematical content of a [`Singleton`]: its phase, the value it
/// holds, and how often an initializer has run on it.
pub struct SingletonView<T> {
    pub state: SingletonState,
    pub value: Option<T>,
    pub init_runs: nat,
}

impl<T> SingletonView<T> {
    /// Validity of a quiescent cell: the transient `Loading` phase is never
    /// observable, a value is held exactly in the `Ready` phase, and over the
    /// cell's whole lifetime at most one initializer run — hence at most one
    /// live allocation — ever occurs.
    pub open spec fn inv(self) -> bool {
        &&& self.state != SingletonState::Loading
        &&& self.value is Some <==> self.state == SingletonState::Ready
        &&& self.state == SingletonState::Initial ==> self.init_runs == 0
        &&& self.state == SingletonState::Ready ==> self.init_runs == 1
        &&& self.init_runs <= 1
    }

    /// What a non-initializing query observes: the stored value in the
    /// `Ready` phase, absence in every other phase.
    pub open spec fn current(self) -> Option<T> {
        if self.state == SingletonState::Ready {
            self.value
        } else {
            None
        }
    }
}

/// One access resolving a cell to its value `r`: a cell already `Ready` is
/// left exactly as it was, while an `Initial` cell undergoes its single
/// initializer run. Either way the cell ends `Ready` holding `r`.
pub open spec fn resolve_step<T>(pre: SingletonView<T>, post: SingletonView<T>, r: T) -> bool {
    &&& post.state == SingletonState::Ready
    &&& post.value == Some(r)
    &&& pre.state == SingletonState::Ready ==> post == pre
    &&& pre.state == SingletonState::Initial ==> post.init_runs == pre.init_runs + 1
}

/// A cell holding zero-or-one value of type `T`, constructed on first access
/// and handed out by reference afterwards.
///
/// The cell is modelled in its quiescent form: each operation is a single
/// atomic step of the state machine that, in a concurrent setting, the
/// compare-and-swap arbitration serializes. Accessing a finalized cell, and
/// resolving a cell whose state machine has been corrupted, are contract
/// violations and are therefore excluded by the operations' preconditions.
pub struct Singleton<T> {
    state: SingletonState,
    value: Option<T>,
    init_runs: Ghost<nat>,
}

impl<T> View for Singleton<T> {
    type V = SingletonView<T>;

    closed spec fn view(&self) -> SingletonView<T> {
        SingletonView { state: self.state, value: self.value, init_runs: self.init_runs@ }
    }
}

impl<T> Singleton<T> {
    /// Validity of the cell; see [`SingletonView::inv`].
    pub open spec fn inv(&self) -> bool {
        self@.inv()
    }

    /// Create an uninitialized singleton.
    pub fn new() -> (r: Self)
        ensures
            r.inv(),
            r@.state == SingletonState::Initial,
            r@.value is None,
            r@.init_runs == 0,
    {
        Singleton { state: SingletonState::Initial, value: None, init_runs: Ghost(0nat) }
    }

    /// Access the singleton; initialize it with `Default::default()` if it is
    /// uninitialized.
    pub fn get(&mut self) -> (r: &T) where T: Default
        requires
            old(self).inv(),
            old(self)@.state != SingletonState::Finalized,
        ensures
            final(self).inv(),
            resolve_step(old(self)@, final(self)@, *r),
            old(self)@.state == SingletonState::Initial ==> call_ensures(T::default, (), *r),
    {
        self.get_or_insert_with(T::default)
    }

    /// Access the singleton; or return `None` if it is not yet initialized or
    /// already finalized.
    pub fn get_opt(&self) -> (r: Option<&T>)
        requires
            self.inv(),
        ensures
            match r {
                Some(v) => self@.current() == Some(*v),
                None => self@.current() is None,
            },
    {
        match &self.value {
            Some(v) => Some(v),
            None => None,
        }
    }

    /// Access the singleton; initialize it with a custom function if it is
    /// uninitialized. The initializer runs at most once over the cell's whole
    /// lifetime, and every access yields the one stored value.
    pub fn get_or_insert_with<F: FnOnce() -> T>(&mut self, f: F) -> (r: &T)
        requires
            old(self).inv(),
            old(self)@.state != SingletonState::Finalized,
            call_requires(f, ()),
        ensures
            final(self).inv(),
            resolve_step(old(self)@, final(self)@, *r),
            old(self)@.state == SingletonState::Initial ==> call_ensures(f, (), *r),
    {
        if self.state != SingletonState::Ready {
            // Sole-initializer path: the cell is `Initial`, so this access
            // wins the (here: trivial) arbitration and runs the initializer.
            self.state = SingletonState::Loading;
            let v = f();
            self.value = Some(v);
            self.state = SingletonState::Ready;
            proof {
                self.init_runs@ = self.init_runs@ + 1;
            }
        }
        self.value.as_ref().unwrap()
    }

    /// Access the singleton as [`Singleton::get_or_insert_with`] does and, on
    /// the initializing path only, register the destructor entry `entry` with
    /// the finalization registry, so that the freshly created allocation is
    /// reclaimed at process exit even if the cell is never explicitly
    /// finalized. An access that finds the cell ready leaves the registry
    /// untouched.
    pub fn get_or_insert_registered<F: FnOnce() -> T>(
        &mut self,
        f: F,
        registry: &mut Registry,
        entry: u64,
    ) -> (r: &T)
        requires
            old(self).inv(),
            old(self)@.state != SingletonState::Finalized,
            call_requires(f, ()),
            old(registry).inv(),
            !old(registry)@.fired,
        ensures
            final(self).inv(),
            final(registry).inv(),
            resolve_step(old(self)@, final(self)@, *r),
            old(self)@.state == SingletonState::Initial ==> call_ensures(f, (), *r)
                && crate::registry::register_step(
                old(registry)@,
                final(registry)@,
                entry,
                old(registry)@.entries.len() == 0,
            ),
            old(self)@.state == SingletonState::Ready ==> final(registry)@ == old(registry)@,
    {
        if self.state != SingletonState::Ready {
            self.state = SingletonState::Loading;
            let v = f();
            self.value = Some(v);
            registry.register(entry);
            self.state = SingletonState::Ready;
            proof {
                self.init_runs@ = self.init_runs@ + 1;
            }
        }
        self.value.as_ref().unwrap()
    }

    /// The cell's current phase, as a caller about to resolve the cell must
    /// inspect it: resolving a finalized cell is a contract violation.
    pub fn state(&self) -> (s: SingletonState)
        ensures
            s == self@.state,
    {
        self.state
    }

    /// Put the singleton into a finalized state, dropping the value if one is
    /// held. Resolving the cell afterwards is a contract violation; a query
    /// via [`Singleton::get_opt`] reports absence.
    pub fn finalize(&mut self)
        requires
            old(self).inv(),
        ensures
            final(self).inv(),
            final(self)@.state == SingletonState::Finalized,
            final(self)@.value is None,
            final(self)@.init_runs == old(self)@.init_runs,
    {
        self.state = SingletonState::Finalized;
        self.value = None;
    }
}

impl<T> Default for Singleton<T> {
    /// Create an uninitialized singleton, exactly as [`Singleton::new`] does.
    fn default() -> (r: Self)
        ensures
            r.inv(),
            r@.state == SingletonState::Initial,
            r@.value is None,
            r@.init_runs == 0,
    {
        Singleton::new()
    }
}

/// Law: starting from an uninitialized cell, however many accesses resolve
/// the cell one after another, the initializer runs exactly once — only the
/// very first access finds the cell uninitialized.
pub proof fn lemma_initializer_runs_once<T>(
    s0: SingletonView<T>,
    s1: SingletonView<T>,
    s2: SingletonView<T>,
    r1: T,
    r2: T,
)
    requires
        s0.inv(),
        s0.state == SingletonState::Initial,
        resolve_step(s0, s1, r1),
        resolve_step(s1, s2, r2),
    ensures
        s1.init_runs == 1,
        s2.init_runs == 1,
        s2 == s1,
{
}

/// Law: two accesses resolving the same cell yield the identical stored
/// value — the second access returns what the first one did and leaves the
/// cell untouched.
pub proof fn lemma_repeated_access_identical<T>(
    s0: SingletonView<T>,
    s1: SingletonView<T>,
    s2: SingletonView<T>,
    r1: T,
    r2: T,
)
    requires
        resolve_step(s0, s1, r1),
        resolve_step(s1, s2, r2),
    ensures
        r2 == r1,
        s2 == s1,
{
}

/// Law: a query observes absence before the cell is first resolved, and the
/// resolved value — the same one every access returns — afterwards.
pub proof fn lemma_query_tracks_resolution<T>(s0: SingletonView<T>, s1: SingletonView<T>, r: T)
    requires
        s0.state == SingletonState::Initial,
        resolve_step(s0, s1, r),
    ensures
        s0.current() is None,
        s1.current() == Some(r),
{
}

/// Law: once a cell is finalized, a query observes absence, exactly as on a
/// cell that was never initialized.
pub proof fn lemma_finalized_observes_absent<T>(s: SingletonView<T>)
    requires
        s.inv(),
        s.state == SingletonState::Finalized,
    ensures
        s.current() is None,
{
}

} // verus!
