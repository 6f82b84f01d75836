use crate::registry::Registry;
use crate::singleton::resolve_step;
use crate::singleton::Singleton;
use crate::singleton::SingletonState;
use crate::singleton::SingletonView;
use vstd::prelude::*;

verus! {

/// The payload of a [`PreemptiveSingleton`]: the value together with the
/// identity of the thread that created it.
pub struct PreemptiveInner<T> {
    /// Identity of the owning thread, recorded at the moment of first
    /// initialization. Thread identities are carried as plain numbers; the
    /// caller supplies its own identity with every access.
    pub thread_id: u64,
    /// The value itself, readable only by the owning thread.
    pub data: T,
}

/// What a query by thread `tid` observes on a cell whose inner view is `s`:
/// the stored value if the cell is ready and `tid` is the recorded owner, and
/// absence otherwise — a non-owning thread is shown exactly what an
/// uninitialized cell would show it.
pub open spec fn owner_view<T>(s: SingletonView<PreemptiveInner<T>>, tid: u64) -> Option<T> {
    match s.current() {
        Some(inner) => if inner.thread_id == tid {
            Some(inner.data)
        } else {
            None
        },
        None => None,
    }
}

/// A cell holding zero-or-one value of type `T` whose value, once created by
/// a given thread, is accessible only to that same thread.
///
/// The cell wraps a [`Singleton`] whose payload pairs the value with the
/// identity of the initializing thread. Every access carries the calling
/// thread's identity as a plain number (`tid`); resolving the cell from a
/// thread other than the recorded owner is a contract violation and is
/// therefore excluded by the operations' preconditions, while a mere query
/// from such a thread observes absence.
pub struct PreemptiveSingleton<T> {
    singleton: Singleton<PreemptiveInner<T>>,
}

impl<T> View for PreemptiveSingleton<T> {
    type V = SingletonView<PreemptiveInner<T>>;

    closed spec fn view(&self) -> SingletonView<PreemptiveInner<T>> {
        self.singleton@
    }
}

impl<T> PreemptiveSingleton<T> {
    /// Validity of the cell; see [`SingletonView::inv`].
    pub open spec fn inv(&self) -> bool {
        self@.inv()
    }

    /// The recorded owner: whoever initialized the cell may access it.
    pub open spec fn owned_by(&self, tid: u64) -> bool {
        self@.state == SingletonState::Ready ==> self@.value->Some_0.thread_id == tid
    }

    /// Create an uninitialized preemptive singleton.
    pub fn new() -> (r: Self)
        ensures
            r.inv(),
            r@.state == SingletonState::Initial,
            r@.value is None,
            r@.init_runs == 0,
    {
        PreemptiveSingleton { singleton: Singleton::new() }
    }

    /// Access the singleton from the thread with identity `tid`; initialize
    /// it with `Default::default()` if it is uninitialized. Accessing a cell
    /// another thread initialized is a contract violation.
    pub fn get(&mut self, tid: u64) -> (r: &T) where T: Default
        requires
            old(self).inv(),
            old(self)@.state != SingletonState::Finalized,
            old(self).owned_by(tid),
        ensures
            final(self).inv(),
            final(self).owned_by(tid),
            owner_view(final(self)@, tid) == Some(*r),
            old(self)@.state == SingletonState::Ready ==> final(self)@ == old(self)@,
            old(self)@.state == SingletonState::Initial ==> call_ensures(T::default, (), *r)
                && final(self)@.init_runs == old(self)@.init_runs + 1,
    {
        self.get_or_insert_with(tid, T::default)
    }

    /// Query the singleton from the thread with identity `tid`: return the
    /// value if this thread initialized it, and `None` if the cell is not yet
    /// initialized, already finalized, or owned by another thread — a
    /// non-owning thread cannot tell an occupied cell from an empty one.
    pub fn get_opt(&self, tid: u64) -> (r: Option<&T>)
        requires
            self.inv(),
        ensures
            match r {
                Some(v) => owner_view(self@, tid) == Some(*v),
                None => owner_view(self@, tid) is None,
            },
    {
        if let Some(pre_ref) = self.singleton.get_opt() {
            if pre_ref.thread_id == tid {
                return Some(&pre_ref.data);
            }
        }
        None
    }

    /// Access the singleton from the thread with identity `tid`; initialize
    /// it with a custom function if it is uninitialized, recording `tid` as
    /// the owner. Accessing a cell another thread initialized is a contract
    /// violation.
    pub fn get_or_insert_with<F: FnOnce() -> T>(&mut self, tid: u64, f: F) -> (r: &T)
        requires
            old(self).inv(),
            old(self)@.state != SingletonState::Finalized,
            old(self).owned_by(tid),
            call_requires(f, ()),
        ensures
            final(self).inv(),
            final(self).owned_by(tid),
            owner_view(final(self)@, tid) == Some(*r),
            old(self)@.state == SingletonState::Ready ==> final(self)@ == old(self)@,
            old(self)@.state == SingletonState::Initial ==> call_ensures(f, (), *r)
                && final(self)@.init_runs == old(self)@.init_runs + 1,
    {
        let tag = move || -> (inner: PreemptiveInner<T>)
            requires
                call_requires(f, ()),
            ensures
                inner.thread_id == tid,
                call_ensures(f, (), inner.data),
            { PreemptiveInner { thread_id: tid, data: f() } };
        let pre_ref = self.singleton.get_or_insert_with(tag);
        if pre_ref.thread_id == tid {
            &pre_ref.data
        } else {
            // Unreachable: the owner precondition rules the mismatch out, so
            // the fatal occupied-cell violation cannot arise here.
            vstd::pervasive::unreached()
        }
    }

    /// Access the singleton as [`PreemptiveSingleton::get_or_insert_with`]
    /// does and, on the initializing path only, register the destructor entry
    /// `entry` with the finalization registry, so that the freshly created
    /// allocation is reclaimed at process exit even if the cell is never
    /// explicitly finalized. An access that finds the cell ready leaves the
    /// registry untouched.
    pub fn get_or_insert_registered<F: FnOnce() -> T>(
        &mut self,
        tid: u64,
        f: F,
        registry: &mut Registry,
        entry: u64,
    ) -> (r: &T)
        requires
            old(self).inv(),
            old(self)@.state != SingletonState::Finalized,
            old(self).owned_by(tid),
            call_requires(f, ()),
            old(registry).inv(),
            !old(registry)@.fired,
        ensures
            final(self).inv(),
            final(registry).inv(),
            final(self).owned_by(tid),
            owner_view(final(self)@, tid) == Some(*r),
            old(self)@.state == SingletonState::Ready ==> final(self)@ == old(self)@
                && final(registry)@ == old(registry)@,
            old(self)@.state == SingletonState::Initial ==> call_ensures(f, (), *r)
                && final(self)@.init_runs == old(self)@.init_runs + 1
                && crate::registry::register_step(
                old(registry)@,
                final(registry)@,
                entry,
                old(registry)@.entries.len() == 0,
            ),
    {
        let tag = move || -> (inner: PreemptiveInner<T>)
            requires
                call_requires(f, ()),
            ensures
                inner.thread_id == tid,
                call_ensures(f, (), inner.data),
            { PreemptiveInner { thread_id: tid, data: f() } };
        let pre_ref = self.singleton.get_or_insert_registered(tag, registry, entry);
        if pre_ref.thread_id == tid {
            &pre_ref.data
        } else {
            // Unreachable: the owner precondition rules the mismatch out, so
            // the fatal occupied-cell violation cannot arise here.
            vstd::pervasive::unreached()
        }
    }

    /// The cell's current phase, as a caller about to resolve the cell must
    /// inspect it: resolving a finalized cell is a contract violation.
    pub fn state(&self) -> (s: SingletonState)
        ensures
            s == self@.state,
    {
        self.singleton.state()
    }

    /// The recorded owner's identity, if the cell holds a value. A caller
    /// about to resolve the cell must inspect it: resolving a cell another
    /// thread initialized is a contract violation.
    pub fn owner(&self) -> (o: Option<u64>)
        requires
            self.inv(),
        ensures
            match o {
                Some(tid) => self@.state == SingletonState::Ready && self@.value->Some_0.thread_id
                    == tid,
                None => self@.state != SingletonState::Ready,
            },
    {
        match self.singleton.get_opt() {
            Some(pre_ref) => Some(pre_ref.thread_id),
            None => None,
        }
    }

    /// Put the singleton into a finalized state, dropping the value if one is
    /// held; on a cell that holds no value this is a no-op, so finalizing is
    /// idempotent and permitted from any thread.
    pub fn finalize(&mut self)
        requires
            old(self).inv(),
        ensures
            final(self).inv(),
            final(self)@.value is None,
            final(self)@.init_runs == old(self)@.init_runs,
            old(self)@.state == SingletonState::Ready ==> final(self)@.state
                == SingletonState::Finalized,
            old(self)@.state != SingletonState::Ready ==> final(self)@ == old(self)@,
    {
        let held = self.singleton.get_opt().is_some();
        if held {
            self.singleton.finalize();
        }
    }
}

impl<T> Default for PreemptiveSingleton<T> {
    /// Create an uninitialized preemptive singleton, exactly as
    /// [`PreemptiveSingleton::new`] does.
    fn default() -> (r: Self)
        ensures
            r.inv(),
            r@.state == SingletonState::Initial,
            r@.value is None,
            r@.init_runs == 0,
    {
        PreemptiveSingleton::new()
    }
}

/// Law: the thread that first resolves an exclusive cell becomes its owner;
/// its own queries observe the value it stored, while a query by any other
/// thread observes absence, indistinguishably from an uninitialized cell.
pub proof fn lemma_owner_exclusive<T>(
    s0: SingletonView<PreemptiveInner<T>>,
    s1: SingletonView<PreemptiveInner<T>>,
    inner: PreemptiveInner<T>,
    other: u64,
)
    requires
        s0.state == SingletonState::Initial,
        resolve_step(s0, s1, inner),
        other != inner.thread_id,
    ensures
        owner_view(s1, inner.thread_id) == Some(inner.data),
        owner_view(s1, other) is None,
        owner_view(s0, other) == owner_view(s1, other),
{
}

/// Law: once an exclusive cell is finalized, every thread's query — the
/// owner's included — observes absence.
pub proof fn lemma_finalized_exclusive_observes_absent<T>(
    s: SingletonView<PreemptiveInner<T>>,
    tid: u64,
)
    requires
        s.inv(),
        s.state == SingletonState::Finalized,
    ensures
        owner_view(s, tid) is None,
{
}

/// Law: once the owner holds the cell, its repeated resolutions keep
/// returning the identical stored value and leave the cell untouched.
pub proof fn lemma_owner_keeps_access<T>(
    s1: SingletonView<PreemptiveInner<T>>,
    s2: SingletonView<PreemptiveInner<T>>,
    first: PreemptiveInner<T>,
    again: PreemptiveInner<T>,
)
    requires
        s1.state == SingletonState::Ready,
        s1.value == Some(first),
        resolve_step(s1, s2, again),
    ensures
        again == first,
        s2 == s1,
        owner_view(s2, first.thread_id) == Some(first.data),
{
}

} // verus!
