use vstd::prelude::*;

verus! {

/// The mathematical content of a [`Registry`]: the pending destructor
/// entries in registration order, whether the process-exit hook has been
/// installed, and whether it has already fired.
pub struct RegistryView {
    pub entries: Seq<u64>,
    pub hook_installed: bool,
    pub fired: bool,
}

impl RegistryView {
    /// The registry's three-phase lifecycle: no entries and no hook, hook
    /// installed with pending entries, or hook fired with the entries
    /// drained. The hook exists exactly from the first registration on, and
    /// once it has fired nothing is pending any more.
    pub open spec fn inv(self) -> bool {
        &&& self.hook_installed <==> (self.entries.len() > 0 || self.fired)
        &&& self.fired ==> self.entries.len() == 0
    }
}

/// One registration appending `entry`: the order of everything registered
/// earlier is kept, and `install` signals — exactly at the transition out of
/// the empty collection — that the process-exit hook must now be installed.
pub open spec fn register_step(
    pre: RegistryView,
    post: RegistryView,
    entry: u64,
    install: bool,
) -> bool {
    &&& post.entries == pre.entries.push(entry)
    &&& install == (pre.entries.len() == 0)
    &&& post.hook_installed == (pre.hook_installed || install)
    &&& post.fired == pre.fired
}

/// The firing of the process-exit hook: every pending entry is handed out,
/// in registration order, each exactly once, and the registry is left
/// permanently drained.
pub open spec fn drain_step(pre: RegistryView, post: RegistryView, order: Seq<u64>) -> bool {
    &&& order == pre.entries
    &&& post.entries.len() == 0
    &&& post.hook_installed == pre.hook_installed
    &&& post.fired
}

/// A process-wide finalization registry: an ordered collection of destructor
/// entries, each an opaque token standing for one pending deallocation,
/// drained exactly once at normal process exit.
///
/// The registry records the bookkeeping of the exit protocol — what was
/// registered, in what order, whether the exit hook is installed, and whether
/// it has fired. Installing the actual process-exit callback and invoking the
/// destructors behind the tokens is the caller's side of the protocol: it
/// installs the hook when [`Registry::register`] says so, and the hook calls
/// [`Registry::drain`] and destroys the listed entries in the returned order.
pub struct Registry {
    entries: Vec<u64>,
    hook_installed: bool,
    fired: bool,
}

impl View for Registry {
    type V = RegistryView;

    closed spec fn view(&self) -> RegistryView {
        RegistryView {
            entries: self.entries@,
            hook_installed: self.hook_installed,
            fired: self.fired,
        }
    }
}

impl Registry {
    /// Validity of the registry; see [`RegistryView::inv`].
    pub open spec fn inv(&self) -> bool {
        self@.inv()
    }

    /// Create the registry of a fresh process: no entries, no hook installed,
    /// nothing fired.
    pub fn new() -> (r: Self)
        ensures
            r.inv(),
            r@.entries.len() == 0,
            !r@.hook_installed,
            !r@.fired,
    {
        Registry { entries: Vec::new(), hook_installed: false, fired: false }
    }

    /// Append a destructor entry. Returns whether the collection was empty
    /// immediately before this insertion — the one moment at which the caller
    /// must install the process-exit hook. Entries are only ever registered
    /// before the hook fires.
    pub fn register(&mut self, entry: u64) -> (install: bool)
        requires
            old(self).inv(),
            !old(self)@.fired,
        ensures
            final(self).inv(),
            register_step(old(self)@, final(self)@, entry, install),
    {
        let install = self.entries.len() == 0;
        self.entries.push(entry);
        if install {
            self.hook_installed = true;
        }
        install
    }

    /// Drain the registry, as the process-exit hook does exactly once:
    /// return every registered entry, in registration order, and leave the
    /// registry permanently empty.
    pub fn drain(&mut self) -> (order: Vec<u64>)
        requires
            old(self).inv(),
            old(self)@.hook_installed,
            !old(self)@.fired,
        ensures
            final(self).inv(),
            drain_step(old(self)@, final(self)@, order@),
            final(self)@.fired,
    {
        self.fired = true;
        let mut drained: Vec<u64> = Vec::new();
        core::mem::swap(&mut drained, &mut self.entries);
        drained
    }

    /// How many destructor entries are pending.
    pub fn len(&self) -> (n: usize)
        ensures
            n == self@.entries.len(),
    {
        self.entries.len()
    }
}

/// Law: two registrations into an empty registry record both entries, in
/// registration order, and the exit hook hands back exactly those two, first
/// the first, each exactly once; the hook itself is installed exactly once,
/// at the first registration, whatever order the registering cells were
/// declared in.
pub proof fn lemma_exit_hook_runs_in_order(
    r0: RegistryView,
    r1: RegistryView,
    r2: RegistryView,
    r3: RegistryView,
    e1: u64,
    e2: u64,
    i1: bool,
    i2: bool,
    order: Seq<u64>,
)
    requires
        r0.inv(),
        r0.entries.len() == 0,
        !r0.fired,
        register_step(r0, r1, e1, i1),
        register_step(r1, r2, e2, i2),
        drain_step(r2, r3, order),
    ensures
        i1,
        !i2,
        order =~= seq![e1, e2],
        r3.fired,
        r3.entries.len() == 0,
{
}

} // verus!
