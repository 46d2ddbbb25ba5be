//! Spawn sections, which run side by side, and reap passes, which run alone.

use vstd::prelude::*;

verus! {

/// Which sections and passes are under way.
#[verifier::ext_equal]
pub struct SectionsView {
    /// The spawn sections that are open, by their numbers.
    pub open: Set<nat>,
    /// The number of the next spawn section. No number is given twice.
    pub next: nat,
    /// Whether a reap pass is under way.
    pub reaping: bool,
}

impl SectionsView {
    /// No section and no pass so far.
    pub open spec fn fresh() -> Self {
        SectionsView { open: Set::empty(), next: 0, reaping: false }
    }

    /// What always holds: the open sections are finitely many, all of them have been numbered,
    /// and a reap pass excludes them.
    pub open spec fn valid(self) -> bool {
        &&& self.open.finite()
        &&& forall|section: nat| #[trigger] self.open.contains(section) ==> section < self.next
        &&& self.reaping ==> self.open.is_empty()
    }

    /// Whether no spawn section is open and no reap pass under way.
    pub open spec fn idle(self) -> bool {
        !self.reaping && self.open.is_empty()
    }

    /// One more section open.
    pub open spec fn opened(self) -> Self {
        SectionsView { open: self.open.insert(self.next), next: self.next + 1, ..self }
    }

    /// The given section closed.
    pub open spec fn closed(self, section: nat) -> Self {
        SectionsView { open: self.open.remove(section), ..self }
    }
}

/// Admits any number of spawn sections at a time, or one reap pass.
pub struct SpawnSections {
    count: usize,
    reaping: bool,
    open: Ghost<Set<nat>>,
    next: Ghost<nat>,
}

impl View for SpawnSections {
    type V = SectionsView;

    closed spec fn view(&self) -> SectionsView {
        SectionsView { open: self.open@, next: self.next@, reaping: self.reaping }
    }
}

impl SpawnSections {
    #[verifier::type_invariant]
    spec fn counted(self) -> bool {
        &&& self@.valid()
        &&& self.count as nat == self.open@.len()
    }

    /// No section and no pass.
    pub fn new() -> (sections: Self)
        ensures
            sections@ == SectionsView::fresh(),
    {
        SpawnSections {
            count: 0,
            reaping: false,
            open: Ghost(Set::empty()),
            next: Ghost(0),
        }
    }

    /// How many spawn sections are open.
    pub fn open_spawns(&self) -> (count: usize)
        ensures
            count == self@.open.len(),
    {
        proof {
            use_type_invariant(self);
        }
        self.count
    }

    /// Whether a reap pass is under way.
    pub fn is_reaping(&self) -> (reaping: bool)
        ensures
            reaping == self@.reaping,
    {
        self.reaping
    }

    /// Whether no spawn section is open and no reap pass under way.
    pub fn is_idle(&self) -> (idle: bool)
        ensures
            idle == self@.idle(),
    {
        proof {
            use_type_invariant(self);
            if self.count == 0 {
                assert(self.open@.is_empty());
            }
        }
        !self.reaping && self.count == 0
    }

    /// Opens a spawn section beside those that are open already.
    pub(crate) fn open_spawn(&mut self)
        requires
            !old(self)@.reaping,
            old(self)@.open.len() < usize::MAX,
        ensures
            final(self)@ == old(self)@.opened(),
    {
        proof {
            use_type_invariant(&*self);
        }
        *self = SpawnSections {
            count: self.count + 1,
            reaping: false,
            open: Ghost(self.open@.insert(self.next@)),
            next: Ghost(self.next@ + 1),
        };
    }

    /// Closes an open spawn section.
    pub(crate) fn close_spawn(&mut self, Ghost(section): Ghost<nat>)
        requires
            old(self)@.open.contains(section),
        ensures
            final(self)@ == old(self)@.closed(section),
    {
        proof {
            use_type_invariant(&*self);
        }
        *self = SpawnSections {
            count: self.count - 1,
            reaping: self.reaping,
            open: Ghost(self.open@.remove(section)),
            next: Ghost(self.next@),
        };
    }

    /// Starts a reap pass if nothing is under way, and says whether it did.
    pub(crate) fn begin_reap(&mut self) -> (begun: bool)
        ensures
            begun == old(self)@.idle(),
            final(self)@ == if begun {
                SectionsView { reaping: true, ..old(self)@ }
            } else {
                old(self)@
            },
    {
        proof {
            use_type_invariant(&*self);
        }
        if self.is_idle() {
            self.reaping = true;
            true
        } else {
            false
        }
    }

    /// Ends the reap pass, if one is under way.
    pub(crate) fn end_reap(&mut self)
        ensures
            final(self)@ == (SectionsView { reaping: false, ..old(self)@ }),
    {
        proof {
            use_type_invariant(&*self);
        }
        self.reaping = false;
    }
}

/// What a [`SpawnSlot`] stands for.
pub struct SlotView {
    /// Which thread's slot it is. Nothing is known of the number but that the slot keeps it.
    pub id: int,
    /// Whether that thread holds a spawn guard.
    pub held: bool,
}

/// Whether the thread that a slot belongs to holds a spawn guard.
///
/// Each thread has one slot, whatever the number of process managers.
pub struct SpawnSlot {
    held: bool,
    id: Ghost<int>,
}

impl View for SpawnSlot {
    type V = SlotView;

    closed spec fn view(&self) -> SlotView {
        SlotView { id: self.id@, held: self.held }
    }
}

impl SpawnSlot {
    /// The slot of a thread that holds no spawn guard.
    pub fn new() -> (slot: Self)
        ensures
            !slot@.held,
    {
        SpawnSlot { held: false, id: Ghost(arbitrary()) }
    }

    /// Whether the thread holds a spawn guard.
    pub fn is_held(&self) -> (held: bool)
        ensures
            held == self@.held,
    {
        self.held
    }

    /// Notes whether the thread holds a spawn guard.
    pub(crate) fn set(&mut self, held: bool)
        ensures
            final(self)@ == (SlotView { held, ..old(self)@ }),
    {
        self.held = held;
    }
}

} // verus!
