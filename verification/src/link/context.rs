//! Contexts: named logical channels that share one physical connector and
//! one physical listener. A context is registered by at most one owner at a
//! time; the owner holds a handle, and giving the handle back frees the name.

use vstd::prelude::*;

verus! {

/// Whether `context` may be registered while the names in `live` are.
pub open spec fn may_register(live: Set<Seq<char>>, context: Seq<char>) -> bool {
    !live.contains(context)
}

/// The live names after `context` was registered.
pub open spec fn after_register(live: Set<Seq<char>>, context: Seq<char>) -> Set<Seq<char>> {
    live.insert(context)
}

/// The live names after the handle of `context` was given back.
pub open spec fn after_release(live: Set<Seq<char>>, context: Seq<char>) -> Set<Seq<char>> {
    live.remove(context)
}

/// While a context's handle is out, the context cannot be registered again;
/// once the handle is back, it can. Other names are not touched by either.
pub proof fn lemma_register_release(live: Set<Seq<char>>, context: Seq<char>, other: Seq<char>)
    requires
        other != context,
    ensures
        !may_register(after_register(live, context), context),
        may_register(after_release(after_register(live, context), context), context),
        may_register(after_register(live, context), other) == may_register(live, other),
        may_register(after_release(live, context), other) == may_register(live, other),
{
}

/// The proof that a context is registered, held by whoever registered it.
/// It cannot be copied: there is one per registration.
#[derive(Debug)]
pub struct ContextHandle {
    context: String,
}

impl View for ContextHandle {
    type V = Seq<char>;

    /// The name of the context.
    closed spec fn view(&self) -> Seq<char> {
        self.context@
    }
}

impl ContextHandle {
    /// The name that tags a connection of this context, so that the far side
    /// can route it.
    pub fn context(&self) -> (name: &String)
        ensures
            name@ == self@,
    {
        &self.context
    }
}

/// The registration table of one dispatcher.
pub struct ContextTable {
    names: Vec<String>,
}

impl ContextTable {
    /// The live names in the order of their registration.
    pub closed spec fn names(&self) -> Seq<Seq<char>> {
        Seq::new(self.names@.len(), |slot: int| self.names@[slot]@)
    }

    /// The names that are registered and not released.
    pub open spec fn live(&self) -> Set<Seq<char>> {
        Set::new(|context: Seq<char>| self.names().contains(context))
    }

    /// The invariant of the table: no name is live twice.
    pub open spec fn wf(&self) -> bool {
        self.names().no_duplicates()
    }

    pub fn new() -> (table: Self)
        ensures
            table.wf(),
            table.live() == Set::<Seq<char>>::empty(),
    {
        let table = ContextTable { names: Vec::new() };
        assert(table.live() =~= Set::<Seq<char>>::empty());
        table
    }

    /// Where `context` stands among the live names.
    fn position(&self, context: &String) -> (place: Option<usize>)
        ensures
            match place {
                Some(slot) => slot < self.names().len() && self.names()[slot as int] == context@,
                None => !self.names().contains(context@),
            },
    {
        let mut slot: usize = 0;
        while slot < self.names.len()
            invariant
                slot <= self.names@.len(),
                forall|earlier: int| 0 <= earlier < slot ==> self.names()[earlier] != context@,
            decreases self.names@.len() - slot,
        {
            if self.names[slot] == *context {
                return Some(slot);
            }
            slot += 1;
        }
        None
    }

    /// Whether `context` is live: a connection that names it is routed to its
    /// owner, and one that names any other context is turned away.
    pub fn accepts(&self, context: &String) -> (live: bool)
        ensures
            live == self.live().contains(context@),
    {
        self.position(context).is_some()
    }

    /// Registers `context`, which must not be live: to register a live
    /// context is an error of the program, not of its input.
    pub fn register(&mut self, context: String) -> (handle: ContextHandle)
        requires
            old(self).wf(),
            may_register(old(self).live(), context@),
        ensures
            final(self).wf(),
            final(self).live() == after_register(old(self).live(), context@),
            handle@ == context@,
    {
        let handle = ContextHandle { context: context.clone() };
        self.names.push(context);
        assert(self.names() =~= old(self).names().push(context@));
        assert(self.live() =~= after_register(old(self).live(), context@)) by {
            assert forall|name: Seq<char>| self.names().contains(name) <==> (old(self).names().contains(name) || name == context@) by {
                if old(self).names().contains(name) {
                    let slot = choose|slot: int|
                        0 <= slot < old(self).names().len() && old(self).names()[slot] == name;
                    assert(self.names()[slot] == name);
                }
                if name == context@ {
                    assert(self.names()[old(self).names().len() as int] == name);
                }
            }
        }
        handle
    }

    /// Registers `context` unless it is live, and says whether it did.
    pub fn try_register(&mut self, context: String) -> (handle: Option<ContextHandle>)
        requires
            old(self).wf(),
        ensures
            final(self).wf(),
            handle is Some <==> may_register(old(self).live(), context@),
            match handle {
                Some(granted) => granted@ == context@ && final(self).live() == after_register(
                    old(self).live(),
                    context@,
                ),
                None => final(self).live() == old(self).live(),
            },
    {
        if self.accepts(&context) {
            None
        } else {
            Some(self.register(context))
        }
    }

    /// Takes a handle back and frees its name for a new registration.
    pub fn release(&mut self, handle: ContextHandle)
        requires
            old(self).wf(),
        ensures
            final(self).wf(),
            final(self).live() == after_release(old(self).live(), handle@),
    {
        match self.position(&handle.context) {
            None => {
                assert(self.live() =~= after_release(old(self).live(), handle@));
            },
            Some(slot) => {
                self.names.remove(slot);
                assert(self.names() =~= old(self).names().remove(slot as int));
                assert(self.live() =~= after_release(old(self).live(), handle@)) by {
                    let before = old(self).names();
                    let after = self.names();
                    assert forall|name: Seq<char>| after.contains(name) <==> (before.contains(name)
                        && name != handle@) by {
                        if after.contains(name) {
                            let place = choose|place: int|
                                0 <= place < after.len() && after[place] == name;
                            if place < slot {
                                assert(before[place] == name);
                            } else {
                                assert(before[place + 1] == name);
                            }
                        }
                        if before.contains(name) && name != handle@ {
                            let place = choose|place: int|
                                0 <= place < before.len() && before[place] == name;
                            if place < slot {
                                assert(after[place] == name);
                            } else {
                                assert(after[place - 1] == name);
                            }
                        }
                    }
                }
            },
        }
    }
}

} // verus!
