//! The registry that maps each action type to its one handler.

use vstd::prelude::*;

use crate::protocol::ActionType;
use crate::runtime_error::RegistryError;

verus! {

/// The names of the registered action types, in registration order.
pub open spec fn registered_names<H>(entries: Seq<(ActionType, H)>) -> Seq<Seq<char>> {
    entries.map_values(|e: (ActionType, H)| e.0@)
}

/// The handler registered under each action type name.
pub open spec fn handler_map<H>(entries: Seq<(ActionType, H)>) -> Map<Seq<char>, H>
    decreases entries.len(),
{
    if entries.len() == 0 {
        Map::empty()
    } else {
        handler_map(entries.drop_last()).insert(entries.last().0@, entries.last().1)
    }
}

/// Looking an action type up in the entries finds the handler registered under it.
proof fn lemma_handler_map_lookup<H>(entries: Seq<(ActionType, H)>, i: int)
    requires
        0 <= i < entries.len(),
        registered_names(entries).no_duplicates(),
    ensures
        handler_map(entries).contains_key(entries[i].0@),
        handler_map(entries)[entries[i].0@] == entries[i].1,
    decreases entries.len(),
{
    let last = entries.len() - 1;
    if i < last {
        let init = entries.drop_last();
        assert(registered_names(init) =~= registered_names(entries).drop_last());
        assert(registered_names(entries)[i] == entries[i].0@);
        assert(registered_names(entries)[last] == entries[last].0@);
        lemma_handler_map_lookup(init, i);
    }
}

/// The names in the map's domain are exactly the registered names.
proof fn lemma_handler_map_domain<H>(entries: Seq<(ActionType, H)>, name: Seq<char>)
    ensures
        handler_map(entries).contains_key(name) <==> registered_names(entries).contains(name),
    decreases entries.len(),
{
    if entries.len() > 0 {
        let init = entries.drop_last();
        lemma_handler_map_domain(init, name);
        assert(registered_names(init) =~= registered_names(entries).drop_last());
        let names = registered_names(entries);
        if names.contains(name) {
            let j = choose|j: int| 0 <= j < names.len() && names[j] == name;
            if j < names.len() - 1 {
                assert(registered_names(init)[j] == name);
            }
        }
        if registered_names(init).contains(name) {
            let j = choose|j: int| 0 <= j < registered_names(init).len() && registered_names(init)[j] == name;
            assert(names[j] == name);
        }
        assert(names[names.len() - 1] == entries.last().0@);
    }
}

/// A registry of handlers, at most one per action type.
pub struct HandlerRegistry<H> {
    entries: Vec<(ActionType, H)>,
}

impl<H> View for HandlerRegistry<H> {
    type V = Map<Seq<char>, H>;

    closed spec fn view(&self) -> Map<Seq<char>, H> {
        handler_map(self.entries@)
    }
}

impl<H> HandlerRegistry<H> {
    /// Each action type name occurs in at most one entry.
    #[verifier::type_invariant]
    pub closed spec fn wf(&self) -> bool {
        registered_names(self.entries@).no_duplicates()
    }

    /// An empty registry.
    pub fn new() -> (r: Self)
        ensures
            r@ == Map::<Seq<char>, H>::empty(),
    {
        let r = HandlerRegistry { entries: Vec::new() };
        assert(registered_names(r.entries@) =~= Seq::<Seq<char>>::empty());
        r
    }

    /// The index of the entry registered under `action_type`, if any.
    fn find(&self, action_type: &ActionType) -> (r: Option<usize>)
        ensures
            match r {
                Some(i) => i < self.entries@.len() && self.entries@[i as int].0@ == action_type@,
                None => !self@.contains_key(action_type@),
            },
    {
        proof {
            use_type_invariant(self);
        }
        let mut i: usize = 0;
        while i < self.entries.len()
            invariant
                i <= self.entries.len(),
                forall|j: int| 0 <= j < i ==> (#[trigger] self.entries@[j]).0@ != action_type@,
            decreases self.entries.len() - i,
        {
            if self.entries[i].0.same_as(action_type) {
                return Some(i);
            }
            i = i + 1;
        }
        proof {
            lemma_handler_map_domain(self.entries@, action_type@);
            let names = registered_names(self.entries@);
            if names.contains(action_type@) {
                let j = choose|j: int| 0 <= j < names.len() && names[j] == action_type@;
                assert(self.entries@[j].0@ == action_type@);
            }
        }
        None
    }

    /// Registers `handler` for `action_type`; an action type that already has
    /// a handler keeps it, and the registration is refused.
    pub fn register(&mut self, action_type: ActionType, handler: H) -> (r: Result<(), RegistryError>)
        ensures
            old(self)@.contains_key(action_type@) ==> {
                &&& final(self)@ == old(self)@
                &&& r matches Err(RegistryError::AlreadyRegistered { action_type: t })
                &&& t@ == action_type@
            },
            !old(self)@.contains_key(action_type@) ==> {
                &&& r is Ok
                &&& final(self)@ == old(self)@.insert(action_type@, handler)
            },
    {
        proof {
            use_type_invariant(&*self);
        }
        match self.find(&action_type) {
            Some(i) => {
                proof {
                    lemma_handler_map_lookup(self.entries@, i as int);
                }
                Err(RegistryError::AlreadyRegistered { action_type })
            },
            None => {
                let ghost old_entries = self.entries@;
                let ghost name = action_type@;
                proof {
                    lemma_handler_map_domain(old_entries, name);
                }
                let mut entries: Vec<(ActionType, H)> = Vec::new();
                std::mem::swap(&mut entries, &mut self.entries);
                entries.push((action_type, handler));
                proof {
                    assert(entries@.drop_last() =~= old_entries);
                    assert(registered_names(entries@) =~= registered_names(old_entries).push(
                        name,
                    ));
                }
                self.entries = entries;
                Ok(())
            },
        }
    }

    /// The handler registered for `action_type`, if any.
    pub fn get(&self, action_type: &ActionType) -> (r: Option<&H>)
        ensures
            match r {
                Some(h) => self@.contains_key(action_type@) && *h == self@[action_type@],
                None => !self@.contains_key(action_type@),
            },
    {
        proof {
            use_type_invariant(self);
        }
        match self.find(action_type) {
            Some(i) => {
                proof {
                    lemma_handler_map_lookup(self.entries@, i as int);
                }
                Some(&self.entries[i].1)
            },
            None => None,
        }
    }

    /// Whether a handler is registered for `action_type`.
    pub fn contains(&self, action_type: &ActionType) -> (r: bool)
        ensures
            r == self@.contains_key(action_type@),
    {
        proof {
            use_type_invariant(self);
        }
        match self.find(action_type) {
            Some(i) => {
                proof {
                    lemma_handler_map_lookup(self.entries@, i as int);
                }
                true
            },
            None => false,
        }
    }
}

} // verus!
