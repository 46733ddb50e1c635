//! The task registry: the name-to-definition mapping a run reads. It is
//! built once before execution starts and never mutated during a run; the
//! engine only ever looks names up in it, and concurrent branches each get
//! their own copy.

use vstd::prelude::*;

verus! {

use crate::tasks::AlchemistTaskType;
use crate::strutil::clone_string;

/// The first definition stored under `name`, if any.
pub open spec fn lookup(entries: Seq<(String, AlchemistTaskType)>, name: Seq<char>) -> Option<
    AlchemistTaskType,
>
    decreases entries.len(),
{
    if entries.len() == 0 {
        Option::None
    } else if entries[0].0@ == name {
        Option::Some(entries[0].1)
    } else {
        lookup(entries.drop_first(), name)
    }
}

/// Adding an entry never changes what existing names map to: lookup prefers
/// the earliest entry, so a name already bound keeps its definition, and
/// only a fresh name becomes bound to the new one.
pub proof fn lemma_add_keeps_bindings(
    entries: Seq<(String, AlchemistTaskType)>,
    name: String,
    task: AlchemistTaskType,
    k: Seq<char>,
)
    ensures
        lookup(entries.push((name, task)), k) == (if lookup(entries, k) is Some {
            lookup(entries, k)
        } else if name@ == k {
            Option::Some(task)
        } else {
            Option::None::<AlchemistTaskType>
        }),
    decreases entries.len(),
{
    let pushed = entries.push((name, task));
    if entries.len() == 0 {
        assert(pushed[0] == (name, task));
        assert(pushed.drop_first() =~= Seq::<(String, AlchemistTaskType)>::empty());
        if name@ == k {
            assert(lookup(pushed, k) == Option::Some(task));
        } else {
            assert(lookup(pushed, k) == lookup(pushed.drop_first(), k));
        }
    } else {
        lemma_add_keeps_bindings(entries.drop_first(), name, task, k);
        assert(pushed[0] == entries[0]);
        assert(pushed.drop_first() =~= entries.drop_first().push((name, task)));
        if entries[0].0@ == k {
            assert(lookup(pushed, k) == Option::Some(entries[0].1));
            assert(lookup(entries, k) == Option::Some(entries[0].1));
        } else {
            assert(lookup(pushed, k) == lookup(pushed.drop_first(), k));
            assert(lookup(entries, k) == lookup(entries.drop_first(), k));
        }
    }
}

/// The registry of task definitions, keyed by task name.
pub struct AlchemistConfig {
    pub tasks: Vec<(String, AlchemistTaskType)>,
}

impl AlchemistConfig {
    /// What the registry maps `name` to.
    pub open spec fn spec_get(&self, name: Seq<char>) -> Option<AlchemistTaskType> {
        lookup(self.tasks@, name)
    }

    /// Task names are unique keys.
    pub open spec fn wf(&self) -> bool {
        forall|i: int, j: int|
            0 <= i < j < self.tasks@.len() ==> self.tasks@[i].0@ != self.tasks@[j].0@
    }

    /// An empty registry.
    pub fn new() -> (r: AlchemistConfig)
        ensures
            r.tasks@.len() == 0,
            r.wf(),
    {
        AlchemistConfig { tasks: Vec::new() }
    }

    /// Stores a definition under a name. An earlier entry with the same name
    /// keeps priority on lookup, so building from a well-formed document
    /// keeps the registry well-formed.
    pub fn add(&mut self, name: String, task: AlchemistTaskType)
        ensures
            final(self).tasks@ == old(self).tasks@.push((name, task)),
    {
        self.tasks.push((name, task));
    }

    /// Looks a task name up, returning the first definition stored under it.
    pub fn get(&self, name: &String) -> (r: Option<&AlchemistTaskType>)
        ensures
            match r {
                Option::Some(t) => self.spec_get(name@) == Option::Some(*t),
                Option::None => self.spec_get(name@) is None,
            },
    {
        let mut i: usize = 0;
        proof {
            assert(self.tasks@.skip(0) =~= self.tasks@);
        }
        while i < self.tasks.len()
            invariant
                i <= self.tasks@.len(),
                lookup(self.tasks@.skip(i as int), name@) == lookup(self.tasks@, name@),
            decreases self.tasks@.len() - i,
        {
            proof {
                assert(self.tasks@.skip(i as int)[0] == self.tasks@[i as int]);
                assert(self.tasks@.skip(i as int).drop_first() =~= self.tasks@.skip(i + 1));
            }
            if self.tasks[i].0.eq(name) {
                return Option::Some(&self.tasks[i].1);
            }
            i += 1;
        }
        proof {
            assert(self.tasks@.skip(self.tasks@.len() as int).len() == 0);
        }
        Option::None
    }

    /// A copy whose entries map every name to a definition with the same
    /// abstract value, in the same order.
    pub fn duplicate(&self) -> (r: AlchemistConfig)
        ensures
            r.tasks@.len() == self.tasks@.len(),
            forall|i: int|
                #![trigger r.tasks@[i]]
                0 <= i < self.tasks@.len() ==> r.tasks@[i].0@ == self.tasks@[i].0@
                    && r.tasks@[i].1@ == self.tasks@[i].1@,
    {
        let mut tasks: Vec<(String, AlchemistTaskType)> = Vec::new();
        let mut i: usize = 0;
        while i < self.tasks.len()
            invariant
                i <= self.tasks@.len(),
                tasks@.len() == i,
                forall|j: int|
                    #![trigger tasks@[j]]
                    0 <= j < i ==> tasks@[j].0@ == self.tasks@[j].0@
                        && tasks@[j].1@ == self.tasks@[j].1@,
            decreases self.tasks@.len() - i,
        {
            let entry = (clone_string(&self.tasks[i].0), self.tasks[i].1.duplicate());
            tasks.push(entry);
            i += 1;
        }
        AlchemistConfig { tasks }
    }
}

} // verus!
