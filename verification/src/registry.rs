//! The connection registry: a single shared mapping from connection
//! identity to display name, kept in insertion order so that `/list`
//! output is deterministic.

use vstd::prelude::*;
use crate::text::string_views;

verus! {

/// The mathematical content of a registry: identity/name pairs in
/// insertion order, with identities pairwise distinct.
pub open spec fn wf_entries(v: Seq<(u64, Seq<char>)>) -> bool {
    forall|i: int, j: int| 0 <= i < j < v.len() ==> (#[trigger] v[i]).0 != (#[trigger] v[j]).0
}

/// Whether some entry carries identity `id`.
pub open spec fn contains_id(v: Seq<(u64, Seq<char>)>, id: u64) -> bool {
    exists|i: int| 0 <= i < v.len() && (#[trigger] v[i]).0 == id
}

/// The position of the entry for `id`; meaningful only when present.
pub open spec fn idx_of(v: Seq<(u64, Seq<char>)>, id: u64) -> int {
    choose|i: int| 0 <= i < v.len() && (#[trigger] v[i]).0 == id
}

/// The name registered for `id`; meaningful only when present.
pub open spec fn name_of(v: Seq<(u64, Seq<char>)>, id: u64) -> Seq<char> {
    v[idx_of(v, id)].1
}

/// The registered names, in insertion order.
pub open spec fn names_of(v: Seq<(u64, Seq<char>)>) -> Seq<Seq<char>> {
    v.map_values(|e: (u64, Seq<char>)| e.1)
}

/// Registration: overwrites the name of an existing entry in place, or
/// appends a new entry at the end.
pub open spec fn reg_register(v: Seq<(u64, Seq<char>)>, id: u64, name: Seq<char>) -> Seq<
    (u64, Seq<char>),
> {
    if contains_id(v, id) {
        v.update(idx_of(v, id), (id, name))
    } else {
        v.push((id, name))
    }
}

/// Removal: deletes the entry for `id` if present, otherwise leaves the
/// registry untouched.
pub open spec fn reg_remove(v: Seq<(u64, Seq<char>)>, id: u64) -> Seq<(u64, Seq<char>)> {
    if contains_id(v, id) {
        v.remove(idx_of(v, id))
    } else {
        v
    }
}

/// The entry for `id` sits at one position only.
pub proof fn lemma_idx_of_unique(v: Seq<(u64, Seq<char>)>, id: u64, i: int)
    requires
        wf_entries(v),
        0 <= i < v.len(),
        v[i].0 == id,
    ensures
        idx_of(v, id) == i,
{
    assert(contains_id(v, id));
    let j = idx_of(v, id);
    if i != j {
        assert(v[i].0 != v[j].0);
    }
}

/// Registration gives `id` the new name, touches no other entry, and
/// keeps identities distinct.
pub proof fn lemma_register_properties(v: Seq<(u64, Seq<char>)>, id: u64, name: Seq<char>)
    requires
        wf_entries(v),
    ensures
        wf_entries(reg_register(v, id, name)),
        contains_id(reg_register(v, id, name), id),
        name_of(reg_register(v, id, name), id) == name,
        forall|o: u64| o != id ==> contains_id(reg_register(v, id, name), o) == contains_id(v, o),
        forall|o: u64|
            o != id && contains_id(v, o) ==> name_of(reg_register(v, id, name), o) == name_of(
                v,
                o,
            ),
{
    let v1 = reg_register(v, id, name);
    if contains_id(v, id) {
        let i = idx_of(v, id);
        lemma_idx_of_unique(v, id, i);
        assert(v1[i].0 == id);
        lemma_idx_of_unique(v1, id, i);
        assert forall|o: u64| o != id && contains_id(v, o) implies contains_id(v1, o)
            && name_of(v1, o) == name_of(v, o) by {
            let k = idx_of(v, o);
            lemma_idx_of_unique(v, o, k);
            assert(v1[k].0 == o);
            lemma_idx_of_unique(v1, o, k);
        }
        assert forall|o: u64| o != id && contains_id(v1, o) implies contains_id(v, o) by {
            let k = idx_of(v1, o);
            lemma_idx_of_unique(v1, o, k);
            assert(v[k].0 == o);
        }
    } else {
        let n = v.len() as int;
        assert(v1[n].0 == id);
        lemma_idx_of_unique(v1, id, n);
        assert forall|o: u64| o != id && contains_id(v, o) implies contains_id(v1, o)
            && name_of(v1, o) == name_of(v, o) by {
            let k = idx_of(v, o);
            lemma_idx_of_unique(v, o, k);
            assert(v1[k].0 == o);
            lemma_idx_of_unique(v1, o, k);
        }
        assert forall|o: u64| o != id && contains_id(v1, o) implies contains_id(v, o) by {
            let k = idx_of(v1, o);
            lemma_idx_of_unique(v1, o, k);
            assert(v[k].0 == o);
        }
    }
}

/// Removal deletes exactly the entry for `id`, touches no other entry,
/// and keeps identities distinct.
pub proof fn lemma_remove_properties(v: Seq<(u64, Seq<char>)>, id: u64)
    requires
        wf_entries(v),
    ensures
        wf_entries(reg_remove(v, id)),
        !contains_id(reg_remove(v, id), id),
        forall|o: u64| o != id ==> contains_id(reg_remove(v, id), o) == contains_id(v, o),
        forall|o: u64|
            o != id && contains_id(v, o) ==> name_of(reg_remove(v, id), o) == name_of(v, o),
{
    if contains_id(v, id) {
        let v1 = reg_remove(v, id);
        let i = idx_of(v, id);
        lemma_idx_of_unique(v, id, i);
        assert forall|k: int| 0 <= k < v1.len() implies (#[trigger] v1[k]) == (if k < i {
            v[k]
        } else {
            v[k + 1]
        }) by {}
        assert(!contains_id(v1, id)) by {
            if contains_id(v1, id) {
                let k = idx_of(v1, id);
                assert(0 <= k < v1.len() && v1[k].0 == id);
            }
        }
        assert forall|o: u64| o != id && contains_id(v, o) implies contains_id(v1, o)
            && name_of(v1, o) == name_of(v, o) by {
            let k = idx_of(v, o);
            lemma_idx_of_unique(v, o, k);
            let k1 = if k < i {
                k
            } else {
                k - 1
            };
            assert(v1[k1].0 == o);
            lemma_idx_of_unique(v1, o, k1);
        }
        assert forall|o: u64| o != id && contains_id(v1, o) implies contains_id(v, o) by {
            let k = idx_of(v1, o);
            lemma_idx_of_unique(v1, o, k);
        }
    }
}

/// Removing an identity that is not present is a no-op: the registry's
/// size and contents are unchanged.
pub proof fn lemma_remove_absent_is_noop(v: Seq<(u64, Seq<char>)>, id: u64)
    requires
        !contains_id(v, id),
    ensures
        reg_remove(v, id) == v,
        reg_remove(v, id).len() == v.len(),
        names_of(reg_remove(v, id)) == names_of(v),
{
}

/// Join/leave accounting: registering a fresh identity under `name` makes
/// `name` appear in the listing — the `/list` text gains a `- name` line —
/// and removing that identity afterwards restores the registry exactly, so
/// a name nobody else holds disappears from the listing again.
pub proof fn lemma_join_then_leave(v: Seq<(u64, Seq<char>)>, id: u64, name: Seq<char>)
    requires
        wf_entries(v),
        !contains_id(v, id),
    ensures
        names_of(reg_register(v, id, name)).contains(name),
        ({
            let line = "- "@ + name + "\n"@;
            let text = crate::messages::listing_text(names_of(reg_register(v, id, name)));
            let a = "Usu\u{e1}rios online:\n"@.len() + crate::messages::listing_offset(
                names_of(reg_register(v, id, name)),
                v.len() as int,
            );
            0 <= a && a + line.len() <= text.len() && text.subrange(a, a + line.len()) == line
        }),
        reg_remove(reg_register(v, id, name), id) == v,
        !names_of(v).contains(name) ==> !names_of(reg_remove(reg_register(v, id, name), id))
            .contains(name),
{
    let v1 = reg_register(v, id, name);
    let n = v.len() as int;
    assert(v1 == v.push((id, name)));
    assert(names_of(v1)[n] == name);
    crate::messages::lemma_list_text_contains_name(names_of(v1), n);
    lemma_register_properties(v, id, name);
    lemma_idx_of_unique(v1, id, n);
    assert(contains_id(v1, id));
    assert(reg_remove(v1, id) == v1.remove(n));
    assert(v1.remove(n) =~= v);
}

/// The connection registry. One entry per connection identity, in the
/// order the identities were first registered.
pub struct Registry {
    entries: Vec<(u64, String)>,
}

impl View for Registry {
    type V = Seq<(u64, Seq<char>)>;

    closed spec fn view(&self) -> Seq<(u64, Seq<char>)> {
        self.entries@.map_values(|e: (u64, String)| (e.0, e.1@))
    }
}

impl Registry {
    /// Identities in the registry are pairwise distinct.
    pub open spec fn wf(&self) -> bool {
        wf_entries(self@)
    }

    /// Creates an empty registry.
    pub fn new() -> (r: Registry)
        ensures
            r.wf(),
            r@ == Seq::<(u64, Seq<char>)>::empty(),
    {
        let r = Registry { entries: Vec::new() };
        proof {
            assert(r@ =~= Seq::<(u64, Seq<char>)>::empty());
        }
        r
    }

    /// The number of registered connections.
    pub fn len(&self) -> (n: usize)
        ensures
            n == self@.len(),
    {
        self.entries.len()
    }

    fn find(&self, id: u64) -> (r: Option<usize>)
        requires
            self.wf(),
        ensures
            match r {
                Some(i) => i < self@.len() && self@[i as int].0 == id && i == idx_of(self@, id),
                None => !contains_id(self@, id),
            },
    {
        let mut i: usize = 0;
        while i < self.entries.len()
            invariant
                0 <= i <= self.entries.len(),
                self.wf(),
                self@.len() == self.entries@.len(),
                forall|k: int| 0 <= k < i ==> (#[trigger] self@[k]).0 != id,
            decreases self.entries.len() - i,
        {
            if self.entries[i].0 == id {
                proof {
                    lemma_idx_of_unique(self@, id, i as int);
                }
                return Some(i);
            }
            i = i + 1;
        }
        proof {
            if contains_id(self@, id) {
                let k = idx_of(self@, id);
                assert(self@[k].0 == id);
            }
        }
        None
    }

    /// Looks a connection's display name up; never mutates.
    pub fn lookup(&self, id: u64) -> (r: Option<String>)
        requires
            self.wf(),
        ensures
            r is Some <==> contains_id(self@, id),
            r matches Some(name) ==> name@ == name_of(self@, id),
    {
        match self.find(id) {
            Some(i) => Some(self.entries[i].1.clone()),
            None => None,
        }
    }

    /// Overwrites (or creates) the entry for `id` and hands the previous
    /// name back, so the caller can tell a rename from a fresh
    /// registration.
    pub fn update(&mut self, id: u64, name: String) -> (r: Option<String>)
        requires
            old(self).wf(),
        ensures
            final(self).wf(),
            final(self)@ == reg_register(old(self)@, id, name@),
            r is Some <==> contains_id(old(self)@, id),
            r matches Some(prev) ==> prev@ == name_of(old(self)@, id),
    {
        proof {
            lemma_register_properties(old(self)@, id, name@);
        }
        match self.find(id) {
            Some(i) => {
                let prev = self.entries.remove(i);
                self.entries.insert(i, (id, name));
                proof {
                    assert(self@ =~= reg_register(old(self)@, id, name@));
                }
                Some(prev.1)
            },
            None => {
                self.entries.push((id, name));
                proof {
                    assert(self@ =~= reg_register(old(self)@, id, name@));
                }
                None
            },
        }
    }

    /// Registers a display name for `id`, inserting or overwriting; there
    /// is no error condition.
    pub fn register(&mut self, id: u64, name: String)
        requires
            old(self).wf(),
        ensures
            final(self).wf(),
            final(self)@ == reg_register(old(self)@, id, name@),
    {
        let _ = self.update(id, name);
    }

    /// Deletes the entry for `id` and hands the removed name back;
    /// removing an absent identity returns nothing and changes nothing.
    pub fn remove(&mut self, id: u64) -> (r: Option<String>)
        requires
            old(self).wf(),
        ensures
            final(self).wf(),
            final(self)@ == reg_remove(old(self)@, id),
            r is Some <==> contains_id(old(self)@, id),
            r matches Some(name) ==> name@ == name_of(old(self)@, id),
    {
        proof {
            lemma_remove_properties(old(self)@, id);
        }
        match self.find(id) {
            Some(i) => {
                let prev = self.entries.remove(i);
                proof {
                    assert(self@ =~= reg_remove(old(self)@, id));
                }
                Some(prev.1)
            },
            None => None,
        }
    }

    /// The registered names, in insertion order, for the `/list` command.
    pub fn snapshot_names(&self) -> (r: Vec<String>)
        ensures
            string_views(r@) == names_of(self@),
    {
        let mut r: Vec<String> = Vec::new();
        let mut i: usize = 0;
        while i < self.entries.len()
            invariant
                0 <= i <= self.entries.len(),
                r@.len() == i,
                forall|k: int| 0 <= k < i ==> #[trigger] r@[k] == self.entries@[k].1,
            decreases self.entries.len() - i,
        {
            r.push(self.entries[i].1.clone());
            i = i + 1;
        }
        proof {
            assert forall|k: int| 0 <= k < r@.len() implies #[trigger] string_views(r@)[k]
                == names_of(self@)[k] by {
                assert(self@[k] == (self.entries@[k].0, self.entries@[k].1@));
            }
            assert(string_views(r@) =~= names_of(self@));
        }
        r
    }
}

/// Removes the user registered for `id` and hands the removed name back,
/// so the caller can compose a departure notice; removing an absent
/// identity is a no-op.
pub fn remove_usuario(usuarios: &mut Registry, id: u64) -> (r: Option<String>)
    requires
        old(usuarios).wf(),
    ensures
        final(usuarios).wf(),
        final(usuarios)@ == reg_remove(old(usuarios)@, id),
        r is Some <==> contains_id(old(usuarios)@, id),
        r matches Some(name) ==> name@ == name_of(old(usuarios)@, id),
{
    usuarios.remove(id)
}

/// Formats the `/list` reply for the registry: a header, then one line
/// per registered name, in registration order.
pub fn get_lista_usuarios(usuarios: &Registry) -> (r: String)
    ensures
        r@ == crate::messages::listing_text(names_of(usuarios@)),
{
    let names = usuarios.snapshot_names();
    crate::messages::listing(&names)
}

} // verus!
