use vstd::prelude::*;

use crate::asset::{label_of, label_spec, Asset, Entity, EntityKind};
use crate::errors::CoreError;
use crate::paths::file_name_spec;

verus! {

/// `e` with its activation flag flipped and nothing else changed.
pub open spec fn flipped(e: Entity) -> Entity {
    Entity { kind: e.kind, asset: Asset { path: e.asset.path, enabled: !e.asset.enabled } }
}

/// `s` with the entity at `i` flipped.
pub open spec fn toggled_at(s: Seq<Entity>, i: int) -> Seq<Entity> {
    s.update(i, flipped(s[i]))
}

/// `s` with a fresh enabled entity for `path` appended at the end.
pub open spec fn appended(s: Seq<Entity>, kind: EntityKind, path: String) -> Seq<Entity> {
    s.push(Entity { kind, asset: Asset { path, enabled: true } })
}

/// `s` with the path of the entity at `i` rewritten and its flag kept.
pub open spec fn relocated_at(s: Seq<Entity>, i: int, path: String) -> Seq<Entity> {
    s.update(i, Entity { kind: s[i].kind, asset: Asset { path, enabled: s[i].asset.enabled } })
}

/// Toggling an index flips exactly that entity's flag and nothing else,
/// and toggling it twice restores the collection exactly: length, order
/// and every entry.
pub proof fn lemma_toggle_involution(s: Seq<Entity>, i: int)
    requires
        0 <= i < s.len(),
    ensures
        toggled_at(s, i).len() == s.len(),
        forall|j: int| 0 <= j < s.len() && j != i ==> toggled_at(s, i)[j] == s[j],
        toggled_at(s, i)[i].asset.enabled == !s[i].asset.enabled,
        toggled_at(s, i)[i].asset.path == s[i].asset.path,
        toggled_at(s, i)[i].kind == s[i].kind,
        toggled_at(toggled_at(s, i), i) == s,
{
    assert(toggled_at(toggled_at(s, i), i) =~= s);
}

/// Removing an index shortens the collection by exactly one: what stood
/// before it stays put, and every following entry shifts down by one.
pub proof fn lemma_remove_shifts(s: Seq<Entity>, i: int)
    requires
        0 <= i < s.len(),
    ensures
        s.remove(i).len() == s.len() - 1,
        forall|j: int| 0 <= j < i ==> s.remove(i)[j] == s[j],
        forall|j: int| i <= j < s.len() - 1 ==> s.remove(i)[j] == s[j + 1],
{
    s.remove_ensures(i);
}

/// Appending puts the fresh enabled entity exactly at the old length and
/// leaves every existing entry untouched.
pub proof fn lemma_append_at_end(s: Seq<Entity>, kind: EntityKind, path: String)
    ensures
        appended(s, kind, path).len() == s.len() + 1,
        forall|j: int| 0 <= j < s.len() ==> appended(s, kind, path)[j] == s[j],
        appended(s, kind, path)[s.len() as int].kind == kind,
        appended(s, kind, path)[s.len() as int].asset.path == path,
        appended(s, kind, path)[s.len() as int].asset.enabled,
{
}

/// Removing an entry and then appending a fresh one neither coalesces
/// with nor mutates any surviving entry: each keeps its flag and path at
/// its shifted position, and the new entity stands alone at the end.
pub proof fn lemma_remove_then_add(s: Seq<Entity>, i: int, kind: EntityKind, path: String)
    requires
        0 <= i < s.len(),
    ensures
        appended(s.remove(i), kind, path).len() == s.len(),
        forall|j: int| 0 <= j < i ==> appended(s.remove(i), kind, path)[j] == s[j],
        forall|j: int|
            i <= j < s.len() - 1 ==> appended(s.remove(i), kind, path)[j] == s[j + 1],
        appended(s.remove(i), kind, path)[s.len() - 1].kind == kind,
        appended(s.remove(i), kind, path)[s.len() - 1].asset.path == path,
        appended(s.remove(i), kind, path)[s.len() - 1].asset.enabled,
{
    s.remove_ensures(i);
}

/// An ordered collection of entities of one kind. Insertion order is
/// significant: it is the display and index order. Duplicate paths may
/// coexist.
#[derive(Debug)]
pub struct Collection {
    pub kind: EntityKind,
    pub entities: Vec<Entity>,
}

impl Collection {
    /// Every entity carries the collection's tag and a path with a
    /// file-name component. `new` establishes this and every method
    /// preserves it.
    pub open spec fn wf(self) -> bool {
        forall|i: int| 0 <= i < self.entities@.len() ==> {
            &&& (#[trigger] self.entities@[i]).kind == self.kind
            &&& file_name_spec(self.entities@[i].asset.path@).len() > 0
        }
    }

    /// An empty collection of the given kind.
    pub fn new(kind: EntityKind) -> (c: Collection)
        ensures
            c.wf(),
            c.kind == kind,
            c.entities@.len() == 0,
    {
        Collection { kind, entities: Vec::new() }
    }

    /// How many entities the collection holds.
    pub fn len(&self) -> (n: usize)
        ensures
            n == self.entities@.len(),
    {
        self.entities.len()
    }

    /// Read-only view of the ordered entities.
    pub fn items(&self) -> (r: &Vec<Entity>)
        ensures
            r == &self.entities,
    {
        &self.entities
    }

    /// Mutable view of the ordered entities. A caller that goes through
    /// this bears the burden of keeping the collection well-formed.
    pub fn items_mut(&mut self) -> (r: &mut Vec<Entity>)
        ensures
            *r == old(self).entities,
            final(self).entities == *final(r),
            final(self).kind == old(self).kind,
    {
        &mut self.entities
    }

    /// Mutable access to the asset at `index`. Bounds are a caller
    /// contract: a violation is a caller bug, not a runtime condition.
    pub fn entity_at_mut(&mut self, index: usize) -> (r: &mut Asset)
        requires
            index < old(self).entities@.len(),
        ensures
            *r == old(self).entities@[index as int].asset,
            final(self).kind == old(self).kind,
            final(self).entities@ == old(self).entities@.update(
                index as int,
                (Entity { kind: old(self).entities@[index as int].kind, asset: *final(r) }),
            ),
    {
        &mut self.entities[index].asset
    }

    /// Builds a new enabled entity of this collection's kind without
    /// inserting it. Fails with `InvalidPath` exactly when `path` has no
    /// file-name component.
    pub fn construct(&self, path: String) -> (r: Result<Entity, CoreError>)
        ensures
            match r {
                Ok(e) => {
                    &&& file_name_spec(path@).len() > 0
                    &&& e.kind == self.kind
                    &&& e.asset.path == path
                    &&& e.asset.enabled
                },
                Err(err) => {
                    &&& err == CoreError::InvalidPath
                    &&& file_name_spec(path@).len() == 0
                },
            },
    {
        crate::asset::construct(self.kind, path)
    }

    /// Appends a fresh enabled entity for `path`: the Add action's
    /// mutation. The new index is the prior length. Fails with
    /// `InvalidPath` exactly when `path` has no file-name component, and
    /// then changes nothing.
    pub fn add(&mut self, path: String) -> (r: Result<usize, CoreError>)
        requires
            old(self).wf(),
        ensures
            final(self).wf(),
            final(self).kind == old(self).kind,
            match r {
                Ok(ix) => {
                    &&& file_name_spec(path@).len() > 0
                    &&& ix == old(self).entities@.len()
                    &&& final(self).entities@ == appended(old(self).entities@, old(self).kind, path)
                },
                Err(err) => {
                    &&& err == CoreError::InvalidPath
                    &&& file_name_spec(path@).len() == 0
                    &&& final(self).entities@ == old(self).entities@
                },
            },
    {
        match crate::asset::construct(self.kind, path) {
            Ok(e) => {
                let ix = self.entities.len();
                self.entities.push(e);
                Ok(ix)
            },
            Err(err) => Err(err),
        }
    }

    /// Flips the activation flag at `index` in place and reports the new
    /// state. Length and order are untouched. Fails with
    /// `IndexOutOfRange` exactly when `index` is past the end, and then
    /// changes nothing.
    pub fn toggle(&mut self, index: usize) -> (r: Result<bool, CoreError>)
        requires
            old(self).wf(),
        ensures
            final(self).wf(),
            final(self).kind == old(self).kind,
            match r {
                Ok(now) => {
                    &&& index < old(self).entities@.len()
                    &&& now == !old(self).entities@[index as int].asset.enabled
                    &&& final(self).entities@ == toggled_at(old(self).entities@, index as int)
                },
                Err(err) => {
                    &&& err == CoreError::IndexOutOfRange
                    &&& index >= old(self).entities@.len()
                    &&& final(self).entities@ == old(self).entities@
                },
            },
    {
        if index >= self.entities.len() {
            return Err(CoreError::IndexOutOfRange);
        }
        let ent = &mut self.entities[index];
        ent.asset.enabled = !ent.asset.enabled;
        let now = self.entities[index].asset.enabled;
        Ok(now)
    }

    /// Deletes and returns the entity at `index`; every following entity
    /// shifts down by one. Fails with `IndexOutOfRange` exactly when
    /// `index` is past the end, and then changes nothing.
    pub fn remove_entity(&mut self, index: usize) -> (r: Result<Entity, CoreError>)
        requires
            old(self).wf(),
        ensures
            final(self).wf(),
            final(self).kind == old(self).kind,
            match r {
                Ok(e) => {
                    &&& index < old(self).entities@.len()
                    &&& e == old(self).entities@[index as int]
                    &&& final(self).entities@ == old(self).entities@.remove(index as int)
                },
                Err(err) => {
                    &&& err == CoreError::IndexOutOfRange
                    &&& index >= old(self).entities@.len()
                    &&& final(self).entities@ == old(self).entities@
                },
            },
    {
        if index >= self.entities.len() {
            return Err(CoreError::IndexOutOfRange);
        }
        Ok(self.entities.remove(index))
    }

    /// Rewrites the path at `index`: the move capability's in-memory
    /// effect after the backing file was relocated. The flag and every
    /// other entity are untouched.
    pub fn set_path(&mut self, index: usize, path: String) -> (r: Result<(), CoreError>)
        requires
            old(self).wf(),
        ensures
            final(self).wf(),
            final(self).kind == old(self).kind,
            match r {
                Ok(_) => {
                    &&& index < old(self).entities@.len()
                    &&& file_name_spec(path@).len() > 0
                    &&& final(self).entities@ == relocated_at(old(self).entities@, index as int, path)
                },
                Err(err) => {
                    &&& final(self).entities@ == old(self).entities@
                    &&& (index >= old(self).entities@.len() && err == CoreError::IndexOutOfRange
                        || index < old(self).entities@.len() && file_name_spec(path@).len() == 0
                            && err == CoreError::InvalidPath)
                },
            },
    {
        if index >= self.entities.len() {
            return Err(CoreError::IndexOutOfRange);
        }
        match crate::paths::file_name_of(path.as_str()) {
            Option::Some(_) => {
                let ent = &mut self.entities[index];
                ent.asset.path = path;
                Ok(())
            },
            Option::None => Err(CoreError::InvalidPath),
        }
    }

    /// The display labels of the entities, in collection order.
    pub fn labels(&self) -> (r: Vec<String>)
        requires
            self.wf(),
        ensures
            r@.len() == self.entities@.len(),
            forall|i: int| 0 <= i < r@.len() ==> r@[i]@ == label_spec(self.entities@[i]),
    {
        let mut out: Vec<String> = Vec::new();
        let mut i: usize = 0;
        let n = self.entities.len();
        while i < n
            invariant
                i <= n,
                n == self.entities@.len(),
                self.wf(),
                out@.len() == i,
                forall|j: int| 0 <= j < i ==> out@[j]@ == label_spec(self.entities@[j]),
            decreases n - i,
        {
            let l = label_of(&self.entities[i]);
            out.push(l);
            i = i + 1;
        }
        out
    }
}

} // verus!
