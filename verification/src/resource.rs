//! The authority's table of X resources and the namespace each belongs to.
use vstd::prelude::*;

use crate::authority_ids::{AuthorityLocalId, NamespaceId};

verus! {

/// An X resource as the authority names it.
#[derive(Clone, Copy, Debug, PartialEq, Eq, Hash, PartialOrd, Ord, Structural)]
pub struct XResourceId {
    pub local: AuthorityLocalId,
}

impl XResourceId {
    pub open spec fn spec_is_valid(self) -> bool {
        self.local.spec_is_valid()
    }

    /// The reserved id that names no resource.
    pub fn none() -> (id: Self)
        ensures
            id.local.raw == 0,
            id.local.generation == 0,
    {
        XResourceId { local: AuthorityLocalId::none() }
    }

    pub fn new(raw: u64, generation: u32) -> (id: Self)
        ensures
            id.local.raw == raw,
            id.local.generation == generation,
    {
        XResourceId { local: AuthorityLocalId::new(raw, generation) }
    }

    #[verifier::when_used_as_spec(spec_is_valid)]
    pub fn is_valid(self) -> (valid: bool)
        ensures
            valid == self.spec_is_valid(),
    {
        self.local.is_valid()
    }
}

#[derive(Clone, Copy, Debug, PartialEq, Eq, Structural)]
pub enum XResourceKind {
    Window,
    Pixmap,
    Atom,
    Property,
    GraphicsContext,
    Font,
    Cursor,
    Fence,
    Region,
    SyncCounter,
    Colormap,
}

#[derive(Clone, Copy, Debug, PartialEq, Eq, Structural)]
pub enum XMapState {
    Unmapped,
    Mapped,
}

#[derive(Clone, Copy, Debug, PartialEq, Eq, Structural)]
pub struct XResourceRecord {
    pub id: XResourceId,
    pub kind: XResourceKind,
    pub owner_namespace: NamespaceId,
    pub generation: u64,
}

#[derive(Clone, Copy, Debug, PartialEq, Eq, Structural)]
pub enum XAuthorityAccessError {
    InvalidResource,
    InvalidNamespace,
    InvalidSurface,
    UnknownResource,
    WrongResourceKind,
    CrossNamespaceDenied,
    StaleGeneration,
}

/// Every live resource, at most one record per id.
#[derive(Debug)]
pub struct XResourceTable {
    records: Vec<XResourceRecord>,
}

/// The index in `s` of the record named `id`, where there is one.
pub open spec fn resource_index(s: Seq<XResourceRecord>, id: XResourceId) -> int {
    choose|i: int| 0 <= i < s.len() && s[i].id == id
}

pub open spec fn resource_present(s: Seq<XResourceRecord>, id: XResourceId) -> bool {
    exists|i: int| 0 <= i < s.len() && s[i].id == id
}

/// No two records share an id.
pub open spec fn resource_ids_unique(s: Seq<XResourceRecord>) -> bool {
    forall|i: int, j: int| 0 <= i < s.len() && 0 <= j < s.len() && i != j ==> s[i].id != s[j].id
}

/// The map from id to record that a sequence of records with unique ids stands for.
pub open spec fn resource_map(s: Seq<XResourceRecord>) -> Map<XResourceId, XResourceRecord> {
    Map::new(|id: XResourceId| resource_present(s, id), |id: XResourceId| s[resource_index(s, id)])
}

proof fn lemma_resource_index_unique(s: Seq<XResourceRecord>, i: int)
    requires
        resource_ids_unique(s),
        0 <= i < s.len(),
    ensures
        resource_present(s, s[i].id),
        resource_index(s, s[i].id) == i,
{
}

proof fn lemma_resource_map_update(s: Seq<XResourceRecord>, i: int, r: XResourceRecord)
    requires
        resource_ids_unique(s),
        0 <= i < s.len(),
        s[i].id == r.id,
    ensures
        resource_ids_unique(s.update(i, r)),
        resource_map(s.update(i, r)) == resource_map(s).insert(r.id, r),
{
    let t = s.update(i, r);
    assert forall|id: XResourceId| #[trigger] resource_present(t, id) == resource_present(s, id) by {
        if resource_present(s, id) {
            let j = resource_index(s, id);
            assert(t[j].id == id);
        }
        if resource_present(t, id) {
            let j = resource_index(t, id);
            assert(s[j].id == id);
        }
    }
    assert forall|id: XResourceId| resource_present(t, id) implies #[trigger] t[resource_index(t, id)]
        == (if id == r.id { r } else { s[resource_index(s, id)] }) by {
        let j = resource_index(t, id);
        if id == r.id {
            assert(j == i);
        } else {
            let k = resource_index(s, id);
            assert(t[k].id == id);
            assert(j == k);
        }
    }
    assert(resource_map(t) =~= resource_map(s).insert(r.id, r));
}

proof fn lemma_resource_map_push(s: Seq<XResourceRecord>, r: XResourceRecord)
    requires
        resource_ids_unique(s),
        !resource_present(s, r.id),
    ensures
        resource_ids_unique(s.push(r)),
        resource_map(s.push(r)) == resource_map(s).insert(r.id, r),
{
    let t = s.push(r);
    assert(t[s.len() as int].id == r.id);
    assert forall|id: XResourceId| #[trigger] resource_present(t, id) == (resource_present(s, id) || id == r.id) by {
        if resource_present(s, id) {
            let j = resource_index(s, id);
            assert(t[j].id == id);
        }
        if resource_present(t, id) && id != r.id {
            let j = resource_index(t, id);
            assert(s[j].id == id);
        }
    }
    assert forall|id: XResourceId| resource_present(t, id) implies #[trigger] t[resource_index(t, id)]
        == (if id == r.id { r } else { s[resource_index(s, id)] }) by {
        let j = resource_index(t, id);
        if id == r.id {
            assert(j == s.len());
        } else {
            let k = resource_index(s, id);
            assert(t[k].id == id);
            assert(j == k);
        }
    }
    assert(resource_map(t) =~= resource_map(s).insert(r.id, r));
}

proof fn lemma_resource_map_remove(s: Seq<XResourceRecord>, i: int)
    requires
        resource_ids_unique(s),
        0 <= i < s.len(),
    ensures
        resource_ids_unique(s.remove(i)),
        resource_map(s.remove(i)) == resource_map(s).remove(s[i].id),
{
    let t = s.remove(i);
    let id0 = s[i].id;
    assert forall|a: int, b: int| 0 <= a < t.len() && 0 <= b < t.len() && a != b implies t[a].id != t[b].id by {
        let a2 = if a < i { a } else { a + 1 };
        let b2 = if b < i { b } else { b + 1 };
        assert(t[a] == s[a2]);
        assert(t[b] == s[b2]);
    }
    assert forall|id: XResourceId| #[trigger] resource_present(t, id) == (resource_present(s, id) && id != id0) by {
        if resource_present(s, id) && id != id0 {
            let j = resource_index(s, id);
            let j2 = if j < i { j } else { j - 1 };
            assert(t[j2] == s[j]);
        }
        if resource_present(t, id) {
            let j = resource_index(t, id);
            let j2 = if j < i { j } else { j + 1 };
            assert(s[j2] == t[j]);
        }
    }
    assert forall|id: XResourceId| resource_present(t, id) implies #[trigger] t[resource_index(t, id)]
        == s[resource_index(s, id)] by {
        let j = resource_index(t, id);
        let j2 = if j < i { j } else { j + 1 };
        assert(s[j2] == t[j]);
        assert(resource_index(s, id) == j2);
    }
    assert(resource_map(t) =~= resource_map(s).remove(id0));
}

proof fn lemma_resource_map_len(s: Seq<XResourceRecord>)
    requires
        resource_ids_unique(s),
    ensures
        resource_map(s).dom().finite(),
        resource_map(s).dom().len() == s.len(),
    decreases s.len(),
{
    if s.len() == 0 {
        assert(resource_map(s).dom() =~= Set::<XResourceId>::empty());
    } else {
        let p = s.drop_last();
        assert(resource_ids_unique(p));
        lemma_resource_map_len(p);
        assert(!resource_present(p, s.last().id)) by {
            if resource_present(p, s.last().id) {
                let j = resource_index(p, s.last().id);
                assert(s[j].id == s[s.len() - 1].id);
            }
        }
        lemma_resource_map_push(p, s.last());
        assert(p.push(s.last()) =~= s);
    }
}

/// What a lookup of `id` as a resource of `expected_kind` by
/// `requester_namespace` finds in a table holding `m`.
pub open spec fn resource_lookup(
    m: Map<XResourceId, XResourceRecord>,
    requester_namespace: NamespaceId,
    id: XResourceId,
    expected_kind: XResourceKind,
) -> Result<XResourceRecord, XAuthorityAccessError> {
    if !requester_namespace.spec_is_valid() {
        Err(XAuthorityAccessError::InvalidNamespace)
    } else if !m.contains_key(id) {
        Err(XAuthorityAccessError::UnknownResource)
    } else if m[id].kind != expected_kind {
        Err(XAuthorityAccessError::WrongResourceKind)
    } else if m[id].owner_namespace != requester_namespace {
        Err(XAuthorityAccessError::CrossNamespaceDenied)
    } else {
        Ok(m[id])
    }
}

/// A resource filed by a namespace is found again by that namespace, under
/// its id and kind, exactly as it was filed.
pub proof fn law_lookup_finds_what_insert_filed(
    m: Map<XResourceId, XResourceRecord>,
    id: XResourceId,
    kind: XResourceKind,
    owner_namespace: NamespaceId,
    generation: u64,
)
    requires
        owner_namespace.spec_is_valid(),
    ensures
        resource_lookup(
            m.insert(id, XResourceRecord { id, kind, owner_namespace, generation }),
            owner_namespace,
            id,
            kind,
        ) == Ok::<XResourceRecord, XAuthorityAccessError>(
            XResourceRecord { id, kind, owner_namespace, generation },
        ),
{
}

/// Namespaces are isolated: a valid namespace that does not own a resource
/// is refused it, whatever kind it asks for it as, once the kind matches.
pub proof fn law_other_namespace_is_denied(
    m: Map<XResourceId, XResourceRecord>,
    requester_namespace: NamespaceId,
    id: XResourceId,
)
    requires
        requester_namespace.spec_is_valid(),
        m.contains_key(id),
        m[id].owner_namespace != requester_namespace,
    ensures
        resource_lookup(m, requester_namespace, id, m[id].kind) == Err::<
            XResourceRecord,
            XAuthorityAccessError,
        >(XAuthorityAccessError::CrossNamespaceDenied),
{
}

/// Removing a resource leaves nothing for any namespace to find under its id.
pub proof fn law_removed_resource_is_unknown(
    m: Map<XResourceId, XResourceRecord>,
    requester_namespace: NamespaceId,
    id: XResourceId,
    kind: XResourceKind,
)
    requires
        requester_namespace.spec_is_valid(),
    ensures
        resource_lookup(m.remove(id), requester_namespace, id, kind) == Err::<
            XResourceRecord,
            XAuthorityAccessError,
        >(XAuthorityAccessError::UnknownResource),
{
}

impl View for XResourceTable {
    type V = Map<XResourceId, XResourceRecord>;

    closed spec fn view(&self) -> Map<XResourceId, XResourceRecord> {
        resource_map(self.records@)
    }
}

impl XResourceTable {
    /// Records are stored under their own id, one per id, and only valid ids
    /// owned by valid namespaces are ever admitted.
    #[verifier::type_invariant]
    closed spec fn wf(self) -> bool {
        &&& resource_ids_unique(self.records@)
        &&& forall|i: int| 0 <= i < self.records@.len() ==> {
            &&& (#[trigger] self.records@[i]).id.spec_is_valid()
            &&& self.records@[i].owner_namespace.spec_is_valid()
        }
    }

    pub fn new() -> (table: Self)
        ensures
            table@ == Map::<XResourceId, XResourceRecord>::empty(),
    {
        let table = XResourceTable { records: Vec::new() };
        assert(table@ =~= Map::<XResourceId, XResourceRecord>::empty());
        table
    }

    fn find(&self, id: XResourceId) -> (found: Option<usize>)
        ensures
            match found {
                Some(i) => i < self.records@.len() && self.records@[i as int].id == id,
                None => !resource_present(self.records@, id),
            },
    {
        let mut i: usize = 0;
        while i < self.records.len()
            invariant
                i <= self.records@.len(),
                forall|j: int| 0 <= j < i ==> self.records@[j].id != id,
            decreases self.records@.len() - i,
        {
            if self.records[i].id == id {
                return Some(i);
            }
            i = i + 1;
        }
        None
    }

    /// Files a record under `id`, replacing any record already there.
    pub fn insert(
        &mut self,
        id: XResourceId,
        kind: XResourceKind,
        owner_namespace: NamespaceId,
        generation: u64,
    ) -> (result: Result<(), XAuthorityAccessError>)
        ensures
            !id.spec_is_valid() ==> result == Err::<(), XAuthorityAccessError>(
                XAuthorityAccessError::InvalidResource,
            ),
            id.spec_is_valid() && !owner_namespace.spec_is_valid() ==> result == Err::<
                (),
                XAuthorityAccessError,
            >(XAuthorityAccessError::InvalidNamespace),
            id.spec_is_valid() && owner_namespace.spec_is_valid() ==> result is Ok,
            result is Ok ==> final(self)@ == old(self)@.insert(
                id,
                XResourceRecord { id, kind, owner_namespace, generation },
            ),
            result is Err ==> final(self)@ == old(self)@,
    {
        proof {
            use_type_invariant(&*self);
        }
        if !id.is_valid() {
            return Err(XAuthorityAccessError::InvalidResource);
        }
        if !owner_namespace.is_valid() {
            return Err(XAuthorityAccessError::InvalidNamespace);
        }
        let record = XResourceRecord { id, kind, owner_namespace, generation };
        let found = self.find(id);
        let mut records: Vec<XResourceRecord> = Vec::new();
        std::mem::swap(&mut records, &mut self.records);
        match found {
            Some(i) => {
                proof {
                    lemma_resource_map_update(records@, i as int, record);
                }
                records.set(i, record);
            },
            None => {
                proof {
                    lemma_resource_map_push(records@, record);
                }
                records.push(record);
            },
        }
        self.records = records;
        Ok(())
    }

    /// The record filed under `id`.
    pub fn get(&self, id: XResourceId) -> (record: Option<&XResourceRecord>)
        ensures
            match record {
                Some(r) => self@.contains_key(id) && *r == self@[id],
                None => !self@.contains_key(id),
            },
    {
        match self.find(id) {
            Some(i) => {
                proof {
                    use_type_invariant(self);
                    lemma_resource_index_unique(self.records@, i as int);
                }
                Some(&self.records[i])
            },
            None => None,
        }
    }

    /// The record filed under `id`, if `requester_namespace` may use it as a
    /// resource of `expected_kind`.
    pub fn lookup(
        &self,
        requester_namespace: NamespaceId,
        id: XResourceId,
        expected_kind: XResourceKind,
    ) -> (result: Result<&XResourceRecord, XAuthorityAccessError>)
        ensures
            match result {
                Ok(record) => resource_lookup(self@, requester_namespace, id, expected_kind)
                    == Ok::<XResourceRecord, XAuthorityAccessError>(*record),
                Err(error) => resource_lookup(self@, requester_namespace, id, expected_kind)
                    == Err::<XResourceRecord, XAuthorityAccessError>(error),
            },
    {
        if !requester_namespace.is_valid() {
            return Err(XAuthorityAccessError::InvalidNamespace);
        }
        let record = match self.get(id) {
            Some(record) => record,
            None => return Err(XAuthorityAccessError::UnknownResource),
        };
        if record.kind != expected_kind {
            return Err(XAuthorityAccessError::WrongResourceKind);
        }
        if record.owner_namespace != requester_namespace {
            return Err(XAuthorityAccessError::CrossNamespaceDenied);
        }
        Ok(record)
    }

    /// Takes the record filed under `id` out of the table.
    pub fn remove(&mut self, id: XResourceId) -> (removed: Option<XResourceRecord>)
        ensures
            match removed {
                Some(r) => old(self)@.contains_key(id) && r == old(self)@[id],
                None => !old(self)@.contains_key(id),
            },
            final(self)@ == old(self)@.remove(id),
    {
        proof {
            use_type_invariant(&*self);
        }
        match self.find(id) {
            Some(i) => {
                let mut records: Vec<XResourceRecord> = Vec::new();
                std::mem::swap(&mut records, &mut self.records);
                proof {
                    lemma_resource_index_unique(records@, i as int);
                    lemma_resource_map_remove(records@, i as int);
                }
                let record = records.remove(i);
                proof {
                    assert forall|j: int| 0 <= j < records@.len() implies {
                        &&& (#[trigger] records@[j]).id.spec_is_valid()
                        &&& records@[j].owner_namespace.spec_is_valid()
                    } by {
                        let k = if j < i { j } else { j + 1 };
                        assert(records@[j] == old(self).records@[k]);
                    }
                }
                self.records = records;
                Some(record)
            },
            None => {
                proof {
                    assert(self@ =~= old(self)@.remove(id));
                }
                None
            },
        }
    }

    /// The number of live resources.
    pub fn len(&self) -> (len: usize)
        ensures
            len == self@.len(),
    {
        proof {
            use_type_invariant(self);
            lemma_resource_map_len(self.records@);
        }
        self.records.len()
    }

    pub fn is_empty(&self) -> (empty: bool)
        ensures
            empty == (self@.len() == 0),
    {
        self.len() == 0
    }
}

} // verus!
