//! Window properties: the per-namespace table a client's ChangeProperty and
//! GetProperty requests act on, and its bounds.
use vstd::prelude::*;

use crate::authority_ids::NamespaceId;
use crate::resource::XResourceId;

verus! {

/// An atom, as the wire carries it.
pub type XAtom = u32;

pub const X_PROPERTY_MAX_VALUE_BYTES: usize = 262144;

pub const X_PROPERTY_MAX_TABLE_BYTES: usize = 4194304;

pub const X_PROPERTY_ANY_TYPE: XAtom = 0;

#[derive(Clone, Copy, Debug, PartialEq, Eq, Structural)]
pub enum XPropertyMode {
    Replace,
    Prepend,
    Append,
}

#[derive(Clone, Debug, PartialEq, Eq)]
pub struct XPropertyChange {
    pub mode: XPropertyMode,
    pub window: XResourceId,
    pub property: XAtom,
    pub property_type: XAtom,
    pub format: u8,
    pub bytes: Vec<u8>,
}

#[derive(Clone, Copy, Debug, PartialEq, Eq, Structural)]
pub struct XPropertyRead {
    pub delete: bool,
    pub window: XResourceId,
    pub property: XAtom,
    pub property_type: XAtom,
    pub long_offset: u32,
    pub long_length: u32,
}

#[derive(Clone, Debug, PartialEq, Eq)]
pub struct XPropertyReadReply {
    pub property_type: XAtom,
    pub format: u8,
    pub bytes_after: u32,
    pub item_count: u32,
    pub bytes: Vec<u8>,
}

#[derive(Clone, Debug, PartialEq, Eq)]
pub struct XPropertyReadOutcome {
    pub reply: XPropertyReadReply,
    pub deleted: bool,
}

#[derive(Clone, Debug, PartialEq, Eq)]
pub struct XPropertyRecord {
    pub namespace: NamespaceId,
    pub window: XResourceId,
    pub property: XAtom,
    pub property_type: XAtom,
    pub format: u8,
    pub bytes: Vec<u8>,
    pub generation: u64,
}

#[derive(Clone, Copy, Debug, PartialEq, Eq, Structural)]
pub enum XPropertyError {
    InvalidNamespace,
    InvalidWindow,
    InvalidFormat(u8),
    ValueTooLarge { len: usize, max: usize },
    TableTooLarge { len: usize, max: usize },
    TypeMismatch,
    InvalidOffset,
}

#[derive(Clone, Copy, Debug, PartialEq, Eq, Structural)]
pub enum XOutputReservationDecodeError {
    InvalidRoot,
    InvalidType,
    InvalidFormat,
    InvalidLength,
    ValueOutOfRange,
}

#[derive(Clone, Copy, Debug, PartialEq, Eq, Structural)]
pub enum XSizeHintsDecodeError {
    InvalidType,
    InvalidFormat,
    InvalidLength,
    InvalidExtent,
    InvalidBounds,
}

#[derive(Clone, Copy, Debug, PartialEq, Eq, Structural)]
pub enum XTransientForDecodeError {
    InvalidType,
    InvalidFormat,
    InvalidLength,
    InvalidWindow,
}

#[derive(Clone, Copy, Debug, PartialEq, Eq, Structural)]
pub enum XWindowTypeDecodeError {
    InvalidType,
    InvalidFormat,
    InvalidLength,
}

/// A stored property as the contracts see it.
pub struct PropertyValue {
    pub property_type: XAtom,
    pub format: u8,
    pub bytes: Seq<u8>,
    pub generation: u64,
}

/// A property change as the contracts see it.
pub struct PropertyChangeView {
    pub mode: XPropertyMode,
    pub window: XResourceId,
    pub property: XAtom,
    pub property_type: XAtom,
    pub format: u8,
    pub bytes: Seq<u8>,
}

/// A GetProperty reply as the contracts see it.
pub struct PropertyReplyView {
    pub property_type: XAtom,
    pub format: u8,
    pub bytes_after: u32,
    pub item_count: u32,
    pub bytes: Seq<u8>,
}

impl View for XPropertyRecord {
    type V = PropertyValue;

    open spec fn view(&self) -> PropertyValue {
        PropertyValue {
            property_type: self.property_type,
            format: self.format,
            bytes: self.bytes@,
            generation: self.generation,
        }
    }
}

impl View for XPropertyChange {
    type V = PropertyChangeView;

    open spec fn view(&self) -> PropertyChangeView {
        PropertyChangeView {
            mode: self.mode,
            window: self.window,
            property: self.property,
            property_type: self.property_type,
            format: self.format,
            bytes: self.bytes@,
        }
    }
}

impl View for XPropertyReadReply {
    type V = PropertyReplyView;

    open spec fn view(&self) -> PropertyReplyView {
        PropertyReplyView {
            property_type: self.property_type,
            format: self.format,
            bytes_after: self.bytes_after,
            item_count: self.item_count,
            bytes: self.bytes@,
        }
    }
}

/// Where a property lives: the owning namespace, the window and the name.
pub type PropertyKey = (NamespaceId, XResourceId, XAtom);

pub open spec fn record_key(r: XPropertyRecord) -> PropertyKey {
    (r.namespace, r.window, r.property)
}

/// The order the table keeps its keys in: by namespace, then window id and
/// generation, then property atom.
pub open spec fn key_lt(a: PropertyKey, b: PropertyKey) -> bool {
    ||| a.0.raw < b.0.raw
    ||| a.0.raw == b.0.raw && a.1.local.raw < b.1.local.raw
    ||| a.0.raw == b.0.raw && a.1.local.raw == b.1.local.raw && a.1.local.generation
        < b.1.local.generation
    ||| a.0.raw == b.0.raw && a.1.local.raw == b.1.local.raw && a.1.local.generation
        == b.1.local.generation && a.2 < b.2
}

pub open spec fn keys_sorted(s: Seq<XPropertyRecord>) -> bool {
    forall|i: int, j: int| 0 <= i < j < s.len() ==> key_lt(record_key(s[i]), record_key(s[j]))
}

pub open spec fn key_present(s: Seq<XPropertyRecord>, k: PropertyKey) -> bool {
    exists|i: int| 0 <= i < s.len() && record_key(s[i]) == k
}

pub open spec fn key_index(s: Seq<XPropertyRecord>, k: PropertyKey) -> int {
    choose|i: int| 0 <= i < s.len() && record_key(s[i]) == k
}

pub open spec fn property_map(s: Seq<XPropertyRecord>) -> Map<PropertyKey, PropertyValue> {
    Map::new(|k: PropertyKey| key_present(s, k), |k: PropertyKey| s[key_index(s, k)]@)
}

/// The bytes stored across all records.
pub open spec fn stored_bytes(s: Seq<XPropertyRecord>) -> int
    decreases s.len(),
{
    if s.len() == 0 {
        0
    } else {
        stored_bytes(s.drop_last()) + s.last().bytes@.len()
    }
}

proof fn lemma_key_lt_facts()
    ensures
        forall|a: PropertyKey| !#[trigger] key_lt(a, a),
        forall|a: PropertyKey, b: PropertyKey, c: PropertyKey|
            #[trigger] key_lt(a, b) && #[trigger] key_lt(b, c) ==> key_lt(a, c),
        forall|a: PropertyKey, b: PropertyKey|
            a != b ==> #[trigger] key_lt(a, b) || #[trigger] key_lt(b, a),
{
    assert forall|a: PropertyKey, b: PropertyKey| a != b implies #[trigger] key_lt(a, b)
        || #[trigger] key_lt(b, a) by {
        if a.0.raw == b.0.raw && a.1.local.raw == b.1.local.raw && a.1.local.generation
            == b.1.local.generation && a.2 == b.2 {
            assert(a.0 == b.0);
            assert(a.1.local == b.1.local);
            assert(a.1 == b.1);
        }
    }
}

proof fn lemma_sorted_index(s: Seq<XPropertyRecord>, i: int)
    requires
        keys_sorted(s),
        0 <= i < s.len(),
    ensures
        key_present(s, record_key(s[i])),
        key_index(s, record_key(s[i])) == i,
{
    lemma_key_lt_facts();
    let j = key_index(s, record_key(s[i]));
    if j < i {
        assert(key_lt(record_key(s[j]), record_key(s[i])));
    } else if j > i {
        assert(key_lt(record_key(s[i]), record_key(s[j])));
    }
}

proof fn lemma_stored_bytes_concat(a: Seq<XPropertyRecord>, b: Seq<XPropertyRecord>)
    ensures
        stored_bytes(a + b) == stored_bytes(a) + stored_bytes(b),
    decreases b.len(),
{
    if b.len() == 0 {
        assert(a + b =~= a);
    } else {
        lemma_stored_bytes_concat(a, b.drop_last());
        assert((a + b).drop_last() =~= a + b.drop_last());
    }
}

proof fn lemma_stored_bytes_single(r: XPropertyRecord)
    ensures
        stored_bytes(seq![r]) == r.bytes@.len(),
{
    let s = seq![r];
    assert(s.drop_last() =~= Seq::<XPropertyRecord>::empty());
    assert(stored_bytes(s.drop_last()) == 0);
    assert(s.last() == r);
}

proof fn lemma_stored_bytes_nonneg(s: Seq<XPropertyRecord>)
    ensures
        stored_bytes(s) >= 0,
    decreases s.len(),
{
    if s.len() > 0 {
        lemma_stored_bytes_nonneg(s.drop_last());
    }
}

/// Splits `s` around index `i`.
proof fn lemma_split(s: Seq<XPropertyRecord>, i: int)
    requires
        0 <= i < s.len(),
    ensures
        s =~= s.subrange(0, i) + seq![s[i]] + s.subrange(i + 1, s.len() as int),
        stored_bytes(s) == stored_bytes(s.subrange(0, i)) + s[i].bytes@.len() + stored_bytes(
            s.subrange(i + 1, s.len() as int),
        ),
{
    let a = s.subrange(0, i);
    let c = s.subrange(i + 1, s.len() as int);
    assert(s =~= a + seq![s[i]] + c);
    lemma_stored_bytes_concat(a + seq![s[i]], c);
    lemma_stored_bytes_concat(a, seq![s[i]]);
    lemma_stored_bytes_single(s[i]);
}

proof fn lemma_stored_bytes_update(s: Seq<XPropertyRecord>, i: int, r: XPropertyRecord)
    requires
        0 <= i < s.len(),
    ensures
        stored_bytes(s.update(i, r)) == stored_bytes(s) - s[i].bytes@.len() + r.bytes@.len(),
{
    let t = s.update(i, r);
    lemma_split(s, i);
    lemma_split(t, i);
    assert(t.subrange(0, i) =~= s.subrange(0, i));
    assert(t.subrange(i + 1, t.len() as int) =~= s.subrange(i + 1, s.len() as int));
}

proof fn lemma_stored_bytes_insert(s: Seq<XPropertyRecord>, i: int, r: XPropertyRecord)
    requires
        0 <= i <= s.len(),
    ensures
        stored_bytes(s.insert(i, r)) == stored_bytes(s) + r.bytes@.len(),
{
    let t = s.insert(i, r);
    lemma_split(t, i);
    assert(t.subrange(0, i) =~= s.subrange(0, i));
    assert(t.subrange(i + 1, t.len() as int) =~= s.subrange(i, s.len() as int));
    assert(s =~= s.subrange(0, i) + s.subrange(i, s.len() as int));
    lemma_stored_bytes_concat(s.subrange(0, i), s.subrange(i, s.len() as int));
}

proof fn lemma_stored_bytes_remove(s: Seq<XPropertyRecord>, i: int)
    requires
        0 <= i < s.len(),
    ensures
        stored_bytes(s.remove(i)) == stored_bytes(s) - s[i].bytes@.len(),
{
    let t = s.remove(i);
    lemma_split(s, i);
    assert(t =~= s.subrange(0, i) + s.subrange(i + 1, s.len() as int));
    lemma_stored_bytes_concat(s.subrange(0, i), s.subrange(i + 1, s.len() as int));
}

proof fn lemma_map_update(s: Seq<XPropertyRecord>, i: int, r: XPropertyRecord)
    requires
        keys_sorted(s),
        0 <= i < s.len(),
        record_key(r) == record_key(s[i]),
    ensures
        keys_sorted(s.update(i, r)),
        property_map(s.update(i, r)) == property_map(s).insert(record_key(r), r@),
{
    let t = s.update(i, r);
    assert(keys_sorted(t)) by {
        assert forall|a: int, b: int| 0 <= a < b < t.len() implies key_lt(
            record_key(t[a]),
            record_key(t[b]),
        ) by {
            assert(key_lt(record_key(s[a]), record_key(s[b])));
        }
    }
    assert forall|k: PropertyKey| #[trigger] key_present(t, k) == key_present(s, k) by {
        if key_present(s, k) {
            let j = key_index(s, k);
            assert(record_key(t[j]) == k);
        }
        if key_present(t, k) {
            let j = key_index(t, k);
            assert(record_key(s[j]) == k);
        }
    }
    assert forall|k: PropertyKey| key_present(t, k) implies #[trigger] t[key_index(t, k)]@ == (
    if k == record_key(r) {
        r@
    } else {
        s[key_index(s, k)]@
    }) by {
        let j = key_index(t, k);
        lemma_sorted_index(t, j);
        if k == record_key(r) {
            lemma_sorted_index(t, i);
        } else {
            lemma_sorted_index(s, j);
        }
    }
    assert(property_map(t) =~= property_map(s).insert(record_key(r), r@));
}

proof fn lemma_map_insert(s: Seq<XPropertyRecord>, i: int, r: XPropertyRecord)
    requires
        keys_sorted(s),
        0 <= i <= s.len(),
        forall|j: int| 0 <= j < i ==> key_lt(record_key(s[j]), record_key(r)),
        forall|j: int| i <= j < s.len() ==> key_lt(record_key(r), record_key(s[j])),
    ensures
        keys_sorted(s.insert(i, r)),
        !key_present(s, record_key(r)),
        property_map(s.insert(i, r)) == property_map(s).insert(record_key(r), r@),
{
    lemma_key_lt_facts();
    let t = s.insert(i, r);
    assert(keys_sorted(t)) by {
        assert forall|a: int, b: int| 0 <= a < b < t.len() implies key_lt(
            record_key(t[a]),
            record_key(t[b]),
        ) by {
            if b < i {
                assert(key_lt(record_key(s[a]), record_key(s[b])));
            } else if b == i {
            } else if a < i {
                assert(key_lt(record_key(s[a]), record_key(r)));
                assert(key_lt(record_key(r), record_key(s[b - 1])));
            } else if a == i {
            } else {
                assert(key_lt(record_key(s[a - 1]), record_key(s[b - 1])));
            }
        }
    }
    assert(!key_present(s, record_key(r))) by {
        if key_present(s, record_key(r)) {
            let j = key_index(s, record_key(r));
            if j < i {
                assert(key_lt(record_key(s[j]), record_key(r)));
            } else {
                assert(key_lt(record_key(r), record_key(s[j])));
            }
        }
    }
    assert forall|k: PropertyKey| #[trigger] key_present(t, k) == (key_present(s, k) || k
        == record_key(r)) by {
        if key_present(s, k) {
            let j = key_index(s, k);
            let j2 = if j < i { j } else { j + 1 };
            assert(t[j2] == s[j]);
        }
        if k == record_key(r) {
            assert(t[i] == r);
        }
        if key_present(t, k) && k != record_key(r) {
            let j = key_index(t, k);
            let j2 = if j < i { j } else { j - 1 };
            assert(s[j2] == t[j]);
        }
    }
    assert forall|k: PropertyKey| key_present(t, k) implies #[trigger] t[key_index(t, k)]@ == (
    if k == record_key(r) {
        r@
    } else {
        s[key_index(s, k)]@
    }) by {
        let j = key_index(t, k);
        lemma_sorted_index(t, j);
        if k == record_key(r) {
            lemma_sorted_index(t, i);
        } else {
            let j2 = if j < i { j } else { j - 1 };
            assert(s[j2] == t[j]);
            lemma_sorted_index(s, j2);
        }
    }
    assert(property_map(t) =~= property_map(s).insert(record_key(r), r@));
}

proof fn lemma_map_remove(s: Seq<XPropertyRecord>, i: int)
    requires
        keys_sorted(s),
        0 <= i < s.len(),
    ensures
        keys_sorted(s.remove(i)),
        property_map(s.remove(i)) == property_map(s).remove(record_key(s[i])),
{
    let t = s.remove(i);
    let k0 = record_key(s[i]);
    assert(keys_sorted(t)) by {
        assert forall|a: int, b: int| 0 <= a < b < t.len() implies key_lt(
            record_key(t[a]),
            record_key(t[b]),
        ) by {
            let a2 = if a < i { a } else { a + 1 };
            let b2 = if b < i { b } else { b + 1 };
            assert(key_lt(record_key(s[a2]), record_key(s[b2])));
        }
    }
    assert forall|k: PropertyKey| #[trigger] key_present(t, k) == (key_present(s, k) && k != k0) by {
        if key_present(s, k) && k != k0 {
            let j = key_index(s, k);
            let j2 = if j < i { j } else { j - 1 };
            assert(t[j2] == s[j]);
        }
        if key_present(t, k) {
            let j = key_index(t, k);
            let j2 = if j < i { j } else { j + 1 };
            assert(s[j2] == t[j]);
            lemma_sorted_index(s, j2);
            lemma_sorted_index(s, i);
        }
    }
    assert forall|k: PropertyKey| key_present(t, k) implies #[trigger] t[key_index(t, k)]@
        == s[key_index(s, k)]@ by {
        let j = key_index(t, k);
        let j2 = if j < i { j } else { j + 1 };
        assert(s[j2] == t[j]);
        lemma_sorted_index(s, j2);
    }
    assert(property_map(t) =~= property_map(s).remove(k0));
}

proof fn lemma_property_map_len(s: Seq<XPropertyRecord>)
    requires
        keys_sorted(s),
    ensures
        property_map(s).dom().finite(),
        property_map(s).dom().len() == s.len(),
    decreases s.len(),
{
    if s.len() == 0 {
        assert(property_map(s).dom() =~= Set::<PropertyKey>::empty());
    } else {
        let p = s.drop_last();
        assert(keys_sorted(p));
        lemma_property_map_len(p);
        lemma_map_insert(p, p.len() as int, s.last());
        assert(p.insert(p.len() as int, s.last()) =~= s);
    }
}

/// The order `windows_with_property` lists windows in.
pub open spec fn window_lt(a: XResourceId, b: XResourceId) -> bool {
    a.local.raw < b.local.raw || (a.local.raw == b.local.raw && a.local.generation
        < b.local.generation)
}

pub open spec fn on_window(r: XPropertyRecord, namespace: NamespaceId, window: XResourceId) -> bool {
    r.namespace == namespace && r.window == window
}

/// The records of `s` that are not on the window, in order.
pub open spec fn records_off_window(
    s: Seq<XPropertyRecord>,
    namespace: NamespaceId,
    window: XResourceId,
) -> Seq<XPropertyRecord>
    decreases s.len(),
{
    if s.len() == 0 {
        Seq::empty()
    } else {
        let rest = records_off_window(s.drop_last(), namespace, window);
        if on_window(s.last(), namespace, window) {
            rest
        } else {
            rest.push(s.last())
        }
    }
}

/// `m` without the properties of one window.
pub open spec fn map_without_window(
    m: Map<PropertyKey, PropertyValue>,
    namespace: NamespaceId,
    window: XResourceId,
) -> Map<PropertyKey, PropertyValue> {
    Map::new(
        |k: PropertyKey| m.contains_key(k) && !(k.0 == namespace && k.1 == window),
        |k: PropertyKey| m[k],
    )
}

proof fn lemma_records_off_window(
    s: Seq<XPropertyRecord>,
    namespace: NamespaceId,
    window: XResourceId,
)
    requires
        keys_sorted(s),
    ensures
        keys_sorted(records_off_window(s, namespace, window)),
        forall|k: int|
            0 <= k < records_off_window(s, namespace, window).len() ==> exists|j: int|
                0 <= j < s.len() && s[j] == #[trigger] records_off_window(s, namespace, window)[k],
        property_map(records_off_window(s, namespace, window)) == map_without_window(
            property_map(s),
            namespace,
            window,
        ),
        stored_bytes(records_off_window(s, namespace, window)) <= stored_bytes(s),
    decreases s.len(),
{
    let t = records_off_window(s, namespace, window);
    if s.len() == 0 {
        assert(property_map(t) =~= map_without_window(property_map(s), namespace, window));
    } else {
        let p = s.drop_last();
        let last = s.last();
        let q = records_off_window(p, namespace, window);
        assert(keys_sorted(p));
        lemma_records_off_window(p, namespace, window);
        lemma_map_insert(p, p.len() as int, last);
        assert(p.insert(p.len() as int, last) =~= s);
        if on_window(last, namespace, window) {
            assert(t == q);
            assert(stored_bytes(s) == stored_bytes(p) + last.bytes@.len());
            assert forall|k: int| 0 <= k < t.len() implies exists|j: int|
                0 <= j < s.len() && s[j] == #[trigger] t[k] by {
                let j = choose|j: int| 0 <= j < p.len() && p[j] == q[k];
                assert(s[j] == p[j]);
            }
            assert(property_map(t) =~= map_without_window(property_map(s), namespace, window));
        } else {
            assert(t == q.push(last));
            assert forall|k: int| 0 <= k < q.len() implies key_lt(
                record_key(#[trigger] q[k]),
                record_key(last),
            ) by {
                let j = choose|j: int| 0 <= j < p.len() && p[j] == q[k];
                assert(key_lt(record_key(s[j]), record_key(s[s.len() - 1])));
            }
            lemma_map_insert(q, q.len() as int, last);
            assert(q.insert(q.len() as int, last) =~= t);
            assert(t.drop_last() =~= q);
            assert(stored_bytes(t) == stored_bytes(q) + last.bytes@.len());
            assert(stored_bytes(s) == stored_bytes(p) + last.bytes@.len());
            assert forall|k: int| 0 <= k < t.len() implies exists|j: int|
                0 <= j < s.len() && s[j] == #[trigger] t[k] by {
                if k < q.len() {
                    let j = choose|j: int| 0 <= j < p.len() && p[j] == q[k];
                    assert(s[j] == p[j]);
                    assert(t[k] == q[k]);
                } else {
                    assert(s[s.len() - 1] == t[k]);
                }
            }
            assert(!(record_key(last).0 == namespace && record_key(last).1 == window));
            assert(property_map(t) =~= map_without_window(property_map(s), namespace, window));
        }
        lemma_stored_bytes_nonneg(p);
    }
}

/// Whether the wire allows a property of this format: 8, 16 or 32 bits per
/// item.
pub open spec fn valid_property_format(format: u8) -> bool {
    format == 8 || format == 16 || format == 32
}

pub fn validate_property_format(format: u8) -> (result: Result<(), XPropertyError>)
    ensures
        result == if valid_property_format(format) {
            Ok::<(), XPropertyError>(())
        } else {
            Err(XPropertyError::InvalidFormat(format))
        },
{
    if format == 8 || format == 16 || format == 32 {
        Ok(())
    } else {
        Err(XPropertyError::InvalidFormat(format))
    }
}

/// The value a change leaves behind, given the value stored before it.
pub open spec fn changed_bytes(previous: Option<PropertyValue>, change: PropertyChangeView) -> Result<
    Seq<u8>,
    XPropertyError,
> {
    match previous {
        None => Ok(change.bytes),
        Some(record) => match change.mode {
            XPropertyMode::Replace => Ok(change.bytes),
            _ => if record.property_type != change.property_type || record.format
                != change.format {
                Err(XPropertyError::TypeMismatch)
            } else if record.bytes.len() + change.bytes.len() > X_PROPERTY_MAX_VALUE_BYTES {
                Err(
                    XPropertyError::ValueTooLarge {
                        len: (record.bytes.len() + change.bytes.len()) as usize,
                        max: X_PROPERTY_MAX_VALUE_BYTES,
                    },
                )
            } else if change.mode == XPropertyMode::Append {
                Ok(record.bytes + change.bytes)
            } else {
                Ok(change.bytes + record.bytes)
            },
        },
    }
}

/// What ChangeProperty makes of a table holding `m`, with `stored` value
/// bytes in all, when `namespace` sends `change`: the new value, or why the
/// change is refused.
pub open spec fn property_change_result(
    m: Map<PropertyKey, PropertyValue>,
    stored: int,
    namespace: NamespaceId,
    change: PropertyChangeView,
) -> Result<PropertyValue, XPropertyError> {
    let key = (namespace, change.window, change.property);
    let previous = if m.contains_key(key) {
        Some(m[key])
    } else {
        None
    };
    if !namespace.spec_is_valid() {
        Err(XPropertyError::InvalidNamespace)
    } else if !change.window.spec_is_valid() {
        Err(XPropertyError::InvalidWindow)
    } else if !valid_property_format(change.format) {
        Err(XPropertyError::InvalidFormat(change.format))
    } else if change.bytes.len() > X_PROPERTY_MAX_VALUE_BYTES {
        Err(
            XPropertyError::ValueTooLarge {
                len: change.bytes.len() as usize,
                max: X_PROPERTY_MAX_VALUE_BYTES,
            },
        )
    } else {
        match changed_bytes(previous, change) {
            Err(error) => Err(error),
            Ok(bytes) => {
                let previous_len = match previous {
                    Some(record) => record.bytes.len() as int,
                    None => 0,
                };
                let table_len = stored - previous_len + bytes.len();
                if table_len > X_PROPERTY_MAX_TABLE_BYTES {
                    Err(
                        XPropertyError::TableTooLarge {
                            len: table_len as usize,
                            max: X_PROPERTY_MAX_TABLE_BYTES,
                        },
                    )
                } else {
                    Ok(
                        PropertyValue {
                            property_type: change.property_type,
                            format: change.format,
                            bytes,
                            generation: match previous {
                                Some(record) => if record.generation == u64::MAX {
                                    u64::MAX
                                } else {
                                    (record.generation + 1) as u64
                                },
                                None => 1,
                            },
                        },
                    )
                }
            },
        }
    }
}

fn key_less(
    a_namespace: NamespaceId,
    a_window: XResourceId,
    a_property: XAtom,
    b_namespace: NamespaceId,
    b_window: XResourceId,
    b_property: XAtom,
) -> (less: bool)
    ensures
        less == key_lt((a_namespace, a_window, a_property), (b_namespace, b_window, b_property)),
{
    if a_namespace.raw != b_namespace.raw {
        return a_namespace.raw < b_namespace.raw;
    }
    if a_window.local.raw != b_window.local.raw {
        return a_window.local.raw < b_window.local.raw;
    }
    if a_window.local.generation != b_window.local.generation {
        return a_window.local.generation < b_window.local.generation;
    }
    a_property < b_property
}

pub(crate) fn copy_bytes(bytes: &[u8]) -> (copy: Vec<u8>)
    ensures
        copy@ == bytes@,
{
    let mut copy: Vec<u8> = Vec::new();
    let mut i: usize = 0;
    while i < bytes.len()
        invariant
            i <= bytes@.len(),
            copy@ =~= bytes@.subrange(0, i as int),
        decreases bytes@.len() - i,
    {
        copy.push(bytes[i]);
        i = i + 1;
    }
    assert(bytes@.subrange(0, bytes@.len() as int) =~= bytes@);
    copy
}

/// A copy of a record.
pub fn copy_record(record: &XPropertyRecord) -> (copy: XPropertyRecord)
    ensures
        copy@ == record@,
        record_key(copy) == record_key(*record),
{
    XPropertyRecord {
        namespace: record.namespace,
        window: record.window,
        property: record.property,
        property_type: record.property_type,
        format: record.format,
        bytes: copy_bytes(record.bytes.as_slice()),
        generation: record.generation,
    }
}

fn ensure_same_property_shape(record: &XPropertyRecord, change: &XPropertyChange) -> (result: Result<
    (),
    XPropertyError,
>)
    ensures
        result == if record.property_type != change.property_type || record.format
            != change.format {
            Err::<(), XPropertyError>(XPropertyError::TypeMismatch)
        } else {
            Ok(())
        },
{
    if record.property_type != change.property_type || record.format != change.format {
        return Err(XPropertyError::TypeMismatch);
    }
    Ok(())
}

/// `first` followed by `second`, if the result fits in one property value.
pub fn joined_bytes(first: &[u8], second: &[u8]) -> (joined: Result<Vec<u8>, XPropertyError>)
    ensures
        match joined {
            Ok(bytes) => first@.len() + second@.len() <= X_PROPERTY_MAX_VALUE_BYTES && bytes@
                == first@ + second@,
            Err(error) => first@.len() + second@.len() > X_PROPERTY_MAX_VALUE_BYTES && error == (
            if first@.len() + second@.len() > usize::MAX {
                XPropertyError::ValueTooLarge { len: usize::MAX, max: X_PROPERTY_MAX_VALUE_BYTES }
            } else {
                XPropertyError::ValueTooLarge {
                    len: (first@.len() + second@.len()) as usize,
                    max: X_PROPERTY_MAX_VALUE_BYTES,
                }
            }),
        },
{
    let len = match first.len().checked_add(second.len()) {
        Some(len) => len,
        None => {
            return Err(
                XPropertyError::ValueTooLarge { len: usize::MAX, max: X_PROPERTY_MAX_VALUE_BYTES },
            )
        },
    };
    if len > X_PROPERTY_MAX_VALUE_BYTES {
        return Err(XPropertyError::ValueTooLarge { len, max: X_PROPERTY_MAX_VALUE_BYTES });
    }
    let mut bytes = copy_bytes(first);
    let mut i: usize = 0;
    while i < second.len()
        invariant
            i <= second@.len(),
            bytes@ =~= first@ + second@.subrange(0, i as int),
        decreases second@.len() - i,
    {
        bytes.push(second[i]);
        i = i + 1;
    }
    assert(second@.subrange(0, second@.len() as int) =~= second@);
    Ok(bytes)
}

/// `n` as a `u32`, or `u32::MAX` where it does not fit.
pub open spec fn clamp_u32(n: int) -> u32 {
    if n <= u32::MAX {
        n as u32
    } else {
        u32::MAX
    }
}

/// The reply GetProperty gives for a stored value, read from `long_offset`
/// four-byte units in for at most `long_length` units.
pub open spec fn property_read_reply(
    property_type: XAtom,
    format: u8,
    bytes: Seq<u8>,
    requested_type: XAtom,
    long_offset: u32,
    long_length: u32,
) -> Result<PropertyReplyView, XPropertyError> {
    if requested_type != X_PROPERTY_ANY_TYPE && requested_type != property_type {
        Ok(
            PropertyReplyView {
                property_type,
                format,
                bytes_after: clamp_u32(bytes.len() as int),
                item_count: 0,
                bytes: Seq::empty(),
            },
        )
    } else {
        let offset = long_offset * 4;
        if offset > usize::MAX || offset > bytes.len() {
            Err(XPropertyError::InvalidOffset)
        } else {
            let remaining = bytes.len() - offset;
            let requested = if long_length * 4 > usize::MAX {
                usize::MAX as int
            } else {
                long_length * 4
            };
            let returned = if remaining <= requested {
                remaining
            } else {
                requested
            };
            Ok(
                PropertyReplyView {
                    property_type,
                    format,
                    bytes_after: clamp_u32(remaining - returned),
                    item_count: clamp_u32(returned / (format / 8) as int),
                    bytes: bytes.subrange(offset, offset + returned),
                },
            )
        }
    }
}

fn clamp_to_u32(n: usize) -> (clamped: u32)
    ensures
        clamped == clamp_u32(n as int),
{
    if n <= u32::MAX as usize {
        n as u32
    } else {
        u32::MAX
    }
}

pub fn read_property_value(
    property_type: XAtom,
    format: u8,
    bytes: &[u8],
    requested_type: XAtom,
    long_offset: u32,
    long_length: u32,
) -> (reply: Result<XPropertyReadReply, XPropertyError>)
    requires
        format >= 8,
    ensures
        match reply {
            Ok(r) => property_read_reply(
                property_type,
                format,
                bytes@,
                requested_type,
                long_offset,
                long_length,
            ) == Ok::<PropertyReplyView, XPropertyError>(r@),
            Err(e) => property_read_reply(
                property_type,
                format,
                bytes@,
                requested_type,
                long_offset,
                long_length,
            ) == Err::<PropertyReplyView, XPropertyError>(e),
        },
{
    if requested_type != X_PROPERTY_ANY_TYPE && requested_type != property_type {
        let r = XPropertyReadReply {
            property_type,
            format,
            bytes_after: clamp_to_u32(bytes.len()),
            item_count: 0,
            bytes: Vec::new(),
        };
        assert(r@.bytes =~= Seq::<u8>::empty());
        return Ok(r);
    }
    let offset = match (long_offset as usize).checked_mul(4) {
        Some(offset) => offset,
        None => return Err(XPropertyError::InvalidOffset),
    };
    if offset > bytes.len() {
        return Err(XPropertyError::InvalidOffset);
    }
    let remaining = bytes.len() - offset;
    let requested_bytes: usize = match (long_length as usize).checked_mul(4) {
        Some(n) => n,
        None => usize::MAX,
    };
    let returned_len = if remaining <= requested_bytes {
        remaining
    } else {
        requested_bytes
    };
    let bytes_after = remaining - returned_len;
    let item_width = (format / 8) as usize;
    let mut out: Vec<u8> = Vec::new();
    let end = offset + returned_len;
    let mut i: usize = offset;
    while i < end
        invariant
            end == offset + returned_len,
            offset <= i <= offset + returned_len,
            offset + returned_len <= bytes@.len(),
            out@ =~= bytes@.subrange(offset as int, i as int),
        decreases end - i,
    {
        out.push(bytes[i]);
        i = i + 1;
    }
    Ok(
        XPropertyReadReply {
            property_type,
            format,
            bytes_after: clamp_to_u32(bytes_after),
            item_count: clamp_to_u32(returned_len / item_width),
            bytes: out,
        },
    )
}

/// The outcome of GetProperty against a table holding `m`: the reply and
/// whether the property was deleted by the read.
pub open spec fn property_read_result(
    m: Map<PropertyKey, PropertyValue>,
    namespace: NamespaceId,
    read: XPropertyRead,
) -> Result<(PropertyReplyView, bool), XPropertyError> {
    let key = (namespace, read.window, read.property);
    if !namespace.spec_is_valid() {
        Err(XPropertyError::InvalidNamespace)
    } else if !read.window.spec_is_valid() {
        Err(XPropertyError::InvalidWindow)
    } else if !m.contains_key(key) {
        Ok(
            (
                PropertyReplyView {
                    property_type: X_PROPERTY_ANY_TYPE,
                    format: 0,
                    bytes_after: 0,
                    item_count: 0,
                    bytes: Seq::empty(),
                },
                false,
            ),
        )
    } else {
        let record = m[key];
        match property_read_reply(
            record.property_type,
            record.format,
            record.bytes,
            read.property_type,
            read.long_offset,
            read.long_length,
        ) {
            Err(error) => Err(error),
            Ok(reply) => {
                let deleted = read.delete && reply.property_type != X_PROPERTY_ANY_TYPE && (
                read.property_type == X_PROPERTY_ANY_TYPE || read.property_type
                    == reply.property_type) && reply.bytes_after == 0;
                Ok((reply, deleted))
            },
        }
    }
}

/// What a client reads back after ChangeProperty replaced a value: the type,
/// format and bytes it wrote, with nothing left unread, when it asks for the
/// whole value from the start under any type.
pub proof fn law_read_returns_what_change_wrote(
    m: Map<PropertyKey, PropertyValue>,
    stored: int,
    namespace: NamespaceId,
    change: PropertyChangeView,
    long_length: u32,
)
    requires
        change.mode == XPropertyMode::Replace,
        property_change_result(m, stored, namespace, change) is Ok,
        long_length * 4 >= change.bytes.len(),
    ensures
        ({
            let written = property_change_result(m, stored, namespace, change)->Ok_0;
            let read = XPropertyRead {
                delete: false,
                window: change.window,
                property: change.property,
                property_type: X_PROPERTY_ANY_TYPE,
                long_offset: 0,
                long_length,
            };
            let stored_after = m.insert((namespace, change.window, change.property), written);
            &&& property_read_result(stored_after, namespace, read) is Ok
            &&& property_read_result(stored_after, namespace, read)->Ok_0.0.bytes == change.bytes
            &&& property_read_result(stored_after, namespace, read)->Ok_0.0.property_type
                == change.property_type
            &&& property_read_result(stored_after, namespace, read)->Ok_0.0.format
                == change.format
            &&& property_read_result(stored_after, namespace, read)->Ok_0.0.bytes_after == 0
            &&& !property_read_result(stored_after, namespace, read)->Ok_0.1
        }),
{
    let written = property_change_result(m, stored, namespace, change)->Ok_0;
    assert(written.bytes == change.bytes);
    assert(change.bytes.subrange(0, change.bytes.len() as int) =~= change.bytes);
}

/// Appending to a value of the same type and format yields the old bytes
/// followed by the new ones, and prepending the new ones followed by the old.
pub proof fn law_append_and_prepend_concatenate(
    m: Map<PropertyKey, PropertyValue>,
    stored: int,
    namespace: NamespaceId,
    change: PropertyChangeView,
)
    requires
        change.mode != XPropertyMode::Replace,
        m.contains_key((namespace, change.window, change.property)),
        property_change_result(m, stored, namespace, change) is Ok,
    ensures
        ({
            let old_bytes = m[(namespace, change.window, change.property)].bytes;
            let written = property_change_result(m, stored, namespace, change)->Ok_0;
            &&& change.mode == XPropertyMode::Append ==> written.bytes == old_bytes + change.bytes
            &&& change.mode == XPropertyMode::Prepend ==> written.bytes == change.bytes + old_bytes
            &&& written.generation >= m[(namespace, change.window, change.property)].generation
        }),
{
}

/// A changed property is never left in a shape the wire cannot carry: its
/// format is 8, 16 or 32 and its value within the per-value bound.
pub proof fn law_change_keeps_value_well_formed(
    m: Map<PropertyKey, PropertyValue>,
    stored: int,
    namespace: NamespaceId,
    change: PropertyChangeView,
)
    requires
        property_change_result(m, stored, namespace, change) is Ok,
        forall|k: PropertyKey| #[trigger] m.contains_key(k) ==> m[k].bytes.len()
            <= X_PROPERTY_MAX_VALUE_BYTES,
    ensures
        valid_property_format(property_change_result(m, stored, namespace, change)->Ok_0.format),
        property_change_result(m, stored, namespace, change)->Ok_0.bytes.len()
            <= X_PROPERTY_MAX_VALUE_BYTES,
{
}

/// A read that asks for deletion, under any type, of a whole stored value
/// deletes it.
pub proof fn law_complete_delete_read_deletes(
    m: Map<PropertyKey, PropertyValue>,
    namespace: NamespaceId,
    read: XPropertyRead,
)
    requires
        namespace.spec_is_valid(),
        read.window.spec_is_valid(),
        read.delete,
        read.property_type == X_PROPERTY_ANY_TYPE,
        read.long_offset == 0,
        m.contains_key((namespace, read.window, read.property)),
        read.long_length * 4 >= m[(namespace, read.window, read.property)].bytes.len(),
        m[(namespace, read.window, read.property)].property_type != X_PROPERTY_ANY_TYPE,
        m[(namespace, read.window, read.property)].format >= 8,
        m[(namespace, read.window, read.property)].bytes.len() <= X_PROPERTY_MAX_VALUE_BYTES,
    ensures
        property_read_result(m, namespace, read) is Ok,
        property_read_result(m, namespace, read)->Ok_0.1,
{
}

/// Every property of every namespace, at most one per key.
#[derive(Debug)]
pub struct XPropertyTable {
    records: Vec<XPropertyRecord>,
}

impl View for XPropertyTable {
    type V = Map<PropertyKey, PropertyValue>;

    closed spec fn view(&self) -> Map<PropertyKey, PropertyValue> {
        property_map(self.records@)
    }
}

impl XPropertyTable {
    /// Records are kept in key order, each under a valid namespace and window,
    /// each of a valid format and within the per-value bound, and their bytes
    /// together within the table bound.
    #[verifier::type_invariant]
    closed spec fn wf(self) -> bool {
        &&& keys_sorted(self.records@)
        &&& forall|i: int| 0 <= i < self.records@.len() ==> {
            &&& (#[trigger] self.records@[i]).namespace.spec_is_valid()
            &&& self.records@[i].window.spec_is_valid()
            &&& valid_property_format(self.records@[i].format)
            &&& self.records@[i].bytes@.len() <= X_PROPERTY_MAX_VALUE_BYTES
        }
        &&& stored_bytes(self.records@) <= X_PROPERTY_MAX_TABLE_BYTES
    }

    /// The value bytes stored across the whole table.
    pub closed spec fn stored(&self) -> int {
        stored_bytes(self.records@)
    }

    pub fn new() -> (table: Self)
        ensures
            table@ == Map::<PropertyKey, PropertyValue>::empty(),
            table.stored() == 0,
    {
        let table = XPropertyTable { records: Vec::new() };
        assert(table@ =~= Map::<PropertyKey, PropertyValue>::empty());
        table
    }

    /// Where `key` is, or where it would go.
    fn find(&self, namespace: NamespaceId, window: XResourceId, property: XAtom) -> (found: Result<
        usize,
        usize,
    >)
        ensures
            match found {
                Ok(i) => i < self.records@.len() && record_key(self.records@[i as int]) == (
                namespace,
                window,
                property,
                ),
                Err(i) => {
                    &&& i <= self.records@.len()
                    &&& forall|j: int|
                        0 <= j < i ==> key_lt(
                            record_key(self.records@[j]),
                            (namespace, window, property),
                        )
                    &&& forall|j: int|
                        i <= j < self.records@.len() ==> key_lt(
                            (namespace, window, property),
                            record_key(self.records@[j]),
                        )
                },
            },
    {
        proof {
            use_type_invariant(self);
            lemma_key_lt_facts();
        }
        let ghost key = (namespace, window, property);
        let mut i: usize = 0;
        while i < self.records.len()
            invariant
                i <= self.records@.len(),
                keys_sorted(self.records@),
                key == (namespace, window, property),
                forall|j: int| 0 <= j < i ==> key_lt(record_key(self.records@[j]), key),
            decreases self.records@.len() - i,
        {
            let r = &self.records[i];
            if !key_less(r.namespace, r.window, r.property, namespace, window, property) {
                if r.namespace.raw == namespace.raw && r.window.local.raw == window.local.raw
                    && r.window.local.generation == window.local.generation && r.property
                    == property {
                    assert(r.namespace == namespace);
                    assert(r.window.local == window.local);
                    assert(r.window == window);
                    return Ok(i);
                }
                assert(record_key(self.records@[i as int]) != key);
                assert(key_lt(key, record_key(self.records@[i as int])) || key_lt(
                    record_key(self.records@[i as int]),
                    key,
                ));
                assert(key_lt(key, record_key(self.records@[i as int])));
                assert forall|j: int| i <= j < self.records@.len() implies key_lt(
                    key,
                    record_key(self.records@[j]),
                ) by {
                    if j > i {
                        assert(key_lt(
                            record_key(self.records@[i as int]),
                            record_key(self.records@[j]),
                        ));
                    }
                }
                return Err(i);
            }
            i = i + 1;
        }
        Err(i)
    }

    /// The property stored under the key.
    pub fn get(&self, namespace: NamespaceId, window: XResourceId, property: XAtom) -> (record:
        Option<&XPropertyRecord>)
        ensures
            match record {
                Some(r) => self@.contains_key((namespace, window, property)) && r@ == self@[(
                namespace,
                window,
                property,
                )] && record_key(*r) == (namespace, window, property),
                None => !self@.contains_key((namespace, window, property)),
            },
    {
        proof {
            use_type_invariant(self);
            lemma_key_lt_facts();
        }
        match self.find(namespace, window, property) {
            Ok(i) => {
                proof {
                    lemma_sorted_index(self.records@, i as int);
                }
                Some(&self.records[i])
            },
            Err(i) => {
                proof {
                    let key = (namespace, window, property);
                    if key_present(self.records@, key) {
                        let j = key_index(self.records@, key);
                        if j < i {
                            assert(key_lt(record_key(self.records@[j]), key));
                        } else {
                            assert(key_lt(key, record_key(self.records@[j])));
                        }
                    }
                }
                None
            },
        }
    }

    /// The value bytes stored across all records.
    fn stored_len(&self) -> (len: usize)
        ensures
            len == self.stored(),
            len <= X_PROPERTY_MAX_TABLE_BYTES,
    {
        proof {
            use_type_invariant(self);
        }
        let mut total: usize = 0;
        let mut i: usize = 0;
        while i < self.records.len()
            invariant
                i <= self.records@.len(),
                stored_bytes(self.records@) <= X_PROPERTY_MAX_TABLE_BYTES,
                total == stored_bytes(self.records@.subrange(0, i as int)),
            decreases self.records@.len() - i,
        {
            proof {
                let s = self.records@;
                assert(s.subrange(0, i + 1).drop_last() =~= s.subrange(0, i as int));
                assert(s =~= s.subrange(0, i + 1) + s.subrange(i + 1, s.len() as int));
                lemma_stored_bytes_concat(s.subrange(0, i + 1), s.subrange(i + 1, s.len() as int));
                lemma_stored_bytes_nonneg(s.subrange(i + 1, s.len() as int));
            }
            total = total + self.records[i].bytes.len();
            i = i + 1;
        }
        assert(self.records@.subrange(0, i as int) =~= self.records@);
        total
    }

    /// Applies a ChangeProperty: replaces, appends to or prepends to the value
    /// stored under the key, bumping its generation, within the value and
    /// table bounds.
    pub fn apply_change(&mut self, namespace: NamespaceId, change: XPropertyChange) -> (result:
        Result<XPropertyRecord, XPropertyError>)
        ensures
            match result {
                Ok(record) => {
                    let key = (namespace, change.window, change.property);
                    &&& property_change_result(old(self)@, old(self).stored(), namespace, change@)
                        == Ok::<PropertyValue, XPropertyError>(record@)
                    &&& record_key(record) == key
                    &&& final(self)@ == old(self)@.insert(key, record@)
                    &&& final(self).stored() == old(self).stored() - (if old(self)@.contains_key(
                        key,
                    ) {
                        old(self)@[key].bytes.len() as int
                    } else {
                        0
                    }) + record.bytes@.len()
                },
                Err(error) => {
                    &&& property_change_result(old(self)@, old(self).stored(), namespace, change@)
                        == Err::<PropertyValue, XPropertyError>(error)
                    &&& final(self)@ == old(self)@
                    &&& final(self).stored() == old(self).stored()
                },
            },
            0 <= final(self).stored() <= X_PROPERTY_MAX_TABLE_BYTES,
    {
        proof {
            use_type_invariant(&*self);
            lemma_key_lt_facts();
        }
        let ghost key = (namespace, change.window, change.property);
        proof {
            lemma_stored_bytes_nonneg(self.records@);
        }
        if !namespace.is_valid() {
            return Err(XPropertyError::InvalidNamespace);
        }
        if !change.window.is_valid() {
            return Err(XPropertyError::InvalidWindow);
        }
        validate_property_format(change.format)?;
        if change.bytes.len() > X_PROPERTY_MAX_VALUE_BYTES {
            return Err(
                XPropertyError::ValueTooLarge {
                    len: change.bytes.len(),
                    max: X_PROPERTY_MAX_VALUE_BYTES,
                },
            );
        }
        let found = self.find(namespace, change.window, change.property);
        let ghost previous: Option<PropertyValue> = if self@.contains_key(key) {
            Some(self@[key])
        } else {
            None
        };
        proof {
            match found {
                Ok(i) => {
                    lemma_sorted_index(self.records@, i as int);
                    lemma_split(self.records@, i as int);
                    lemma_stored_bytes_nonneg(self.records@.subrange(0, i as int));
                    lemma_stored_bytes_nonneg(
                        self.records@.subrange(i + 1, self.records@.len() as int),
                    );
                },
                Err(i) => {
                    if key_present(self.records@, key) {
                        let j = key_index(self.records@, key);
                        if j < i {
                            assert(key_lt(record_key(self.records@[j]), key));
                        } else {
                            assert(key_lt(key, record_key(self.records@[j])));
                        }
                    }
                },
            }
        }
        let (previous_len, generation): (usize, u64) = match found {
            Ok(i) => {
                let g = self.records[i].generation;
                (self.records[i].bytes.len(), if g == u64::MAX {
                    u64::MAX
                } else {
                    g + 1
                })
            },
            Err(_) => (0, 1),
        };
        let bytes: Vec<u8> = match found {
            Err(_) => change.bytes,
            Ok(i) => match change.mode {
                XPropertyMode::Replace => change.bytes,
                XPropertyMode::Append => {
                    ensure_same_property_shape(&self.records[i], &change)?;
                    joined_bytes(self.records[i].bytes.as_slice(), change.bytes.as_slice())?
                },
                XPropertyMode::Prepend => {
                    ensure_same_property_shape(&self.records[i], &change)?;
                    joined_bytes(change.bytes.as_slice(), self.records[i].bytes.as_slice())?
                },
            },
        };
        assert(changed_bytes(previous, change@) == Ok::<Seq<u8>, XPropertyError>(bytes@));
        let stored = self.stored_len();
        let table_len = stored - previous_len + bytes.len();
        if table_len > X_PROPERTY_MAX_TABLE_BYTES {
            return Err(
                XPropertyError::TableTooLarge { len: table_len, max: X_PROPERTY_MAX_TABLE_BYTES },
            );
        }
        let record = XPropertyRecord {
            namespace,
            window: change.window,
            property: change.property,
            property_type: change.property_type,
            format: change.format,
            bytes,
            generation,
        };
        let stored_copy = copy_record(&record);
        let mut records: Vec<XPropertyRecord> = Vec::new();
        std::mem::swap(&mut records, &mut self.records);
        let ghost before = records@;
        match found {
            Ok(i) => {
                proof {
                    lemma_map_update(before, i as int, stored_copy);
                    lemma_stored_bytes_update(before, i as int, stored_copy);
                }
                records.set(i, stored_copy);
                proof {
                    assert(records@ == before.update(i as int, stored_copy));
                    assert forall|j: int| 0 <= j < records@.len() implies {
                        &&& (#[trigger] records@[j]).namespace.spec_is_valid()
                        &&& records@[j].window.spec_is_valid()
                        &&& valid_property_format(records@[j].format)
                        &&& records@[j].bytes@.len() <= X_PROPERTY_MAX_VALUE_BYTES
                    } by {
                        if j != i {
                            assert(records@[j] == before[j]);
                        }
                    }
                }
            },
            Err(i) => {
                proof {
                    lemma_map_insert(before, i as int, stored_copy);
                    lemma_stored_bytes_insert(before, i as int, stored_copy);
                }
                records.insert(i, stored_copy);
                proof {
                    assert(records@ == before.insert(i as int, stored_copy));
                    assert forall|j: int| 0 <= j < records@.len() implies {
                        &&& (#[trigger] records@[j]).namespace.spec_is_valid()
                        &&& records@[j].window.spec_is_valid()
                        &&& valid_property_format(records@[j].format)
                        &&& records@[j].bytes@.len() <= X_PROPERTY_MAX_VALUE_BYTES
                    } by {
                        if j < i {
                            assert(records@[j] == before[j]);
                        } else if j > i {
                            assert(records@[j] == before[j - 1]);
                        }
                    }
                }
            },
        }
        proof {
            lemma_stored_bytes_nonneg(records@);
        }
        self.records = records;
        Ok(record)
    }

    /// Takes the property stored under the key out of the table.
    pub fn remove(&mut self, namespace: NamespaceId, window: XResourceId, property: XAtom) -> (removed:
        Option<XPropertyRecord>)
        ensures
            match removed {
                Some(r) => old(self)@.contains_key((namespace, window, property)) && r@ == old(
                    self,
                )@[(namespace, window, property)] && record_key(r) == (namespace, window, property)
                    && final(self).stored() == old(self).stored() - r.bytes@.len(),
                None => !old(self)@.contains_key((namespace, window, property)) && final(self).stored()
                    == old(self).stored(),
            },
            final(self)@ == old(self)@.remove((namespace, window, property)),
    {
        proof {
            use_type_invariant(&*self);
            lemma_key_lt_facts();
        }
        let ghost key = (namespace, window, property);
        match self.find(namespace, window, property) {
            Ok(i) => {
                let mut records: Vec<XPropertyRecord> = Vec::new();
                std::mem::swap(&mut records, &mut self.records);
                let ghost before = records@;
                proof {
                    lemma_sorted_index(before, i as int);
                    lemma_map_remove(before, i as int);
                    lemma_stored_bytes_remove(before, i as int);
                    lemma_split(before, i as int);
                    lemma_stored_bytes_nonneg(before.subrange(0, i as int));
                    lemma_stored_bytes_nonneg(before.subrange(i + 1, before.len() as int));
                }
                let record = records.remove(i);
                proof {
                    assert forall|j: int| 0 <= j < records@.len() implies {
                        &&& (#[trigger] records@[j]).namespace.spec_is_valid()
                        &&& records@[j].window.spec_is_valid()
                        &&& valid_property_format(records@[j].format)
                        &&& records@[j].bytes@.len() <= X_PROPERTY_MAX_VALUE_BYTES
                    } by {
                        let k = if j < i { j } else { j + 1 };
                        assert(records@[j] == before[k]);
                    }
                }
                self.records = records;
                Some(record)
            },
            Err(i) => {
                proof {
                    if key_present(self.records@, key) {
                        let j = key_index(self.records@, key);
                        if j < i {
                            assert(key_lt(record_key(self.records@[j]), key));
                        } else {
                            assert(key_lt(key, record_key(self.records@[j])));
                        }
                    }
                    assert(self@ =~= old(self)@.remove(key));
                }
                None
            },
        }
    }

    /// Answers GetProperty: the requested part of the stored value, deleting
    /// the property when the client asked for it, the type matched and
    /// nothing was left unread.
    pub fn read_property(&mut self, namespace: NamespaceId, read: XPropertyRead) -> (outcome: Result<
        XPropertyReadOutcome,
        XPropertyError,
    >)
        ensures
            match outcome {
                Ok(o) => property_read_result(old(self)@, namespace, read) == Ok::<
                    (PropertyReplyView, bool),
                    XPropertyError,
                >((o.reply@, o.deleted)) && final(self)@ == if o.deleted {
                    old(self)@.remove((namespace, read.window, read.property))
                } else {
                    old(self)@
                },
                Err(e) => property_read_result(old(self)@, namespace, read) == Err::<
                    (PropertyReplyView, bool),
                    XPropertyError,
                >(e) && final(self)@ == old(self)@,
            },
    {
        proof {
            use_type_invariant(&*self);
        }
        if !namespace.is_valid() {
            return Err(XPropertyError::InvalidNamespace);
        }
        if !read.window.is_valid() {
            return Err(XPropertyError::InvalidWindow);
        }
        let reply = match self.get(namespace, read.window, read.property) {
            None => {
                let reply = XPropertyReadReply {
                    property_type: X_PROPERTY_ANY_TYPE,
                    format: 0,
                    bytes_after: 0,
                    item_count: 0,
                    bytes: Vec::new(),
                };
                assert(reply@.bytes =~= Seq::<u8>::empty());
                return Ok(XPropertyReadOutcome { reply, deleted: false });
            },
            Some(record) => {
                proof {
                    let key = (namespace, read.window, read.property);
                    let i = key_index(self.records@, key);
                    assert(valid_property_format(self.records@[i].format));
                }
                read_property_value(
                    record.property_type,
                    record.format,
                    record.bytes.as_slice(),
                    read.property_type,
                    read.long_offset,
                    read.long_length,
                )?
            },
        };
        let deleted = read.delete && reply.property_type != X_PROPERTY_ANY_TYPE && (
        read.property_type == X_PROPERTY_ANY_TYPE || read.property_type == reply.property_type)
            && reply.bytes_after == 0;
        if deleted {
            self.remove(namespace, read.window, read.property);
        }
        Ok(XPropertyReadOutcome { reply, deleted })
    }

    /// The number of stored properties.
    pub fn len(&self) -> (len: usize)
        ensures
            len == self@.len(),
    {
        proof {
            use_type_invariant(self);
            lemma_property_map_len(self.records@);
        }
        self.records.len()
    }

    pub fn is_empty(&self) -> (empty: bool)
        ensures
            empty == (self@.len() == 0),
    {
        self.len() == 0
    }

    /// The properties stored on a window, in ascending atom order.
    pub fn properties_for_window(&self, namespace: NamespaceId, window: XResourceId) -> (properties:
        Vec<XAtom>)
        ensures
            forall|i: int, j: int|
                0 <= i < j < properties@.len() ==> properties@[i] < properties@[j],
            forall|p: XAtom|
                properties@.contains(p) <==> self@.contains_key((namespace, window, p)),
    {
        proof {
            use_type_invariant(self);
        }
        let mut out: Vec<XAtom> = Vec::new();
        let ghost mut idx: Seq<int> = Seq::empty();
        let mut i: usize = 0;
        while i < self.records.len()
            invariant
                i <= self.records@.len(),
                keys_sorted(self.records@),
                idx.len() == out@.len(),
                forall|k: int|
                    0 <= k < out@.len() ==> 0 <= #[trigger] idx[k] < i && record_key(
                        self.records@[idx[k]],
                    ) == (namespace, window, out@[k]),
                forall|j: int|
                    0 <= j < i && self.records@[j].namespace == namespace
                        && self.records@[j].window == window ==> out@.contains(
                        #[trigger] self.records@[j].property,
                    ),
                forall|a: int, b: int| 0 <= a < b < out@.len() ==> out@[a] < out@[b],
            decreases self.records@.len() - i,
        {
            let r = &self.records[i];
            if r.namespace.raw == namespace.raw && r.window.local.raw == window.local.raw
                && r.window.local.generation == window.local.generation {
                proof {
                    assert(r.namespace == namespace);
                    assert(r.window.local == window.local);
                    if out@.len() > 0 {
                        let k = out@.len() - 1;
                        assert(key_lt(
                            record_key(self.records@[idx[k]]),
                            record_key(self.records@[i as int]),
                        ));
                    }
                }
                let ghost before = out@;
                out.push(r.property);
                proof {
                    idx = idx.push(i as int);
                    assert forall|j: int|
                        0 <= j < i + 1 && self.records@[j].namespace == namespace
                            && self.records@[j].window == window implies out@.contains(
                        #[trigger] self.records@[j].property,
                    ) by {
                        if j < i {
                            let k = choose|k: int|
                                0 <= k < before.len() && before[k] == self.records@[j].property;
                            assert(out@[k] == before[k]);
                        } else {
                            assert(out@[before.len() as int] == r.property);
                        }
                    }
                }
            } else {
                proof {
                    assert(!(self.records@[i as int].namespace == namespace
                        && self.records@[i as int].window == window));
                }
            }
            i = i + 1;
        }
        proof {
            assert forall|p: XAtom| out@.contains(p) <==> self@.contains_key(
                (namespace, window, p),
            ) by {
                let key = (namespace, window, p);
                if out@.contains(p) {
                    let k = choose|k: int| 0 <= k < out@.len() && out@[k] == p;
                    assert(record_key(self.records@[idx[k]]) == key);
                    assert(key_present(self.records@, key));
                }
                if self@.contains_key(key) {
                    let j = key_index(self.records@, key);
                    assert(self.records@[j].property == p);
                }
            }
        }
        out
    }

    /// The windows that carry a property, in ascending window order.
    pub fn windows_with_property(&self, namespace: NamespaceId, property: XAtom) -> (windows: Vec<
        XResourceId,
    >)
        ensures
            forall|i: int, j: int|
                0 <= i < j < windows@.len() ==> window_lt(windows@[i], windows@[j]),
            forall|w: XResourceId|
                windows@.contains(w) <==> self@.contains_key((namespace, w, property)),
    {
        proof {
            use_type_invariant(self);
        }
        let mut out: Vec<XResourceId> = Vec::new();
        let ghost mut idx: Seq<int> = Seq::empty();
        let mut i: usize = 0;
        while i < self.records.len()
            invariant
                i <= self.records@.len(),
                keys_sorted(self.records@),
                idx.len() == out@.len(),
                forall|k: int|
                    0 <= k < out@.len() ==> 0 <= #[trigger] idx[k] < i && record_key(
                        self.records@[idx[k]],
                    ) == (namespace, out@[k], property),
                forall|j: int|
                    0 <= j < i && self.records@[j].namespace == namespace
                        && self.records@[j].property == property ==> out@.contains(
                        #[trigger] self.records@[j].window,
                    ),
                forall|a: int, b: int| 0 <= a < b < out@.len() ==> window_lt(out@[a], out@[b]),
            decreases self.records@.len() - i,
        {
            let r = &self.records[i];
            if r.namespace.raw == namespace.raw && r.property == property {
                proof {
                    assert(r.namespace == namespace);
                    if out@.len() > 0 {
                        let k = out@.len() - 1;
                        assert(key_lt(
                            record_key(self.records@[idx[k]]),
                            record_key(self.records@[i as int]),
                        ));
                        assert(window_lt(out@[k], r.window));
                        assert forall|a: int| 0 <= a < out@.len() implies window_lt(
                            out@[a],
                            r.window,
                        ) by {
                            if a < k {
                                assert(window_lt(out@[a], out@[k]));
                            }
                        }
                    }
                }
                let ghost before = out@;
                out.push(r.window);
                proof {
                    idx = idx.push(i as int);
                    assert forall|j: int|
                        0 <= j < i + 1 && self.records@[j].namespace == namespace
                            && self.records@[j].property == property implies out@.contains(
                        #[trigger] self.records@[j].window,
                    ) by {
                        if j < i {
                            let k = choose|k: int|
                                0 <= k < before.len() && before[k] == self.records@[j].window;
                            assert(out@[k] == before[k]);
                        } else {
                            assert(out@[before.len() as int] == r.window);
                        }
                    }
                }
            } else {
                proof {
                    assert(!(self.records@[i as int].namespace == namespace
                        && self.records@[i as int].property == property));
                }
            }
            i = i + 1;
        }
        proof {
            assert forall|w: XResourceId| out@.contains(w) <==> self@.contains_key(
                (namespace, w, property),
            ) by {
                let key = (namespace, w, property);
                if out@.contains(w) {
                    let k = choose|k: int| 0 <= k < out@.len() && out@[k] == w;
                    assert(record_key(self.records@[idx[k]]) == key);
                    assert(key_present(self.records@, key));
                }
                if self@.contains_key(key) {
                    let j = key_index(self.records@, key);
                    assert(self.records@[j].window == w);
                }
            }
        }
        out
    }

    /// Drops every property of a window, returning how many there were.
    pub fn remove_window(&mut self, namespace: NamespaceId, window: XResourceId) -> (removed: usize)
        ensures
            final(self)@ == map_without_window(old(self)@, namespace, window),
            removed == old(self)@.len() - final(self)@.len(),
    {
        proof {
            use_type_invariant(&*self);
            lemma_property_map_len(self.records@);
        }
        let before_len = self.records.len();
        let mut records: Vec<XPropertyRecord> = Vec::new();
        std::mem::swap(&mut records, &mut self.records);
        let ghost before = records@;
        let mut i: usize = 0;
        let ghost mut j: int = 0;
        while i < records.len()
            invariant
                0 <= j <= before.len(),
                i == records_off_window(before.subrange(0, j), namespace, window).len(),
                records@ == records_off_window(before.subrange(0, j), namespace, window)
                    + before.subrange(j, before.len() as int),
            decreases records@.len() - i,
        {
            proof {
                assert(before.subrange(0, j + 1).drop_last() =~= before.subrange(0, j));
                assert(before.subrange(0, j + 1).last() == before[j]);
                assert(records@[i as int] == before[j]);
            }
            let r = &records[i];
            if r.namespace.raw == namespace.raw && r.window.local.raw == window.local.raw
                && r.window.local.generation == window.local.generation {
                proof {
                    assert(r.namespace == namespace);
                    assert(r.window.local == window.local);
                }
                let ghost prev = records@;
                records.remove(i);
                proof {
                    j = j + 1;
                    assert(records@ =~= records_off_window(before.subrange(0, j), namespace, window)
                        + before.subrange(j, before.len() as int));
                }
            } else {
                proof {
                    assert(!on_window(before[j], namespace, window));
                    j = j + 1;
                    assert(records@ =~= records_off_window(before.subrange(0, j), namespace, window)
                        + before.subrange(j, before.len() as int));
                }
                i = i + 1;
            }
        }
        proof {
            let q = records_off_window(before.subrange(0, j), namespace, window);
            assert(j == before.len()) by {
                if j < before.len() {
                    assert(records@.len() == q.len() + before.len() - j);
                }
            }
            assert(before.subrange(0, j) =~= before);
            assert(records@ =~= records_off_window(before, namespace, window));
            lemma_records_off_window(before, namespace, window);
            lemma_property_map_len(records@);
            assert forall|k: int| 0 <= k < records@.len() implies {
                &&& (#[trigger] records@[k]).namespace.spec_is_valid()
                &&& records@[k].window.spec_is_valid()
                &&& valid_property_format(records@[k].format)
                &&& records@[k].bytes@.len() <= X_PROPERTY_MAX_VALUE_BYTES
            } by {
                let m = choose|m: int| 0 <= m < before.len() && before[m] == records@[k];
            }
        }
        let after_len = records.len();
        self.records = records;
        proof {
            assert(self@ == map_without_window(old(self)@, namespace, window));
            assert(self@.dom().subset_of(old(self)@.dom()));
            vstd::set_lib::lemma_len_subset(self@.dom(), old(self)@.dom());
        }
        before_len - after_len
    }
}

} // verus!
