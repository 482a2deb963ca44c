//! The authority's resource-keyed state: which client namespace owns each
//! resource, and what the server keeps for pixmaps, XFIXES regions, DRI3
//! fences and SYNC counters.
use vstd::prelude::*;

use crate::authority_ids::{FenceHandle, NamespaceId};
use crate::client_output::XAuthorityRuntimeError;
use crate::dispatch::{topology_sizes_fit, OutputTopologyEntry, OutputTopologySnapshot};
use crate::drawing::Region;
use crate::geometry::{Rect, Size};
use crate::keyboard::XkbKeymapSnapshot;
use crate::resource::{
    resource_lookup, XAuthorityAccessError, XResourceId, XResourceKind, XResourceRecord,
    XResourceTable,
};
use crate::resource_slots::XResourceSlots;
use crate::setup::{
    X_SETUP_ARGB_VISUAL, X_SETUP_DEFAULT_COLORMAP, X_SETUP_DEFAULT_ROOT, X_SETUP_DEFAULT_VISUAL,
};

verus! {

/// The runtime error a refused resource access is reported as: the same
/// refusal under the same name.
pub open spec fn access_error(error: XAuthorityAccessError) -> XAuthorityRuntimeError {
    match error {
        XAuthorityAccessError::InvalidResource => XAuthorityRuntimeError::InvalidResource,
        XAuthorityAccessError::InvalidNamespace => XAuthorityRuntimeError::InvalidNamespace,
        XAuthorityAccessError::InvalidSurface => XAuthorityRuntimeError::InvalidSurface,
        XAuthorityAccessError::UnknownResource => XAuthorityRuntimeError::UnknownResource,
        XAuthorityAccessError::WrongResourceKind => XAuthorityRuntimeError::WrongResourceKind,
        XAuthorityAccessError::CrossNamespaceDenied => XAuthorityRuntimeError::CrossNamespaceDenied,
        XAuthorityAccessError::StaleGeneration => XAuthorityRuntimeError::StaleGeneration,
    }
}

impl From<XAuthorityAccessError> for XAuthorityRuntimeError {
    fn from(error: XAuthorityAccessError) -> (converted: Self) {
        match error {
            XAuthorityAccessError::InvalidResource => XAuthorityRuntimeError::InvalidResource,
            XAuthorityAccessError::InvalidNamespace => XAuthorityRuntimeError::InvalidNamespace,
            XAuthorityAccessError::InvalidSurface => XAuthorityRuntimeError::InvalidSurface,
            XAuthorityAccessError::UnknownResource => XAuthorityRuntimeError::UnknownResource,
            XAuthorityAccessError::WrongResourceKind => XAuthorityRuntimeError::WrongResourceKind,
            XAuthorityAccessError::CrossNamespaceDenied => {
                XAuthorityRuntimeError::CrossNamespaceDenied
            },
            XAuthorityAccessError::StaleGeneration => XAuthorityRuntimeError::StaleGeneration,
        }
    }
}

impl vstd::std_specs::convert::FromSpecImpl<XAuthorityAccessError> for XAuthorityRuntimeError {
    open spec fn obeys_from_spec() -> bool {
        true
    }

    open spec fn from_spec(error: XAuthorityAccessError) -> XAuthorityRuntimeError {
        access_error(error)
    }
}

/// What filing a new resource `id` for `namespace` answers: the table only
/// admits valid ids owned by valid namespaces.
pub open spec fn insert_outcome(id: XResourceId, namespace: NamespaceId) -> Result<
    (),
    XAuthorityRuntimeError,
> {
    if !id.spec_is_valid() {
        Err(XAuthorityRuntimeError::InvalidResource)
    } else if !namespace.spec_is_valid() {
        Err(XAuthorityRuntimeError::InvalidNamespace)
    } else {
        Ok(())
    }
}

/// Whether `namespace` may use `id` as a resource of `kind`, in a table
/// holding `resources`.
pub open spec fn access_outcome(
    resources: Map<XResourceId, XResourceRecord>,
    namespace: NamespaceId,
    id: XResourceId,
    kind: XResourceKind,
) -> Result<(), XAuthorityRuntimeError> {
    match resource_lookup(resources, namespace, id, kind) {
        Ok(_) => Ok(()),
        Err(error) => Err(access_error(error)),
    }
}

/// What reading the value a resource of `kind` carries in `slots` answers:
/// the access check first, then the value.
pub open spec fn slot_read<V>(
    resources: Map<XResourceId, XResourceRecord>,
    slots: Map<XResourceId, V>,
    namespace: NamespaceId,
    id: XResourceId,
    kind: XResourceKind,
) -> Result<V, XAuthorityRuntimeError> {
    match access_outcome(resources, namespace, id, kind) {
        Err(error) => Err(error),
        Ok(_) => if slots.contains_key(id) {
            Ok(slots[id])
        } else {
            Err(XAuthorityRuntimeError::UnknownResource)
        },
    }
}

/// Whether `namespace` may draw to `drawable`: the root window is open to
/// every client; any other drawable must be a window or pixmap it owns.
pub open spec fn drawable_access(
    resources: Map<XResourceId, XResourceRecord>,
    namespace: NamespaceId,
    drawable: XResourceId,
) -> Result<(), XAuthorityRuntimeError> {
    if drawable.local.raw == X_SETUP_DEFAULT_ROOT as u64 {
        Ok(())
    } else if !namespace.spec_is_valid() {
        Err(XAuthorityRuntimeError::InvalidNamespace)
    } else if !resources.contains_key(drawable) {
        Err(XAuthorityRuntimeError::UnknownResource)
    } else if !(resources[drawable].kind == XResourceKind::Window || resources[drawable].kind
        == XResourceKind::Pixmap) {
        Err(XAuthorityRuntimeError::WrongResourceKind)
    } else if resources[drawable].owner_namespace != namespace {
        Err(XAuthorityRuntimeError::CrossNamespaceDenied)
    } else {
        Ok(())
    }
}

/// The handle the next DRI3 fence is given when the counter stands at
/// `next`: zero is never handed out.
pub open spec fn fence_handle_for(next: u64) -> u64 {
    if next == 0 {
        1
    } else {
        next
    }
}

/// Where the fence counter stands after handing out `handle`: one past it,
/// held at the top of the range once it gets there.
pub open spec fn fence_counter_after(handle: u64) -> u64 {
    if handle == u64::MAX {
        u64::MAX
    } else {
        (handle + 1) as u64
    }
}

/// The record a resource of `kind` is filed under.
pub open spec fn filed(
    id: XResourceId,
    kind: XResourceKind,
    namespace: NamespaceId,
    generation: u64,
) -> XResourceRecord {
    XResourceRecord { id, kind, owner_namespace: namespace, generation }
}

/// The keymap every keyboard reply describes: its keysym pairs from
/// `min_keycode` on, and its modifier map.
pub struct XKeymapView {
    pub keysyms: Seq<[u32; 2]>,
    pub modifier_map: Seq<(u8, u8)>,
    pub min_keycode: u8,
}

/// The keymap view of a snapshot.
pub open spec fn keymap_view(keymap: XkbKeymapSnapshot) -> XKeymapView {
    XKeymapView {
        keysyms: keymap.spec_keysyms(),
        modifier_map: keymap.spec_modifier_map(),
        min_keycode: keymap.spec_min_keycode(),
    }
}

/// The output layout the RandR replies describe.
pub struct XTopologyView {
    pub generation: u64,
    pub primary: u64,
    pub outputs: Seq<OutputTopologyEntry>,
}

/// The view of an output layout.
pub open spec fn topology_view(topology: OutputTopologySnapshot) -> XTopologyView {
    XTopologyView {
        generation: topology.generation,
        primary: topology.primary,
        outputs: topology.outputs@,
    }
}

/// The layout of a runtime that knows no output yet.
pub open spec fn no_outputs() -> XTopologyView {
    XTopologyView { generation: 0, primary: 0, outputs: Seq::empty() }
}

/// The state of the runtime as contracts speak of it.
pub struct XAuthorityRuntimeView {
    pub resources: Map<XResourceId, XResourceRecord>,
    pub pixmap_sizes: Map<XResourceId, Size>,
    pub xfixes_regions: Map<XResourceId, Seq<Rect>>,
    pub dri3_fences: Map<XResourceId, FenceHandle>,
    pub next_fence_handle: u64,
    pub sync_counters: Map<XResourceId, i64>,
    pub keymap: XKeymapView,
    pub topology: XTopologyView,
    pub colormaps: Map<XResourceId, u32>,
}

/// The resources every client namespace has created, with what the server
/// keeps for each of them.
#[derive(Debug)]
pub struct XAuthorityRuntime {
    resources: XResourceTable,
    pixmap_sizes: XResourceSlots<Size>,
    xfixes_regions: XResourceSlots<Region>,
    dri3_fences: XResourceSlots<FenceHandle>,
    next_fence_handle: u64,
    sync_counters: XResourceSlots<i64>,
    xkb_keymap: XkbKeymapSnapshot,
    output_topology: OutputTopologySnapshot,
    colormaps: XResourceSlots<u32>,
}

/// `state` with its output layout replaced by `topology`.
pub open spec fn with_topology(
    state: XAuthorityRuntimeView,
    topology: OutputTopologySnapshot,
) -> XAuthorityRuntimeView {
    XAuthorityRuntimeView { topology: topology_view(topology), ..state }
}

impl View for XAuthorityRuntime {
    type V = XAuthorityRuntimeView;

    closed spec fn view(&self) -> XAuthorityRuntimeView {
        XAuthorityRuntimeView {
            resources: self.resources@,
            pixmap_sizes: self.pixmap_sizes@,
            xfixes_regions: self.xfixes_regions@.map_values(|region: Region| region.rects@),
            dri3_fences: self.dri3_fences@,
            next_fence_handle: self.next_fence_handle,
            sync_counters: self.sync_counters@,
            keymap: keymap_view(self.xkb_keymap),
            topology: topology_view(self.output_topology),
            colormaps: self.colormaps@,
        }
    }
}

impl XAuthorityRuntime {
    /// A runtime with no client resource yet, whose keyboard replies
    /// describe `keymap`. No output is known yet: the output layout is
    /// empty, at generation zero, so the first layout reported replaces it.
    pub fn with_keymap(keymap: XkbKeymapSnapshot) -> (runtime: Self)
        ensures
            runtime@.resources == Map::<XResourceId, XResourceRecord>::empty(),
            runtime@.pixmap_sizes == Map::<XResourceId, Size>::empty(),
            runtime@.xfixes_regions == Map::<XResourceId, Seq<Rect>>::empty(),
            runtime@.dri3_fences == Map::<XResourceId, FenceHandle>::empty(),
            runtime@.next_fence_handle == 1,
            runtime@.sync_counters == Map::<XResourceId, i64>::empty(),
            runtime@.keymap == keymap_view(keymap),
            runtime@.topology == no_outputs(),
            runtime@.colormaps == Map::<XResourceId, u32>::empty(),
    {
        let runtime = XAuthorityRuntime {
            resources: XResourceTable::new(),
            pixmap_sizes: XResourceSlots::new(),
            xfixes_regions: XResourceSlots::new(),
            dri3_fences: XResourceSlots::new(),
            next_fence_handle: 1,
            sync_counters: XResourceSlots::new(),
            xkb_keymap: keymap,
            output_topology: OutputTopologySnapshot { generation: 0, primary: 0, outputs: Vec::new() },
            colormaps: XResourceSlots::new(),
        };
        assert(runtime@.xfixes_regions =~= Map::<XResourceId, Seq<Rect>>::empty());
        runtime
    }

    /// The keymap the keyboard replies describe.
    pub fn xkb_keymap(&self) -> (keymap: &XkbKeymapSnapshot)
        ensures
            keymap_view(*keymap) == self@.keymap,
    {
        &self.xkb_keymap
    }

    /// The output layout the RandR replies describe.
    pub fn output_topology(&self) -> (topology: &OutputTopologySnapshot)
        ensures
            topology_view(*topology) == self@.topology,
    {
        &self.output_topology
    }

    /// Takes a newer output layout: one whose generation is past the
    /// current one replaces it and `true` is returned; an older or equal
    /// one is ignored.
    pub fn update_output_topology(&mut self, output_topology: OutputTopologySnapshot) -> (updated:
        bool)
        requires
            topology_sizes_fit(output_topology.outputs@),
        ensures
            updated == (output_topology.generation > old(self)@.topology.generation),
            updated ==> final(self)@ == with_topology(old(self)@, output_topology),
            !updated ==> final(self)@ == old(self)@,
    {
        if output_topology.generation <= self.output_topology.generation {
            return false;
        }
        self.output_topology = output_topology;
        true
    }

    /// Whether `namespace` may draw to `drawable`.
    pub fn validate_drawable_access(&self, namespace: NamespaceId, drawable: XResourceId) -> (result:
        Result<(), XAuthorityRuntimeError>)
        ensures
            result == drawable_access(self@.resources, namespace, drawable),
    {
        if drawable.local.raw() == X_SETUP_DEFAULT_ROOT as u64 {
            return Ok(());
        }
        if !namespace.is_valid() {
            return Err(XAuthorityRuntimeError::InvalidNamespace);
        }
        let record = match self.resources.get(drawable) {
            Some(record) => record,
            None => return Err(XAuthorityRuntimeError::UnknownResource),
        };
        if !(record.kind == XResourceKind::Window || record.kind == XResourceKind::Pixmap) {
            return Err(XAuthorityRuntimeError::WrongResourceKind);
        }
        if record.owner_namespace != namespace {
            return Err(XAuthorityRuntimeError::CrossNamespaceDenied);
        }
        Ok(())
    }

    /// Whether `namespace` may use `id` as a resource of `kind`.
    fn validate_access(&self, namespace: NamespaceId, id: XResourceId, kind: XResourceKind) -> (result:
        Result<(), XAuthorityRuntimeError>)
        ensures
            result == access_outcome(self@.resources, namespace, id, kind),
    {
        match self.resources.lookup(namespace, id, kind) {
            Ok(_) => Ok(()),
            Err(error) => Err(XAuthorityRuntimeError::from(error)),
        }
    }

    /// Files a new resource of `kind` for `namespace`.
    fn file_resource(
        &mut self,
        namespace: NamespaceId,
        id: XResourceId,
        kind: XResourceKind,
        generation: u64,
    ) -> (result: Result<(), XAuthorityRuntimeError>)
        ensures
            final(self)@.keymap == old(self)@.keymap,
            final(self)@.topology == old(self)@.topology,
            final(self)@.colormaps == old(self)@.colormaps,
            result == insert_outcome(id, namespace),
            result is Ok ==> final(self)@.resources == old(self)@.resources.insert(
                id,
                filed(id, kind, namespace, generation),
            ),
            result is Err ==> final(self)@.resources == old(self)@.resources,
            final(self)@.pixmap_sizes == old(self)@.pixmap_sizes,
            final(self)@.xfixes_regions == old(self)@.xfixes_regions,
            final(self)@.dri3_fences == old(self)@.dri3_fences,
            final(self)@.next_fence_handle == old(self)@.next_fence_handle,
            final(self)@.sync_counters == old(self)@.sync_counters,
    {
        match self.resources.insert(id, kind, namespace, generation) {
            Ok(()) => Ok(()),
            Err(error) => Err(XAuthorityRuntimeError::from(error)),
        }
    }

    /// Creates a pixmap of `size` for `namespace`; an empty size is refused.
    pub fn create_pixmap(
        &mut self,
        namespace: NamespaceId,
        pixmap: XResourceId,
        size: Size,
        generation: u64,
    ) -> (result: Result<(), XAuthorityRuntimeError>)
        ensures
            final(self)@.keymap == old(self)@.keymap,
            final(self)@.topology == old(self)@.topology,
            final(self)@.colormaps == old(self)@.colormaps,
            size.width <= 0 || size.height <= 0 ==> result == Err::<(), XAuthorityRuntimeError>(
                XAuthorityRuntimeError::InvalidResource,
            ),
            size.width > 0 && size.height > 0 ==> result == insert_outcome(pixmap, namespace),
            result is Ok ==> {
                &&& final(self)@.resources == old(self)@.resources.insert(
                    pixmap,
                    filed(pixmap, XResourceKind::Pixmap, namespace, generation),
                )
                &&& final(self)@.pixmap_sizes == old(self)@.pixmap_sizes.insert(pixmap, size)
            },
            result is Err ==> final(self)@.resources == old(self)@.resources
                && final(self)@.pixmap_sizes == old(self)@.pixmap_sizes,
            final(self)@.xfixes_regions == old(self)@.xfixes_regions,
            final(self)@.dri3_fences == old(self)@.dri3_fences,
            final(self)@.next_fence_handle == old(self)@.next_fence_handle,
            final(self)@.sync_counters == old(self)@.sync_counters,
    {
        if size.width <= 0 || size.height <= 0 {
            return Err(XAuthorityRuntimeError::InvalidResource);
        }
        self.file_resource(namespace, pixmap, XResourceKind::Pixmap, generation)?;
        self.pixmap_sizes.insert(pixmap, size);
        Ok(())
    }

    /// Frees `pixmap` and its size, if `namespace` may use it. No DRI3
    /// buffer is filed for a pixmap here, so none is released with it.
    pub fn free_pixmap(&mut self, namespace: NamespaceId, pixmap: XResourceId) -> (result: Result<
        (),
        XAuthorityRuntimeError,
    >)
        ensures
            result == access_outcome(old(self)@.resources, namespace, pixmap, XResourceKind::Pixmap),
            result is Ok ==> final(self)@ == (XAuthorityRuntimeView {
                resources: old(self)@.resources.remove(pixmap),
                pixmap_sizes: old(self)@.pixmap_sizes.remove(pixmap),
                ..old(self)@
            }),
            result is Err ==> final(self)@ == old(self)@,
    {
        self.validate_access(namespace, pixmap, XResourceKind::Pixmap)?;
        self.resources.remove(pixmap);
        self.pixmap_sizes.remove(pixmap);
        Ok(())
    }

    /// Whether `namespace` may use `pixmap` as a pixmap.
    pub fn validate_pixmap_access(&self, namespace: NamespaceId, pixmap: XResourceId) -> (result:
        Result<(), XAuthorityRuntimeError>)
        ensures
            result == access_outcome(self@.resources, namespace, pixmap, XResourceKind::Pixmap),
    {
        self.validate_access(namespace, pixmap, XResourceKind::Pixmap)
    }

    /// The size `pixmap` was created with.
    pub fn pixmap_size(&self, namespace: NamespaceId, pixmap: XResourceId) -> (result: Result<
        Size,
        XAuthorityRuntimeError,
    >)
        ensures
            result == slot_read(
                self@.resources,
                self@.pixmap_sizes,
                namespace,
                pixmap,
                XResourceKind::Pixmap,
            ),
    {
        self.validate_pixmap_access(namespace, pixmap)?;
        match self.pixmap_sizes.get(pixmap) {
            Some(size) => Ok(*size),
            None => Err(XAuthorityRuntimeError::UnknownResource),
        }
    }
}

impl XAuthorityRuntime {
    /// Creates an XFIXES region holding `rectangles` for `namespace`.
    pub fn create_xfixes_region(
        &mut self,
        namespace: NamespaceId,
        region: XResourceId,
        rectangles: Vec<Rect>,
        generation: u64,
    ) -> (result: Result<(), XAuthorityRuntimeError>)
        ensures
            final(self)@.keymap == old(self)@.keymap,
            final(self)@.topology == old(self)@.topology,
            final(self)@.colormaps == old(self)@.colormaps,
            result == insert_outcome(region, namespace),
            result is Ok ==> {
                &&& final(self)@.resources == old(self)@.resources.insert(
                    region,
                    filed(region, XResourceKind::Region, namespace, generation),
                )
                &&& final(self)@.xfixes_regions == old(self)@.xfixes_regions.insert(
                    region,
                    rectangles@,
                )
            },
            result is Err ==> final(self)@.resources == old(self)@.resources
                && final(self)@.xfixes_regions == old(self)@.xfixes_regions,
            final(self)@.pixmap_sizes == old(self)@.pixmap_sizes,
            final(self)@.dri3_fences == old(self)@.dri3_fences,
            final(self)@.next_fence_handle == old(self)@.next_fence_handle,
            final(self)@.sync_counters == old(self)@.sync_counters,
    {
        self.file_resource(namespace, region, XResourceKind::Region, generation)?;
        self.insert_region(region, rectangles);
        Ok(())
    }

    fn insert_region(&mut self, region: XResourceId, rectangles: Vec<Rect>)
        ensures
            final(self)@.keymap == old(self)@.keymap,
            final(self)@.topology == old(self)@.topology,
            final(self)@.colormaps == old(self)@.colormaps,
            final(self)@.xfixes_regions == old(self)@.xfixes_regions.insert(region, rectangles@),
            final(self)@.resources == old(self)@.resources,
            final(self)@.pixmap_sizes == old(self)@.pixmap_sizes,
            final(self)@.dri3_fences == old(self)@.dri3_fences,
            final(self)@.next_fence_handle == old(self)@.next_fence_handle,
            final(self)@.sync_counters == old(self)@.sync_counters,
    {
        let ghost rects = rectangles@;
        self.xfixes_regions.insert(region, Region { rects: rectangles });
        assert(final(self)@.xfixes_regions =~= old(self)@.xfixes_regions.insert(region, rects));
    }

    /// Replaces the rectangles of an XFIXES region `namespace` owns.
    pub fn set_xfixes_region(
        &mut self,
        namespace: NamespaceId,
        region: XResourceId,
        rectangles: Vec<Rect>,
    ) -> (result: Result<(), XAuthorityRuntimeError>)
        ensures
            final(self)@.keymap == old(self)@.keymap,
            final(self)@.topology == old(self)@.topology,
            final(self)@.colormaps == old(self)@.colormaps,
            result == access_outcome(old(self)@.resources, namespace, region, XResourceKind::Region),
            result is Ok ==> final(self)@.xfixes_regions == old(self)@.xfixes_regions.insert(
                region,
                rectangles@,
            ),
            result is Err ==> final(self)@.xfixes_regions == old(self)@.xfixes_regions,
            final(self)@.resources == old(self)@.resources,
            final(self)@.pixmap_sizes == old(self)@.pixmap_sizes,
            final(self)@.dri3_fences == old(self)@.dri3_fences,
            final(self)@.next_fence_handle == old(self)@.next_fence_handle,
            final(self)@.sync_counters == old(self)@.sync_counters,
    {
        self.validate_xfixes_region_access(namespace, region)?;
        self.insert_region(region, rectangles);
        Ok(())
    }

    /// Destroys an XFIXES region `namespace` owns.
    pub fn destroy_xfixes_region(&mut self, namespace: NamespaceId, region: XResourceId) -> (result:
        Result<(), XAuthorityRuntimeError>)
        ensures
            final(self)@.keymap == old(self)@.keymap,
            final(self)@.topology == old(self)@.topology,
            final(self)@.colormaps == old(self)@.colormaps,
            result == access_outcome(old(self)@.resources, namespace, region, XResourceKind::Region),
            result is Ok ==> {
                &&& final(self)@.resources == old(self)@.resources.remove(region)
                &&& final(self)@.xfixes_regions == old(self)@.xfixes_regions.remove(region)
            },
            result is Err ==> final(self)@.resources == old(self)@.resources
                && final(self)@.xfixes_regions == old(self)@.xfixes_regions,
            final(self)@.pixmap_sizes == old(self)@.pixmap_sizes,
            final(self)@.dri3_fences == old(self)@.dri3_fences,
            final(self)@.next_fence_handle == old(self)@.next_fence_handle,
            final(self)@.sync_counters == old(self)@.sync_counters,
    {
        self.validate_xfixes_region_access(namespace, region)?;
        self.resources.remove(region);
        self.xfixes_regions.remove(region);
        assert(final(self)@.xfixes_regions =~= old(self)@.xfixes_regions.remove(region));
        Ok(())
    }

    /// Whether `namespace` may use `region` as an XFIXES region.
    pub fn validate_xfixes_region_access(&self, namespace: NamespaceId, region: XResourceId) -> (result:
        Result<(), XAuthorityRuntimeError>)
        ensures
            result == access_outcome(self@.resources, namespace, region, XResourceKind::Region),
    {
        self.validate_access(namespace, region, XResourceKind::Region)
    }

    /// Creates a DRI3 fence for `namespace` and names it to the renderer by
    /// the next fence handle.
    pub fn create_dri3_fence(
        &mut self,
        namespace: NamespaceId,
        fence: XResourceId,
        generation: u64,
    ) -> (result: Result<FenceHandle, XAuthorityRuntimeError>)
        ensures
            final(self)@.keymap == old(self)@.keymap,
            final(self)@.topology == old(self)@.topology,
            final(self)@.colormaps == old(self)@.colormaps,
            match insert_outcome(fence, namespace) {
                Err(error) => result == Err::<FenceHandle, XAuthorityRuntimeError>(error),
                Ok(_) => result == Ok::<FenceHandle, XAuthorityRuntimeError>(
                    FenceHandle { raw: fence_handle_for(old(self)@.next_fence_handle) },
                ),
            },
            result matches Ok(handle) ==> {
                &&& final(self)@.resources == old(self)@.resources.insert(
                    fence,
                    filed(fence, XResourceKind::Fence, namespace, generation),
                )
                &&& final(self)@.dri3_fences == old(self)@.dri3_fences.insert(fence, handle)
                &&& final(self)@.next_fence_handle == fence_counter_after(handle.raw)
            },
            result is Err ==> final(self)@.resources == old(self)@.resources
                && final(self)@.dri3_fences == old(self)@.dri3_fences
                && final(self)@.next_fence_handle == old(self)@.next_fence_handle,
            final(self)@.pixmap_sizes == old(self)@.pixmap_sizes,
            final(self)@.xfixes_regions == old(self)@.xfixes_regions,
            final(self)@.sync_counters == old(self)@.sync_counters,
    {
        self.file_resource(namespace, fence, XResourceKind::Fence, generation)?;
        let raw = if self.next_fence_handle == 0 {
            1
        } else {
            self.next_fence_handle
        };
        let handle = FenceHandle::from_raw(raw);
        let next = handle.raw().saturating_add(1);
        self.next_fence_handle = if next == 0 {
            1
        } else {
            next
        };
        self.dri3_fences.insert(fence, handle);
        Ok(handle)
    }

    /// Whether `namespace` may use `fence` as a DRI3 fence.
    pub fn validate_dri3_fence_access(&self, namespace: NamespaceId, fence: XResourceId) -> (result:
        Result<(), XAuthorityRuntimeError>)
        ensures
            result == access_outcome(self@.resources, namespace, fence, XResourceKind::Fence),
    {
        self.validate_access(namespace, fence, XResourceKind::Fence)
    }

    /// The renderer's handle for a DRI3 fence `namespace` owns.
    pub fn dri3_fence_handle(&self, namespace: NamespaceId, fence: XResourceId) -> (result: Result<
        FenceHandle,
        XAuthorityRuntimeError,
    >)
        ensures
            result == slot_read(
                self@.resources,
                self@.dri3_fences,
                namespace,
                fence,
                XResourceKind::Fence,
            ),
    {
        self.validate_dri3_fence_access(namespace, fence)?;
        match self.dri3_fences.get(fence) {
            Some(handle) => Ok(*handle),
            None => Err(XAuthorityRuntimeError::UnknownResource),
        }
    }

    /// Destroys a DRI3 fence `namespace` owns and gives back the handle the
    /// renderer must release.
    pub fn destroy_dri3_fence(&mut self, namespace: NamespaceId, fence: XResourceId) -> (result:
        Result<FenceHandle, XAuthorityRuntimeError>)
        ensures
            final(self)@.keymap == old(self)@.keymap,
            final(self)@.topology == old(self)@.topology,
            final(self)@.colormaps == old(self)@.colormaps,
            result == slot_read(
                old(self)@.resources,
                old(self)@.dri3_fences,
                namespace,
                fence,
                XResourceKind::Fence,
            ),
            access_outcome(old(self)@.resources, namespace, fence, XResourceKind::Fence) is Ok ==> {
                &&& final(self)@.resources == old(self)@.resources.remove(fence)
                &&& final(self)@.dri3_fences == old(self)@.dri3_fences.remove(fence)
            },
            access_outcome(old(self)@.resources, namespace, fence, XResourceKind::Fence) is Err
                ==> final(self)@.resources == old(self)@.resources && final(self)@.dri3_fences
                == old(self)@.dri3_fences,
            final(self)@.pixmap_sizes == old(self)@.pixmap_sizes,
            final(self)@.xfixes_regions == old(self)@.xfixes_regions,
            final(self)@.next_fence_handle == old(self)@.next_fence_handle,
            final(self)@.sync_counters == old(self)@.sync_counters,
    {
        self.validate_dri3_fence_access(namespace, fence)?;
        self.resources.remove(fence);
        match self.dri3_fences.remove(fence) {
            Some(handle) => Ok(handle),
            None => Err(XAuthorityRuntimeError::UnknownResource),
        }
    }
}

impl XAuthorityRuntime {
    /// Opens a font for `namespace` under the id it chose.
    pub fn open_font(&mut self, namespace: NamespaceId, font: XResourceId, generation: u64) -> (result:
        Result<(), XAuthorityRuntimeError>)
        ensures
            final(self)@.keymap == old(self)@.keymap,
            final(self)@.topology == old(self)@.topology,
            final(self)@.colormaps == old(self)@.colormaps,
            result == insert_outcome(font, namespace),
            result is Ok ==> final(self)@.resources == old(self)@.resources.insert(
                font,
                filed(font, XResourceKind::Font, namespace, generation),
            ),
            result is Err ==> final(self)@.resources == old(self)@.resources,
            final(self)@.pixmap_sizes == old(self)@.pixmap_sizes,
            final(self)@.xfixes_regions == old(self)@.xfixes_regions,
            final(self)@.dri3_fences == old(self)@.dri3_fences,
            final(self)@.next_fence_handle == old(self)@.next_fence_handle,
            final(self)@.sync_counters == old(self)@.sync_counters,
    {
        self.file_resource(namespace, font, XResourceKind::Font, generation)
    }

    /// Closes a font `namespace` opened.
    pub fn close_font(&mut self, namespace: NamespaceId, font: XResourceId) -> (result: Result<
        (),
        XAuthorityRuntimeError,
    >)
        ensures
            final(self)@.keymap == old(self)@.keymap,
            final(self)@.topology == old(self)@.topology,
            final(self)@.colormaps == old(self)@.colormaps,
            result == access_outcome(old(self)@.resources, namespace, font, XResourceKind::Font),
            result is Ok ==> final(self)@.resources == old(self)@.resources.remove(font),
            result is Err ==> final(self)@.resources == old(self)@.resources,
            final(self)@.pixmap_sizes == old(self)@.pixmap_sizes,
            final(self)@.xfixes_regions == old(self)@.xfixes_regions,
            final(self)@.dri3_fences == old(self)@.dri3_fences,
            final(self)@.next_fence_handle == old(self)@.next_fence_handle,
            final(self)@.sync_counters == old(self)@.sync_counters,
    {
        self.validate_access(namespace, font, XResourceKind::Font)?;
        self.resources.remove(font);
        Ok(())
    }

    /// Whether `namespace` may use `font` as a font.
    pub fn validate_font_access(&self, namespace: NamespaceId, font: XResourceId) -> (result: Result<
        (),
        XAuthorityRuntimeError,
    >)
        ensures
            result == access_outcome(self@.resources, namespace, font, XResourceKind::Font),
    {
        self.validate_access(namespace, font, XResourceKind::Font)
    }

    /// Creates a cursor for `namespace` under the id it chose.
    pub fn create_cursor(&mut self, namespace: NamespaceId, cursor: XResourceId, generation: u64) -> (result:
        Result<(), XAuthorityRuntimeError>)
        ensures
            final(self)@.keymap == old(self)@.keymap,
            final(self)@.topology == old(self)@.topology,
            final(self)@.colormaps == old(self)@.colormaps,
            result == insert_outcome(cursor, namespace),
            result is Ok ==> final(self)@.resources == old(self)@.resources.insert(
                cursor,
                filed(cursor, XResourceKind::Cursor, namespace, generation),
            ),
            result is Err ==> final(self)@.resources == old(self)@.resources,
            final(self)@.pixmap_sizes == old(self)@.pixmap_sizes,
            final(self)@.xfixes_regions == old(self)@.xfixes_regions,
            final(self)@.dri3_fences == old(self)@.dri3_fences,
            final(self)@.next_fence_handle == old(self)@.next_fence_handle,
            final(self)@.sync_counters == old(self)@.sync_counters,
    {
        self.file_resource(namespace, cursor, XResourceKind::Cursor, generation)
    }

    /// Frees a cursor `namespace` created.
    pub fn free_cursor(&mut self, namespace: NamespaceId, cursor: XResourceId) -> (result: Result<
        (),
        XAuthorityRuntimeError,
    >)
        ensures
            final(self)@.keymap == old(self)@.keymap,
            final(self)@.topology == old(self)@.topology,
            final(self)@.colormaps == old(self)@.colormaps,
            result == access_outcome(old(self)@.resources, namespace, cursor, XResourceKind::Cursor),
            result is Ok ==> final(self)@.resources == old(self)@.resources.remove(cursor),
            result is Err ==> final(self)@.resources == old(self)@.resources,
            final(self)@.pixmap_sizes == old(self)@.pixmap_sizes,
            final(self)@.xfixes_regions == old(self)@.xfixes_regions,
            final(self)@.dri3_fences == old(self)@.dri3_fences,
            final(self)@.next_fence_handle == old(self)@.next_fence_handle,
            final(self)@.sync_counters == old(self)@.sync_counters,
    {
        self.validate_access(namespace, cursor, XResourceKind::Cursor)?;
        self.resources.remove(cursor);
        Ok(())
    }

    /// Whether `namespace` may use `cursor` as a cursor.
    pub fn validate_cursor_access(&self, namespace: NamespaceId, cursor: XResourceId) -> (result: Result<
        (),
        XAuthorityRuntimeError,
    >)
        ensures
            result == access_outcome(self@.resources, namespace, cursor, XResourceKind::Cursor),
    {
        self.validate_access(namespace, cursor, XResourceKind::Cursor)
    }
}

/// What setting or changing a SYNC counter answers: the access check, then
/// the counter's presence.
pub open spec fn counter_update_outcome(
    resources: Map<XResourceId, XResourceRecord>,
    counters: Map<XResourceId, i64>,
    namespace: NamespaceId,
    counter: XResourceId,
) -> Result<(), XAuthorityRuntimeError> {
    match access_outcome(resources, namespace, counter, XResourceKind::SyncCounter) {
        Err(error) => Err(error),
        Ok(_) => if counters.contains_key(counter) {
            Ok(())
        } else {
            Err(XAuthorityRuntimeError::UnknownResource)
        },
    }
}

impl XAuthorityRuntime {
    /// Creates a SYNC counter holding `initial_value` for `namespace`.
    pub fn create_sync_counter(
        &mut self,
        namespace: NamespaceId,
        counter: XResourceId,
        generation: u64,
        initial_value: i64,
    ) -> (result: Result<(), XAuthorityRuntimeError>)
        ensures
            final(self)@.keymap == old(self)@.keymap,
            final(self)@.topology == old(self)@.topology,
            final(self)@.colormaps == old(self)@.colormaps,
            result == insert_outcome(counter, namespace),
            result is Ok ==> {
                &&& final(self)@.resources == old(self)@.resources.insert(
                    counter,
                    filed(counter, XResourceKind::SyncCounter, namespace, generation),
                )
                &&& final(self)@.sync_counters == old(self)@.sync_counters.insert(
                    counter,
                    initial_value,
                )
            },
            result is Err ==> final(self)@.resources == old(self)@.resources
                && final(self)@.sync_counters == old(self)@.sync_counters,
            final(self)@.pixmap_sizes == old(self)@.pixmap_sizes,
            final(self)@.xfixes_regions == old(self)@.xfixes_regions,
            final(self)@.dri3_fences == old(self)@.dri3_fences,
            final(self)@.next_fence_handle == old(self)@.next_fence_handle,
    {
        self.file_resource(namespace, counter, XResourceKind::SyncCounter, generation)?;
        self.sync_counters.insert(counter, initial_value);
        Ok(())
    }

    /// Sets a SYNC counter `namespace` owns to `value`.
    pub fn set_sync_counter(&mut self, namespace: NamespaceId, counter: XResourceId, value: i64) -> (result:
        Result<(), XAuthorityRuntimeError>)
        ensures
            final(self)@.keymap == old(self)@.keymap,
            final(self)@.topology == old(self)@.topology,
            final(self)@.colormaps == old(self)@.colormaps,
            result == counter_update_outcome(
                old(self)@.resources,
                old(self)@.sync_counters,
                namespace,
                counter,
            ),
            result is Ok ==> final(self)@.sync_counters == old(self)@.sync_counters.insert(
                counter,
                value,
            ),
            result is Err ==> final(self)@.sync_counters == old(self)@.sync_counters,
            final(self)@.resources == old(self)@.resources,
            final(self)@.pixmap_sizes == old(self)@.pixmap_sizes,
            final(self)@.xfixes_regions == old(self)@.xfixes_regions,
            final(self)@.dri3_fences == old(self)@.dri3_fences,
            final(self)@.next_fence_handle == old(self)@.next_fence_handle,
    {
        self.validate_sync_counter_access(namespace, counter)?;
        if self.sync_counters.get(counter).is_none() {
            return Err(XAuthorityRuntimeError::UnknownResource);
        }
        self.sync_counters.insert(counter, value);
        Ok(())
    }

    /// Adds `delta` to a SYNC counter `namespace` owns, wrapping around the
    /// counter's 64-bit range.
    pub fn change_sync_counter(&mut self, namespace: NamespaceId, counter: XResourceId, delta: i64) -> (result:
        Result<(), XAuthorityRuntimeError>)
        ensures
            final(self)@.keymap == old(self)@.keymap,
            final(self)@.topology == old(self)@.topology,
            final(self)@.colormaps == old(self)@.colormaps,
            result == counter_update_outcome(
                old(self)@.resources,
                old(self)@.sync_counters,
                namespace,
                counter,
            ),
            result is Ok ==> final(self)@.sync_counters == old(self)@.sync_counters.insert(
                counter,
                old(self)@.sync_counters[counter].wrapping_add(delta),
            ),
            result is Err ==> final(self)@.sync_counters == old(self)@.sync_counters,
            final(self)@.resources == old(self)@.resources,
            final(self)@.pixmap_sizes == old(self)@.pixmap_sizes,
            final(self)@.xfixes_regions == old(self)@.xfixes_regions,
            final(self)@.dri3_fences == old(self)@.dri3_fences,
            final(self)@.next_fence_handle == old(self)@.next_fence_handle,
    {
        self.validate_sync_counter_access(namespace, counter)?;
        let value = match self.sync_counters.get(counter) {
            Some(value) => *value,
            None => return Err(XAuthorityRuntimeError::UnknownResource),
        };
        self.sync_counters.insert(counter, value.wrapping_add(delta));
        Ok(())
    }

    /// The value of a SYNC counter `namespace` owns.
    pub fn sync_counter(&self, namespace: NamespaceId, counter: XResourceId) -> (result: Result<
        i64,
        XAuthorityRuntimeError,
    >)
        ensures
            result == slot_read(
                self@.resources,
                self@.sync_counters,
                namespace,
                counter,
                XResourceKind::SyncCounter,
            ),
    {
        self.validate_sync_counter_access(namespace, counter)?;
        match self.sync_counters.get(counter) {
            Some(value) => Ok(*value),
            None => Err(XAuthorityRuntimeError::UnknownResource),
        }
    }

    /// Destroys a SYNC counter `namespace` owns.
    pub fn destroy_sync_counter(&mut self, namespace: NamespaceId, counter: XResourceId) -> (result:
        Result<(), XAuthorityRuntimeError>)
        ensures
            final(self)@.keymap == old(self)@.keymap,
            final(self)@.topology == old(self)@.topology,
            final(self)@.colormaps == old(self)@.colormaps,
            result == counter_update_outcome(
                old(self)@.resources,
                old(self)@.sync_counters,
                namespace,
                counter,
            ),
            access_outcome(old(self)@.resources, namespace, counter, XResourceKind::SyncCounter) is Ok
                ==> {
                &&& final(self)@.resources == old(self)@.resources.remove(counter)
                &&& final(self)@.sync_counters == old(self)@.sync_counters.remove(counter)
            },
            access_outcome(old(self)@.resources, namespace, counter, XResourceKind::SyncCounter) is Err
                ==> final(self)@.resources == old(self)@.resources && final(self)@.sync_counters
                == old(self)@.sync_counters,
            final(self)@.pixmap_sizes == old(self)@.pixmap_sizes,
            final(self)@.xfixes_regions == old(self)@.xfixes_regions,
            final(self)@.dri3_fences == old(self)@.dri3_fences,
            final(self)@.next_fence_handle == old(self)@.next_fence_handle,
    {
        self.validate_sync_counter_access(namespace, counter)?;
        self.resources.remove(counter);
        match self.sync_counters.remove(counter) {
            Some(_) => Ok(()),
            None => Err(XAuthorityRuntimeError::UnknownResource),
        }
    }

    fn validate_sync_counter_access(&self, namespace: NamespaceId, counter: XResourceId) -> (result:
        Result<(), XAuthorityRuntimeError>)
        ensures
            result == access_outcome(self@.resources, namespace, counter, XResourceKind::SyncCounter),
    {
        self.validate_access(namespace, counter, XResourceKind::SyncCounter)
    }
}

/// A value filed with a new resource is what the owning namespace reads
/// back from it.
pub proof fn law_created_resource_reads_back<V>(
    resources: Map<XResourceId, XResourceRecord>,
    slots: Map<XResourceId, V>,
    namespace: NamespaceId,
    id: XResourceId,
    kind: XResourceKind,
    generation: u64,
    value: V,
)
    requires
        namespace.spec_is_valid(),
    ensures
        slot_read(
            resources.insert(id, filed(id, kind, namespace, generation)),
            slots.insert(id, value),
            namespace,
            id,
            kind,
        ) == Ok::<V, XAuthorityRuntimeError>(value),
{
}

/// Once a resource is destroyed, no namespace finds it or its value again.
pub proof fn law_destroyed_resource_is_unknown<V>(
    resources: Map<XResourceId, XResourceRecord>,
    slots: Map<XResourceId, V>,
    namespace: NamespaceId,
    id: XResourceId,
    kind: XResourceKind,
)
    requires
        namespace.spec_is_valid(),
    ensures
        slot_read(resources.remove(id), slots.remove(id), namespace, id, kind) == Err::<
            V,
            XAuthorityRuntimeError,
        >(XAuthorityRuntimeError::UnknownResource),
{
}

/// A namespace never reads what another namespace keeps under a resource.
pub proof fn law_foreign_resource_is_denied<V>(
    resources: Map<XResourceId, XResourceRecord>,
    slots: Map<XResourceId, V>,
    namespace: NamespaceId,
    id: XResourceId,
)
    requires
        namespace.spec_is_valid(),
        resources.contains_key(id),
        resources[id].owner_namespace != namespace,
    ensures
        slot_read(resources, slots, namespace, id, resources[id].kind) == Err::<
            V,
            XAuthorityRuntimeError,
        >(XAuthorityRuntimeError::CrossNamespaceDenied),
{
}

/// Changing a SYNC counter by `delta` and reading it gives the old value
/// plus `delta`, wrapped into the counter's range.
pub proof fn law_changed_counter_reads_wrapped_sum(
    resources: Map<XResourceId, XResourceRecord>,
    counters: Map<XResourceId, i64>,
    namespace: NamespaceId,
    counter: XResourceId,
    delta: i64,
)
    requires
        counter_update_outcome(resources, counters, namespace, counter) is Ok,
    ensures
        slot_read(
            resources,
            counters.insert(counter, counters[counter].wrapping_add(delta)),
            namespace,
            counter,
            XResourceKind::SyncCounter,
        ) == Ok::<i64, XAuthorityRuntimeError>(counters[counter].wrapping_add(delta)),
        0 < delta && counters[counter] + delta <= i64::MAX ==> counters[counter].wrapping_add(
            delta,
        ) == counters[counter] + delta,
{
}

/// Every DRI3 fence handle is nonzero, and until the counter reaches the
/// top of its range each fence gets a handle above the one before it.
pub proof fn law_fence_handles_climb(next: u64)
    ensures
        fence_handle_for(next) != 0,
        fence_handle_for(next) < u64::MAX ==> fence_handle_for(
            fence_counter_after(fence_handle_for(next)),
        ) > fence_handle_for(next),
{
}

/// The root window is a drawable for every client; any other drawable is
/// refused to a namespace that does not own it.
pub proof fn law_drawable_access_is_owned_or_root(
    resources: Map<XResourceId, XResourceRecord>,
    namespace: NamespaceId,
    drawable: XResourceId,
)
    ensures
        drawable.local.raw == X_SETUP_DEFAULT_ROOT as u64 ==> drawable_access(
            resources,
            namespace,
            drawable,
        ) is Ok,
        drawable.local.raw != X_SETUP_DEFAULT_ROOT as u64 && drawable_access(
            resources,
            namespace,
            drawable,
        ) is Ok ==> resources.contains_key(drawable) && resources[drawable].owner_namespace
            == namespace,
{
}

/// Why a colormap request was refused.
#[derive(Clone, Copy, Debug, PartialEq, Eq, Structural)]
pub enum XColormapError {
    /// The visual named is not one of the screen's TrueColor visuals.
    UnknownVisual,
    /// A resource is already filed under the colormap's id.
    DuplicateId,
    /// The resource table refused the access.
    Access(XAuthorityAccessError),
}

/// Whether `visual` is one of the TrueColor visuals the screen offers.
pub open spec fn is_true_color_visual(visual: u32) -> bool {
    visual == X_SETUP_DEFAULT_VISUAL || visual == X_SETUP_ARGB_VISUAL
}

/// Whether `colormap` is the root window's colormap, which every client
/// may name and nobody creates or frees.
pub open spec fn is_default_colormap(colormap: XResourceId) -> bool {
    colormap.local.raw == X_SETUP_DEFAULT_COLORMAP as u64
}

/// What creating `colormap` for `visual` answers: the visual first, then
/// the id's freshness, then the table's admission.
pub open spec fn colormap_create_outcome(
    resources: Map<XResourceId, XResourceRecord>,
    namespace: NamespaceId,
    colormap: XResourceId,
    visual: u32,
) -> Result<(), XColormapError> {
    if !is_true_color_visual(visual) {
        Err(XColormapError::UnknownVisual)
    } else if resources.contains_key(colormap) {
        Err(XColormapError::DuplicateId)
    } else if !colormap.spec_is_valid() {
        Err(XColormapError::Access(XAuthorityAccessError::InvalidResource))
    } else if !namespace.spec_is_valid() {
        Err(XColormapError::Access(XAuthorityAccessError::InvalidNamespace))
    } else {
        Ok(())
    }
}

/// The visual of `colormap` as `namespace` may read it: the root window's
/// colormap has the default visual; any other must be a colormap the
/// namespace owns.
pub open spec fn colormap_visual_outcome(
    resources: Map<XResourceId, XResourceRecord>,
    colormaps: Map<XResourceId, u32>,
    namespace: NamespaceId,
    colormap: XResourceId,
) -> Result<u32, XColormapError> {
    if !namespace.spec_is_valid() {
        Err(XColormapError::Access(XAuthorityAccessError::InvalidNamespace))
    } else if is_default_colormap(colormap) {
        Ok(X_SETUP_DEFAULT_VISUAL)
    } else {
        match resource_lookup(resources, namespace, colormap, XResourceKind::Colormap) {
            Err(error) => Err(XColormapError::Access(error)),
            Ok(_) => if colormaps.contains_key(colormap) {
                Ok(colormaps[colormap])
            } else {
                Err(XColormapError::Access(XAuthorityAccessError::UnknownResource))
            },
        }
    }
}

/// What freeing `colormap` answers: the root window's colormap is never
/// freed, and freeing it is a no-op for any valid namespace.
pub open spec fn colormap_free_outcome(
    resources: Map<XResourceId, XResourceRecord>,
    colormaps: Map<XResourceId, u32>,
    namespace: NamespaceId,
    colormap: XResourceId,
) -> Result<(), XColormapError> {
    if is_default_colormap(colormap) && namespace.spec_is_valid() {
        Ok(())
    } else {
        match colormap_visual_outcome(resources, colormaps, namespace, colormap) {
            Ok(_) => Ok(()),
            Err(error) => Err(error),
        }
    }
}

impl XAuthorityRuntime {
    /// Creates `colormap` for `visual`, owned by `namespace`.
    pub fn create_colormap(
        &mut self,
        namespace: NamespaceId,
        colormap: XResourceId,
        visual: u32,
        generation: u64,
    ) -> (result: Result<(), XColormapError>)
        ensures
            result == colormap_create_outcome(old(self)@.resources, namespace, colormap, visual),
            result is Ok ==> final(self)@ == (XAuthorityRuntimeView {
                resources: old(self)@.resources.insert(
                    colormap,
                    filed(colormap, XResourceKind::Colormap, namespace, generation),
                ),
                colormaps: old(self)@.colormaps.insert(colormap, visual),
                ..old(self)@
            }),
            result is Err ==> final(self)@ == old(self)@,
    {
        if !(visual == X_SETUP_DEFAULT_VISUAL || visual == X_SETUP_ARGB_VISUAL) {
            return Err(XColormapError::UnknownVisual);
        }
        if self.resources.get(colormap).is_some() {
            return Err(XColormapError::DuplicateId);
        }
        match self.resources.insert(colormap, XResourceKind::Colormap, namespace, generation) {
            Err(error) => {
                return Err(XColormapError::Access(error));
            },
            Ok(()) => {},
        }
        self.colormaps.insert(colormap, visual);
        Ok(())
    }

    /// The visual of `colormap`, if `namespace` may use it.
    pub fn colormap_visual(&self, namespace: NamespaceId, colormap: XResourceId) -> (result: Result<
        u32,
        XColormapError,
    >)
        ensures
            result == colormap_visual_outcome(self@.resources, self@.colormaps, namespace, colormap),
    {
        if !namespace.is_valid() {
            return Err(XColormapError::Access(XAuthorityAccessError::InvalidNamespace));
        }
        if colormap.local.raw() == X_SETUP_DEFAULT_COLORMAP as u64 {
            return Ok(X_SETUP_DEFAULT_VISUAL);
        }
        match self.resources.lookup(namespace, colormap, XResourceKind::Colormap) {
            Err(error) => {
                return Err(XColormapError::Access(error));
            },
            Ok(_) => {},
        }
        match self.colormaps.get(colormap) {
            Some(visual) => Ok(*visual),
            None => Err(XColormapError::Access(XAuthorityAccessError::UnknownResource)),
        }
    }

    /// Frees `colormap`, if `namespace` may use it; the root window's
    /// colormap stays.
    pub fn free_colormap(&mut self, namespace: NamespaceId, colormap: XResourceId) -> (result: Result<
        (),
        XColormapError,
    >)
        ensures
            result == colormap_free_outcome(old(self)@.resources, old(self)@.colormaps, namespace, colormap),
            result is Ok && !is_default_colormap(colormap) ==> final(self)@ == (XAuthorityRuntimeView {
                resources: old(self)@.resources.remove(colormap),
                colormaps: old(self)@.colormaps.remove(colormap),
                ..old(self)@
            }),
            result is Err || is_default_colormap(colormap) ==> final(self)@ == old(self)@,
    {
        if colormap.local.raw() == X_SETUP_DEFAULT_COLORMAP as u64 {
            if namespace.is_valid() {
                return Ok(());
            }
            return Err(XColormapError::Access(XAuthorityAccessError::InvalidNamespace));
        }
        match self.colormap_visual(namespace, colormap) {
            Err(error) => {
                return Err(error);
            },
            Ok(_) => {},
        }
        self.resources.remove(colormap);
        self.colormaps.remove(colormap);
        Ok(())
    }
}

/// A colormap created for a visual reads back that visual to its owner,
/// and once freed it is unknown. The root window's colormap is left out:
/// its id always reads back the default visual.
pub proof fn law_colormap_reads_back_until_freed(
    resources: Map<XResourceId, XResourceRecord>,
    colormaps: Map<XResourceId, u32>,
    namespace: NamespaceId,
    colormap: XResourceId,
    visual: u32,
    generation: u64,
)
    requires
        colormap_create_outcome(resources, namespace, colormap, visual) is Ok,
        !is_default_colormap(colormap),
    ensures
        ({
            let created = resources.insert(
                colormap,
                filed(colormap, XResourceKind::Colormap, namespace, generation),
            );
            let with_visual = colormaps.insert(colormap, visual);
            &&& colormap_visual_outcome(created, with_visual, namespace, colormap) == Ok::<
                u32,
                XColormapError,
            >(visual)
            &&& colormap_free_outcome(created, with_visual, namespace, colormap) is Ok
            &&& colormap_visual_outcome(
                created.remove(colormap),
                with_visual.remove(colormap),
                namespace,
                colormap,
            ) == Err::<u32, XColormapError>(
                XColormapError::Access(XAuthorityAccessError::UnknownResource),
            )
        }),
{
}

} // verus!
