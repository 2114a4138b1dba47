//! The resource registry: the table through which the host refers to a live
//! update, or to downloaded bytes, by an identifier.

use std::collections::HashMap;
use vstd::prelude::*;

use crate::error::{UpdateError, UpdateErrorView};
use crate::updater::{Update, UpdateView};

verus! {

broadcast use vstd::std_specs::hash::group_hash_axioms;

/// The identifier of a resource. It means nothing outside its registry.
pub type ResourceId = u64;

/// What a registry can hold.
#[derive(Debug)]
pub enum Resource {
    Update(Update),
    DownloadedBytes(Vec<u8>),
}

/// What a resource holds.
pub enum ResourceView {
    Update(UpdateView),
    DownloadedBytes(Seq<u8>),
}

impl View for Resource {
    type V = ResourceView;

    open spec fn view(&self) -> ResourceView {
        match self {
            Resource::Update(update) => ResourceView::Update(update@),
            Resource::DownloadedBytes(bytes) => ResourceView::DownloadedBytes(bytes@),
        }
    }
}

/// The resources of one session. Identifiers are handed out in increasing
/// order and never again: one that was closed stays closed.
#[derive(Debug)]
pub struct ResourceRegistry {
    entries: HashMap<u64, Resource>,
    next: u64,
}

/// The state of a registry.
pub struct RegistryView {
    /// The live resources by their identifiers.
    pub live: Map<ResourceId, ResourceView>,
    /// The identifier that the next resource gets; all below it were handed out.
    pub next: ResourceId,
}

impl RegistryView {
    /// A registry that nothing was ever added to.
    pub open spec fn empty() -> RegistryView {
        RegistryView { live: Map::empty(), next: 0 }
    }

    /// Every live identifier was handed out.
    pub open spec fn well_formed(self) -> bool {
        forall|id: ResourceId| #[trigger] self.live.dom().contains(id) ==> id < self.next
    }

    /// Whether another resource can be added: the identifiers are not used up.
    pub open spec fn has_room(self) -> bool {
        self.next < u64::MAX
    }

    /// Whether `id` was handed out and has been closed since.
    pub open spec fn closed(self, id: ResourceId) -> bool {
        id < self.next && !self.live.dom().contains(id)
    }

    /// The registry after `value` was added under the next identifier.
    pub open spec fn add(self, value: ResourceView) -> RegistryView {
        RegistryView { live: self.live.insert(self.next, value), next: (self.next + 1) as u64 }
    }

    /// What is found under `id`.
    pub open spec fn get(self, id: ResourceId) -> Result<ResourceView, UpdateErrorView> {
        if self.live.dom().contains(id) {
            Ok(self.live[id])
        } else {
            Err(UpdateErrorView::ResourceNotFound(id))
        }
    }

    /// The registry after `id` was closed; closing what is not live changes nothing.
    pub open spec fn close(self, id: ResourceId) -> RegistryView {
        RegistryView { live: self.live.remove(id), next: self.next }
    }
}

impl View for ResourceRegistry {
    type V = RegistryView;

    closed spec fn view(&self) -> RegistryView {
        RegistryView {
            live: self.entries@.map_values(|resource: Resource| resource@),
            next: self.next,
        }
    }
}

impl ResourceRegistry {
    /// An empty registry.
    pub fn new() -> (registry: ResourceRegistry)
        ensures
            registry@ == RegistryView::empty(),
            registry@.well_formed(),
    {
        let registry = ResourceRegistry { entries: HashMap::new(), next: 0 };
        assert(registry@.live =~= Map::empty());
        registry
    }

    /// Whether another resource can be added.
    pub fn has_room(&self) -> (room: bool)
        ensures
            room == self@.has_room(),
    {
        self.next < u64::MAX
    }

    /// Stores a value and returns its identifier, one that no resource of
    /// this registry has or ever had.
    pub fn add(&mut self, value: Resource) -> (id: ResourceId)
        requires
            old(self)@.well_formed(),
            old(self)@.has_room(),
        ensures
            id == old(self)@.next,
            final(self)@ == old(self)@.add(value@),
            !old(self)@.live.dom().contains(id),
            final(self)@.live.dom().contains(id),
            final(self)@.well_formed(),
    {
        let id = self.next;
        let ghost before = self.entries@;
        self.entries.insert(id, value);
        self.next = id + 1;
        proof {
            assert(self.entries@ == before.insert(id, value));
            assert(self@.live =~= old(self)@.live.insert(id, value@));
        }
        id
    }

    /// The resource under `id`, where one is live.
    pub fn get(&self, id: ResourceId) -> (found: Result<&Resource, UpdateError>)
        ensures
            match found {
                Ok(resource) => self@.get(id) == Ok::<ResourceView, UpdateErrorView>(resource@),
                Err(e) => self@.get(id) == Err::<ResourceView, UpdateErrorView>(e@),
            },
            self@.closed(id) ==> found is Err,
    {
        match self.entries.get(&id) {
            Some(resource) => Ok(resource),
            None => Err(UpdateError::ResourceNotFound(id)),
        }
    }

    /// The update under `id`, where a live update is there.
    pub fn get_update(&self, id: ResourceId) -> (found: Result<&Update, UpdateError>)
        ensures
            match found {
                Ok(update) => self@.get(id) == Ok::<ResourceView, UpdateErrorView>(
                    ResourceView::Update(update@),
                ),
                Err(e) => e@ == UpdateErrorView::ResourceNotFound(id) && !(self@.get(id) matches Ok(
                    ResourceView::Update(_),
                )),
            },
    {
        match self.get(id) {
            Ok(Resource::Update(update)) => Ok(update),
            _ => Err(UpdateError::ResourceNotFound(id)),
        }
    }

    /// The downloaded bytes under `id`, where live bytes are there.
    pub fn get_bytes(&self, id: ResourceId) -> (found: Result<&Vec<u8>, UpdateError>)
        ensures
            match found {
                Ok(bytes) => self@.get(id) == Ok::<ResourceView, UpdateErrorView>(
                    ResourceView::DownloadedBytes(bytes@),
                ),
                Err(e) => e@ == UpdateErrorView::ResourceNotFound(id) && !(self@.get(id) matches Ok(
                    ResourceView::DownloadedBytes(_),
                )),
            },
    {
        match self.get(id) {
            Ok(Resource::DownloadedBytes(bytes)) => Ok(bytes),
            _ => Err(UpdateError::ResourceNotFound(id)),
        }
    }

    /// Releases the resource under `id` and retires the identifier. Fails,
    /// and changes nothing, where no resource is live under `id`.
    pub fn close(&mut self, id: ResourceId) -> (closed: Result<(), UpdateError>)
        ensures
            final(self)@ == old(self)@.close(id),
            match closed {
                Ok(_) => old(self)@.live.dom().contains(id),
                Err(e) => !old(self)@.live.dom().contains(id) && e@
                    == UpdateErrorView::ResourceNotFound(id) && final(self)@ == old(self)@,
            },
            !final(self)@.live.dom().contains(id),
            old(self)@.well_formed() ==> final(self)@.well_formed(),
    {
        let ghost before = self.entries@;
        let removed = self.entries.remove(&id);
        proof {
            assert(self.entries@ == before.remove(id));
            assert(self@.live =~= old(self)@.live.remove(id));
        }
        match removed {
            Some(_) => Ok(()),
            None => {
                proof {
                    assert(before.remove(id) =~= before);
                }
                Err(UpdateError::ResourceNotFound(id))
            },
        }
    }
}

/// One change to a registry.
pub enum RegistryOp {
    Add(ResourceView),
    Close(ResourceId),
}

impl RegistryView {
    /// The registry after one change. A registry without room takes no more.
    pub open spec fn apply(self, op: RegistryOp) -> RegistryView {
        match op {
            RegistryOp::Add(value) => if self.has_room() {
                self.add(value)
            } else {
                self
            },
            RegistryOp::Close(id) => self.close(id),
        }
    }

    /// The registry after a sequence of changes.
    pub open spec fn apply_all(self, ops: Seq<RegistryOp>) -> RegistryView
        decreases ops.len(),
    {
        if ops.len() == 0 {
            self
        } else {
            self.apply_all(ops.drop_last()).apply(ops.last())
        }
    }
}

/// The identifier that `add` hands out is held by no live resource, and
/// adding disturbs none: the new resource is found under the new identifier,
/// and every other identifier finds what it found before.
pub proof fn lemma_add_is_fresh(registry: RegistryView, value: ResourceView)
    requires
        registry.well_formed(),
        registry.has_room(),
    ensures
        !registry.live.dom().contains(registry.next),
        registry.add(value).well_formed(),
        registry.add(value).get(registry.next) == Ok::<ResourceView, UpdateErrorView>(value),
        forall|id: ResourceId|
            id != registry.next ==> #[trigger] registry.add(value).get(id) == registry.get(id),
{
    if registry.live.dom().contains(registry.next) {
        assert(registry.next < registry.next);
    }
}

/// After `close`, the identifier finds nothing.
pub proof fn lemma_get_after_close(registry: RegistryView, id: ResourceId)
    ensures
        registry.close(id).get(id) is Err,
        !registry.close(id).live.dom().contains(id),
{
}

/// An identifier that was closed stays closed, whatever is added or closed
/// afterwards: no later resource gets it, and it never finds anything again.
pub proof fn lemma_closed_stays_closed(registry: RegistryView, id: ResourceId, ops: Seq<RegistryOp>)
    requires
        registry.well_formed(),
        registry.closed(id),
    ensures
        registry.apply_all(ops).well_formed(),
        registry.apply_all(ops).closed(id),
        registry.apply_all(ops).get(id) is Err,
    decreases ops.len(),
{
    if ops.len() > 0 {
        lemma_closed_stays_closed(registry, id, ops.drop_last());
        let before = registry.apply_all(ops.drop_last());
        match ops.last() {
            RegistryOp::Add(value) => {
                if before.has_room() {
                    lemma_add_is_fresh(before, value);
                }
            },
            RegistryOp::Close(_) => {},
        }
    }
}

} // verus!
