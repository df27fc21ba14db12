//! The handler registry and the element finalization hook.
//!
//! The registry is a process-wide table of registration descriptors, each
//! pairing the stable tag of an element type with the tag of a message kind
//! an element of that type handles. It is populated by an explicit start-up
//! registration pass, before the bus is first used, and only read afterwards.
//! Because a descriptor mirrors one handler declaration, the registry never
//! holds two descriptors for the same (element type, message kind) pair.

use vstd::prelude::*;

use crate::bus::BusInstance;
use crate::bus::EventBus;
use crate::bus::HandlerSlot;

verus! {

/// A registration descriptor: elements whose type bears `element_type_id`
/// get a handler installed for messages tagged `message_tag`.
#[derive(Clone, Copy, Debug, PartialEq, Eq, Structural)]
pub struct HandlerRegistryEntry {
    /// The stable tag of the element type this descriptor is for.
    pub element_type_id: u64,
    /// The tag of the message kind the installed handler listens for.
    pub message_tag: u64,
}

/// The process-wide collection of registration descriptors, in registration
/// order. It only grows, and only during start-up.
pub struct HandlerRegistry {
    entries: Vec<HandlerRegistryEntry>,
}

impl View for HandlerRegistry {
    type V = Seq<HandlerRegistryEntry>;

    closed spec fn view(&self) -> Seq<HandlerRegistryEntry> {
        self.entries@
    }
}

/// No two descriptors name the same (element type, message kind) pair,
/// mirroring the fact that one element type has at most one handler
/// declaration per message kind.
pub open spec fn registry_wf(entries: Seq<HandlerRegistryEntry>) -> bool {
    forall|i: int, j: int|
        0 <= i < j < entries.len() ==> !((#[trigger] entries[i]).element_type_id == (
        #[trigger] entries[j]).element_type_id && entries[i].message_tag == entries[j].message_tag)
}

impl HandlerRegistry {
    /// Some descriptor names a pair with this element type tag.
    pub open spec fn has_entry_for(&self, element_type_id: u64) -> bool {
        exists|i: int|
            0 <= i < self@.len() && (#[trigger] self@[i]).element_type_id == element_type_id
    }

    /// Some descriptor names exactly this pair.
    pub open spec fn has_pair(&self, element_type_id: u64, message_tag: u64) -> bool {
        exists|i: int|
            0 <= i < self@.len() && (#[trigger] self@[i]).element_type_id == element_type_id
                && self@[i].message_tag == message_tag
    }

    /// An empty registry, as at the start of the start-up pass.
    pub fn new() -> (reg: HandlerRegistry)
        ensures
            reg@.len() == 0,
            registry_wf(reg@),
    {
        HandlerRegistry { entries: Vec::new() }
    }

    /// Append a descriptor, unless one for the same pair is already present;
    /// returns whether the descriptor was appended.
    pub fn add(&mut self, entry: HandlerRegistryEntry) -> (added: bool)
        requires
            registry_wf(old(self)@),
        ensures
            registry_wf(final(self)@),
            added == !old(self).has_pair(entry.element_type_id, entry.message_tag),
            added ==> final(self)@ == old(self)@.push(entry),
            !added ==> final(self)@ == old(self)@,
    {
        let n = self.entries.len();
        let mut i: usize = 0;
        while i < n
            invariant
                i <= n,
                n == self@.len(),
                self@ == old(self)@,
                registry_wf(self@),
                forall|j: int|
                    0 <= j < i ==> !((#[trigger] self@[j]).element_type_id
                        == entry.element_type_id && self@[j].message_tag == entry.message_tag),
            decreases n - i,
        {
            let present = self.entries[i];
            if present.element_type_id == entry.element_type_id && present.message_tag
                == entry.message_tag {
                proof {
                    assert((#[trigger] self@[i as int]).element_type_id == entry.element_type_id
                        && self@[i as int].message_tag == entry.message_tag);
                }
                return false;
            }
            i += 1;
        }
        self.entries.push(entry);
        proof {
            assert(registry_wf(self@)) by {
                assert forall|a: int, b: int| 0 <= a < b < self@.len() implies !((
                #[trigger] self@[a]).element_type_id == (#[trigger] self@[b]).element_type_id
                    && self@[a].message_tag == self@[b].message_tag) by {
                    if b < old(self)@.len() {
                        assert(self@[a] == old(self)@[a]);
                        assert(self@[b] == old(self)@[b]);
                    } else {
                        assert(self@[a] == old(self)@[a]);
                        assert(self@[b] == entry);
                    }
                }
            }
        }
        true
    }

    /// The number of descriptors registered so far.
    pub fn len(&self) -> (n: usize)
        ensures
            n == self@.len(),
    {
        self.entries.len()
    }
}

/// Whether at least one descriptor matches the element type tagged
/// `element_type_id` — regardless of how many instances of that type exist,
/// since the registry knows nothing of instances.
pub fn has_registered_handlers(reg: &HandlerRegistry, element_type_id: u64) -> (r: bool)
    ensures
        r == reg.has_entry_for(element_type_id),
{
    let n = reg.entries.len();
    let mut i: usize = 0;
    while i < n
        invariant
            i <= n,
            n == reg@.len(),
            forall|j: int| 0 <= j < i ==> (#[trigger] reg@[j]).element_type_id != element_type_id,
        decreases n - i,
    {
        if reg.entries[i].element_type_id == element_type_id {
            return true;
        }
        i += 1;
    }
    false
}

/// The handler slots that one pass of `register_handlers_for_instance`
/// appends for the instance at `instance`: one slot per descriptor matching
/// the instance's element type, in registry order.
pub open spec fn installed_slots(
    entries: Seq<HandlerRegistryEntry>,
    element_type_id: u64,
    instance: usize,
) -> Seq<HandlerSlot>
    decreases entries.len(),
{
    if entries.len() == 0 {
        Seq::empty()
    } else {
        let prefix = installed_slots(entries.drop_last(), element_type_id, instance);
        let e = entries.last();
        if e.element_type_id == element_type_id {
            prefix.push(HandlerSlot { message_tag: e.message_tag, instance })
        } else {
            prefix
        }
    }
}

/// Install a handler into the bus for every descriptor whose element type
/// tag matches the shared instance at `instance`: the handler table grows by
/// exactly those registrations, in registry order, and nothing else of the
/// bus changes. A descriptor for another element type is a silent no-op.
pub fn register_handlers_for_instance<H>(
    reg: &HandlerRegistry,
    bus: &mut EventBus<H>,
    instance: usize,
)
    requires
        old(bus).wf(),
        instance < old(bus).instances_view().len(),
    ensures
        final(bus).wf(),
        final(bus).handlers_view() == old(bus).handlers_view() + installed_slots(
            reg@,
            old(bus).instances_view()[instance as int].element_type_id,
            instance,
        ),
        final(bus).instances_view() == old(bus).instances_view(),
        final(bus).sub_tags() == old(bus).sub_tags(),
        final(bus).log_view() == old(bus).log_view(),
{
    let element_type_id = bus.instance_at(instance).element_type_id;
    let n = reg.entries.len();
    let mut i: usize = 0;
    proof {
        assert(bus.handlers_view() =~= old(bus).handlers_view() + installed_slots(
            reg@.take(0),
            element_type_id,
            instance,
        ));
    }
    while i < n
        invariant
            i <= n,
            n == reg@.len(),
            bus.wf(),
            instance < bus.instances_view().len(),
            element_type_id == old(bus).instances_view()[instance as int].element_type_id,
            bus.handlers_view() == old(bus).handlers_view() + installed_slots(
                reg@.take(i as int),
                element_type_id,
                instance,
            ),
            bus.instances_view() == old(bus).instances_view(),
            bus.sub_tags() == old(bus).sub_tags(),
            bus.log_view() == old(bus).log_view(),
        decreases n - i,
    {
        proof {
            assert(reg@.take(i + 1).drop_last() =~= reg@.take(i as int));
            assert(reg@.take(i + 1).last() == reg@[i as int]);
        }
        let entry = reg.entries[i];
        if entry.element_type_id == element_type_id {
            bus.register_handler(entry.message_tag, instance);
        }
        i += 1;
    }
    proof {
        assert(reg@.take(n as int) =~= reg@);
    }
}

/// A well-formed registry's prefix is well-formed too.
proof fn lemma_registry_wf_drop_last(entries: Seq<HandlerRegistryEntry>)
    requires
        registry_wf(entries),
        entries.len() > 0,
    ensures
        registry_wf(entries.drop_last()),
{
    let sub = entries.drop_last();
    assert forall|i: int, j: int| 0 <= i < j < sub.len() implies !((
    #[trigger] sub[i]).element_type_id == (#[trigger] sub[j]).element_type_id
        && sub[i].message_tag == sub[j].message_tag) by {
        assert(sub[i] == entries[i]);
        assert(sub[j] == entries[j]);
    }
}

/// Every installed slot comes from a descriptor for this element type with
/// the slot's message kind.
proof fn lemma_installed_sound(
    entries: Seq<HandlerRegistryEntry>,
    element_type_id: u64,
    instance: usize,
    k: int,
)
    requires
        0 <= k < installed_slots(entries, element_type_id, instance).len(),
    ensures
        exists|j: int|
            0 <= j < entries.len() && (#[trigger] entries[j]).element_type_id == element_type_id
                && entries[j].message_tag == installed_slots(
                entries,
                element_type_id,
                instance,
            )[k].message_tag,
    decreases entries.len(),
{
    let installed = installed_slots(entries, element_type_id, instance);
    let sub = entries.drop_last();
    let prefix = installed_slots(sub, element_type_id, instance);
    if k < prefix.len() {
        assert(installed[k] == prefix[k]);
        lemma_installed_sound(sub, element_type_id, instance, k);
        let j = choose|j: int|
            0 <= j < sub.len() && (#[trigger] sub[j]).element_type_id == element_type_id
                && sub[j].message_tag == prefix[k].message_tag;
        assert(entries[j] == sub[j]);
        assert(entries[j].element_type_id == element_type_id && entries[j].message_tag
            == installed[k].message_tag);
    } else {
        let j = entries.len() - 1;
        assert(entries[j].element_type_id == element_type_id && entries[j].message_tag
            == installed[k].message_tag);
    }
}

/// The slots installed for one instance bear pairwise distinct message
/// kinds: with a well-formed registry, the discovery path installs at most
/// one handler per (element instance, message kind) per finalization.
pub proof fn lemma_install_at_most_once(
    entries: Seq<HandlerRegistryEntry>,
    element_type_id: u64,
    instance: usize,
    a: int,
    b: int,
)
    requires
        registry_wf(entries),
        0 <= a < b < installed_slots(entries, element_type_id, instance).len(),
    ensures
        installed_slots(entries, element_type_id, instance)[a].message_tag != installed_slots(
            entries,
            element_type_id,
            instance,
        )[b].message_tag,
    decreases entries.len(),
{
    let installed = installed_slots(entries, element_type_id, instance);
    let sub = entries.drop_last();
    let prefix = installed_slots(sub, element_type_id, instance);
    lemma_registry_wf_drop_last(entries);
    if b < prefix.len() {
        assert(installed[a] == prefix[a]);
        assert(installed[b] == prefix[b]);
        lemma_install_at_most_once(sub, element_type_id, instance, a, b);
    } else {
        assert(installed[a] == prefix[a]);
        lemma_installed_sound(sub, element_type_id, instance, a);
        let j = choose|j: int|
            0 <= j < sub.len() && (#[trigger] sub[j]).element_type_id == element_type_id
                && sub[j].message_tag == prefix[a].message_tag;
        assert(entries[j] == sub[j]);
        let last = entries.len() - 1;
        assert(installed[b].message_tag == entries[last].message_tag);
        if installed[a].message_tag == installed[b].message_tag {
            assert((#[trigger] entries[j]).element_type_id == (
            #[trigger] entries[last]).element_type_id && entries[j].message_tag
                == entries[last].message_tag);
            assert(false);
        }
    }
}

/// What element finalization produced: either the element itself, consumed
/// by plain value because nothing handles its type, or the arena index of
/// the shared instance it was promoted into.
pub enum Finalized<H> {
    /// No descriptor matched: the element comes back unchanged and no shared
    /// storage was allocated.
    Plain(H),
    /// Descriptors matched: the element now lives in the bus arena at this
    /// index, with its handlers installed.
    Shared(usize),
}

/// The finalization hook run when a declarative element becomes a tree node.
///
/// If no descriptor matches the element's type, the element is consumed by
/// plain value — the bus is untouched and no shared storage is allocated.
/// Otherwise the element is promoted into a shared instance in the bus's
/// arena and every matching descriptor installs its handler, in registry
/// order. The caller keeps any display snapshot it wants; later
/// handler-driven mutations reach the shared instance only, never such a
/// snapshot.
pub fn finalize_instance<H>(
    reg: &HandlerRegistry,
    bus: &mut EventBus<H>,
    element_type_id: u64,
    element: H,
) -> (r: Finalized<H>)
    requires
        old(bus).wf(),
    ensures
        final(bus).wf(),
        !reg.has_entry_for(element_type_id) ==> *final(bus) == *old(bus) && r == Finalized::Plain(
            element,
        ),
        reg.has_entry_for(element_type_id) ==> {
            &&& final(bus).instances_view() == old(bus).instances_view().push(
                BusInstance { element_type_id, state: element },
            )
            &&& final(bus).handlers_view() == old(bus).handlers_view() + installed_slots(
                reg@,
                element_type_id,
                old(bus).instances_view().len() as usize,
            )
            &&& final(bus).sub_tags() == old(bus).sub_tags()
            &&& final(bus).log_view() == old(bus).log_view()
            &&& r == Finalized::<H>::Shared(old(bus).instances_view().len() as usize)
        },
{
    if !has_registered_handlers(reg, element_type_id) {
        return Finalized::Plain(element);
    }
    let id = bus.share_instance(element_type_id, element);
    register_handlers_for_instance(reg, bus, id);
    Finalized::Shared(id)
}

} // verus!
