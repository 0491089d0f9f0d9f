//! The registration plan: an additive list of (attribute name, singleton
//! name) registrations sharing one outbound channel. Building the plan yields
//! one producer per registered entry, wired to the shared channel, plus the
//! aggregator that consumes it; registration is purely additive and an
//! unregistered type never appears in any envelope.

use vstd::prelude::*;

use crate::SerializedData;
use crate::channel::channel_unbounded;
use crate::connection::EditorConnection;
use crate::producers::{SyncComponentSystem, SyncResourceSystem};
use crate::sync_editor::SyncEditorSystem;

verus! {

/// Collects the registered attribute and singleton names and creates the
/// producers and the aggregator wired to one shared channel.
pub struct SyncEditorBundle {
    /// Registered attribute-record display names, in registration order.
    pub components: Vec<&'static str>,
    /// Registered singleton-record display names, in registration order.
    pub resources: Vec<&'static str>,
    /// The producer end of the shared outbound channel.
    pub sender: crossbeam_channel::Sender<SerializedData>,
    /// The consumer end of the shared outbound channel.
    pub receiver: crossbeam_channel::Receiver<SerializedData>,
}

impl SyncEditorBundle {
    /// An empty plan over a fresh outbound channel.
    pub fn new() -> (b: SyncEditorBundle)
        ensures
            b.components@.len() == 0,
            b.resources@.len() == 0,
    {
        let (sender, receiver) = channel_unbounded();
        SyncEditorBundle { components: Vec::new(), resources: Vec::new(), sender, receiver }
    }

    /// Registers the stock engine types under their conventional names.
    pub fn sync_default_types(self) -> (b: SyncEditorBundle)
        ensures
            b.components@ == self.components@ + seq![
                "Light",
                "Camera",
                "Transform",
                "GlobalTransform",
            ],
            b.resources@ == self.resources@ + seq!["AmbientColor"],
            b.sender == self.sender,
            b.receiver == self.receiver,
    {
        let b = self.sync_component("Light");
        let b = b.sync_component("Camera");
        let b = b.sync_component("Transform");
        let b = b.sync_component("GlobalTransform");
        let b = b.sync_resource("AmbientColor");
        proof {
            assert(b.components@ =~= self.components@ + seq![
                "Light",
                "Camera",
                "Transform",
                "GlobalTransform",
            ]);
            assert(b.resources@ =~= self.resources@ + seq!["AmbientColor"]);
        }
        b
    }

    /// Registers one attribute-record type for synchronization under `name`.
    /// Registering a type twice, or two types under one name, is permitted
    /// and yields two independent producers.
    pub fn sync_component(self, name: &'static str) -> (b: SyncEditorBundle)
        ensures
            b.components@ == self.components@.push(name),
            b.resources@ == self.resources@,
            b.sender == self.sender,
            b.receiver == self.receiver,
    {
        let mut components = self.components;
        components.push(name);
        SyncEditorBundle {
            components,
            resources: self.resources,
            sender: self.sender,
            receiver: self.receiver,
        }
    }

    /// Registers a set of attribute-record types, in order.
    pub fn sync_components(self, set: &Vec<&'static str>) -> (b: SyncEditorBundle)
        ensures
            b.components@ == self.components@ + set@,
            b.resources@ == self.resources@,
            b.sender == self.sender,
            b.receiver == self.receiver,
    {
        let mut components = self.components;
        let n: usize = set.len();
        let mut i: usize = 0;
        while i < n
            invariant
                n == set@.len(),
                i <= n,
                components@ == names_with_prefix(self.components@, set@, i as int),
            decreases n - i,
        {
            components.push(set[i]);
            proof {
                assert(components@ =~= names_with_prefix(self.components@, set@, i + 1 as int));
            }
            i = i + 1;
        }
        proof {
            assert(names_with_prefix(self.components@, set@, n as int) =~= self.components@
                + set@);
        }
        SyncEditorBundle {
            components,
            resources: self.resources,
            sender: self.sender,
            receiver: self.receiver,
        }
    }

    /// Registers one singleton-record type for synchronization under `name`.
    pub fn sync_resource(self, name: &'static str) -> (b: SyncEditorBundle)
        ensures
            b.components@ == self.components@,
            b.resources@ == self.resources@.push(name),
            b.sender == self.sender,
            b.receiver == self.receiver,
    {
        let mut resources = self.resources;
        resources.push(name);
        SyncEditorBundle {
            components: self.components,
            resources,
            sender: self.sender,
            receiver: self.receiver,
        }
    }

    /// Registers a set of singleton-record types, in order.
    pub fn sync_resources(self, set: &Vec<&'static str>) -> (b: SyncEditorBundle)
        ensures
            b.components@ == self.components@,
            b.resources@ == self.resources@ + set@,
            b.sender == self.sender,
            b.receiver == self.receiver,
    {
        let mut resources = self.resources;
        let n: usize = set.len();
        let mut i: usize = 0;
        while i < n
            invariant
                n == set@.len(),
                i <= n,
                resources@ == names_with_prefix(self.resources@, set@, i as int),
            decreases n - i,
        {
            resources.push(set[i]);
            proof {
                assert(resources@ =~= names_with_prefix(self.resources@, set@, i + 1 as int));
            }
            i = i + 1;
        }
        proof {
            assert(names_with_prefix(self.resources@, set@, n as int) =~= self.resources@
                + set@);
        }
        SyncEditorBundle {
            components: self.components,
            resources,
            sender: self.sender,
            receiver: self.receiver,
        }
    }

    /// A connection that can enqueue free-form messages on the shared
    /// channel: it wraps a duplicate of the plan's own producer end, so what
    /// it sends reaches the aggregator this plan builds.
    pub fn get_connection(&self) -> (r: EditorConnection)
        ensures
            r.spec_sender() == self.sender,
    {
        EditorConnection::new(self.sender.clone())
    }

    /// Consumes the plan: one attribute producer per registered attribute
    /// name and one singleton producer per registered singleton name, all in
    /// registration order and each wired to the plan's shared channel, plus
    /// the aggregator holding that channel's consumer end. The host runs the
    /// producers after its write-phase barrier and the aggregator after a
    /// second barrier.
    pub fn build(self) -> (r: (Vec<SyncComponentSystem>, Vec<SyncResourceSystem>, SyncEditorSystem))
        ensures
            r.0@.len() == self.components@.len(),
            forall|i: int| 0 <= i < r.0@.len() ==> (#[trigger] r.0@[i].name)@
                == self.components@[i]@,
            forall|i: int| 0 <= i < r.0@.len() ==> (#[trigger] r.0@[i].connection).spec_sender()
                == self.sender,
            r.1@.len() == self.resources@.len(),
            forall|i: int| 0 <= i < r.1@.len() ==> (#[trigger] r.1@[i].name)@
                == self.resources@[i]@,
            forall|i: int| 0 <= i < r.1@.len() ==> (#[trigger] r.1@[i].connection).spec_sender()
                == self.sender,
            r.2.sender == self.sender,
            r.2.receiver == self.receiver,
    {
        let sync_system = SyncEditorSystem::from_channel(self.sender, self.receiver);

        let mut component_systems: Vec<SyncComponentSystem> = Vec::new();
        let n: usize = self.components.len();
        let mut i: usize = 0;
        while i < n
            invariant
                n == self.components@.len(),
                i <= n,
                sync_system.sender == self.sender,
                component_systems@.len() == i,
                forall|j: int| 0 <= j < i ==> (#[trigger] component_systems@[j].name)@
                    == self.components@[j]@,
                forall|j: int| 0 <= j < i ==> (#[trigger] component_systems@[j].connection)
                    .spec_sender() == self.sender,
            decreases n - i,
        {
            component_systems.push(
                SyncComponentSystem::new(self.components[i], sync_system.get_connection()),
            );
            i = i + 1;
        }

        let mut resource_systems: Vec<SyncResourceSystem> = Vec::new();
        let m: usize = self.resources.len();
        let mut k: usize = 0;
        while k < m
            invariant
                m == self.resources@.len(),
                k <= m,
                sync_system.sender == self.sender,
                resource_systems@.len() == k,
                forall|j: int| 0 <= j < k ==> (#[trigger] resource_systems@[j].name)@
                    == self.resources@[j]@,
                forall|j: int| 0 <= j < k ==> (#[trigger] resource_systems@[j].connection)
                    .spec_sender() == self.sender,
            decreases m - k,
        {
            resource_systems.push(
                SyncResourceSystem::new(self.resources[k], sync_system.get_connection()),
            );
            k = k + 1;
        }

        (component_systems, resource_systems, sync_system)
    }
}

impl Default for SyncEditorBundle {
    /// An empty plan over a fresh outbound channel.
    fn default() -> (b: SyncEditorBundle)
        ensures
            b.components@.len() == 0,
            b.resources@.len() == 0,
    {
        SyncEditorBundle::new()
    }
}

/// `base` followed by the first `i` names of `set`.
pub open spec fn names_with_prefix(
    base: Seq<&'static str>,
    set: Seq<&'static str>,
    i: int,
) -> Seq<&'static str> {
    base + set.take(i)
}

} // verus!
