//! Requests and responses of the power policy context.
use vstd::prelude::*;

use super::{DeviceId, PowerCapability};
use crate::intrusive_list::{Error as ListError, IntrusiveList, KindTag, Node};

verus! {

/// Number of slots for policy requests
pub const POLICY_CHANNEL_SIZE: usize = 1;

/// Data for a power policy request
#[derive(Debug, Clone, Copy, PartialEq, Eq, Structural)]
pub enum PolicyRequestData {
    /// Notify that a device has attached
    NotifyAttached,
    /// Notify that available power for sinking has changed
    NotifySinkPowerCapability(Option<PowerCapability>),
    /// Request the given amount of power to source
    RequestSourcePowerCapability(PowerCapability),
    /// Notify that a device cannot source or sink power anymore
    NotifyDisconnect,
    /// Notify that a device has detached
    NotifyDetached,
}

/// Request to the power policy service
#[derive(Debug, Clone, Copy, PartialEq, Eq, Structural)]
pub struct PolicyRequest {
    /// Device that sent this request
    pub id: DeviceId,
    /// Request data
    pub data: PolicyRequestData,
}

/// Data for a power policy response
#[derive(Debug, Clone, Copy, PartialEq, Eq, Structural)]
pub enum PolicyResponseData {
    /// The request was completed successfully
    Complete,
}

/// Response from the power policy service
#[derive(Debug, Clone, Copy, PartialEq, Eq, Structural)]
pub struct PolicyResponse {
    /// Target device
    pub id: DeviceId,
    /// Response data
    pub data: PolicyResponseData,
}

/// A registered object that answers to a device ID.
pub trait Identified {
    /// The object's device ID.
    spec fn spec_id(&self) -> DeviceId;

    /// Returns the object's device ID.
    fn id(&self) -> (r: DeviceId)
        ensures
            r == self.spec_id(),
    ;
}

/// Whether the `q`-th entry from the head is a valid entry of the given kind with the given ID.
pub open spec fn registered_at<T: Identified>(list: &IntrusiveList<T>, kind: KindTag, id: DeviceId, q: int) -> bool {
    &&& 0 <= q < list.spec_len()
    &&& list.from_head(q).is_valid()
    &&& list.from_head(q).spec_kind() == kind
    &&& list.from_head(q).spec_data().spec_id() == id
}

/// The first object of the given kind with the given ID, from the head of the list.
pub open spec fn spec_get_device<T: Identified>(list: &IntrusiveList<T>, kind: KindTag, id: DeviceId) -> Option<T> {
    if exists|q: int| registered_at(list, kind, id, q) {
        let q = choose|q: int|
            registered_at(list, kind, id, q) && forall|p: int| 0 <= p < q ==> !registered_at(list, kind, id, p);
        Some(list.from_head(q).spec_data())
    } else {
        None
    }
}

/// Finds the first registered object of the given kind with the given ID, from the head of the
/// list; entries of other kinds are skipped.
pub fn get_device<'a, T: Identified>(list: &'a IntrusiveList<T>, kind: KindTag, id: DeviceId) -> (r: Option<&'a T>)
    ensures
        r matches Some(d) ==> spec_get_device(list, kind, id) == Some(*d),
        r is None ==> spec_get_device(list, kind, id) is None,
{
    let mut it = list.into_iter();
    loop
        invariant
            it.list() == list,
            0 <= it.position() <= list.spec_len(),
            forall|p: int| 0 <= p < it.position() ==> !registered_at(list, kind, id, p),
        decreases list.spec_len() - it.position(),
    {
        let ghost q = it.position();
        match it.next() {
            None => {
                return None;
            },
            Some(node) => {
                match node.data(kind) {
                    Some(d) => {
                        if d.id() == id {
                            proof {
                                assert(registered_at(list, kind, id, q));
                                let w = choose|w: int|
                                    registered_at(list, kind, id, w) && forall|p: int|
                                        0 <= p < w ==> !registered_at(list, kind, id, p);
                                if w < q {
                                } else if w > q {
                                    assert(!registered_at(list, kind, id, q));
                                }
                            }
                            return Some(d);
                        }
                    },
                    None => {},
                }
            },
        }
    }
}

/// Registers a device of the given kind through its node.
///
/// Refused with `NodeAlreadyInList` when a device of that kind with the same ID is already
/// registered, or when the node is already in a list; otherwise the device becomes the head of
/// the list, and looking its ID up finds it.
pub fn register_device<T: Identified>(list: &mut IntrusiveList<T>, node: &mut Node, kind: KindTag, device: T) -> (r:
    Result<(), ListError>)
    ensures
        r is Err <==> (spec_get_device(old(list), kind, device.spec_id()) is Some || old(node).in_list()),
        r is Err ==> r == Err::<(), ListError>(ListError::NodeAlreadyInList) && final(list).entries() == old(list).entries()
            && *final(node) == *old(node),
        r is Ok ==> final(node).in_list() && final(list).view_from_head() == seq![device] + old(list).view_from_head(),
        r is Ok ==> spec_get_device(final(list), kind, device.spec_id()) == Some(device),
{
    let id = device.id();
    if get_device(list, kind, id).is_some() {
        return Err(ListError::NodeAlreadyInList);
    }
    let r = list.push(node, kind, device);
    proof {
        use_type_invariant(&*list);
        if r is Ok {
            assert(list.from_head(0) == list.entries().last());
            assert(registered_at(list, kind, id, 0)) by {
                list.lemma_valid_entries();
            }
            let w = choose|w: int|
                registered_at(list, kind, id, w) && forall|p: int| 0 <= p < w ==> !registered_at(list, kind, id, p);
            if w > 0 {
                assert(!registered_at(list, kind, id, 0));
            }
        }
    }
    r
}

} // verus!
