use embedded_services::intrusive_list::{Error, IntrusiveList, Node};
use embedded_services::power::policy::context::{get_device, register_device};
use embedded_services::power::policy::device::InternalState;
use embedded_services::power::policy::DeviceId;
use embedded_services::power_policy_service::DeviceSnapshot;

const KIND_A: u32 = 1;
const KIND_B: u32 = 2;

/// An element that can be registered in lists of kind A and of kind B.
struct Element {
    value: u32,
    a: Node,
    b: Node,
}

impl Element {
    fn new(value: u32) -> Self {
        Element { value, a: Node::uninit(), b: Node::uninit() }
    }

    fn register_a(&mut self, list: &mut IntrusiveList<u32>) -> Result<(), Error> {
        list.push(&mut self.a, KIND_A, self.value)
    }

    fn register_b(&mut self, list: &mut IntrusiveList<u32>) -> Result<(), Error> {
        list.push(&mut self.b, KIND_B, self.value)
    }
}

fn elements(first: u32) -> Vec<Element> {
    (first..first + 5).map(Element::new).collect()
}

#[test]
fn test_node_internal_validity() {
    // a node that was never pushed is not in any list, and an empty list holds no data
    let node = Node::uninit();
    assert!(!node.is_in_list());
    let list: IntrusiveList<u32> = IntrusiveList::new();
    assert!(list.into_iter().next().is_none());
}

#[test]
fn test_monotype_list() {
    let mut list_a = IntrusiveList::new();
    let mut list_b = IntrusiveList::new();
    let mut a_elements = elements(0);
    let mut b_elements = elements(100);

    for a in a_elements.iter_mut() {
        assert!(a.register_a(&mut list_a).is_ok());
    }
    for b in b_elements.iter_mut() {
        assert!(b.register_b(&mut list_b).is_ok());
    }

    let mut iter = list_a.into_iter();
    while let Some(node) = iter.next() {
        assert!(node.data(KIND_A).is_some_and(|v| *v < 5));
        // kind information is preserved
        assert!(node.data(KIND_B).is_none());
    }
    let mut iter = list_b.into_iter();
    while let Some(node) = iter.next() {
        assert!(node.data(KIND_B).is_some_and(|v| *v >= 100));
    }

    assert_eq!(a_elements.len(), list_a.iter_only(KIND_A).count());
    assert_eq!(0, list_a.iter_only(KIND_B).count());
    assert_eq!(0, list_b.iter_only(KIND_A).count());
    assert_eq!(b_elements.len(), list_b.iter_only(KIND_B).count());
}

#[test]
fn test_multitype_list() {
    let mut list_a = IntrusiveList::new();
    let mut a_elements = elements(0);
    let mut ab_elements = elements(200);

    for a in a_elements.iter_mut() {
        assert!(a.register_a(&mut list_a).is_ok());
    }
    for ab in ab_elements.iter_mut() {
        assert!(ab.register_a(&mut list_a).is_ok());
    }

    let mut iter = list_a.into_iter();
    while let Some(node) = iter.next() {
        assert!(node.data(KIND_A).is_some());
    }

    assert_eq!(a_elements.len() + ab_elements.len(), list_a.iter_only(KIND_A).count());
    assert_eq!(0, list_a.iter_only(KIND_B).count());
}

#[test]
fn test_multi_list() {
    let mut list_a = IntrusiveList::new();
    let mut list_b = IntrusiveList::new();
    let mut a_elements = elements(0);
    let mut b_elements = elements(100);
    let mut ab_elements = elements(200);

    for a in a_elements.iter_mut() {
        assert!(a.register_a(&mut list_a).is_ok());
    }
    for b in b_elements.iter_mut() {
        assert!(b.register_b(&mut list_b).is_ok());
    }
    for ab in ab_elements.iter_mut() {
        assert!(ab.register_a(&mut list_a).is_ok());
        assert!(ab.register_b(&mut list_b).is_ok());
    }

    let mut iter = list_a.into_iter();
    while let Some(node) = iter.next() {
        assert!(node.data(KIND_A).is_some());
    }
    let mut iter = list_b.into_iter();
    while let Some(node) = iter.next() {
        assert!(node.data(KIND_B).is_some());
    }

    assert_eq!(a_elements.len() + ab_elements.len(), list_a.iter_only(KIND_A).count());
    assert_eq!(0, list_a.iter_only(KIND_B).count());
    assert_eq!(0, list_b.iter_only(KIND_A).count());
    assert_eq!(b_elements.len() + ab_elements.len(), list_b.iter_only(KIND_B).count());
}

#[test]
fn test_multi_registration_list() {
    let mut list = IntrusiveList::new();
    let mut a_elements = elements(0);
    let mut b_elements = elements(100);

    // pushing puts each element at the head, so the list holds [B..., A...]
    for a in a_elements.iter_mut() {
        assert!(a.register_a(&mut list).is_ok());
    }
    for b in b_elements.iter_mut() {
        assert!(b.register_b(&mut list).is_ok());
    }

    let mut iter = list.into_iter();
    for _ in 0..b_elements.len() {
        assert!(iter.next().and_then(|node| node.data(KIND_B)).is_some());
    }
    for _ in 0..a_elements.len() {
        assert!(iter.next().and_then(|node| node.data(KIND_A)).is_some());
    }
    assert!(iter.next().is_none());

    assert_eq!(a_elements.len() + b_elements.len(), list.into_iter().count());
    assert_eq!(a_elements.len(), list.iter_only(KIND_A).count());
    assert_eq!(b_elements.len(), list.iter_only(KIND_B).count());
}

#[test]
fn test_empty_list() {
    let list: IntrusiveList<u32> = IntrusiveList::new();
    assert_eq!(0, list.into_iter().count());
}

#[test]
fn test_static_alloc() {
    let _list: IntrusiveList<u32> = IntrusiveList::new();
}

#[test]
fn test_list_mixup_checks() {
    let mut first_node = Node::uninit();
    let mut second_node = Node::uninit();
    let mut list = IntrusiveList::new();

    assert!(list.push(&mut first_node, KIND_A, 10u32).is_ok());
    assert!(list.push(&mut second_node, KIND_A, 20u32).is_ok());

    // guard against circular list construction
    assert!(list.push(&mut first_node, KIND_A, 10u32).is_err());
    assert!(list.push(&mut second_node, KIND_A, 20u32).is_err());

    // guard against invalid node insertion
    let mut simple_node = Node::uninit();
    assert!(list.push(&mut simple_node, KIND_B, 30u32).is_ok());

    // try pushing to a second list
    let mut list2 = IntrusiveList::new();
    assert!(list2.push(&mut simple_node, KIND_B, 30u32).is_err());

    // two objects that share one node: only the first push of that node succeeds
    let mut shared_node = Node::uninit();
    assert!(list.push(&mut shared_node, KIND_B, 40u32).is_ok());
    assert!(list.push(&mut shared_node, KIND_B, 40u32).is_err());
    assert!(list2.push(&mut shared_node, KIND_B, 40u32).is_err());
    assert!(list.push(&mut shared_node, KIND_B, 50u32).is_err());
    assert!(list2.push(&mut shared_node, KIND_B, 50u32).is_err());

    assert_eq!(0, list2.into_iter().count());
    assert_eq!(4, list.into_iter().count());
}

#[test]
fn list_iterates_most_recent_first_and_filters_by_kind() {
    let mut list = IntrusiveList::new();
    let mut nodes = [Node::uninit(), Node::uninit(), Node::uninit(), Node::uninit()];
    let kinds = [1u32, 2, 1, 2];
    for (i, node) in nodes.iter_mut().enumerate() {
        assert!(list.push(node, kinds[i], i as u32 * 10).is_ok());
    }
    let mut iter = list.into_iter();
    assert_eq!(iter.next().and_then(|n| n.data(2)), Some(&30));
    assert_eq!(iter.next().and_then(|n| n.data(1)), Some(&20));
    assert_eq!(iter.next().and_then(|n| n.data(1)), None);

    let mut only = list.iter_only(1);
    assert_eq!(only.next(), Some(&20));
    assert_eq!(only.next(), Some(&0));
    assert_eq!(only.next(), None);
    assert_eq!(2, list.iter_only(2).count());
    assert_eq!(0, list.iter_only(3).count());
}

fn snapshot(id: u8) -> DeviceSnapshot {
    DeviceSnapshot { id: DeviceId(id), state: InternalState::new() }
}

#[test]
fn registering_a_device_id_twice_is_refused() {
    let mut list = IntrusiveList::new();
    let mut n1 = Node::uninit();
    let mut n2 = Node::uninit();
    let mut n3 = Node::uninit();
    assert_eq!(register_device(&mut list, &mut n1, 1, snapshot(4)), Ok(()));
    assert_eq!(register_device(&mut list, &mut n2, 1, snapshot(4)), Err(Error::NodeAlreadyInList));
    assert!(!n2.is_in_list());
    assert_eq!(register_device(&mut list, &mut n3, 1, snapshot(5)), Ok(()));
    assert_eq!(list.into_iter().count(), 2);
}

#[test]
fn registered_devices_are_found_by_id_and_kind() {
    let mut list = IntrusiveList::new();
    let mut n1 = Node::uninit();
    let mut n2 = Node::uninit();
    assert_eq!(register_device(&mut list, &mut n1, 1, snapshot(4)), Ok(()));
    assert_eq!(register_device(&mut list, &mut n2, 2, snapshot(4)), Ok(()));
    assert_eq!(get_device(&list, 1, DeviceId(4)).map(|d| d.id), Some(DeviceId(4)));
    assert_eq!(get_device(&list, 2, DeviceId(4)).map(|d| d.id), Some(DeviceId(4)));
    assert!(get_device(&list, 1, DeviceId(5)).is_none());
    assert!(get_device(&list, 3, DeviceId(4)).is_none());
}

#[test]
fn a_node_already_in_a_list_cannot_register_another_device() {
    let mut list = IntrusiveList::new();
    let mut node = Node::uninit();
    assert_eq!(register_device(&mut list, &mut node, 1, snapshot(4)), Ok(()));
    assert_eq!(register_device(&mut list, &mut node, 1, snapshot(6)), Err(Error::NodeAlreadyInList));
    assert!(get_device(&list, 1, DeviceId(6)).is_none());
}

#[test]
fn default_list_is_empty() {
    let list: IntrusiveList<u32> = IntrusiveList::default();
    assert_eq!(0, list.into_iter().count());
}

#[test]
fn pushed_objects_come_back_in_reverse_order() {
    let mut list = IntrusiveList::new();
    let mut nodes: Vec<Node> = (0..4).map(|_| Node::uninit()).collect();
    for (i, node) in nodes.iter_mut().enumerate() {
        assert!(list.push(node, KIND_A, i as u32).is_ok());
    }
    let mut iter = list.into_iter();
    for expected in [3u32, 2, 1, 0] {
        assert_eq!(iter.next().and_then(|n| n.data(KIND_A)), Some(&expected));
    }
    assert!(iter.next().is_none());
    assert!(iter.next().is_none());
}
