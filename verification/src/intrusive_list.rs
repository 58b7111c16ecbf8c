//! A construction-only registration list: nodes are pushed to its head and never removed.
//!
//! Each registered object embeds a [`Node`]; a node can be in at most one list, and pushing a
//! node that is already in a list is refused. Objects carry a kind tag, so that a list of objects
//! of several kinds can be walked for one kind only.
use vstd::prelude::*;

verus! {

/// Interface error class information
#[derive(Copy, Clone, Debug, PartialEq, Eq, Structural)]
pub enum Error {
    /// cannot push a node to any list if it's already in one
    NodeAlreadyInList,
}

/// Tag standing for the kind (type) of a registered object.
pub type KindTag = u32;

/// Node embedded in each registered object; it records whether the object is in a list.
pub struct Node {
    valid: bool,
}

impl Node {
    /// Whether the node has been pushed to a list.
    pub closed spec fn in_list(self) -> bool {
        self.valid
    }

    /// Constructs a node that is in no list.
    pub fn uninit() -> (r: Node)
        ensures
            !r.in_list(),
    {
        Node { valid: false }
    }

    /// Returns whether the node has been pushed to a list.
    pub fn is_in_list(&self) -> (r: bool)
        ensures
            r == self.in_list(),
    {
        self.valid
    }
}

/// Implemented by objects that embed a [`Node`].
pub trait NodeContainer {
    /// Returns the node attached to self.
    fn get_node(&self) -> &Node;
}

/// An entry of a list: a registered object with its kind tag.
pub struct IntrusiveNode<T> {
    /// The registered object
    data: T,
    /// Kind of the registered object
    kind: KindTag,
    /// Set once the entry has been built for a list
    valid: bool,
}

impl<T> IntrusiveNode<T> {
    /// The registered object.
    pub closed spec fn spec_data(&self) -> T {
        self.data
    }

    /// The kind of the registered object.
    pub closed spec fn spec_kind(&self) -> KindTag {
        self.kind
    }

    /// Whether the entry is valid.
    pub closed spec fn is_valid(&self) -> bool {
        self.valid
    }

    /// Builds a valid entry for an object of the given kind.
    fn new(kind: KindTag, data: T) -> (r: IntrusiveNode<T>)
        ensures
            r.spec_data() == data,
            r.spec_kind() == kind,
            r.is_valid(),
    {
        IntrusiveNode { data, kind, valid: true }
    }

    /// Retrieves the registered object when it is of the given kind.
    pub fn data(&self, kind: KindTag) -> (r: Option<&T>)
        ensures
            r == if self.is_valid() && self.spec_kind() == kind {
                Some(&self.spec_data())
            } else {
                None
            },
    {
        if self.valid && self.kind == kind {
            Some(&self.data)
        } else {
            None
        }
    }
}

/// List of registered objects, most recently pushed first.
pub struct IntrusiveList<T> {
    /// Entries in push order; the head of the list is the last one
    nodes: Vec<IntrusiveNode<T>>,
}

impl<T> IntrusiveList<T> {
    /// The entries in push order (the head is last).
    pub closed spec fn entries(&self) -> Seq<IntrusiveNode<T>> {
        self.nodes@
    }

    /// The number of registered objects.
    pub open spec fn spec_len(&self) -> nat {
        self.entries().len()
    }

    /// The `i`-th entry from the head.
    pub open spec fn from_head(&self, i: int) -> IntrusiveNode<T> {
        self.entries()[self.entries().len() - 1 - i]
    }

    /// The registered objects from the head: the most recently pushed first.
    pub open spec fn view_from_head(&self) -> Seq<T> {
        Seq::new(self.spec_len(), |i: int| self.from_head(i).spec_data())
    }

    /// Every entry is valid.
    #[verifier::type_invariant]
    pub closed spec fn wf(&self) -> bool {
        forall|i: int| 0 <= i < self.nodes@.len() ==> #[trigger] self.nodes@[i].is_valid()
    }

    /// In a well-formed list every entry is valid.
    pub proof fn lemma_valid_entries(&self)
        requires
            self.wf(),
        ensures
            forall|i: int| 0 <= i < self.spec_len() ==> #[trigger] self.from_head(i).is_valid(),
    {
        assert forall|i: int| 0 <= i < self.spec_len() implies #[trigger] self.from_head(i).is_valid() by {
            assert(self.nodes@[self.nodes@.len() - 1 - i].is_valid());
        }
    }

    /// Constructs an empty list.
    pub fn new() -> (r: IntrusiveList<T>)
        ensures
            r.spec_len() == 0,
    {
        IntrusiveList { nodes: Vec::new() }
    }

    /// Puts the entry at the head of the list.
    fn push_front(&mut self, node: IntrusiveNode<T>)
        requires
            node.is_valid(),
        ensures
            final(self).entries() == old(self).entries().push(node),
    {
        proof {
            use_type_invariant(&*self);
        }
        let mut nodes = Vec::new();
        std::mem::swap(&mut nodes, &mut self.nodes);
        nodes.push(node);
        self.nodes = nodes;
    }

    /// Registers `object`, of the given kind, through its node.
    ///
    /// Refused when the node is already in a list (this one or another); otherwise the node is
    /// marked as in a list and the object becomes the head of this list.
    pub fn push(&mut self, node: &mut Node, kind: KindTag, object: T) -> (r: Result<(), Error>)
        ensures
            r is Err <==> old(node).in_list(),
            r is Err ==> r == Err::<(), Error>(Error::NodeAlreadyInList) && final(self).entries() == old(self).entries()
                && *final(node) == *old(node),
            r is Ok ==> final(node).in_list() && final(self).entries().len() == old(self).entries().len() + 1
                && final(self).entries().drop_last() == old(self).entries() && final(self).entries().last().spec_data()
                == object && final(self).entries().last().spec_kind() == kind,
            r is Ok ==> final(self).view_from_head() == seq![object] + old(self).view_from_head(),
            r is Ok ==> forall|start: Seq<T>, objects: Seq<T>|
                old(self).view_from_head() == after_pushes(start, objects) ==> final(self).view_from_head()
                    == #[trigger] after_pushes(start, objects.push(object)),
    {
        if node.valid {
            return Err(Error::NodeAlreadyInList);
        }
        node.valid = true;
        let entry = IntrusiveNode::new(kind, object);
        let ghost before = self.view_from_head();
        self.push_front(entry);
        proof {
            assert(self.view_from_head() =~= seq![object] + before);
            assert forall|start: Seq<T>, objects: Seq<T>|
                before == after_pushes(start, objects) implies self.view_from_head() == #[trigger] after_pushes(
                start,
                objects.push(object),
            ) by {
                lemma_push_continues(start, objects, object);
            }
        }
        Ok(())
    }

    /// Iterates over the entries from the head.
    pub fn into_iter(&self) -> (r: IntrusiveIterator<'_, T>)
        ensures
            r.list() == self,
            r.position() == 0,
    {
        IntrusiveIterator { list: self, current: 0 }
    }

    /// Iterates over the objects of the given kind only, from the head.
    pub fn iter_only(&self, kind: KindTag) -> (r: OnlyT<'_, T>)
        ensures
            r.list() == self,
            r.position() == 0,
            r.kind() == kind,
    {
        OnlyT::new(self.into_iter(), kind)
    }
}

impl<T> Default for IntrusiveList<T> {
    /// An empty list.
    fn default() -> (r: Self)
        ensures
            r.spec_len() == 0,
    {
        Self::new()
    }
}

/// Iterator over the entries of an [`IntrusiveList`], from the head.
pub struct IntrusiveIterator<'a, T> {
    list: &'a IntrusiveList<T>,
    current: usize,
}

impl<'a, T> IntrusiveIterator<'a, T> {
    /// The list walked.
    pub closed spec fn list(&self) -> &'a IntrusiveList<T> {
        self.list
    }

    /// How many entries have been yielded.
    pub closed spec fn position(&self) -> int {
        self.current as int
    }

    /// The objects not yet yielded, in the order they come.
    pub open spec fn remaining(&self) -> Seq<T> {
        if self.position() <= self.list().spec_len() {
            self.list().view_from_head().skip(self.position())
        } else {
            Seq::empty()
        }
    }

    /// Yields the next entry from the head.
    pub fn next(&mut self) -> (r: Option<&'a IntrusiveNode<T>>)
        ensures
            final(self).list() == old(self).list(),
            old(self).position() < old(self).list().spec_len() ==> r == Some(
                &old(self).list().from_head(old(self).position()),
            ) && final(self).position() == old(self).position() + 1,
            old(self).position() >= old(self).list().spec_len() ==> r is None && final(self).position()
                == old(self).position(),
            r is None <==> old(self).remaining().len() == 0,
            r matches Some(n) ==> n.spec_data() == old(self).remaining()[0] && final(self).remaining()
                == old(self).remaining().drop_first(),
    {
        proof {
            if self.position() < self.list().spec_len() {
                assert(self.remaining().drop_first() =~= self.list().view_from_head().skip(self.position() + 1));
            }
        }
        let len = self.list.nodes.len();
        if self.current < len {
            let node = &self.list.nodes[len - 1 - self.current];
            self.current = self.current + 1;
            Some(node)
        } else {
            None
        }
    }

    /// Counts the entries not yet yielded, consuming the iterator.
    pub fn count(self) -> (r: usize)
        ensures
            r == self.remaining().len(),
            r == if self.position() < self.list().spec_len() {
                self.list().spec_len() - self.position()
            } else {
                0
            },
    {
        let len = self.list.nodes.len();
        if self.current < len {
            len - self.current
        } else {
            0
        }
    }
}

/// Number of entries of the given kind among the first `n` entries from the head.
pub open spec fn count_kind<T>(list: &IntrusiveList<T>, kind: KindTag, n: int) -> nat
    decreases n,
{
    if n <= 0 {
        0
    } else {
        count_kind(list, kind, n - 1) + if list.from_head(n - 1).spec_kind() == kind {
            1nat
        } else {
            0nat
        }
    }
}

/// The objects of the given kind from the `from`-th entry from the head on, in list order.
pub open spec fn kind_view<T>(list: &IntrusiveList<T>, kind: KindTag, from: int) -> Seq<T>
    decreases list.spec_len() - from,
{
    if from < 0 || from >= list.spec_len() {
        Seq::empty()
    } else if list.from_head(from).spec_kind() == kind {
        seq![list.from_head(from).spec_data()] + kind_view(list, kind, from + 1)
    } else {
        kind_view(list, kind, from + 1)
    }
}

/// Entries of other kinds add nothing to the objects of a kind.
pub proof fn lemma_kind_view_skip<T>(list: &IntrusiveList<T>, kind: KindTag, from: int, to: int)
    requires
        0 <= from <= to <= list.spec_len(),
        forall|q: int| from <= q < to ==> (#[trigger] list.from_head(q)).spec_kind() != kind,
    ensures
        kind_view(list, kind, from) == kind_view(list, kind, to),
    decreases to - from,
{
    if from < to {
        lemma_kind_view_skip(list, kind, from + 1, to);
    }
}

/// There are as many objects of a kind from an entry on as the count of that kind says.
pub proof fn lemma_kind_view_len<T>(list: &IntrusiveList<T>, kind: KindTag, from: int)
    requires
        0 <= from <= list.spec_len(),
    ensures
        kind_view(list, kind, from).len() == count_kind(list, kind, list.spec_len() as int) - count_kind(
            list,
            kind,
            from,
        ),
    decreases list.spec_len() - from,
{
    if from < list.spec_len() {
        lemma_kind_view_len(list, kind, from + 1);
    }
}

/// The objects a list holds, from the head, once `objects` are pushed in order onto a list that
/// holds `start`: each push puts its object at the head.
pub open spec fn after_pushes<T>(start: Seq<T>, objects: Seq<T>) -> Seq<T>
    decreases objects.len(),
{
    if objects.len() == 0 {
        start
    } else {
        seq![objects.last()] + after_pushes(start, objects.drop_last())
    }
}

/// A push continues a run of pushes: pushing `object` after `objects` puts it at the head of what
/// the run left.
pub proof fn lemma_push_continues<T>(start: Seq<T>, objects: Seq<T>, object: T)
    ensures
        after_pushes(start, objects.push(object)) == seq![object] + after_pushes(start, objects),
{
    assert(objects.push(object).drop_last() =~= objects);
}

/// Objects pushed one after the other onto an empty list come back, from the head, in the
/// reverse of the order they were pushed in: the last pushed first, each exactly once.
pub proof fn law_pushes_reverse<T>(objects: Seq<T>)
    ensures
        after_pushes(Seq::<T>::empty(), objects) == objects.reverse(),
    decreases objects.len(),
{
    if objects.len() > 0 {
        law_pushes_reverse(objects.drop_last());
        assert(seq![objects.last()] + objects.drop_last().reverse() =~= objects.reverse());
    }
}

/// Iterator over the objects of one kind in an [`IntrusiveList`], from the head.
pub struct OnlyT<'a, T> {
    iter: IntrusiveIterator<'a, T>,
    kind: KindTag,
}

impl<'a, T> OnlyT<'a, T> {
    /// The list walked.
    pub closed spec fn list(&self) -> &'a IntrusiveList<T> {
        self.iter.list
    }

    /// How many entries, of any kind, have been passed.
    pub closed spec fn position(&self) -> int {
        self.iter.current as int
    }

    /// The kind yielded.
    pub closed spec fn kind(&self) -> KindTag {
        self.kind
    }

    /// The objects of the kind not yet yielded, in the order they come.
    pub open spec fn remaining(&self) -> Seq<T> {
        kind_view(self.list(), self.kind(), self.position())
    }

    /// Creates an iterator that yields only the objects of the given kind.
    pub fn new(iter: IntrusiveIterator<'a, T>, kind: KindTag) -> (r: Self)
        ensures
            r.list() == iter.list(),
            r.position() == iter.position(),
            r.kind() == kind,
    {
        OnlyT { iter, kind }
    }

    /// Yields the next object of the kind, skipping entries of other kinds.
    pub fn next(&mut self) -> (r: Option<&'a T>)
        ensures
            final(self).list() == old(self).list(),
            final(self).kind() == old(self).kind(),
            old(self).position() <= final(self).position(),
            old(self).position() <= old(self).list().spec_len() ==> final(self).position()
                <= final(self).list().spec_len(),
            old(self).position() > old(self).list().spec_len() ==> r is None
                && final(self).position() == old(self).position(),
            r matches Some(x) ==> {
                let p = final(self).position() - 1;
                &&& old(self).position() <= p < old(self).list().spec_len()
                &&& old(self).list().from_head(p).spec_kind() == old(self).kind()
                &&& *x == old(self).list().from_head(p).spec_data()
                &&& forall|q: int| old(self).position() <= q < p ==> (#[trigger] old(self).list().from_head(q)).spec_kind() != old(self).kind()
            },
            r is None ==> forall|q: int|
                old(self).position() <= q < old(self).list().spec_len() ==> (#[trigger] old(self).list().from_head(q)).spec_kind()
                    != old(self).kind(),
            r is None <==> old(self).remaining().len() == 0,
            r is None ==> final(self).remaining().len() == 0,
            r matches Some(x) ==> *x == old(self).remaining()[0] && final(self).remaining()
                == old(self).remaining().drop_first(),
    {
        proof {
            use_type_invariant(self.iter.list);
        }
        let len = self.iter.list.nodes.len();
        let ghost start = self.iter.current as int;
        if self.iter.current > len {
            return None;
        }
        while self.iter.current < len
            invariant
                len == self.iter.list.nodes.len(),
                self.iter.list == old(self).iter.list,
                self.kind == old(self).kind,
                self.iter.list.wf(),
                start == old(self).iter.current as int,
                start <= self.iter.current <= len,
                forall|q: int| start <= q < self.iter.current ==> (#[trigger] self.iter.list.from_head(q)).spec_kind() != self.kind,
            decreases len - self.iter.current,
        {
            let node = &self.iter.list.nodes[len - 1 - self.iter.current];
            self.iter.current = self.iter.current + 1;
            proof {
                assert(self.iter.list.nodes@[len - 1 - (self.iter.current - 1)].is_valid());
            }
            match node.data(self.kind) {
                Some(x) => {
                    proof {
                        let p = self.iter.current - 1;
                        lemma_kind_view_skip(self.iter.list, self.kind, start, p);
                        assert(kind_view(self.iter.list, self.kind, p) == seq![*x] + kind_view(
                            self.iter.list,
                            self.kind,
                            p + 1,
                        ));
                        assert((seq![*x] + kind_view(self.iter.list, self.kind, p + 1)).drop_first() =~= kind_view(
                            self.iter.list,
                            self.kind,
                            p + 1,
                        ));
                    }
                    return Some(x);
                },
                None => {},
            }
        }
        proof {
            lemma_kind_view_skip(self.iter.list, self.kind, start, len as int);
        }
        None
    }

    /// Counts the remaining objects of the kind, consuming the iterator.
    pub fn count(self) -> (r: usize)
        ensures
            r == if self.position() <= self.list().spec_len() {
                count_kind(self.list(), self.kind(), self.list().spec_len() as int) - count_kind(
                    self.list(),
                    self.kind(),
                    self.position(),
                )
            } else {
                0
            },
    {
        proof {
            use_type_invariant(self.iter.list);
        }
        let mut it = self;
        let mut n: usize = 0;
        let ghost list = it.list();
        let ghost kind = it.kind();
        let ghost start = it.iter.current as int;
        proof {
            if start <= list.spec_len() {
                lemma_kind_view_len(list, kind, start);
            }
        }
        if it.iter.current > it.iter.list.nodes.len() {
            return 0;
        }
        while it.iter.current < it.iter.list.nodes.len()
            invariant
                it.iter.list == list,
                it.kind == kind,
                list.wf(),
                0 <= start <= it.iter.current <= list.spec_len(),
                n == count_kind(list, kind, it.iter.current as int) - count_kind(list, kind, start),
                n <= it.iter.current - start,
            decreases list.spec_len() - it.iter.current,
        {
            let len = it.iter.list.nodes.len();
            let node = &it.iter.list.nodes[len - 1 - it.iter.current];
            if node.kind == it.kind {
                n = n + 1;
            }
            it.iter.current = it.iter.current + 1;
        }
        n
    }
}

} // verus!
