//! The tree of groups and entries, and the operations on it.

use vstd::prelude::*;
use crate::entry::{Entry, EntryView};

verus! {

/// A child of a group.
pub enum Node {
    Group(Group),
    Entry(Entry),
}

/// A container of groups and entries, in insertion order.
pub struct Group {
    pub children: Vec<Node>,
}

/// What a [`Node`] stands for.
pub enum NodeView {
    Group(GroupView),
    Entry(EntryView),
}

/// What a [`Group`] stands for.
pub struct GroupView {
    pub children: Seq<NodeView>,
}

/// What a node stands for: what the group or the entry at it stands for.
pub open spec fn node_view(node: Node) -> NodeView
    decreases node,
{
    match node {
        Node::Group(group) => NodeView::Group(group_view(group)),
        Node::Entry(entry) => NodeView::Entry(entry@),
    }
}

/// What a group stands for: what its children stand for, in their order.
pub open spec fn group_view(group: Group) -> GroupView
    decreases group,
{
    GroupView {
        children: Seq::new(
            group.children@.len(),
            |i: int|
                if 0 <= i < group.children@.len() {
                    node_view(group.children@[i])
                } else {
                    arbitrary()
                },
        ),
    }
}

impl View for Node {
    type V = NodeView;

    open spec fn view(&self) -> NodeView {
        node_view(*self)
    }
}

impl View for Group {
    type V = GroupView;

    open spec fn view(&self) -> GroupView {
        group_view(*self)
    }
}

/// The entries below a node, depth first.
pub open spec fn node_entries(node: NodeView) -> Seq<EntryView>
    decreases node,
{
    match node {
        NodeView::Group(group) => entries_of(group.children),
        NodeView::Entry(entry) => seq![entry],
    }
}

/// The entries below a sequence of nodes, depth first: those of each node in
/// turn, a group's own entries before what follows the group.
pub open spec fn entries_of(nodes: Seq<NodeView>) -> Seq<EntryView>
    decreases nodes,
{
    if nodes.len() == 0 {
        Seq::empty()
    } else {
        entries_of(nodes.drop_last()) + node_entries(nodes.last())
    }
}

/// The first element of `entries` that has the identifier `id`.
pub open spec fn first_with(entries: Seq<EntryView>, id: u128) -> Option<EntryView>
    decreases entries.len(),
{
    if entries.len() == 0 {
        None
    } else if entries[0].id == id {
        Some(entries[0])
    } else {
        first_with(entries.drop_first(), id)
    }
}

/// `node` with its first entry, depth first, that has the identifier `id`
/// replaced by `entry`.
pub open spec fn node_with(node: NodeView, id: u128, entry: EntryView) -> NodeView
    decreases node,
{
    match node {
        NodeView::Entry(e) => if e.id == id {
            NodeView::Entry(entry)
        } else {
            node
        },
        NodeView::Group(group) => NodeView::Group(
            GroupView { children: nodes_with(group.children, id, entry) },
        ),
    }
}

/// `nodes` with the first entry, depth first, that has the identifier `id`
/// replaced by `entry`.
pub open spec fn nodes_with(nodes: Seq<NodeView>, id: u128, entry: EntryView) -> Seq<NodeView>
    decreases nodes,
{
    if nodes.len() == 0 {
        nodes
    } else if first_with(node_entries(nodes.first()), id) is Some {
        seq![node_with(nodes.first(), id, entry)] + nodes.drop_first()
    } else {
        seq![nodes.first()] + nodes_with(nodes.drop_first(), id, entry)
    }
}

/// `entries` with the first element that has the identifier `id` replaced
/// by `entry`.
pub open spec fn replace_first(entries: Seq<EntryView>, id: u128, entry: EntryView) -> Seq<
    EntryView,
>
    decreases entries.len(),
{
    if entries.len() == 0 {
        entries
    } else if entries[0].id == id {
        seq![entry] + entries.drop_first()
    } else {
        seq![entries[0]] + replace_first(entries.drop_first(), id, entry)
    }
}

/// No two elements of `entries` have the same identifier.
pub open spec fn distinct_ids(entries: Seq<EntryView>) -> bool {
    forall|i: int, j: int|
        0 <= i < j < entries.len() ==> (#[trigger] entries[i]).id != (#[trigger] entries[j]).id
}

/// The identifiers of `entries`, in order.
pub open spec fn ids_of(entries: Seq<EntryView>) -> Seq<u128> {
    Seq::new(entries.len(), |i: int| entries[i].id)
}

/// What the entries behind a list of references stand for.
pub open spec fn views(list: Seq<&Entry>) -> Seq<EntryView> {
    Seq::new(list.len(), |i: int| list[i]@)
}

impl GroupView {
    /// Every entry of the tree, depth first.
    pub open spec fn entries(self) -> Seq<EntryView> {
        entries_of(self.children)
    }

    /// The first entry, depth first, that has the identifier `id`.
    pub open spec fn find(self, id: u128) -> Option<EntryView> {
        first_with(self.entries(), id)
    }

    /// This tree with the first entry, depth first, that has the identifier
    /// `id` replaced by `entry`.
    pub open spec fn with_first(self, id: u128, entry: EntryView) -> GroupView {
        GroupView { children: nodes_with(self.children, id, entry) }
    }

    /// This group with `entry` appended as its last child.
    pub open spec fn with_child(self, entry: EntryView) -> GroupView {
        GroupView { children: self.children.push(NodeView::Entry(entry)) }
    }
}

/// `root` after each of `added` was appended in turn as a child of the root.
pub open spec fn with_children(root: GroupView, added: Seq<EntryView>) -> GroupView
    decreases added.len(),
{
    if added.len() == 0 {
        root
    } else {
        with_children(root, added.drop_last()).with_child(added.last())
    }
}

/// Flattening a prefix of the children and then the rest gives the whole.
pub proof fn lemma_entries_split(nodes: Seq<NodeView>, k: int)
    requires
        0 <= k <= nodes.len(),
    ensures
        entries_of(nodes) == entries_of(nodes.take(k)) + entries_of(nodes.skip(k)),
    decreases nodes.len(),
{
    if k == nodes.len() {
        assert(nodes.take(k) == nodes);
    } else {
        let front = nodes.drop_last();
        lemma_entries_split(front, k);
        assert(front.take(k) == nodes.take(k));
        assert(front.skip(k) == nodes.skip(k).drop_last());
    }
}

/// Flattening one more child appends that child's entries.
pub proof fn lemma_entries_step(nodes: Seq<NodeView>, k: int)
    requires
        0 <= k < nodes.len(),
    ensures
        entries_of(nodes.take(k + 1)) == entries_of(nodes.take(k)) + node_entries(nodes[k]),
{
    assert(nodes.take(k + 1).drop_last() == nodes.take(k));
}

/// In a concatenation the first match is that of the left part, or else that
/// of the right part.
pub proof fn lemma_first_with_concat(a: Seq<EntryView>, b: Seq<EntryView>, id: u128)
    ensures
        first_with(a + b, id) == if first_with(a, id) is Some {
            first_with(a, id)
        } else {
            first_with(b, id)
        },
    decreases a.len(),
{
    if a.len() > 0 {
        assert((a + b).drop_first() == a.drop_first() + b);
        lemma_first_with_concat(a.drop_first(), b, id);
    }
}

/// What the search finds has the identifier that was asked for and is the
/// first such element; where it finds nothing, no element has it.
pub proof fn lemma_first_with_is_first(entries: Seq<EntryView>, id: u128)
    ensures
        match first_with(entries, id) {
            Some(entry) => exists|k: int|
                {
                    &&& 0 <= k < entries.len()
                    &&& #[trigger] entries[k] == entry
                    &&& entry.id == id
                    &&& forall|j: int| 0 <= j < k ==> (#[trigger] entries[j]).id != id
                },
            None => forall|k: int| 0 <= k < entries.len() ==> (#[trigger] entries[k]).id != id,
        },
    decreases entries.len(),
{
    if entries.len() > 0 && entries[0].id != id {
        let rest = entries.drop_first();
        lemma_first_with_is_first(rest, id);
        match first_with(rest, id) {
            Some(entry) => {
                let k = choose|k: int|
                    {
                        &&& 0 <= k < rest.len()
                        &&& #[trigger] rest[k] == entry
                        &&& entry.id == id
                        &&& forall|j: int| 0 <= j < k ==> (#[trigger] rest[j]).id != id
                    };
                assert forall|j: int| 0 <= j < k + 1 implies (#[trigger] entries[j]).id != id by {
                    if j > 0 {
                        assert(rest[j - 1].id != id);
                    }
                }
            },
            None => {
                assert forall|k: int| 0 <= k < entries.len() implies (#[trigger] entries[k]).id
                    != id by {
                    if k > 0 {
                        assert(rest[k - 1].id != id);
                    }
                }
            },
        }
    }
}

/// Where identifiers are distinct, the search for the identifier of any
/// entry finds that entry, and no other entry has that identifier.
pub proof fn lemma_distinct_ids_find(entries: Seq<EntryView>, k: int)
    requires
        distinct_ids(entries),
        0 <= k < entries.len(),
    ensures
        first_with(entries, entries[k].id) == Some(entries[k]),
        forall|j: int| 0 <= j < entries.len() && j != k ==> (#[trigger] entries[j]).id != entries[k].id,
{
    lemma_first_with_is_first(entries, entries[k].id);
}

/// The entries of a tree with one more child are the entries of the tree
/// and then the child.
pub proof fn lemma_with_child_entries(root: GroupView, entry: EntryView)
    ensures
        root.with_child(entry).entries() == root.entries().push(entry),
{
    let grown = root.children.push(NodeView::Entry(entry));
    assert(grown.drop_last() == root.children);
    assert(node_entries(grown.last()) == seq![entry]);
}

/// A tree with distinct identifiers keeps them distinct when an entry is
/// added whose identifier no entry of the tree has.
pub proof fn lemma_fresh_child_keeps_distinct(root: GroupView, entry: EntryView)
    requires
        distinct_ids(root.entries()),
        root.find(entry.id) is None,
    ensures
        distinct_ids(root.with_child(entry).entries()),
{
    lemma_with_child_entries(root, entry);
    lemma_first_with_is_first(root.entries(), entry.id);
}

/// Entries appended to the root come last in the listing, in the order in
/// which they were appended.
pub proof fn lemma_with_children_entries(root: GroupView, added: Seq<EntryView>)
    ensures
        with_children(root, added).entries() == root.entries() + added,
    decreases added.len(),
{
    if added.len() == 0 {
        assert(root.entries() + added == root.entries());
    } else {
        lemma_with_children_entries(root, added.drop_last());
        lemma_with_child_entries(with_children(root, added.drop_last()), added.last());
        assert((root.entries() + added.drop_last()).push(added.last()) == root.entries() + added);
    }
}

/// Where the entries of a tree and the entries appended to it have
/// identifiers that are all distinct, each appended entry is what the search
/// for its identifier finds, and no other entry of the tree has that
/// identifier.
pub proof fn lemma_fresh_entries_are_found(root: GroupView, added: Seq<EntryView>, k: int)
    requires
        distinct_ids(root.entries() + added),
        0 <= k < added.len(),
    ensures
        with_children(root, added).find(added[k].id) == Some(added[k]),
        distinct_ids(with_children(root, added).entries()),
        forall|j: int|
            0 <= j < with_children(root, added).entries().len() && j != root.entries().len() + k
                ==> (#[trigger] with_children(root, added).entries()[j]).id != added[k].id,
{
    lemma_with_children_entries(root, added);
    lemma_distinct_ids_find(root.entries() + added, root.entries().len() + k);
}

/// Replacing in a concatenation replaces in the left part where that holds
/// the identifier, and else in the right part.
pub proof fn lemma_replace_first_concat(
    a: Seq<EntryView>,
    b: Seq<EntryView>,
    id: u128,
    entry: EntryView,
)
    ensures
        replace_first(a + b, id, entry) == if first_with(a, id) is Some {
            replace_first(a, id, entry) + b
        } else {
            a + replace_first(b, id, entry)
        },
    decreases a.len(),
{
    if a.len() > 0 {
        assert((a + b).drop_first() == a.drop_first() + b);
        if a[0].id != id {
            lemma_replace_first_concat(a.drop_first(), b, id, entry);
        }
    }
}

/// The entries of a node in which an entry was replaced are the node's
/// entries with the first that has the identifier replaced.
pub proof fn lemma_node_with_entries(node: NodeView, id: u128, entry: EntryView)
    ensures
        node_entries(node_with(node, id, entry)) == replace_first(node_entries(node), id, entry),
    decreases node,
{
    match node {
        NodeView::Entry(e) => {
            assert(seq![e].drop_first() == Seq::<EntryView>::empty());
            assert(replace_first(Seq::<EntryView>::empty(), id, entry) == Seq::<EntryView>::empty());
        },
        NodeView::Group(group) => {
            lemma_nodes_with_entries(group.children, id, entry);
        },
    }
}

/// The entries of nodes in which an entry was replaced are the nodes'
/// entries with the first that has the identifier replaced: the listing
/// changes at the place of the entry that the search finds, and nowhere
/// else.
pub proof fn lemma_nodes_with_entries(nodes: Seq<NodeView>, id: u128, entry: EntryView)
    ensures
        entries_of(nodes_with(nodes, id, entry)) == replace_first(entries_of(nodes), id, entry),
    decreases nodes,
{
    if nodes.len() > 0 {
        let head = nodes.first();
        let rest = nodes.drop_first();
        lemma_entries_split(nodes, 1);
        lemma_entries_step(nodes, 0);
        lemma_replace_first_concat(node_entries(head), entries_of(rest), id, entry);
        let changed = nodes_with(nodes, id, entry);
        lemma_entries_split(changed, 1);
        lemma_entries_step(changed, 0);
        if first_with(node_entries(head), id) is Some {
            lemma_node_with_entries(head, id, entry);
            assert(changed.skip(1) == rest);
        } else {
            lemma_nodes_with_entries(rest, id, entry);
            assert(changed.skip(1) == nodes_with(rest, id, entry));
        }
    }
}

/// Replacing an entry by one with the same identifier keeps the identifiers
/// of the listing, so that distinct identifiers stay distinct under edits.
pub proof fn lemma_replace_first_keeps_ids(entries: Seq<EntryView>, id: u128, entry: EntryView)
    requires
        entry.id == id,
    ensures
        ids_of(replace_first(entries, id, entry)) == ids_of(entries),
        distinct_ids(entries) ==> distinct_ids(replace_first(entries, id, entry)),
    decreases entries.len(),
{
    let changed = replace_first(entries, id, entry);
    if entries.len() > 0 && entries[0].id == id {
        assert(changed.len() == entries.len());
        assert forall|i: int| 0 <= i < entries.len() implies (#[trigger] changed[i]).id
            == entries[i].id by {
            if i > 0 {
                assert(changed[i] == entries.drop_first()[i - 1]);
            }
        }
    } else if entries.len() > 0 {
        let rest = entries.drop_first();
        lemma_replace_first_keeps_ids(rest, id, entry);
        let changed_rest = replace_first(rest, id, entry);
        assert(changed_rest.len() == ids_of(changed_rest).len());
        assert(changed.len() == entries.len());
        assert forall|i: int| 0 <= i < entries.len() implies (#[trigger] changed[i]).id
            == entries[i].id by {
            if i > 0 {
                assert(changed[i] == changed_rest[i - 1]);
                assert(ids_of(changed_rest)[i - 1] == ids_of(rest)[i - 1]);
            }
        }
    }
    assert(ids_of(changed) =~= ids_of(entries));
    if distinct_ids(entries) {
        assert forall|i: int, j: int| 0 <= i < j < changed.len() implies (#[trigger] changed[i]).id
            != (#[trigger] changed[j]).id by {
            assert(ids_of(changed)[i] == ids_of(entries)[i]);
            assert(ids_of(changed)[j] == ids_of(entries)[j]);
            assert(entries[i].id != entries[j].id);
        }
    }
}

/// Where the first child that holds the identifier stands, the replacement
/// changes that child and no other.
proof fn lemma_nodes_with_at(nodes: Seq<NodeView>, id: u128, entry: EntryView, k: int)
    requires
        0 <= k < nodes.len(),
        first_with(entries_of(nodes.take(k)), id) is None,
        first_with(node_entries(nodes[k]), id) is Some,
    ensures
        nodes_with(nodes, id, entry) == nodes.update(k, node_with(nodes[k], id, entry)),
    decreases k,
{
    if k > 0 {
        let front = nodes.take(k);
        lemma_entries_split(front, 1);
        lemma_entries_step(front, 0);
        lemma_first_with_concat(entries_of(front.take(1)), entries_of(front.skip(1)), id);
        let rest = nodes.drop_first();
        assert(rest.take(k - 1) == front.skip(1));
        lemma_nodes_with_at(rest, id, entry, k - 1);
    }
}

impl Node {
    /// Tells whether an entry with the identifier `id` stands at or below
    /// this node.
    pub fn holds(&self, id: u128) -> (held: bool)
        ensures
            held == (first_with(node_entries(self@), id) is Some),
    {
        match self {
            Node::Entry(entry) => {
                assert(seq![entry@].drop_first() == Seq::<EntryView>::empty());
                assert(first_with(Seq::<EntryView>::empty(), id) is None);
                entry.id() == id
            },
            Node::Group(group) => group.find(id).is_some(),
        }
    }
}

impl Group {
    /// A group without children.
    pub fn new() -> (group: Group)
        ensures
            group@.children == Seq::<NodeView>::empty(),
    {
        Group { children: Vec::new() }
    }

    /// Appends `entry` as the last direct child of this group.
    pub fn add_child(&mut self, entry: Entry)
        ensures
            final(self)@ == old(self)@.with_child(entry@),
    {
        self.children.push(Node::Entry(entry));
        assert(self@.children =~= old(self)@.children.push(NodeView::Entry(entry@)));
    }

    /// Appends `group` as the last direct child of this group.
    pub fn add_group(&mut self, group: Group)
        ensures
            final(self)@.children == old(self)@.children.push(NodeView::Group(group@)),
    {
        self.children.push(Node::Group(group));
    }

    fn collect<'a>(&'a self, list: &mut Vec<&'a Entry>)
        ensures
            views(final(list)@) == views(old(list)@) + self@.entries(),
        decreases self,
    {
        let mut i: usize = 0;
        while i < self.children.len()
            invariant
                i <= self.children@.len(),
                views(list@) == views(old(list)@) + entries_of(self@.children.take(i as int)),
            decreases self.children@.len() - i,
        {
            let ghost before = list@;
            proof {
                lemma_entries_step(self@.children, i as int);
            }
            match &self.children[i] {
                Node::Entry(entry) => {
                    list.push(entry);
                    assert(views(list@) == views(before) + seq![entry@]);
                },
                Node::Group(group) => {
                    group.collect(list);
                },
            }
            i += 1;
        }
        assert(self@.children.take(i as int) == self@.children);
    }

    /// Every entry of the tree, depth first: a group's entries come before
    /// what follows the group, and groups themselves are left out.
    pub fn list_entries(&self) -> (list: Vec<&Entry>)
        ensures
            views(list@) == self@.entries(),
    {
        let mut list: Vec<&Entry> = Vec::new();
        self.collect(&mut list);
        list
    }

    /// Searches the tree depth first for the entry with the identifier `id`:
    /// a group is searched through before what follows it. Finds the first
    /// such entry, or nothing where the tree holds none.
    pub fn find(&self, id: u128) -> (found: Option<&Entry>)
        ensures
            match found {
                Some(entry) => self@.find(id) == Some(entry@) && entry@.id == id,
                None => self@.find(id) is None,
            },
        decreases self,
    {
        proof {
            lemma_first_with_is_first(self@.entries(), id);
        }
        let mut i: usize = 0;
        while i < self.children.len()
            invariant
                i <= self.children@.len(),
                first_with(entries_of(self@.children.take(i as int)), id) is None,
            decreases self.children@.len() - i,
        {
            proof {
                lemma_entries_step(self@.children, i as int);
                lemma_entries_split(self@.children, i + 1);
                lemma_first_with_concat(
                    entries_of(self@.children.take(i as int)),
                    node_entries(self@.children[i as int]),
                    id,
                );
                lemma_first_with_concat(
                    entries_of(self@.children.take(i + 1)),
                    entries_of(self@.children.skip(i + 1)),
                    id,
                );
            }
            match &self.children[i] {
                Node::Entry(entry) => {
                    assert(seq![entry@].drop_first() == Seq::<EntryView>::empty());
                    assert(first_with(Seq::<EntryView>::empty(), id) is None);
                    if entry.id() == id {
                        return Some(entry);
                    }
                },
                Node::Group(group) => {
                    if let Some(entry) = group.find(id) {
                        return Some(entry);
                    }
                },
            }
            i += 1;
        }
        assert(self@.children.take(i as int) == self@.children);
        None
    }

    /// The index of the first child at or below which an entry with the
    /// identifier `id` stands.
    fn first_holder(&self, id: u128) -> (holder: Option<usize>)
        ensures
            match holder {
                Some(k) => {
                    &&& k < self@.children.len()
                    &&& first_with(entries_of(self@.children.take(k as int)), id) is None
                    &&& first_with(node_entries(self@.children[k as int]), id) is Some
                },
                None => self@.find(id) is None,
            },
    {
        let mut i: usize = 0;
        while i < self.children.len()
            invariant
                i <= self.children@.len(),
                first_with(entries_of(self@.children.take(i as int)), id) is None,
            decreases self.children@.len() - i,
        {
            if self.children[i].holds(id) {
                return Some(i);
            }
            proof {
                lemma_entries_step(self@.children, i as int);
                lemma_first_with_concat(
                    entries_of(self@.children.take(i as int)),
                    node_entries(self@.children[i as int]),
                    id,
                );
            }
            i += 1;
        }
        assert(self@.children.take(i as int) == self@.children);
        None
    }

    /// Searches the tree depth first for the entry with the identifier `id`
    /// and hands it out for editing. What the caller makes of the entry
    /// takes its place in the tree; nothing else changes.
    pub fn find_mut(&mut self, id: u128) -> (found: Option<&mut Entry>)
        ensures
            match found {
                Some(entry) => {
                    &&& old(self)@.find(id) == Some(entry@)
                    &&& entry@.id == id
                    &&& final(self)@ == old(self)@.with_first(id, final(entry)@)
                },
                None => old(self)@.find(id) is None && final(self)@ == old(self)@,
            },
        decreases *old(self),
    {
        proof {
            lemma_first_with_is_first(self@.entries(), id);
        }
        let k = match self.first_holder(id) {
            Some(k) => k,
            None => {
                return None;
            },
        };
        let ghost nodes = self@.children;
        proof {
            lemma_entries_step(nodes, k as int);
            lemma_entries_split(nodes, k + 1);
            lemma_first_with_concat(
                entries_of(nodes.take(k as int)),
                node_entries(nodes[k as int]),
                id,
            );
            lemma_first_with_concat(
                entries_of(nodes.take(k + 1)),
                entries_of(nodes.skip(k + 1)),
                id,
            );
        }
        let ghost after = final(self)@;
        match &mut self.children[k] {
            Node::Entry(entry) => {
                proof {
                    assert(seq![entry@].drop_first() == Seq::<EntryView>::empty());
                    assert(first_with(Seq::<EntryView>::empty(), id) is None);
                    lemma_nodes_with_at(nodes, id, final(entry)@, k as int);
                    assert(after.children =~= nodes.update(
                        k as int,
                        NodeView::Entry(final(entry)@),
                    ));
                }
                Some(entry)
            },
            Node::Group(group) => {
                let ghost below = group@;
                let found = group.find_mut(id);
                proof {
                    let entry = found->0;
                    lemma_nodes_with_at(nodes, id, final(entry)@, k as int);
                    assert(after.children =~= nodes.update(
                        k as int,
                        NodeView::Group(below.with_first(id, final(entry)@)),
                    ));
                }
                found
            },
        }
    }
}

} // verus!
