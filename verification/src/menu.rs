//! The menu tree: an ordered forest of submenus, action items, separators and
//! platform-supplied entries, together with its mathematical model.

use vstd::prelude::*;

verus! {

/// An entry whose behaviour the host platform supplies.
#[derive(Clone, Copy, Debug, PartialEq, Eq, Structural)]
pub enum NativeAction {
    Quit,
    CloseWindow,
    Minimize,
    Zoom,
    Cut,
    Copy,
    Paste,
}

/// One node of a menu tree.
#[derive(Debug, PartialEq, Eq)]
pub enum MenuNode {
    /// A labelled group holding further nodes, in display order.
    Submenu { label: String, children: Vec<MenuNode> },
    /// A custom entry: its label, its keyboard accelerator if it has one, and
    /// the stable identifier under which a selection of it is reported.
    Action { label: String, accelerator: Option<String>, id: String },
    /// A dividing line.
    Separator,
    /// An entry that the platform implements.
    Native(NativeAction),
}

/// The mathematical value of a [`MenuNode`].
pub enum NodeModel {
    Submenu { label: Seq<char>, children: Seq<NodeModel> },
    Action { label: Seq<char>, accelerator: Option<Seq<char>>, id: Seq<char> },
    Separator,
    Native(NativeAction),
}

/// The characters of an optional string.
pub open spec fn text_model(text: Option<String>) -> Option<Seq<char>> {
    match text {
        Some(s) => Some(s@),
        None => None,
    }
}

/// The value of one node.
pub open spec fn node_model(node: MenuNode) -> NodeModel
    decreases node,
{
    match node {
        MenuNode::Submenu { label, children } => NodeModel::Submenu {
            label: label@,
            children: forest_model(children@),
        },
        MenuNode::Action { label, accelerator, id } => NodeModel::Action {
            label: label@,
            accelerator: text_model(accelerator),
            id: id@,
        },
        MenuNode::Separator => NodeModel::Separator,
        MenuNode::Native(action) => NodeModel::Native(action),
    }
}

/// The values of a run of nodes, in order.
pub open spec fn forest_model(nodes: Seq<MenuNode>) -> Seq<NodeModel>
    decreases nodes,
{
    if nodes.len() == 0 {
        Seq::empty()
    } else {
        forest_model(nodes.drop_last()).push(node_model(nodes.last()))
    }
}

impl View for MenuNode {
    type V = NodeModel;

    open spec fn view(&self) -> NodeModel {
        node_model(*self)
    }
}

impl MenuNode {
    /// An action item with the given identifier and label, and with the
    /// accelerator if one is given.
    pub fn action(id: &str, label: &str, accelerator: Option<&str>) -> (node: MenuNode)
        ensures
            node@ == (NodeModel::Action {
                label: label@,
                accelerator: match accelerator {
                    Some(keys) => Some(keys@),
                    None => None,
                },
                id: id@,
            }),
    {
        let accelerator = match accelerator {
            Some(keys) => Some(keys.to_owned()),
            None => None,
        };
        MenuNode::Action { label: label.to_owned(), accelerator, id: id.to_owned() }
    }

    /// A submenu with the given label over `children`, kept in their order.
    pub fn submenu(label: &str, children: Vec<MenuNode>) -> (node: MenuNode)
        ensures
            node@ == (NodeModel::Submenu { label: label@, children: forest_model(children@) }),
    {
        MenuNode::Submenu { label: label.to_owned(), children }
    }
}

/// The model of a run of nodes has one value per node, at the same place.
pub proof fn lemma_forest_model(nodes: Seq<MenuNode>)
    ensures
        forest_model(nodes).len() == nodes.len(),
        forall|i: int| 0 <= i < nodes.len() ==> #[trigger] forest_model(nodes)[i] == nodes[i]@,
    decreases nodes.len(),
{
    if nodes.len() > 0 {
        lemma_forest_model(nodes.drop_last());
    }
}

/// Taking a prefix of a run of nodes takes the same prefix of its model.
pub proof fn lemma_forest_model_take(nodes: Seq<MenuNode>, n: int)
    requires
        0 <= n <= nodes.len(),
    ensures
        forest_model(nodes.take(n)) == forest_model(nodes).take(n),
{
    lemma_forest_model(nodes);
    lemma_forest_model(nodes.take(n));
    assert(forest_model(nodes.take(n)) =~= forest_model(nodes).take(n));
}

/// The identifiers of the action items at or below `node`, in the order in
/// which a reader going down the menu meets them.
pub open spec fn node_ids(node: NodeModel) -> Seq<Seq<char>>
    decreases node,
{
    match node {
        NodeModel::Submenu { label, children } => forest_ids(children),
        NodeModel::Action { label, accelerator, id } => seq![id],
        NodeModel::Separator => Seq::empty(),
        NodeModel::Native(action) => Seq::empty(),
    }
}

/// The identifiers of the action items in a run of nodes, in menu order.
pub open spec fn forest_ids(nodes: Seq<NodeModel>) -> Seq<Seq<char>>
    decreases nodes,
{
    if nodes.len() == 0 {
        Seq::empty()
    } else {
        forest_ids(nodes.drop_last()) + node_ids(nodes.last())
    }
}

/// A node added at the end of a run adds its identifiers at the end.
pub proof fn lemma_forest_ids_push(nodes: Seq<NodeModel>, node: NodeModel)
    ensures
        forest_ids(nodes.push(node)) == forest_ids(nodes) + node_ids(node),
{
    assert(nodes.push(node).drop_last() =~= nodes);
}

/// The characters of each of a list of strings.
pub open spec fn texts(strings: Seq<String>) -> Seq<Seq<char>> {
    Seq::new(strings.len(), |i: int| strings[i]@)
}

/// Appends to `out` the identifiers of the action items at or below `node`.
pub fn collect_node_ids(node: &MenuNode, out: &mut Vec<String>)
    ensures
        texts(final(out)@) == texts(old(out)@) + node_ids(node@),
    decreases node,
{
    match node {
        MenuNode::Submenu { label, children } => {
            collect_forest_ids(children, out);
        },
        MenuNode::Action { label, accelerator, id } => {
            out.push(id.clone());
            assert(texts(out@) =~= texts(old(out)@) + seq![id@]);
        },
        MenuNode::Separator => {
            assert(texts(out@) =~= texts(old(out)@) + Seq::<Seq<char>>::empty());
        },
        MenuNode::Native(_) => {
            assert(texts(out@) =~= texts(old(out)@) + Seq::<Seq<char>>::empty());
        },
    }
}

/// Appends to `out` the identifiers of the action items in `nodes`.
pub fn collect_forest_ids(nodes: &Vec<MenuNode>, out: &mut Vec<String>)
    ensures
        texts(final(out)@) == texts(old(out)@) + forest_ids(forest_model(nodes@)),
    decreases nodes,
{
    let ghost before = texts(out@);
    let mut i: usize = 0;
    assert(forest_model(nodes@.take(0)) =~= Seq::<NodeModel>::empty());
    assert(texts(out@) =~= before + forest_ids(forest_model(nodes@.take(0))));
    while i < nodes.len()
        invariant
            i <= nodes.len(),
            texts(out@) == before + forest_ids(forest_model(nodes@.take(i as int))),
        decreases nodes.len() - i,
    {
        proof {
            let longer = nodes@.take(i + 1);
            assert(longer.drop_last() =~= nodes@.take(i as int));
            assert(longer.last() == nodes@[i as int]);
            assert(forest_model(longer).drop_last() =~= forest_model(longer.drop_last()));
        }
        collect_node_ids(&nodes[i], out);
        i = i + 1;
    }
    assert(nodes@.take(i as int) =~= nodes@);
}

/// No two action items of the forest share an identifier.
pub open spec fn ids_unique(nodes: Seq<NodeModel>) -> bool {
    forest_ids(nodes).no_duplicates()
}

/// Whether no string occurs twice in `items`.
pub fn all_distinct(items: &Vec<String>) -> (distinct: bool)
    ensures
        distinct == texts(items@).no_duplicates(),
{
    let mut i: usize = 0;
    while i < items.len()
        invariant
            i <= items.len(),
            forall|a: int, b: int|
                0 <= a < b < items.len() && a < i ==> texts(items@)[a] != texts(items@)[b],
        decreases items.len() - i,
    {
        let mut j: usize = i + 1;
        while j < items.len()
            invariant
                i < j <= items.len(),
                forall|b: int| i < b < j ==> texts(items@)[i as int] != texts(items@)[b],
            decreases items.len() - j,
        {
            if items[i] == items[j] {
                assert(texts(items@)[i as int] == texts(items@)[j as int]);
                return false;
            }
            j = j + 1;
        }
        i = i + 1;
    }
    true
}

/// Whether no two action items in `nodes` share an identifier.
pub fn ids_are_unique(nodes: &Vec<MenuNode>) -> (unique: bool)
    ensures
        unique == ids_unique(forest_model(nodes@)),
{
    let mut ids: Vec<String> = Vec::new();
    collect_forest_ids(nodes, &mut ids);
    assert(texts(ids@) =~= forest_ids(forest_model(nodes@)));
    all_distinct(&ids)
}

/// The first action item at or below `node`, in menu order, whose identifier
/// is `id`.
pub open spec fn node_find(node: NodeModel, id: Seq<char>) -> Option<NodeModel>
    decreases node,
{
    match node {
        NodeModel::Submenu { label, children } => forest_find(children, id),
        NodeModel::Action { label, accelerator, id: own } => if own == id {
            Some(node)
        } else {
            None
        },
        NodeModel::Separator => None,
        NodeModel::Native(action) => None,
    }
}

/// The first action item in a run of nodes, in menu order, whose identifier
/// is `id`.
pub open spec fn forest_find(nodes: Seq<NodeModel>, id: Seq<char>) -> Option<NodeModel>
    decreases nodes,
{
    if nodes.len() == 0 {
        None
    } else {
        match forest_find(nodes.drop_last(), id) {
            Some(found) => Some(found),
            None => node_find(nodes.last(), id),
        }
    }
}

/// The value of a node that a search may have found.
pub open spec fn found_model(found: Option<&MenuNode>) -> Option<NodeModel> {
    match found {
        Some(node) => Some(node@),
        None => None,
    }
}

/// The first action item at or below `node` whose identifier is `id`.
pub fn find_in_node<'a>(node: &'a MenuNode, id: &String) -> (found: Option<&'a MenuNode>)
    ensures
        found_model(found) == node_find(node@, id@),
    decreases node,
{
    match node {
        MenuNode::Submenu { label, children } => find_in_forest(children, id),
        MenuNode::Action { label, accelerator, id: own } => {
            if *own == *id {
                Some(node)
            } else {
                None
            }
        },
        MenuNode::Separator => None,
        MenuNode::Native(_) => None,
    }
}

/// The first action item in `nodes` whose identifier is `id`.
pub fn find_in_forest<'a>(nodes: &'a Vec<MenuNode>, id: &String) -> (found: Option<&'a MenuNode>)
    ensures
        found_model(found) == forest_find(forest_model(nodes@), id@),
    decreases nodes,
{
    let mut i: usize = 0;
    assert(forest_model(nodes@.take(0)) =~= Seq::<NodeModel>::empty());
    while i < nodes.len()
        invariant
            i <= nodes.len(),
            forest_find(forest_model(nodes@.take(i as int)), id@) is None,
        decreases nodes.len() - i,
    {
        proof {
            let longer = nodes@.take(i + 1);
            assert(longer.drop_last() =~= nodes@.take(i as int));
            assert(longer.last() == nodes@[i as int]);
            assert(forest_model(longer).drop_last() =~= forest_model(longer.drop_last()));
        }
        let found = find_in_node(&nodes[i], id);
        if found.is_some() {
            proof {
                lemma_forest_model(nodes@);
                lemma_forest_model_take(nodes@, i + 1);
                lemma_find_extends(forest_model(nodes@), i + 1, id@);
            }
            return found;
        }
        i = i + 1;
    }
    assert(nodes@.take(i as int) =~= nodes@);
    None
}

/// A search in a run with one more node at its end looks at that node only
/// when the run before it holds no match.
pub proof fn lemma_forest_find_push(nodes: Seq<NodeModel>, node: NodeModel, id: Seq<char>)
    ensures
        forest_find(nodes.push(node), id) == match forest_find(nodes, id) {
            Some(found) => Some(found),
            None => node_find(node, id),
        },
{
    assert(nodes.push(node).drop_last() =~= nodes);
}

/// A search that succeeds in a prefix of a run of nodes gives the same
/// answer in the whole run.
pub proof fn lemma_find_extends(nodes: Seq<NodeModel>, n: int, id: Seq<char>)
    requires
        0 <= n <= nodes.len(),
        forest_find(nodes.take(n), id) is Some,
    ensures
        forest_find(nodes, id) == forest_find(nodes.take(n), id),
    decreases nodes.len(),
{
    if n < nodes.len() {
        assert(nodes.drop_last().take(n) =~= nodes.take(n));
        lemma_find_extends(nodes.drop_last(), n, id);
    } else {
        assert(nodes.take(n) =~= nodes);
    }
}

/// A search for `id` at or below a node succeeds exactly when the node lists
/// `id`, and what it finds is an action item with that identifier.
pub proof fn lemma_node_find_iff_listed(node: NodeModel, id: Seq<char>)
    ensures
        node_find(node, id) is Some <==> node_ids(node).contains(id),
        node_find(node, id) matches Some(found) ==> found is Action && found->id == id,
    decreases node,
{
    match node {
        NodeModel::Submenu { label, children } => {
            lemma_find_iff_listed(children, id);
        },
        NodeModel::Action { label, accelerator, id: own } => {
            assert(seq![own][0] == own);
        },
        NodeModel::Separator => {},
        NodeModel::Native(action) => {},
    }
}

/// A search for `id` in a run of nodes succeeds exactly when the run lists
/// `id`, and what it finds is an action item with that identifier.
pub proof fn lemma_find_iff_listed(nodes: Seq<NodeModel>, id: Seq<char>)
    ensures
        forest_find(nodes, id) is Some <==> forest_ids(nodes).contains(id),
        forest_find(nodes, id) matches Some(found) ==> found is Action && found->id == id,
    decreases nodes,
{
    if nodes.len() > 0 {
        let earlier = forest_ids(nodes.drop_last());
        let latest = node_ids(nodes.last());
        lemma_find_iff_listed(nodes.drop_last(), id);
        lemma_node_find_iff_listed(nodes.last(), id);
        assert((earlier + latest).contains(id) <==> earlier.contains(id) || latest.contains(id)) by {
            if earlier.contains(id) {
                let k = choose|k: int| 0 <= k < earlier.len() && earlier[k] == id;
                assert((earlier + latest)[k] == id);
            }
            if latest.contains(id) {
                let k = choose|k: int| 0 <= k < latest.len() && latest[k] == id;
                assert((earlier + latest)[earlier.len() + k] == id);
            }
        }
    }
}

/// The action items at or below `node`, in menu order.
pub open spec fn node_actions(node: NodeModel) -> Seq<NodeModel>
    decreases node,
{
    match node {
        NodeModel::Submenu { label, children } => forest_actions(children),
        NodeModel::Action { label, accelerator, id } => seq![node],
        NodeModel::Separator => Seq::empty(),
        NodeModel::Native(action) => Seq::empty(),
    }
}

/// The action items in a run of nodes, in menu order.
pub open spec fn forest_actions(nodes: Seq<NodeModel>) -> Seq<NodeModel>
    decreases nodes,
{
    if nodes.len() == 0 {
        Seq::empty()
    } else {
        forest_actions(nodes.drop_last()) + node_actions(nodes.last())
    }
}

/// The identifiers that a node lists are those of its action items, one for
/// one.
pub proof fn lemma_node_actions_carry_ids(node: NodeModel)
    ensures
        node_actions(node).len() == node_ids(node).len(),
        forall|k: int|
            0 <= k < node_ids(node).len() ==> (#[trigger] node_actions(node)[k]) is Action
                && node_actions(node)[k]->id == node_ids(node)[k],
    decreases node,
{
    match node {
        NodeModel::Submenu { label, children } => {
            lemma_actions_carry_ids(children);
        },
        _ => {},
    }
}

/// The identifiers that a run of nodes lists are those of its action items,
/// one for one.
pub proof fn lemma_actions_carry_ids(nodes: Seq<NodeModel>)
    ensures
        forest_actions(nodes).len() == forest_ids(nodes).len(),
        forall|k: int|
            0 <= k < forest_ids(nodes).len() ==> (#[trigger] forest_actions(nodes)[k]) is Action
                && forest_actions(nodes)[k]->id == forest_ids(nodes)[k],
    decreases nodes,
{
    if nodes.len() > 0 {
        lemma_actions_carry_ids(nodes.drop_last());
        lemma_node_actions_carry_ids(nodes.last());
    }
}

/// Where no identifier occurs twice at or below a node, looking up the
/// identifier of any of its action items finds that very item.
pub proof fn lemma_node_find_unique(node: NodeModel, k: int)
    requires
        node_ids(node).no_duplicates(),
        0 <= k < node_ids(node).len(),
    ensures
        node_find(node, node_ids(node)[k]) == Some(node_actions(node)[k]),
    decreases node,
{
    match node {
        NodeModel::Submenu { label, children } => {
            lemma_find_unique(children, k);
        },
        _ => {},
    }
}

/// Where no identifier occurs twice in a run of nodes, looking up the
/// identifier of any of its action items finds that very item.
pub proof fn lemma_find_unique(nodes: Seq<NodeModel>, k: int)
    requires
        ids_unique(nodes),
        0 <= k < forest_ids(nodes).len(),
    ensures
        forest_find(nodes, forest_ids(nodes)[k]) == Some(forest_actions(nodes)[k]),
    decreases nodes,
{
    let earlier = forest_ids(nodes.drop_last());
    let latest = node_ids(nodes.last());
    let all = forest_ids(nodes);
    let id = all[k];
    assert(all == earlier + latest);
    lemma_actions_carry_ids(nodes.drop_last());
    lemma_node_actions_carry_ids(nodes.last());
    assert forall|i: int, j: int| 0 <= i < earlier.len() && 0 <= j < earlier.len() && i != j implies earlier[i]
        != earlier[j] by {
        assert(all[i] == earlier[i] && all[j] == earlier[j]);
    }
    assert forall|i: int, j: int| 0 <= i < latest.len() && 0 <= j < latest.len() && i != j implies latest[i]
        != latest[j] by {
        assert(all[earlier.len() + i] == latest[i] && all[earlier.len() + j] == latest[j]);
    }
    if k < earlier.len() {
        assert(earlier[k] == id);
        lemma_find_unique(nodes.drop_last(), k);
    } else {
        let at = k - earlier.len();
        assert(latest[at] == id);
        assert(!earlier.contains(id)) by {
            if earlier.contains(id) {
                let i = choose|i: int| 0 <= i < earlier.len() && earlier[i] == id;
                assert(all[i] == id);
            }
        }
        lemma_find_iff_listed(nodes.drop_last(), id);
        lemma_node_find_unique(nodes.last(), at);
    }
}

/// A menu tree: an ordered forest of nodes in which no two action items share
/// an identifier. Once made it is only read.
#[derive(Debug, PartialEq, Eq)]
pub struct MenuTree {
    roots: Vec<MenuNode>,
}

impl View for MenuTree {
    type V = Seq<NodeModel>;

    closed spec fn view(&self) -> Seq<NodeModel> {
        forest_model(self.roots@)
    }
}

impl MenuTree {
    #[verifier::type_invariant]
    spec fn identifiers_are_unique(self) -> bool {
        ids_unique(forest_model(self.roots@))
    }

    /// The identifiers of the tree's action items, in menu order.
    pub open spec fn ids(&self) -> Seq<Seq<char>> {
        forest_ids(self@)
    }

    /// Makes a tree of `roots`, whose identifiers the caller knows to be unique.
    pub fn new(roots: Vec<MenuNode>) -> (tree: MenuTree)
        requires
            ids_unique(forest_model(roots@)),
        ensures
            tree@ == forest_model(roots@),
    {
        MenuTree { roots }
    }

    /// Makes a tree of `roots` if no two of their action items share an
    /// identifier, and refuses them otherwise.
    pub fn try_new(roots: Vec<MenuNode>) -> (made: Option<MenuTree>)
        ensures
            made is Some <==> ids_unique(forest_model(roots@)),
            made matches Some(tree) ==> tree@ == forest_model(roots@),
    {
        if ids_are_unique(&roots) {
            Some(MenuTree { roots })
        } else {
            None
        }
    }

    /// The top-level nodes, in display order.
    pub fn roots(&self) -> (roots: &Vec<MenuNode>)
        ensures
            forest_model(roots@) == self@,
            ids_unique(self@),
    {
        proof {
            use_type_invariant(self);
        }
        &self.roots
    }

    /// The identifiers of the action items, in menu order.
    pub fn action_ids(&self) -> (ids: Vec<String>)
        ensures
            texts(ids@) == self.ids(),
            self.ids().no_duplicates(),
    {
        proof {
            use_type_invariant(self);
        }
        let mut ids: Vec<String> = Vec::new();
        collect_forest_ids(&self.roots, &mut ids);
        assert(texts(ids@) =~= forest_ids(forest_model(self.roots@)));
        ids
    }

    /// The action item whose identifier is `id`, if the tree has one.
    pub fn find_action(&self, id: &str) -> (found: Option<&MenuNode>)
        ensures
            found_model(found) == forest_find(self@, id@),
            found is Some <==> self.ids().contains(id@),
    {
        proof {
            lemma_find_iff_listed(self@, id@);
        }
        let wanted = id.to_owned();
        find_in_forest(&self.roots, &wanted)
    }
}

} // verus!
