//! The tree viewer's model: a forest of labelled nodes and the selected
//! node.

use vstd::prelude::*;

verus! {

/// A node of the tree with its children in order.
#[derive(Debug)]
pub struct TreeNode {
    pub id: String,
    pub label: String,
    pub node_type: Option<String>,
    pub children: Vec<TreeNode>,
}

impl TreeNode {
    /// A node without type and children.
    pub fn new(id: &str, label: &str) -> (r: Self)
        ensures
            r.id@ == id@,
            r.label@ == label@,
            r.node_type is None,
            r.children@.len() == 0,
    {
        TreeNode { id: id.to_owned(), label: label.to_owned(), node_type: None, children: Vec::new() }
    }

    /// The same node with the type `node_type`.
    pub fn node_type(self, node_type: &str) -> (r: Self)
        ensures
            r.id == self.id,
            r.label == self.label,
            r.node_type matches Some(t) && t@ == node_type@,
            r.children == self.children,
    {
        let mut n = self;
        n.node_type = Some(node_type.to_owned());
        n
    }

    /// The same node with `child` added after its children.
    pub fn child(self, child: TreeNode) -> (r: Self)
        ensures
            r.id == self.id,
            r.label == self.label,
            r.node_type == self.node_type,
            r.children@ == self.children@.push(child),
    {
        let mut n = self;
        n.children.push(child);
        n
    }
}

/// The type of a node as characters.
pub open spec fn type_view(node_type: Option<String>) -> Option<Seq<char>> {
    match node_type {
        Some(t) => Some(t@),
        None => None,
    }
}

/// Whether `a` and `b` are the same tree: the same id, label and type, and,
/// child by child, the same subtrees.
pub open spec fn same_tree(a: TreeNode, b: TreeNode) -> bool
    decreases a,
{
    &&& a.id@ == b.id@
    &&& a.label@ == b.label@
    &&& type_view(a.node_type) == type_view(b.node_type)
    &&& a.children@.len() == b.children@.len()
    &&& forall|j: int|
        0 <= j < a.children@.len() ==> same_tree(#[trigger] a.children@[j], b.children@[j])
}

/// A copy of `node` and all its descendants.
fn copy_node(node: &TreeNode) -> (r: TreeNode)
    ensures
        same_tree(r, *node),
    decreases node,
{
    let mut children: Vec<TreeNode> = Vec::new();
    let mut i: usize = 0;
    while i < node.children.len()
        invariant
            0 <= i <= node.children.len(),
            children@.len() == i,
            forall|j: int| 0 <= j < i ==> same_tree(#[trigger] children@[j], node.children@[j]),
        decreases node.children.len() - i,
    {
        let c = copy_node(&node.children[i]);
        children.push(c);
        i = i + 1;
    }
    let node_type = match &node.node_type {
        Some(t) => Some(t.clone()),
        None => None,
    };
    TreeNode { id: node.id.clone(), label: node.label.clone(), node_type, children }
}

impl Clone for TreeNode {
    fn clone(&self) -> (r: Self)
        ensures
            same_tree(r, *self),
    {
        copy_node(self)
    }
}

/// The roots of the tree and the selected node's id.
#[derive(Debug)]
pub struct TreeModel {
    pub roots: Vec<TreeNode>,
    pub selected_id: Option<String>,
}

impl Default for TreeModel {
    fn default() -> (r: Self)
        ensures
            r.roots@.len() == 0,
            r.selected_id is None,
    {
        TreeModel { roots: Vec::new(), selected_id: None }
    }
}

/// Something the user did in the tree viewer.
#[derive(Debug, Clone, PartialEq, Eq)]
pub enum TreeAction {
    Selected { node_id: String },
}

/// What happened in a tree viewer during one frame.
#[derive(Debug)]
pub struct TreeResponse {
    pub action: Option<TreeAction>,
}

impl Default for TreeResponse {
    fn default() -> (r: Self)
        ensures
            r.action is None,
    {
        TreeResponse { action: None }
    }
}

impl TreeModel {
    /// Selects the node `node_id` (as a click on it does).
    pub fn select(&mut self, node_id: &String) -> (r: TreeAction)
        ensures
            final(self).roots == old(self).roots,
            final(self).selected_id matches Some(id) && id@ == node_id@,
            r matches TreeAction::Selected { node_id: id } && id@ == node_id@,
    {
        self.selected_id = Some(node_id.clone());
        TreeAction::Selected { node_id: node_id.clone() }
    }
}

} // verus!
