//! The flow editor's graph: nodes with input and output ports, edges that
//! connect an output port to an input port, and the editor's selection and
//! pending connection.
//!
//! The graph does not read node positions or the canvas view (pan and
//! zoom); they are type parameters, which the user interface instantiates
//! with its own geometry types.

use vstd::prelude::*;
use vstd::set_lib::{lemma_int_range, lemma_len_subset, lemma_map_size, set_int_range};

use crate::text::{decimal, lemma_decimal_injective, push_decimal, string_eq_str};

verus! {

/// Whether a port receives or sends.
#[derive(Debug, Clone, Copy, PartialEq, Eq, Structural)]
pub enum PortDirection {
    Input,
    Output,
}

/// A port of a node.
#[derive(Debug, Clone)]
pub struct FlowPort {
    pub id: String,
    pub label: String,
    pub direction: PortDirection,
    pub data_type: Option<String>,
}

impl FlowPort {
    /// A port without a data type.
    pub fn new(id: &str, label: &str, direction: PortDirection) -> (r: Self)
        ensures
            r.id@ == id@,
            r.label@ == label@,
            r.direction == direction,
            r.data_type is None,
    {
        FlowPort { id: id.to_owned(), label: label.to_owned(), direction, data_type: None }
    }

    /// The same port with the data type `data_type`.
    pub fn data_type(self, data_type: &str) -> (r: Self)
        ensures
            r.id == self.id,
            r.label == self.label,
            r.direction == self.direction,
            r.data_type matches Some(t) && t@ == data_type@,
    {
        let mut p = self;
        p.data_type = Some(data_type.to_owned());
        p
    }
}

/// A node of the graph at position `position`.
#[derive(Debug, Clone)]
pub struct FlowNode<P> {
    pub id: String,
    pub label: String,
    pub position: P,
    pub ports: Vec<FlowPort>,
}

impl<P> FlowNode<P> {
    /// A node without ports.
    pub fn new(id: &str, label: &str, position: P) -> (r: Self)
        ensures
            r.id@ == id@,
            r.label@ == label@,
            r.position == position,
            r.ports@.len() == 0,
    {
        FlowNode { id: id.to_owned(), label: label.to_owned(), position, ports: Vec::new() }
    }

    /// The same node with `port` added after its ports.
    pub fn port(self, port: FlowPort) -> (r: Self)
        ensures
            r.id == self.id,
            r.label == self.label,
            r.position == self.position,
            r.ports@ == self.ports@.push(port),
    {
        let mut n = self;
        n.ports.push(port);
        n
    }
}

/// An edge from the port `from_port` of node `from_node` to the port
/// `to_port` of node `to_node`.
#[derive(Debug)]
pub struct FlowEdge {
    pub id: String,
    pub from_node: String,
    pub from_port: String,
    pub to_node: String,
    pub to_port: String,
}

impl Clone for FlowEdge {
    fn clone(&self) -> (r: Self)
        ensures
            r == *self,
    {
        FlowEdge {
            id: self.id.clone(),
            from_node: self.from_node.clone(),
            from_port: self.from_port.clone(),
            to_node: self.to_node.clone(),
            to_port: self.to_port.clone(),
        }
    }
}

impl FlowEdge {
    pub fn new(id: &str, from_node: &str, from_port: &str, to_node: &str, to_port: &str) -> (r: Self)
        ensures
            r.id@ == id@,
            r.from_node@ == from_node@,
            r.from_port@ == from_port@,
            r.to_node@ == to_node@,
            r.to_port@ == to_port@,
    {
        FlowEdge {
            id: id.to_owned(),
            from_node: from_node.to_owned(),
            from_port: from_port.to_owned(),
            to_node: to_node.to_owned(),
            to_port: to_port.to_owned(),
        }
    }
}

/// A reference to the port `port_id` of the node `node_id`.
#[derive(Debug)]
pub struct PortRef {
    pub node_id: String,
    pub port_id: String,
}

impl PortRef {
    pub fn new(node_id: &str, port_id: &str) -> (r: Self)
        ensures
            r.node_id@ == node_id@,
            r.port_id@ == port_id@,
    {
        PortRef { node_id: node_id.to_owned(), port_id: port_id.to_owned() }
    }
}

impl Clone for PortRef {
    fn clone(&self) -> (r: Self)
        ensures
            r == *self,
    {
        PortRef { node_id: self.node_id.clone(), port_id: self.port_id.clone() }
    }
}

impl PartialEq for PortRef {
    fn eq(&self, other: &Self) -> (r: bool) {
        self.node_id == other.node_id && self.port_id == other.port_id
    }
}

impl Eq for PortRef {}

impl vstd::std_specs::cmp::PartialEqSpecImpl for PortRef {
    open spec fn obeys_eq_spec() -> bool {
        true
    }

    open spec fn eq_spec(&self, other: &Self) -> bool {
        self.node_id@ == other.node_id@ && self.port_id@ == other.port_id@
    }
}

/// The flow editor's model: the graph, the selection, the port where a
/// connection was started, and the canvas view (`pan` and `zoom`).
#[derive(Debug, Clone)]
pub struct FlowModel<P, V, Z> {
    pub nodes: Vec<FlowNode<P>>,
    pub edges: Vec<FlowEdge>,
    pub selected_node_id: Option<String>,
    pub selected_edge_id: Option<String>,
    pub pending_connection: Option<PortRef>,
    pub pan: V,
    pub zoom: Z,
}

impl<P, V, Z> FlowModel<P, V, Z> {
    /// An empty graph with nothing selected and no pending connection,
    /// shown with the view `pan` and `zoom`.
    pub fn new(pan: V, zoom: Z) -> (r: Self)
        ensures
            r.nodes@.len() == 0,
            r.edges@.len() == 0,
            r.selected_node_id is None,
            r.selected_edge_id is None,
            r.pending_connection is None,
            r.pan == pan,
            r.zoom == zoom,
    {
        FlowModel {
            nodes: Vec::new(),
            edges: Vec::new(),
            selected_node_id: None,
            selected_edge_id: None,
            pending_connection: None,
            pan,
            zoom,
        }
    }
}

/// Something the user did in the flow editor. `Q` is the type of a node
/// position.
#[derive(Debug, Clone, PartialEq)]
pub enum FlowAction<Q> {
    NodeSelected { node_id: String },
    EdgeSelected { edge_id: String },
    SelectionCleared,
    NodeMoved { node_id: String, position: Q },
    ConnectionCreated { edge_id: String, from: PortRef, to: PortRef },
    ConnectionRejected { from: PortRef, to: PortRef, reason: String },
    EdgeDeleted { edge_id: String },
}

/// The actions of one frame of the flow editor, in order.
#[derive(Debug)]
pub struct FlowResponse<Q> {
    pub actions: Vec<FlowAction<Q>>,
}

impl<Q> FlowResponse<Q> {
    pub fn new() -> (r: Self)
        ensures
            r.actions@.len() == 0,
    {
        FlowResponse { actions: Vec::new() }
    }
}

/// The identifier given to the `n`-th generated edge: `edge-` and `n` in
/// decimal.
pub open spec fn edge_id_for(n: nat) -> Seq<char> {
    "edge-"@ + decimal(n)
}

/// Whether some edge of `edges` has the id `id`.
pub open spec fn edge_id_used(edges: Seq<FlowEdge>, id: Seq<char>) -> bool {
    exists|i: int| 0 <= i < edges.len() && #[trigger] edges[i].id@ == id
}

/// Whether no two edges of `edges` share an id.
pub open spec fn edge_ids_unique(edges: Seq<FlowEdge>) -> bool {
    forall|i: int, j: int|
        0 <= i < edges.len() && 0 <= j < edges.len() && i != j ==> #[trigger] edges[i].id@ != #[trigger] edges[j].id@
}

/// Whether `id` is the id that [`next_edge_id`] generates for `edges`: the
/// first `edge-n` with `n` from the number of edges plus one upwards that no
/// edge uses.
pub open spec fn is_next_edge_id(edges: Seq<FlowEdge>, id: Seq<char>) -> bool {
    exists|n: nat|
        {
            &&& n >= edges.len() + 1
            &&& id == #[trigger] edge_id_for(n)
            &&& !edge_id_used(edges, id)
            &&& forall|m: nat| edges.len() + 1 <= m < n ==> edge_id_used(edges, #[trigger] edge_id_for(m))
        }
}

proof fn lemma_edge_id_injective(a: nat, b: nat)
    requires
        edge_id_for(a) == edge_id_for(b),
    ensures
        a == b,
{
    let p = "edge-"@;
    assert(edge_id_for(a).subrange(p.len() as int, edge_id_for(a).len() as int) =~= decimal(a));
    assert(edge_id_for(b).subrange(p.len() as int, edge_id_for(b).len() as int) =~= decimal(b));
    lemma_decimal_injective(a, b);
}

/// When each of the ids `edge-lo` ..= `edge-hi` is used, there are at least
/// as many edges.
proof fn lemma_used_ids_bound(edges: Seq<FlowEdge>, lo: int, hi: int)
    requires
        0 <= lo <= hi,
        forall|k: int| lo <= k <= hi ==> edge_id_used(edges, #[trigger] edge_id_for(k as nat)),
    ensures
        hi - lo + 1 <= edges.len(),
{
    let candidates = set_int_range(lo, hi + 1);
    lemma_int_range(lo, hi + 1);
    let f = |k: int| choose|i: int| 0 <= i < edges.len() && #[trigger] edges[i].id@ == edge_id_for(k as nat);
    assert forall|k: int| candidates.contains(k) implies 0 <= #[trigger] f(k) < edges.len() && edges[f(k)].id@
        == edge_id_for(k as nat) by {
        assert(edge_id_used(edges, edge_id_for(k as nat)));
    }
    assert(vstd::relations::injective_on(f, candidates)) by {
        assert forall|a: int, b: int|
            candidates.contains(a) && candidates.contains(b) && #[trigger] f(a) == #[trigger] f(b) implies a
            == b by {
            lemma_edge_id_injective(a as nat, b as nat);
        }
    }
    let images = candidates.map(f);
    lemma_map_size(candidates, images, f);
    lemma_int_range(0, edges.len() as int);
    assert(images.subset_of(set_int_range(0, edges.len() as int)));
    lemma_len_subset(images, set_int_range(0, edges.len() as int));
}

fn edge_exists(edges: &Vec<FlowEdge>, id: &String) -> (r: bool)
    ensures
        r == edge_id_used(edges@, id@),
{
    let mut i: usize = 0;
    while i < edges.len()
        invariant
            0 <= i <= edges.len(),
            forall|j: int| 0 <= j < i ==> #[trigger] edges@[j].id@ != id@,
        decreases edges.len() - i,
    {
        if edges[i].id == *id {
            return true;
        }
        i = i + 1;
    }
    false
}

/// The id for a new edge: `edge-n` for the least `n`, counting from the
/// number of edges plus one, that no edge uses.
pub fn next_edge_id(edges: &Vec<FlowEdge>) -> (r: String)
    ensures
        is_next_edge_id(edges@, r@),
{
    let ghost m = edges@.len();
    let mut index: u128 = edges.len() as u128 + 1;
    loop
        invariant
            m == edges@.len(),
            m <= usize::MAX,
            m + 1 <= index <= 2 * m + 1,
            forall|k: nat| m + 1 <= k < index ==> edge_id_used(edges@, #[trigger] edge_id_for(k)),
        decreases 2 * m + 1 - index,
    {
        let mut id = "edge-".to_owned();
        proof {
            reveal_strlit("edge-");
        }
        push_decimal(&mut id, index);
        assert(id@ == edge_id_for(index as nat));
        if !edge_exists(edges, &id) {
            assert(is_next_edge_id(edges@, id@)) by {
                assert(id@ == edge_id_for(index as nat));
            }
            return id;
        }
        proof {
            assert forall|k: int| m + 1 <= k <= index implies edge_id_used(
                edges@,
                #[trigger] edge_id_for(k as nat),
            ) by {
                if k < index {
                    assert(edge_id_used(edges@, edge_id_for(k as nat)));
                }
            }
            lemma_used_ids_bound(edges@, m + 1 as int, index as int);
        }
        index = index + 1;
    }
}

/// Whether `i` is the index of the first node of `nodes` with the id `id`.
pub open spec fn is_first_node<P>(nodes: Seq<FlowNode<P>>, id: Seq<char>, i: int) -> bool {
    &&& 0 <= i < nodes.len()
    &&& nodes[i].id@ == id
    &&& forall|j: int| 0 <= j < i ==> #[trigger] nodes[j].id@ != id
}

/// Whether `i` is the index of the first port of `ports` with the id `id`.
pub open spec fn is_first_port(ports: Seq<FlowPort>, id: Seq<char>, i: int) -> bool {
    &&& 0 <= i < ports.len()
    &&& ports[i].id@ == id
    &&& forall|j: int| 0 <= j < i ==> #[trigger] ports[j].id@ != id
}

/// The direction of the port that `port` refers to, looking up the first
/// node with its node id and, in it, the first port with its port id;
/// `None` when there is no such node or port.
pub open spec fn spec_port_direction<P>(nodes: Seq<FlowNode<P>>, node_id: Seq<char>, port_id: Seq<char>) -> Option<
    PortDirection,
> {
    if exists|i: int| is_first_node(nodes, node_id, i) {
        let i = choose|i: int| is_first_node(nodes, node_id, i);
        let ports = nodes[i].ports@;
        if exists|j: int| is_first_port(ports, port_id, j) {
            let j = choose|j: int| is_first_port(ports, port_id, j);
            Some(ports[j].direction)
        } else {
            None
        }
    } else {
        None
    }
}

proof fn lemma_first_node_unique<P>(nodes: Seq<FlowNode<P>>, id: Seq<char>, a: int, b: int)
    requires
        is_first_node(nodes, id, a),
        is_first_node(nodes, id, b),
    ensures
        a == b,
{
    if a < b {
        assert(nodes[a].id@ != id);
    } else if b < a {
        assert(nodes[b].id@ != id);
    }
}

proof fn lemma_first_port_unique(ports: Seq<FlowPort>, id: Seq<char>, a: int, b: int)
    requires
        is_first_port(ports, id, a),
        is_first_port(ports, id, b),
    ensures
        a == b,
{
    if a < b {
        assert(ports[a].id@ != id);
    } else if b < a {
        assert(ports[b].id@ != id);
    }
}

/// The direction of the port that `port` refers to in `model`.
pub fn port_direction<P, V, Z>(model: &FlowModel<P, V, Z>, port: &PortRef) -> (r: Option<PortDirection>)
    ensures
        r == spec_port_direction(model.nodes@, port.node_id@, port.port_id@),
{
    let nodes = &model.nodes;
    let mut i: usize = 0;
    while i < nodes.len()
        invariant
            0 <= i <= nodes.len(),
            nodes@ == model.nodes@,
            forall|j: int| 0 <= j < i ==> #[trigger] nodes@[j].id@ != port.node_id@,
        decreases nodes.len() - i,
    {
        if nodes[i].id == port.node_id {
            assert(is_first_node(nodes@, port.node_id@, i as int));
            let ports = &nodes[i].ports;
            let mut k: usize = 0;
            while k < ports.len()
                invariant
                    0 <= k <= ports.len(),
                    i < nodes.len(),
                    nodes@ == model.nodes@,
                    ports@ == nodes@[i as int].ports@,
                    is_first_node(nodes@, port.node_id@, i as int),
                    forall|j: int| 0 <= j < k ==> #[trigger] ports@[j].id@ != port.port_id@,
                decreases ports.len() - k,
            {
                if ports[k].id == port.port_id {
                    proof {
                        assert(is_first_port(ports@, port.port_id@, k as int));
                        let c = choose|c: int| is_first_node(nodes@, port.node_id@, c);
                        lemma_first_node_unique(nodes@, port.node_id@, c, i as int);
                        let d = choose|d: int| is_first_port(ports@, port.port_id@, d);
                        lemma_first_port_unique(ports@, port.port_id@, d, k as int);
                        assert(nodes@[c].ports@ == ports@);
                        assert(spec_port_direction(nodes@, port.node_id@, port.port_id@) == Some(
                            ports@[k as int].direction,
                        ));
                    }
                    return Some(ports[k].direction);
                }
                k = k + 1;
            }
            proof {
                let c = choose|c: int| is_first_node(nodes@, port.node_id@, c);
                lemma_first_node_unique(nodes@, port.node_id@, c, i as int);
                assert(nodes@[c].ports@ == ports@);
                assert(!exists|j: int| is_first_port(ports@, port.port_id@, j));
                assert(spec_port_direction(nodes@, port.node_id@, port.port_id@) is None);
            }
            return None;
        }
        i = i + 1;
    }
    assert(!exists|j: int| is_first_node(nodes@, port.node_id@, j));
    None
}

/// What a click on a port leads to.
#[derive(Debug)]
pub enum PortClick {
    /// No connection was pending: the clicked port starts one.
    Started,
    /// The pending connection was started at the clicked port: it is
    /// dropped.
    Cancelled,
    /// The two ports are not one output and one input: no connection.
    Rejected { from: PortRef, to: PortRef, reason: String },
    /// The two ports form a connection from the output `from` to the input
    /// `to`, which the connection validator (if any) decides on.
    Validate { from: PortRef, to: PortRef },
}

/// Handles a click on the port `clicked`.
///
/// Without a pending connection, the click starts one. Otherwise the
/// pending connection ends: a click on its own start port cancels it; two
/// ports that are one output and one input are handed on for validation,
/// output first; any other pair is rejected.
pub fn click_port<P, V, Z>(model: &mut FlowModel<P, V, Z>, clicked: PortRef) -> (r: PortClick)
    ensures
        final(model).nodes == old(model).nodes,
        final(model).edges == old(model).edges,
        final(model).selected_node_id == old(model).selected_node_id,
        final(model).selected_edge_id == old(model).selected_edge_id,
        final(model).pan == old(model).pan,
        final(model).zoom == old(model).zoom,
        old(model).pending_connection is None ==> r is Started && final(model).pending_connection
            == Some(clicked),
        r matches PortClick::Validate { from, to } ==> spec_port_direction(
            old(model).nodes@,
            from.node_id@,
            from.port_id@,
        ) == Some(PortDirection::Output) && spec_port_direction(
            old(model).nodes@,
            to.node_id@,
            to.port_id@,
        ) == Some(PortDirection::Input),
        old(model).pending_connection matches Some(start) ==> {
            let from_dir = spec_port_direction(old(model).nodes@, start.node_id@, start.port_id@);
            let to_dir = spec_port_direction(old(model).nodes@, clicked.node_id@, clicked.port_id@);
            &&& final(model).pending_connection is None
            &&& (start.node_id@ == clicked.node_id@ && start.port_id@ == clicked.port_id@) ==> r is Cancelled
            &&& !(start.node_id@ == clicked.node_id@ && start.port_id@ == clicked.port_id@) ==> {
                if from_dir == Some(PortDirection::Output) && to_dir == Some(PortDirection::Input) {
                    r == (PortClick::Validate { from: start, to: clicked })
                } else if from_dir == Some(PortDirection::Input) && to_dir == Some(
                    PortDirection::Output,
                ) {
                    r == (PortClick::Validate { from: clicked, to: start })
                } else {
                    r matches PortClick::Rejected { from, to, reason } && from == start && to == clicked
                        && reason@ == "connection requires one Output and one Input"@
                }
            }
        },
{
    match model.pending_connection.take() {
        None => {
            model.pending_connection = Some(clicked);
            PortClick::Started
        },
        Some(start) => {
            if start == clicked {
                return PortClick::Cancelled;
            }
            let from_dir = port_direction(model, &start);
            let to_dir = port_direction(model, &clicked);
            match (from_dir, to_dir) {
                (Some(PortDirection::Output), Some(PortDirection::Input)) => PortClick::Validate {
                    from: start,
                    to: clicked,
                },
                (Some(PortDirection::Input), Some(PortDirection::Output)) => PortClick::Validate {
                    from: clicked,
                    to: start,
                },
                _ => {
                    proof {
                        reveal_strlit("connection requires one Output and one Input");
                    }
                    PortClick::Rejected {
                        from: start,
                        to: clicked,
                        reason: "connection requires one Output and one Input".to_owned(),
                    }
                },
            }
        },
    }
}

/// Ends a connection from `from` to `to` with the validator's `verdict`:
/// when it accepts, a new edge with the id [`next_edge_id`] gives is added
/// after the edges; when it refuses, nothing changes and the refusal's
/// reason is reported.
pub fn finish_connection<P, V, Z, Q>(
    model: &mut FlowModel<P, V, Z>,
    from: PortRef,
    to: PortRef,
    verdict: Result<(), String>,
) -> (r: FlowAction<Q>)
    ensures
        final(model).nodes == old(model).nodes,
        final(model).selected_node_id == old(model).selected_node_id,
        final(model).selected_edge_id == old(model).selected_edge_id,
        final(model).pending_connection == old(model).pending_connection,
        final(model).pan == old(model).pan,
        final(model).zoom == old(model).zoom,
        match verdict {
            Ok(()) => {
                &&& final(model).edges@.len() == old(model).edges@.len() + 1
                &&& final(model).edges@.subrange(0, old(model).edges@.len() as int) == old(model).edges@
                &&& is_next_edge_id(old(model).edges@, final(model).edges@.last().id@)
                &&& final(model).edges@.last().from_node@ == from.node_id@
                &&& final(model).edges@.last().from_port@ == from.port_id@
                &&& final(model).edges@.last().to_node@ == to.node_id@
                &&& final(model).edges@.last().to_port@ == to.port_id@
                &&& r matches FlowAction::ConnectionCreated { edge_id, from: f, to: t } && edge_id@
                    == final(model).edges@.last().id@ && f == from && t == to
            },
            Err(reason) => {
                &&& final(model).edges == old(model).edges
                &&& r == (FlowAction::<Q>::ConnectionRejected { from, to, reason })
            },
        },
{
    match verdict {
        Ok(()) => {
            let edge_id = next_edge_id(&model.edges);
            let edge = FlowEdge {
                id: edge_id.clone(),
                from_node: from.node_id.clone(),
                from_port: from.port_id.clone(),
                to_node: to.node_id.clone(),
                to_port: to.port_id.clone(),
            };
            let ghost before = model.edges@;
            model.edges.push(edge);
            assert(model.edges@.subrange(0, before.len() as int) =~= before);
            FlowAction::ConnectionCreated { edge_id, from, to }
        },
        Err(reason) => FlowAction::ConnectionRejected { from, to, reason },
    }
}

/// The edges of `edges` whose id is not `id`, in order.
pub open spec fn edges_without(edges: Seq<FlowEdge>, id: Seq<char>) -> Seq<FlowEdge> {
    edges.filter(|e: FlowEdge| e.id@ != id)
}

/// Deletes every edge with the id `edge_id`.
pub fn delete_edge<P, V, Z, Q>(model: &mut FlowModel<P, V, Z>, edge_id: String) -> (r: FlowAction<Q>)
    ensures
        final(model).edges@ == edges_without(old(model).edges@, edge_id@),
        final(model).nodes == old(model).nodes,
        final(model).selected_node_id == old(model).selected_node_id,
        final(model).selected_edge_id == old(model).selected_edge_id,
        final(model).pending_connection == old(model).pending_connection,
        final(model).pan == old(model).pan,
        final(model).zoom == old(model).zoom,
        r == (FlowAction::<Q>::EdgeDeleted { edge_id }),
{
    let ghost all = model.edges@;
    let mut kept: Vec<FlowEdge> = Vec::new();
    let mut old_edges: Vec<FlowEdge> = Vec::new();
    std::mem::swap(&mut old_edges, &mut model.edges);
    let mut i: usize = 0;
    assert(all.subrange(0, 0) =~= Seq::<FlowEdge>::empty());
    while i < old_edges.len()
        invariant
            0 <= i <= old_edges.len(),
            old_edges@ == all,
            kept@ == edges_without(all.subrange(0, i as int), edge_id@),
        decreases old_edges.len() - i,
    {
        let ghost prefix = all.subrange(0, i as int);
        assert(all.subrange(0, i + 1) =~= prefix.push(all[i as int]));
        proof {
            prefix.lemma_filter_push(all[i as int], |e: FlowEdge| e.id@ != edge_id@);
        }
        if !string_eq_str(&old_edges[i].id, edge_id.as_str()) {
            kept.push(old_edges[i].clone());
        }
        i = i + 1;
    }
    assert(all.subrange(0, all.len() as int) =~= all);
    model.edges = kept;
    FlowAction::EdgeDeleted { edge_id }
}

/// Selects the node `node_id`, clearing the edge selection.
pub fn select_node<P, V, Z, Q>(model: &mut FlowModel<P, V, Z>, node_id: &String) -> (r: FlowAction<Q>)
    ensures
        final(model).selected_node_id matches Some(id) && id@ == node_id@,
        final(model).selected_edge_id is None,
        final(model).nodes == old(model).nodes,
        final(model).edges == old(model).edges,
        final(model).pending_connection == old(model).pending_connection,
        final(model).pan == old(model).pan,
        final(model).zoom == old(model).zoom,
        r matches FlowAction::NodeSelected { node_id: id } && id@ == node_id@,
{
    model.selected_node_id = Some(node_id.clone());
    model.selected_edge_id = None;
    FlowAction::NodeSelected { node_id: node_id.clone() }
}

/// Selects the edge `edge_id`, clearing the node selection.
pub fn select_edge<P, V, Z, Q>(model: &mut FlowModel<P, V, Z>, edge_id: &String) -> (r: FlowAction<Q>)
    ensures
        final(model).selected_edge_id matches Some(id) && id@ == edge_id@,
        final(model).selected_node_id is None,
        final(model).nodes == old(model).nodes,
        final(model).edges == old(model).edges,
        final(model).pending_connection == old(model).pending_connection,
        final(model).pan == old(model).pan,
        final(model).zoom == old(model).zoom,
        r matches FlowAction::EdgeSelected { edge_id: id } && id@ == edge_id@,
{
    model.selected_node_id = None;
    model.selected_edge_id = Some(edge_id.clone());
    FlowAction::EdgeSelected { edge_id: edge_id.clone() }
}

/// Clears the node and edge selection.
pub fn clear_selection<P, V, Z, Q>(model: &mut FlowModel<P, V, Z>) -> (r: FlowAction<Q>)
    ensures
        final(model).selected_node_id is None,
        final(model).selected_edge_id is None,
        final(model).nodes == old(model).nodes,
        final(model).edges == old(model).edges,
        final(model).pending_connection == old(model).pending_connection,
        final(model).pan == old(model).pan,
        final(model).zoom == old(model).zoom,
        r == FlowAction::<Q>::SelectionCleared,
{
    model.selected_node_id = None;
    model.selected_edge_id = None;
    FlowAction::SelectionCleared
}

/// Whether `action` selects a node or an edge.
pub open spec fn selects_item<Q>(action: FlowAction<Q>) -> bool {
    action is NodeSelected || action is EdgeSelected
}

/// Whether a click on the canvas background clears the selection: it does
/// when no port was clicked and none of the frame's `actions` so far
/// selected a node or an edge.
pub fn background_click_clears<Q>(canvas_clicked: bool, port_clicked: bool, actions: &Vec<FlowAction<Q>>) -> (r:
    bool)
    ensures
        r == (canvas_clicked && !port_clicked && !exists|i: int|
            0 <= i < actions@.len() && selects_item(#[trigger] actions@[i])),
{
    if !canvas_clicked || port_clicked {
        return false;
    }
    let mut i: usize = 0;
    while i < actions.len()
        invariant
            0 <= i <= actions.len(),
            forall|j: int| 0 <= j < i ==> !selects_item(#[trigger] actions@[j]),
        decreases actions.len() - i,
    {
        match &actions[i] {
            FlowAction::NodeSelected { .. } | FlowAction::EdgeSelected { .. } => {
                return false;
            },
            _ => {},
        }
        i = i + 1;
    }
    true
}

/// A generated edge id is never one that an edge already has.
pub proof fn law_next_edge_id_is_fresh(edges: Seq<FlowEdge>, id: Seq<char>)
    requires
        is_next_edge_id(edges, id),
    ensures
        !edge_id_used(edges, id),
{
}

/// Adding an edge with a generated id keeps edge ids unique.
pub proof fn law_connection_keeps_edge_ids_unique(edges: Seq<FlowEdge>, edge: FlowEdge)
    requires
        edge_ids_unique(edges),
        is_next_edge_id(edges, edge.id@),
    ensures
        edge_ids_unique(edges.push(edge)),
{
    let s = edges.push(edge);
    assert forall|i: int, j: int|
        0 <= i < s.len() && 0 <= j < s.len() && i != j implies #[trigger] s[i].id@ != #[trigger] s[j].id@ by {
        if i == edges.len() {
            assert(s[j] == edges[j]);
        } else if j == edges.len() {
            assert(s[i] == edges[i]);
        } else {
            assert(s[i] == edges[i] && s[j] == edges[j]);
        }
    }
}

/// After an edge id is deleted, no edge has it.
pub proof fn law_deleted_edge_is_gone(edges: Seq<FlowEdge>, id: Seq<char>)
    ensures
        !edge_id_used(edges_without(edges, id), id),
{
    let kept = edges_without(edges, id);
    broadcast use vstd::seq_lib::group_filter_ensures;

}

} // verus!
