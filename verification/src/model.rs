//! The mathematical model of a graph, and what holds of it.
//!
//! The executable [`Graph`](crate::graph::Graph) is specified against the
//! [`GraphView`] defined here: a sequence of vertices and a square table of
//! motions. The proof functions of this module state the laws of the model.

use vstd::prelude::*;
use crate::error::GraphError;
use crate::motion::Motion;
use crate::vertex::Vertex;

verus! {

/// The most vertices a graph can hold. The edge table has this many rows and
/// columns, however many vertices there are.
pub const MAX_VERT: usize = 50;

/// One entry of a list of connections: the ids `from` and `to`, in this
/// order, and the motion that leads from the first to the second.
pub type Link = (usize, usize, Motion);

/// What a graph is, mathematically: its vertices in insertion order, and the
/// table of motions, read as `table[from][to]`.
pub struct GraphView {
    pub vertices: Seq<Vertex>,
    pub table: Seq<Seq<Motion>>,
}

/// The table in which no pair is connected.
pub open spec fn blank_table() -> Seq<Seq<Motion>> {
    Seq::new(MAX_VERT as nat, |from: int| Seq::new(MAX_VERT as nat, |to: int| Motion::Stop))
}

/// Whether the pair (`from`, `to`) is a cell of the table.
pub open spec fn in_table(from: int, to: int) -> bool {
    0 <= from < MAX_VERT && 0 <= to < MAX_VERT
}

/// The error that a query or an assignment at the pair (`from`, `to`) meets:
/// that of `from` if it lies outside the table, else that of `to`, else none.
pub open spec fn pair_fault(from: usize, to: usize) -> Option<GraphError> {
    if from >= MAX_VERT {
        Some(GraphError::OutOfRange { id: from, bound: MAX_VERT })
    } else if to >= MAX_VERT {
        Some(GraphError::OutOfRange { id: to, bound: MAX_VERT })
    } else {
        None
    }
}

/// Whether the link is for the pair (`from`, `to`).
pub open spec fn joins(link: Link, from: int, to: int) -> bool {
    link.0 == from && link.1 == to
}

/// Whether some link of the list is for the pair (`from`, `to`).
pub open spec fn names(links: Seq<Link>, from: int, to: int) -> bool {
    exists|k: int| 0 <= k < links.len() && joins(#[trigger] links[k], from, to)
}

/// The motion that `links` gives the pair (`from`, `to`): that of the last
/// link for the pair, and none where no link names the pair.
pub open spec fn label_in(links: Seq<Link>, from: int, to: int) -> Option<Motion>
    decreases links.len(),
{
    if links.len() == 0 {
        None
    } else if joins(links.last(), from, to) {
        Some(links.last().2)
    } else {
        label_in(links.drop_last(), from, to)
    }
}

/// Every link lies inside the table.
pub open spec fn links_fit(links: Seq<Link>) -> bool {
    forall|k: int|
        0 <= k < links.len() ==> pair_fault((#[trigger] links[k]).0, links[k].1) is None
}

/// Every link joins two ids below `count`.
pub open spec fn links_within(links: Seq<Link>, count: int) -> bool {
    forall|k: int| 0 <= k < links.len() ==> (#[trigger] links[k]).0 < count && links[k].1 < count
}

/// The error that a list of links meets: that of its first link that lies
/// outside the table, and none where every link fits.
pub open spec fn links_fault(links: Seq<Link>) -> Option<GraphError>
    decreases links.len(),
{
    if links.len() == 0 {
        None
    } else if pair_fault(links.first().0, links.first().1) is Some {
        pair_fault(links.first().0, links.first().1)
    } else {
        links_fault(links.drop_first())
    }
}

impl GraphView {
    /// The table is `MAX_VERT` by `MAX_VERT`, there are at most `MAX_VERT`
    /// vertices, and each vertex carries its own index as its id.
    pub open spec fn wf(self) -> bool {
        &&& self.vertices.len() <= MAX_VERT
        &&& forall|i: int| 0 <= i < self.vertices.len() ==> (#[trigger] self.vertices[i]).id == i
        &&& self.table.len() == MAX_VERT
        &&& forall|from: int|
            0 <= from < MAX_VERT ==> (#[trigger] self.table[from]).len() == MAX_VERT
    }

    /// No vertices, and every pair unconnected.
    pub open spec fn empty() -> GraphView {
        GraphView { vertices: Seq::empty(), table: blank_table() }
    }

    /// The graph with `v` appended to its vertices.
    pub open spec fn with_vertex(self, v: Vertex) -> GraphView {
        GraphView { vertices: self.vertices.push(v), table: self.table }
    }

    /// The graph in which the pair (`from`, `to`) carries `motion` and every
    /// other pair is as before.
    pub open spec fn with_edge(self, from: int, to: int, motion: Motion) -> GraphView {
        GraphView {
            vertices: self.vertices,
            table: self.table.update(from, self.table[from].update(to, motion)),
        }
    }

    /// The graph after the links have been applied in order: a pair that a
    /// link names carries the motion of the last such link, every other pair
    /// is as before.
    pub open spec fn with_links(self, links: Seq<Link>) -> GraphView {
        GraphView {
            vertices: self.vertices,
            table: Seq::new(
                MAX_VERT as nat,
                |from: int|
                    Seq::new(
                        MAX_VERT as nat,
                        |to: int|
                            match label_in(links, from, to) {
                                Some(motion) => motion,
                                None => self.table[from][to],
                            },
                    ),
            ),
        }
    }

    /// The error that appending `v` meets, if any: the graph is full, or `v`
    /// does not carry the next free index as its id.
    pub open spec fn vertex_fault(self, v: Vertex) -> Option<GraphError> {
        if self.vertices.len() >= MAX_VERT {
            Some(GraphError::Full)
        } else if v.id != self.vertices.len() {
            Some(GraphError::IdMismatch { id: v.id, expected: self.vertices.len() as usize })
        } else {
            None
        }
    }

    /// Whether the pair is connected: whether its cell holds anything but
    /// `Stop`.
    pub open spec fn connected(self, from: int, to: int) -> bool {
        self.table[from][to] != Motion::Stop
    }

    /// Whether the pair is connected although one of its ids names no vertex.
    pub open spec fn dangling(self, from: int, to: int) -> bool {
        &&& in_table(from, to)
        &&& self.connected(from, to)
        &&& (from >= self.vertices.len() || to >= self.vertices.len())
    }

    /// No pair dangles: every connection joins two vertices of the graph.
    pub open spec fn closed(self) -> bool {
        forall|from: int, to: int| !#[trigger] self.dangling(from, to)
    }
}

/// In a well-formed graph, looking a vertex up under its own id finds that
/// vertex.
pub proof fn lemma_lookup_own_id(graph: GraphView, i: int)
    requires
        graph.wf(),
        0 <= i < graph.vertices.len(),
    ensures
        0 <= graph.vertices[i].id < graph.vertices.len(),
        graph.vertices[graph.vertices[i].id as int] == graph.vertices[i],
{
}

/// An assignment inside the table keeps a graph well-formed, gives the pair
/// it names its motion, and changes no other pair: in particular (`to`,
/// `from`) keeps its label where the two ids differ.
pub proof fn lemma_with_edge(graph: GraphView, from: int, to: int, motion: Motion)
    requires
        graph.wf(),
        in_table(from, to),
    ensures
        graph.with_edge(from, to, motion).wf(),
        graph.with_edge(from, to, motion).vertices == graph.vertices,
        graph.with_edge(from, to, motion).table[from][to] == motion,
        forall|a: int, b: int|
            in_table(a, b) && !(a == from && b == to) ==> #[trigger] graph.with_edge(
                from,
                to,
                motion,
            ).table[a][b] == graph.table[a][b],
        from != to ==> graph.with_edge(from, to, motion).table[to][from] == graph.table[to][from],
{
}

/// A list gives a pair a motion exactly when one of its links names the pair.
pub proof fn lemma_label_names(links: Seq<Link>, from: int, to: int)
    ensures
        label_in(links, from, to) is Some <==> names(links, from, to),
    decreases links.len(),
{
    if links.len() > 0 {
        let front = links.drop_last();
        lemma_label_names(front, from, to);
        if names(links, from, to) && !joins(links.last(), from, to) {
            // A link for the pair that is not the last one is a link of `front`.
            let k = choose|k: int| 0 <= k < links.len() && joins(#[trigger] links[k], from, to);
            assert(joins(front[k], from, to));
        }
    }
}

/// The motion that a list gives a pair is that of the last link for the pair:
/// of the `k`-th, where no later link is for the same pair.
pub proof fn lemma_label_of_last(links: Seq<Link>, k: int)
    requires
        0 <= k < links.len(),
        forall|j: int|
            k < j < links.len() ==> !joins(
                #[trigger] links[j],
                links[k].0 as int,
                links[k].1 as int,
            ),
    ensures
        label_in(links, links[k].0 as int, links[k].1 as int) == Some(links[k].2),
    decreases links.len(),
{
    if k < links.len() - 1 {
        let front = links.drop_last();
        assert forall|j: int| k < j < front.len() implies !joins(
            #[trigger] front[j],
            front[k].0 as int,
            front[k].1 as int,
        ) by {
            assert(front[j] == links[j]);
        }
        lemma_label_of_last(front, k);
    }
}

/// Applying links keeps a graph well-formed and its vertices as they are. A
/// pair that no link names is as before, and a pair that one names carries
/// the motion that the list gives it.
pub proof fn lemma_with_links(graph: GraphView, links: Seq<Link>)
    requires
        graph.wf(),
    ensures
        graph.with_links(links).wf(),
        graph.with_links(links).vertices == graph.vertices,
        forall|from: int, to: int|
            in_table(from, to) && !names(links, from, to) ==> #[trigger] graph.with_links(
                links,
            ).table[from][to] == graph.table[from][to],
        forall|from: int, to: int|
            in_table(from, to) && names(links, from, to) ==> label_in(links, from, to) == Some(
                #[trigger] graph.with_links(links).table[from][to],
            ),
{
    let linked = graph.with_links(links);
    assert forall|from: int, to: int|
        in_table(from, to) && !names(links, from, to) implies #[trigger] linked.table[from][to]
        == graph.table[from][to] by {
        lemma_label_names(links, from, to);
    }
    assert forall|from: int, to: int|
        in_table(from, to) && names(links, from, to) implies label_in(links, from, to) == Some(
        #[trigger] linked.table[from][to],
    ) by {
        lemma_label_names(links, from, to);
    }
}

/// Applying no links changes nothing.
pub proof fn lemma_with_no_links(graph: GraphView)
    requires
        graph.wf(),
    ensures
        graph.with_links(Seq::empty()) == graph,
{
    assert(graph.with_links(Seq::empty()).table =~~= graph.table);
}

/// Applying one more link is one more assignment: the effect of a list can
/// be built up link by link.
pub proof fn lemma_with_links_push(graph: GraphView, links: Seq<Link>, link: Link)
    requires
        graph.wf(),
        pair_fault(link.0, link.1) is None,
    ensures
        graph.with_links(links.push(link)) == graph.with_links(links).with_edge(
            link.0 as int,
            link.1 as int,
            link.2,
        ),
{
    let longer = links.push(link);
    assert(longer.drop_last() =~= links);
    assert(graph.with_links(longer).table =~~= graph.with_links(links).with_edge(
        link.0 as int,
        link.1 as int,
        link.2,
    ).table);
}

/// Links that join ids below the number of vertices leave a graph without
/// dangling connections without them.
pub proof fn lemma_links_within_closed(graph: GraphView, links: Seq<Link>)
    requires
        graph.wf(),
        graph.closed(),
        links_within(links, graph.vertices.len() as int),
    ensures
        graph.with_links(links).closed(),
{
    let linked = graph.with_links(links);
    assert forall|from: int, to: int| !#[trigger] linked.dangling(from, to) by {
        if in_table(from, to) {
            lemma_label_names(links, from, to);
            if !names(links, from, to) {
                assert(!graph.dangling(from, to));
            }
        }
    }
}

/// Where every link before the `k`-th fits, the list's error is the `k`-th
/// link's error if it has one, and else that of the links after it.
pub proof fn lemma_links_fault_at(links: Seq<Link>, k: int)
    requires
        0 <= k < links.len(),
        links_fit(links.take(k)),
    ensures
        pair_fault(links[k].0, links[k].1) is Some ==> links_fault(links) == pair_fault(
            links[k].0,
            links[k].1,
        ),
        pair_fault(links[k].0, links[k].1) is None ==> links_fault(links) == links_fault(
            links.skip(k + 1),
        ),
    decreases k,
{
    let rest = links.drop_first();
    if k == 0 {
        assert(rest =~= links.skip(1));
    } else {
        assert(links.take(k)[0] == links[0]);
        assert forall|j: int| 0 <= j < k - 1 implies pair_fault(
            (#[trigger] rest.take(k - 1)[j]).0,
            rest.take(k - 1)[j].1,
        ) is None by {
            assert(rest.take(k - 1)[j] == links.take(k)[j + 1]);
        }
        lemma_links_fault_at(rest, k - 1);
        assert(rest.skip(k) =~= links.skip(k + 1));
    }
}

/// A list of links meets no error exactly when every link fits.
pub proof fn lemma_links_fit_no_fault(links: Seq<Link>)
    ensures
        links_fit(links) <==> links_fault(links) is None,
    decreases links.len(),
{
    if links.len() > 0 {
        let rest = links.drop_first();
        lemma_links_fit_no_fault(rest);
        if links_fit(links) {
            assert forall|j: int| 0 <= j < rest.len() implies pair_fault(
                (#[trigger] rest[j]).0,
                rest[j].1,
            ) is None by {
                assert(rest[j] == links[j + 1]);
            }
        }
        if links_fault(links) is None {
            assert forall|j: int| 0 <= j < links.len() implies pair_fault(
                (#[trigger] links[j]).0,
                links[j].1,
            ) is None by {
                if j > 0 {
                    assert(links[j] == rest[j - 1]);
                }
            }
        }
    }
}

} // verus!
