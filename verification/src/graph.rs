//! The navigation graph: a bounded list of vertices and a full table of
//! directed, motion-labelled edges between them.

use vstd::prelude::*;
use crate::error::GraphError;
use crate::model::{
    blank_table, lemma_links_fault_at, lemma_links_fit_no_fault, lemma_with_links_push,
    links_fault, links_fit, pair_fault, GraphView, Link, MAX_VERT,
};
use crate::motion::{Edge, Motion};
use crate::vertex::Vertex;

verus! {

/// A navigation graph: up to `MAX_VERT` vertices, each under its index as
/// id, and a motion for every ordered pair of ids below `MAX_VERT`.
///
/// The table is directed: the pair (`a`, `b`) and the pair (`b`, `a`) are
/// two cells, and one may be connected while the other is not. A cell can be
/// labelled before, or without, a vertex for its ids.
#[derive(Debug)]
pub struct Graph {
    vertices: Vec<Vertex>,
    edges: [[Edge; MAX_VERT]; MAX_VERT],
}

impl View for Graph {
    type V = GraphView;

    closed spec fn view(&self) -> GraphView {
        GraphView {
            vertices: self.vertices@,
            table: Seq::new(
                MAX_VERT as nat,
                |from: int| Seq::new(MAX_VERT as nat, |to: int| self.edges[from][to].motion),
            ),
        }
    }
}

impl Clone for Graph {
    /// A graph with the same vertices and the same table.
    fn clone(&self) -> (copy: Graph)
        ensures
            copy@ == self@,
    {
        proof {
            use_type_invariant(self);
        }
        Graph { vertices: self.vertices.clone(), edges: self.edges }
    }
}

impl Graph {
    /// What holds of every graph: see [`GraphView::wf`].
    #[verifier::type_invariant]
    pub open spec fn wf(&self) -> bool {
        self@.wf()
    }

    /// An empty graph: no vertices, and every cell of the table `Stop`.
    pub fn new() -> (graph: Graph)
        ensures
            graph@ == GraphView::empty(),
            graph.wf(),
    {
        let graph = Graph {
            vertices: Vec::new(),
            edges: [[Edge::new(Motion::Stop); MAX_VERT]; MAX_VERT],
        };
        assert(graph@.table =~~= blank_table());
        graph
    }

    /// Appends `v` where that is known to succeed.
    pub(crate) fn push_vertex(&mut self, v: Vertex)
        requires
            old(self)@.vertex_fault(v) is None,
        ensures
            final(self).wf(),
            final(self)@ == old(self)@.with_vertex(v),
    {
        proof {
            use_type_invariant(&*self);
        }
        // The list is taken out while it grows, so that the graph as a whole
        // is never seen half changed.
        let mut vertices = Vec::new();
        std::mem::swap(&mut vertices, &mut self.vertices);
        vertices.push(v);
        self.vertices = vertices;
    }

    /// Labels a pair that is known to lie inside the table.
    pub(crate) fn put_edge(&mut self, from: usize, to: usize, motion: Motion)
        requires
            from < MAX_VERT,
            to < MAX_VERT,
        ensures
            final(self).wf(),
            final(self)@ == old(self)@.with_edge(from as int, to as int, motion),
    {
        proof {
            use_type_invariant(&*self);
        }
        self.edges[from][to] = Edge::new(motion);
        assert(self@.table =~~= old(self)@.with_edge(from as int, to as int, motion).table);
    }

    /// Applies links that are known to lie inside the table, in order.
    pub(crate) fn link_all(&mut self, links: &[Link])
        requires
            links_fit(links@),
        ensures
            final(self).wf(),
            final(self)@ == old(self)@.with_links(links@),
    {
        proof {
            use_type_invariant(&*self);
            assert(self@.table =~~= self@.with_links(links@.take(0)).table);
        }
        let mut k: usize = 0;
        while k < links.len()
            invariant
                k <= links.len(),
                links_fit(links@),
                self.wf(),
                self@ == old(self)@.with_links(links@.take(k as int)),
            decreases links.len() - k,
        {
            let (from, to, motion) = links[k];
            self.put_edge(from, to, motion);
            proof {
                lemma_with_links_push(old(self)@, links@.take(k as int), links@[k as int]);
                assert(links@.take(k as int).push(links@[k as int]) =~= links@.take(k + 1));
            }
            k += 1;
        }
        proof {
            assert(links@.take(k as int) =~= links@);
        }
    }

    /// Appends `v`, which must carry the next free index as its id.
    ///
    /// Refused, with the graph unchanged, when the graph is full or the id is
    /// another.
    pub fn add_vertex(&mut self, v: Vertex) -> (done: Result<(), GraphError>)
        ensures
            final(self).wf(),
            match old(self)@.vertex_fault(v) {
                None => done is Ok && final(self)@ == old(self)@.with_vertex(v),
                Some(e) => done == Err::<(), GraphError>(e) && final(self)@ == old(self)@,
            },
    {
        proof {
            use_type_invariant(&*self);
        }
        let count = self.vertices.len();
        if count >= MAX_VERT {
            return Err(GraphError::Full);
        }
        if v.id != count {
            return Err(GraphError::IdMismatch { id: v.id, expected: count });
        }
        self.push_vertex(v);
        Ok(())
    }

    /// Labels the pair (`from`, `to`) with `motion`, whether or not vertices
    /// with these ids exist. No other pair changes: (`to`, `from`) keeps its
    /// label.
    ///
    /// Refused, with the graph unchanged, when an id lies outside the table.
    pub fn set_edge(&mut self, from: usize, to: usize, motion: Motion) -> (done: Result<
        (),
        GraphError,
    >)
        ensures
            final(self).wf(),
            match pair_fault(from, to) {
                None => done is Ok && final(self)@ == old(self)@.with_edge(
                    from as int,
                    to as int,
                    motion,
                ),
                Some(e) => done == Err::<(), GraphError>(e) && final(self)@ == old(self)@,
            },
            forall|a: int, b: int|
                0 <= a < MAX_VERT && 0 <= b < MAX_VERT && !(a == from && b == to)
                    ==> final(self)@.table[a][b] == old(self)@.table[a][b],
    {
        proof {
            use_type_invariant(&*self);
        }
        if from >= MAX_VERT {
            return Err(GraphError::OutOfRange { id: from, bound: MAX_VERT });
        }
        if to >= MAX_VERT {
            return Err(GraphError::OutOfRange { id: to, bound: MAX_VERT });
        }
        self.put_edge(from, to, motion);
        Ok(())
    }

    /// Applies the links in order, as `set_edge` would one by one.
    ///
    /// Refused as a whole, with the graph unchanged, when any link lies
    /// outside the table; the error is that of the first such link.
    pub fn connect(&mut self, links: &[Link]) -> (done: Result<(), GraphError>)
        ensures
            final(self).wf(),
            match links_fault(links@) {
                None => done is Ok && final(self)@ == old(self)@.with_links(links@),
                Some(e) => done == Err::<(), GraphError>(e) && final(self)@ == old(self)@,
            },
    {
        proof {
            use_type_invariant(&*self);
        }
        let mut k: usize = 0;
        while k < links.len()
            invariant
                k <= links.len(),
                links_fit(links@.take(k as int)),
                self.wf(),
                self@ == old(self)@,
            decreases links.len() - k,
        {
            let (from, to, _) = links[k];
            proof {
                lemma_links_fault_at(links@, k as int);
            }
            if from >= MAX_VERT {
                return Err(GraphError::OutOfRange { id: from, bound: MAX_VERT });
            }
            if to >= MAX_VERT {
                return Err(GraphError::OutOfRange { id: to, bound: MAX_VERT });
            }
            k += 1;
        }
        proof {
            assert(links@.take(k as int) =~= links@);
            lemma_links_fit_no_fault(links@);
        }
        self.link_all(links);
        Ok(())
    }

    /// The number of vertices.
    pub fn vertex_count(&self) -> (count: usize)
        ensures
            count == self@.vertices.len(),
            count <= MAX_VERT,
    {
        proof {
            use_type_invariant(self);
        }
        self.vertices.len()
    }

    /// The vertices, in id order.
    pub fn vertices(&self) -> (all: &[Vertex])
        ensures
            all@ == self@.vertices,
    {
        self.vertices.as_slice()
    }

    /// The vertex with the given id, which is the one at that index.
    pub fn vertex_at(&self, id: usize) -> (found: Result<Vertex, GraphError>)
        ensures
            id < self@.vertices.len() ==> found == Ok::<Vertex, GraphError>(
                self@.vertices[id as int],
            ) && found->Ok_0.id == id,
            id >= self@.vertices.len() ==> found == Err::<Vertex, GraphError>(
                GraphError::OutOfRange { id, bound: self@.vertices.len() as usize },
            ),
    {
        proof {
            use_type_invariant(self);
        }
        if id < self.vertices.len() {
            Ok(self.vertices[id])
        } else {
            Err(GraphError::OutOfRange { id, bound: self.vertices.len() })
        }
    }

    /// The motion that leads from `from` to `to`; `Stop` where the pair is
    /// not connected, also where no vertex has been added under an id.
    pub fn edge(&self, from: usize, to: usize) -> (found: Result<Motion, GraphError>)
        ensures
            match pair_fault(from, to) {
                None => found == Ok::<Motion, GraphError>(self@.table[from as int][to as int]),
                Some(e) => found == Err::<Motion, GraphError>(e),
            },
    {
        if from >= MAX_VERT {
            return Err(GraphError::OutOfRange { id: from, bound: MAX_VERT });
        }
        if to >= MAX_VERT {
            return Err(GraphError::OutOfRange { id: to, bound: MAX_VERT });
        }
        Ok(self.edges[from][to].motion)
    }

    /// Whether the pair is connected: whether its motion is anything but
    /// `Stop`.
    pub fn has_edge(&self, from: usize, to: usize) -> (found: Result<bool, GraphError>)
        ensures
            match pair_fault(from, to) {
                None => found == Ok::<bool, GraphError>(
                    self@.table[from as int][to as int] != Motion::Stop,
                ),
                Some(e) => found == Err::<bool, GraphError>(e),
            },
    {
        match self.edge(from, to) {
            Ok(motion) => Ok(motion != Motion::Stop),
            Err(e) => Err(e),
        }
    }

    /// Looks for a dangling connection: a pair that is connected although
    /// one of its ids names no vertex of the graph. The table is read row by
    /// row, and the first such pair is returned; none means that every
    /// connection joins two vertices.
    pub fn first_dangling(&self) -> (found: Option<(usize, usize)>)
        ensures
            match found {
                None => self@.closed(),
                Some((from, to)) => {
                    &&& self@.dangling(from as int, to as int)
                    &&& forall|a: int, b: int|
                        a < from || (a == from && b < to) ==> !#[trigger] self@.dangling(a, b)
                },
            },
    {
        let count = self.vertices.len();
        let mut from: usize = 0;
        while from < MAX_VERT
            invariant
                from <= MAX_VERT,
                count == self@.vertices.len(),
                forall|a: int, b: int| a < from ==> !#[trigger] self@.dangling(a, b),
            decreases MAX_VERT - from,
        {
            let mut to: usize = 0;
            while to < MAX_VERT
                invariant
                    from < MAX_VERT,
                    to <= MAX_VERT,
                    count == self@.vertices.len(),
                    forall|a: int, b: int|
                        a < from || (a == from && b < to) ==> !#[trigger] self@.dangling(a, b),
                decreases MAX_VERT - to,
            {
                if self.edges[from][to].motion != Motion::Stop && (from >= count || to >= count) {
                    return Some((from, to));
                }
                to += 1;
            }
            from += 1;
        }
        None
    }
}

} // verus!
