//! The levels of the game: their positions and connections as tables, and
//! the graph that each table describes.

use vstd::prelude::*;
use crate::graph::Graph;
use crate::model::{
    in_table, lemma_links_within_closed, lemma_with_links, lemma_with_no_links, names, GraphView,
    Link, MAX_VERT,
};
use crate::motion::Motion;
use crate::vertex::{Vertex, STEPS_PER_UNIT, TILE_SIZE};

verus! {

/// The positions of level 0, the test level, in world coordinates. The
/// `k`-th entry is the vertex with id `k`.
pub const LEVEL_ZERO_SPOTS: [(i64, i64); 3] = [
    (-224 * STEPS_PER_UNIT, 32 * STEPS_PER_UNIT),
    (208 * STEPS_PER_UNIT, 32 * STEPS_PER_UNIT),
    (256 * STEPS_PER_UNIT, 96 * STEPS_PER_UNIT),
];

/// The connections of level 0.
pub const LEVEL_ZERO_LINKS: [Link; 4] = [
    (0, 1, Motion::Right),
    (1, 0, Motion::Left),
    (1, 2, Motion::JumpRight),
    (2, 1, Motion::Left),
];

/// The positions of level 1 in tile coordinates, counted in steps of the
/// coordinate grid: `(8, 21)` is the tile position (4, 10.5). The `k`-th entry
/// is the vertex with id `k`.
pub const LEVEL_ONE_SPOTS: [(i32, i32); 30] = [
    // the starting panel
    (8, 21),
    (-8, 21),
    // on the two columns
    (13, 25),
    (-13, 25),
    // between the columns and the breakable objects
    (19, 21),
    (-19, 21),
    // outside of the breakable objects
    (27, 21),
    (-27, 21),
    // on the bottom ledges, inner and outer
    (31, 17),
    (-31, 17),
    (37, 17),
    (-37, 17),
    // on the enemy panels
    (41, 23),
    (-41, 23),
    (49, 23),
    (-49, 23),
    // on the lower panels
    (45, 13),
    (-45, 13),
    (51, 13),
    (-51, 13),
    // along the floors, from the walls to the middle
    (55, 7),
    (-55, 7),
    (42, 7),
    (-42, 7),
    (33, 7),
    (-33, 7),
    (19, 7),
    (-19, 7),
    (7, 7),
    (-7, 7),
];

/// The connections of level 1.
pub const LEVEL_ONE_LINKS: [Link; 76] = [
    (0, 1, Motion::Left),
    (1, 0, Motion::Right),
    (1, 3, Motion::JumpLeft),
    (3, 1, Motion::Right),
    (0, 2, Motion::JumpRight),
    (2, 0, Motion::Left),
    (2, 4, Motion::Right),
    (4, 2, Motion::JumpLeft),
    (0, 4, Motion::JumpRight),
    (4, 0, Motion::JumpLeft),
    (3, 5, Motion::Left),
    (5, 3, Motion::JumpRight),
    (1, 5, Motion::JumpLeft),
    (5, 1, Motion::JumpRight),
    (4, 6, Motion::Right),
    (6, 4, Motion::Left),
    (5, 7, Motion::Left),
    (7, 5, Motion::Right),
    (6, 8, Motion::Right),
    (8, 6, Motion::JumpLeft),
    (7, 9, Motion::Left),
    (9, 7, Motion::JumpRight),
    (6, 10, Motion::Right),
    (8, 10, Motion::Right),
    (10, 8, Motion::Left),
    (7, 11, Motion::Left),
    (9, 11, Motion::Left),
    (11, 9, Motion::Right),
    (10, 12, Motion::JumpRight),
    (12, 10, Motion::Left),
    (12, 6, Motion::JumpLeft),
    (11, 13, Motion::JumpLeft),
    (13, 11, Motion::Right),
    (13, 7, Motion::JumpRight),
    (12, 14, Motion::Right),
    (14, 12, Motion::Left),
    (13, 15, Motion::Left),
    (15, 13, Motion::Right),
    (10, 16, Motion::Right),
    (16, 10, Motion::JumpLeft),
    (11, 17, Motion::Left),
    (17, 11, Motion::JumpRight),
    (16, 18, Motion::Right),
    (18, 16, Motion::Left),
    (17, 19, Motion::Left),
    (19, 17, Motion::Right),
    (18, 20, Motion::Right),
    (20, 18, Motion::JumpLeft),
    (14, 20, Motion::Right),
    (20, 22, Motion::Left),
    (22, 20, Motion::Right),
    (16, 22, Motion::Left),
    (22, 16, Motion::JumpRight),
    (22, 24, Motion::Left),
    (24, 22, Motion::Right),
    (16, 24, Motion::Left),
    (24, 26, Motion::Left),
    (26, 24, Motion::Right),
    (26, 28, Motion::Left),
    (28, 26, Motion::Right),
    (19, 21, Motion::Left),
    (21, 19, Motion::JumpRight),
    (15, 21, Motion::Left),
    (21, 23, Motion::Right),
    (23, 21, Motion::Left),
    (17, 23, Motion::Right),
    (23, 17, Motion::JumpLeft),
    (23, 25, Motion::Right),
    (25, 23, Motion::Left),
    (17, 25, Motion::Right),
    (25, 27, Motion::Right),
    (27, 25, Motion::Left),
    (27, 29, Motion::Right),
    (29, 27, Motion::Left),
    (29, 28, Motion::JumpRight),
    (28, 29, Motion::JumpLeft),
];

/// The vertices at the given world positions, the `k`-th under the id `k`.
pub open spec fn vertices_at(spots: Seq<(i64, i64)>) -> Seq<Vertex> {
    Seq::new(spots.len(), |k: int| Vertex::new(spots[k].0, spots[k].1, k as usize))
}

/// The vertices at the given tile positions, the `k`-th under the id `k`.
pub open spec fn vertices_on_tiles(spots: Seq<(i32, i32)>) -> Seq<Vertex> {
    Seq::new(spots.len(), |k: int| Vertex::new_scaled(spots[k].0, spots[k].1, k as usize))
}

/// The vertices of the level `id`, in id order; none where `id` names no
/// level.
pub open spec fn level_vertices(id: i8) -> Seq<Vertex> {
    if id == 0 {
        vertices_at(LEVEL_ZERO_SPOTS@)
    } else if id == 1 {
        vertices_on_tiles(LEVEL_ONE_SPOTS@)
    } else {
        Seq::empty()
    }
}

/// The connections of the level `id`; none where `id` names no level.
pub open spec fn level_links(id: i8) -> Seq<Link> {
    if id == 0 {
        LEVEL_ZERO_LINKS@
    } else if id == 1 {
        LEVEL_ONE_LINKS@
    } else {
        Seq::empty()
    }
}

/// The number of vertices of the level `id`: that of the positions in its
/// table, and none where `id` names no level.
pub open spec fn level_size(id: i8) -> nat {
    if id == 0 {
        LEVEL_ZERO_SPOTS@.len()
    } else if id == 1 {
        LEVEL_ONE_SPOTS@.len()
    } else {
        0
    }
}

/// The graph of the level `id`: its vertices, and a table in which the pairs
/// that its connections name carry their motions and every other pair is
/// unconnected.
pub open spec fn level_model(id: i8) -> GraphView {
    GraphView {
        vertices: level_vertices(id),
        table: GraphView::empty().with_links(level_links(id)).table,
    }
}

/// Appends a vertex for each world position to a graph without vertices.
fn place(graph: &mut Graph, spots: &[(i64, i64)])
    requires
        old(graph)@.vertices.len() == 0,
        spots@.len() <= MAX_VERT,
    ensures
        final(graph).wf(),
        final(graph)@.vertices == vertices_at(spots@),
        final(graph)@.table == old(graph)@.table,
{
    proof {
        use_type_invariant(&*graph);
    }
    let mut k: usize = 0;
    while k < spots.len()
        invariant
            k <= spots.len() <= MAX_VERT,
            graph.wf(),
            graph@.vertices == vertices_at(spots@).take(k as int),
            graph@.table == old(graph)@.table,
        decreases spots.len() - k,
    {
        let (x, y) = spots[k];
        graph.push_vertex(Vertex::new(x, y, k));
        k += 1;
    }
}

/// Appends a vertex for each tile position to a graph without vertices.
fn place_on_tiles(graph: &mut Graph, spots: &[(i32, i32)])
    requires
        old(graph)@.vertices.len() == 0,
        spots@.len() <= MAX_VERT,
    ensures
        final(graph).wf(),
        final(graph)@.vertices == vertices_on_tiles(spots@),
        final(graph)@.table == old(graph)@.table,
{
    proof {
        use_type_invariant(&*graph);
    }
    let mut k: usize = 0;
    while k < spots.len()
        invariant
            k <= spots.len() <= MAX_VERT,
            graph.wf(),
            graph@.vertices == vertices_on_tiles(spots@).take(k as int),
            graph@.table == old(graph)@.table,
        decreases spots.len() - k,
    {
        let (x, y) = spots[k];
        graph.push_vertex(Vertex::new_scaled(x, y, k));
        k += 1;
    }
}

/// The graph of the level `id`. An id that names no level gives the empty
/// graph.
///
/// The graph has the level's vertices, each under its index as id, and the
/// level's connections; every pair that the level does not connect is
/// labelled `Stop`, and no connection dangles.
pub fn get_level_mesh(id: i8) -> (graph: Graph)
    ensures
        graph.wf(),
        graph@ == level_model(id),
        graph@.vertices.len() == level_size(id),
        forall|from: int, to: int|
            in_table(from, to) && !names(level_links(id), from, to)
                ==> #[trigger] graph@.table[from][to] == Motion::Stop,
        graph@.closed(),
        id != 0 && id != 1 ==> graph@ == GraphView::empty(),
{
    let mut graph = Graph::new();
    if id == 0 {
        place(&mut graph, &LEVEL_ZERO_SPOTS);
        graph.link_all(&LEVEL_ZERO_LINKS);
    } else if id == 1 {
        place_on_tiles(&mut graph, &LEVEL_ONE_SPOTS);
        graph.link_all(&LEVEL_ONE_LINKS);
    }
    proof {
        lemma_level_model(id);
    }
    graph
}

/// The model of every level is a well-formed graph without dangling
/// connections, in which every pair that the level does not connect is
/// labelled `Stop`; for an id that names no level it is the empty graph.
pub proof fn lemma_level_model(id: i8)
    ensures
        level_model(id).wf(),
        level_model(id).closed(),
        forall|from: int, to: int|
            in_table(from, to) && !names(level_links(id), from, to) ==> #[trigger] level_model(
                id,
            ).table[from][to] == Motion::Stop,
        id != 0 && id != 1 ==> level_model(id) == GraphView::empty(),
{
    let bare = GraphView { vertices: level_vertices(id), table: GraphView::empty().table };
    lemma_with_links(bare, level_links(id));
    lemma_links_within_closed(bare, level_links(id));
    if id != 0 && id != 1 {
        lemma_with_no_links(GraphView::empty());
    }
}

/// A level's graph has as many vertices as the level's table has positions,
/// and the graph of any other id has none.
pub proof fn lemma_level_vertex_count(id: i8)
    ensures
        level_model(id).vertices.len() == level_size(id),
        id == 0 ==> level_size(id) == 3,
        id == 1 ==> level_size(id) == 30,
        id != 0 && id != 1 ==> level_size(id) == 0,
{
}

/// The `k`-th vertex of a level carries the id `k` and stands where the
/// level's table says: at the `k`-th position itself on level 0, and at the
/// `k`-th position multiplied by the tile size on level 1.
pub proof fn lemma_level_vertex(id: i8, k: int)
    requires
        0 <= k < level_size(id),
    ensures
        level_model(id).vertices[k].id == k,
        id == 0 ==> level_model(id).vertices[k].x == LEVEL_ZERO_SPOTS[k].0 && level_model(
            id,
        ).vertices[k].y == LEVEL_ZERO_SPOTS[k].1,
        id == 1 ==> level_model(id).vertices[k].x == LEVEL_ONE_SPOTS[k].0 * TILE_SIZE
            && level_model(id).vertices[k].y == LEVEL_ONE_SPOTS[k].1 * TILE_SIZE,
{
}

/// Two graphs made for the same level id have the same vertices and the same
/// table.
pub proof fn lemma_level_mesh_determined(first: Graph, second: Graph, id: i8)
    requires
        first@ == level_model(id),
        second@ == level_model(id),
    ensures
        first@.vertices == second@.vertices,
        first@.table == second@.table,
        first@ == second@,
{
}

} // verus!
