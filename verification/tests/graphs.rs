use movement_mesh::{Graph, GraphError, Link, Motion, Vertex, MAX_VERT};

fn filled(count: usize) -> Graph {
    let mut graph = Graph::new();
    for k in 0..count {
        assert_eq!(graph.add_vertex(Vertex::new(k as i64, -(k as i64), k)), Ok(()));
    }
    graph
}

fn assert_same(a: &Graph, b: &Graph) {
    assert_eq!(a.vertex_count(), b.vertex_count());
    for k in 0..a.vertex_count() {
        assert_eq!(a.vertex_at(k), b.vertex_at(k));
    }
    for from in 0..MAX_VERT {
        for to in 0..MAX_VERT {
            assert_eq!(a.edge(from, to), b.edge(from, to));
        }
    }
}

#[test]
fn the_capacity_is_fifty() {
    assert_eq!(MAX_VERT, 50);
}

#[test]
fn a_new_graph_has_no_vertices() {
    let graph = Graph::new();
    assert_eq!(graph.vertex_count(), 0);
    assert_eq!(graph.vertex_at(0), Err(GraphError::OutOfRange { id: 0, bound: 0 }));
}

#[test]
fn a_new_graph_connects_nothing() {
    let graph = Graph::new();
    for from in 0..MAX_VERT {
        for to in 0..MAX_VERT {
            assert_eq!(graph.edge(from, to), Ok(Motion::Stop));
            assert_eq!(graph.has_edge(from, to), Ok(false));
        }
    }
    assert_eq!(graph.first_dangling(), None);
}

#[test]
fn vertices_are_found_under_their_ids() {
    let graph = filled(5);
    assert_eq!(graph.vertex_count(), 5);
    for k in 0..5 {
        let v = graph.vertex_at(k).unwrap();
        assert_eq!(v, Vertex { x: k as i64, y: -(k as i64), id: k });
        assert_eq!(graph.vertex_at(v.id).unwrap().id, v.id);
    }
}

#[test]
fn vertices_lists_them_in_id_order() {
    let graph = filled(4);
    let all = graph.vertices();
    assert_eq!(all.len(), 4);
    for (k, v) in all.iter().enumerate() {
        assert_eq!(Ok(*v), graph.vertex_at(k));
    }
    assert!(Graph::new().vertices().is_empty());
}

#[test]
fn vertex_at_refuses_an_id_without_a_vertex() {
    let graph = filled(5);
    assert_eq!(graph.vertex_at(5), Err(GraphError::OutOfRange { id: 5, bound: 5 }));
    assert_eq!(graph.vertex_at(49), Err(GraphError::OutOfRange { id: 49, bound: 5 }));
    assert_eq!(
        graph.vertex_at(usize::MAX),
        Err(GraphError::OutOfRange { id: usize::MAX, bound: 5 })
    );
}

#[test]
fn add_vertex_refuses_an_id_out_of_order() {
    let mut graph = filled(2);
    let before = graph.clone();
    assert_eq!(
        graph.add_vertex(Vertex::new(9, 9, 3)),
        Err(GraphError::IdMismatch { id: 3, expected: 2 })
    );
    assert_eq!(
        graph.add_vertex(Vertex::new(9, 9, 1)),
        Err(GraphError::IdMismatch { id: 1, expected: 2 })
    );
    assert_same(&graph, &before);
    assert_eq!(graph.add_vertex(Vertex::new(9, 9, 2)), Ok(()));
    assert_eq!(graph.vertex_count(), 3);
    assert_eq!(graph.vertex_at(2), Ok(Vertex { x: 9, y: 9, id: 2 }));
}

#[test]
fn add_vertex_refuses_a_second_vertex_under_one_id() {
    let mut graph = Graph::new();
    assert_eq!(graph.add_vertex(Vertex::new(1, 1, 0)), Ok(()));
    assert_eq!(
        graph.add_vertex(Vertex::new(2, 2, 0)),
        Err(GraphError::IdMismatch { id: 0, expected: 1 })
    );
    assert_eq!(graph.vertex_count(), 1);
    assert_eq!(graph.vertex_at(0), Ok(Vertex { x: 1, y: 1, id: 0 }));
}

#[test]
fn add_vertex_refuses_more_than_the_capacity() {
    let mut graph = filled(MAX_VERT);
    assert_eq!(graph.vertex_count(), MAX_VERT);
    assert_eq!(graph.add_vertex(Vertex::new(0, 0, MAX_VERT)), Err(GraphError::Full));
    assert_eq!(graph.add_vertex(Vertex::new(0, 0, 3)), Err(GraphError::Full));
    assert_eq!(graph.vertex_count(), MAX_VERT);
    assert_eq!(graph.vertex_at(MAX_VERT - 1).unwrap().id, MAX_VERT - 1);
}

#[test]
fn set_edge_labels_the_pair() {
    let mut graph = filled(3);
    assert_eq!(graph.set_edge(0, 1, Motion::Right), Ok(()));
    assert_eq!(graph.edge(0, 1), Ok(Motion::Right));
    assert_eq!(graph.has_edge(0, 1), Ok(true));
}

#[test]
fn set_edge_leaves_the_reverse_pair_alone() {
    let mut graph = filled(3);
    assert_eq!(graph.set_edge(0, 1, Motion::Right), Ok(()));
    assert_eq!(graph.edge(1, 0), Ok(Motion::Stop));
    assert_eq!(graph.set_edge(1, 0, Motion::Left), Ok(()));
    assert_eq!(graph.set_edge(0, 1, Motion::Jump), Ok(()));
    assert_eq!(graph.edge(1, 0), Ok(Motion::Left));
    assert_eq!(graph.edge(0, 1), Ok(Motion::Jump));
}

#[test]
fn set_edge_changes_one_cell_only() {
    let mut graph = filled(4);
    assert_eq!(graph.set_edge(2, 3, Motion::Fall), Ok(()));
    let before = graph.clone();
    assert_eq!(graph.set_edge(1, 2, Motion::JumpLeft), Ok(()));
    for from in 0..MAX_VERT {
        for to in 0..MAX_VERT {
            if (from, to) == (1, 2) {
                assert_eq!(graph.edge(from, to), Ok(Motion::JumpLeft));
            } else {
                assert_eq!(graph.edge(from, to), before.edge(from, to));
            }
        }
    }
    assert_eq!(graph.vertex_count(), 4);
}

#[test]
fn set_edge_can_label_a_pair_with_itself() {
    let mut graph = filled(1);
    assert_eq!(graph.set_edge(0, 0, Motion::Jump), Ok(()));
    assert_eq!(graph.edge(0, 0), Ok(Motion::Jump));
}

#[test]
fn set_edge_with_stop_unconnects() {
    let mut graph = filled(2);
    assert_eq!(graph.set_edge(0, 1, Motion::Right), Ok(()));
    assert_eq!(graph.set_edge(0, 1, Motion::Stop), Ok(()));
    assert_eq!(graph.edge(0, 1), Ok(Motion::Stop));
    assert_eq!(graph.has_edge(0, 1), Ok(false));
}

#[test]
fn set_edge_refuses_ids_outside_the_table() {
    let mut graph = filled(2);
    let before = graph.clone();
    assert_eq!(
        graph.set_edge(MAX_VERT, 0, Motion::Right),
        Err(GraphError::OutOfRange { id: MAX_VERT, bound: MAX_VERT })
    );
    assert_eq!(
        graph.set_edge(0, MAX_VERT + 1, Motion::Right),
        Err(GraphError::OutOfRange { id: MAX_VERT + 1, bound: MAX_VERT })
    );
    assert_eq!(
        graph.set_edge(70, 60, Motion::Right),
        Err(GraphError::OutOfRange { id: 70, bound: MAX_VERT })
    );
    assert_same(&graph, &before);
}

#[test]
fn set_edge_accepts_ids_without_vertices() {
    let mut graph = filled(2);
    assert_eq!(graph.set_edge(7, 49, Motion::Fall), Ok(()));
    assert_eq!(graph.edge(7, 49), Ok(Motion::Fall));
    assert_eq!(graph.vertex_count(), 2);
}

#[test]
fn edge_reads_the_last_cell_of_an_empty_graph() {
    let graph = Graph::new();
    assert_eq!(graph.edge(MAX_VERT - 1, MAX_VERT - 1), Ok(Motion::Stop));
    assert_eq!(graph.has_edge(MAX_VERT - 1, MAX_VERT - 1), Ok(false));
}

#[test]
fn edge_refuses_ids_outside_the_table() {
    let graph = Graph::new();
    assert_eq!(
        graph.edge(MAX_VERT, 0),
        Err(GraphError::OutOfRange { id: MAX_VERT, bound: MAX_VERT })
    );
    assert_eq!(
        graph.edge(0, MAX_VERT),
        Err(GraphError::OutOfRange { id: MAX_VERT, bound: MAX_VERT })
    );
    assert_eq!(
        graph.edge(usize::MAX, 99),
        Err(GraphError::OutOfRange { id: usize::MAX, bound: MAX_VERT })
    );
}

#[test]
fn has_edge_refuses_ids_outside_the_table() {
    let graph = Graph::new();
    assert_eq!(
        graph.has_edge(MAX_VERT, 0),
        Err(GraphError::OutOfRange { id: MAX_VERT, bound: MAX_VERT })
    );
    assert_eq!(
        graph.has_edge(3, 51),
        Err(GraphError::OutOfRange { id: 51, bound: MAX_VERT })
    );
}

#[test]
fn has_edge_is_edge_not_stop() {
    let mut graph = filled(3);
    let motions = [
        Motion::Left,
        Motion::Right,
        Motion::Jump,
        Motion::JumpRight,
        Motion::JumpLeft,
        Motion::Fall,
        Motion::Stop,
    ];
    for m in motions {
        assert_eq!(graph.set_edge(1, 2, m), Ok(()));
        assert_eq!(graph.has_edge(1, 2), Ok(graph.edge(1, 2).unwrap() != Motion::Stop));
        assert_eq!(graph.has_edge(1, 2), Ok(m != Motion::Stop));
    }
}

#[test]
fn connect_applies_every_link() {
    let mut graph = filled(3);
    let links: [Link; 3] =
        [(0, 1, Motion::Right), (1, 0, Motion::Left), (1, 2, Motion::JumpRight)];
    assert_eq!(graph.connect(&links), Ok(()));
    assert_eq!(graph.edge(0, 1), Ok(Motion::Right));
    assert_eq!(graph.edge(1, 0), Ok(Motion::Left));
    assert_eq!(graph.edge(1, 2), Ok(Motion::JumpRight));
    assert_eq!(graph.edge(2, 1), Ok(Motion::Stop));
    assert_eq!(graph.edge(0, 2), Ok(Motion::Stop));
}

#[test]
fn connect_lets_the_last_link_for_a_pair_win() {
    let mut graph = filled(3);
    let links: [Link; 4] = [
        (0, 1, Motion::Right),
        (1, 2, Motion::Jump),
        (0, 1, Motion::Fall),
        (1, 0, Motion::Left),
    ];
    assert_eq!(graph.connect(&links), Ok(()));
    assert_eq!(graph.edge(0, 1), Ok(Motion::Fall));
    assert_eq!(graph.edge(1, 2), Ok(Motion::Jump));
    assert_eq!(graph.edge(1, 0), Ok(Motion::Left));
}

#[test]
fn connect_keeps_what_no_link_names() {
    let mut graph = filled(3);
    assert_eq!(graph.set_edge(2, 0, Motion::Fall), Ok(()));
    let links: [Link; 1] = [(0, 1, Motion::Right)];
    assert_eq!(graph.connect(&links), Ok(()));
    assert_eq!(graph.edge(2, 0), Ok(Motion::Fall));
    assert_eq!(graph.edge(0, 1), Ok(Motion::Right));
}

#[test]
fn connect_with_no_links_changes_nothing() {
    let mut graph = filled(3);
    assert_eq!(graph.set_edge(2, 0, Motion::Fall), Ok(()));
    let before = graph.clone();
    assert_eq!(graph.connect(&[]), Ok(()));
    assert_same(&graph, &before);
}

#[test]
fn connect_is_set_edge_link_by_link() {
    let links: [Link; 5] = [
        (0, 1, Motion::Right),
        (1, 0, Motion::Left),
        (3, 3, Motion::Jump),
        (0, 1, Motion::Stop),
        (49, 0, Motion::Fall),
    ];
    let mut at_once = filled(2);
    assert_eq!(at_once.connect(&links), Ok(()));
    let mut one_by_one = filled(2);
    for (from, to, motion) in links {
        assert_eq!(one_by_one.set_edge(from, to, motion), Ok(()));
    }
    assert_same(&at_once, &one_by_one);
}

#[test]
fn connect_refuses_the_whole_list_for_one_bad_link() {
    let mut graph = filled(3);
    let before = graph.clone();
    let links: [Link; 4] = [
        (0, 1, Motion::Right),
        (1, 50, Motion::Jump),
        (77, 1, Motion::Fall),
        (1, 0, Motion::Left),
    ];
    assert_eq!(
        graph.connect(&links),
        Err(GraphError::OutOfRange { id: 50, bound: MAX_VERT })
    );
    assert_same(&graph, &before);
    assert_eq!(graph.edge(0, 1), Ok(Motion::Stop));
}

#[test]
fn connect_reports_the_first_bad_id_of_the_first_bad_link() {
    let mut graph = Graph::new();
    let links: [Link; 2] = [(60, 70, Motion::Right), (1, 80, Motion::Jump)];
    assert_eq!(
        graph.connect(&links),
        Err(GraphError::OutOfRange { id: 60, bound: MAX_VERT })
    );
}

#[test]
fn a_clone_is_equal_and_independent() {
    let mut graph = filled(3);
    assert_eq!(graph.set_edge(0, 1, Motion::Right), Ok(()));
    let copy = graph.clone();
    assert_same(&graph, &copy);
    assert_eq!(graph.set_edge(0, 1, Motion::Left), Ok(()));
    assert_eq!(graph.add_vertex(Vertex::new(5, 5, 3)), Ok(()));
    assert_eq!(copy.edge(0, 1), Ok(Motion::Right));
    assert_eq!(copy.vertex_count(), 3);
}

#[test]
fn first_dangling_finds_nothing_between_vertices() {
    let mut graph = filled(3);
    assert_eq!(graph.set_edge(0, 2, Motion::Jump), Ok(()));
    assert_eq!(graph.set_edge(2, 2, Motion::Fall), Ok(()));
    assert_eq!(graph.first_dangling(), None);
}

#[test]
fn first_dangling_finds_a_link_to_a_missing_vertex() {
    let mut graph = filled(3);
    assert_eq!(graph.set_edge(0, 1, Motion::Right), Ok(()));
    assert_eq!(graph.set_edge(1, 3, Motion::Jump), Ok(()));
    assert_eq!(graph.first_dangling(), Some((1, 3)));
}

#[test]
fn first_dangling_finds_a_link_from_a_missing_vertex() {
    let mut graph = filled(3);
    assert_eq!(graph.set_edge(49, 0, Motion::Left), Ok(()));
    assert_eq!(graph.first_dangling(), Some((49, 0)));
}

#[test]
fn first_dangling_reads_row_by_row() {
    let mut graph = filled(2);
    assert_eq!(graph.set_edge(5, 0, Motion::Left), Ok(()));
    assert_eq!(graph.set_edge(1, 7, Motion::Left), Ok(()));
    assert_eq!(graph.set_edge(1, 4, Motion::Left), Ok(()));
    assert_eq!(graph.set_edge(0, 1, Motion::Left), Ok(()));
    assert_eq!(graph.first_dangling(), Some((1, 4)));
}

#[test]
fn first_dangling_ignores_stop() {
    let mut graph = filled(2);
    assert_eq!(graph.set_edge(5, 6, Motion::Stop), Ok(()));
    assert_eq!(graph.first_dangling(), None);
}

#[test]
fn a_dangling_link_is_mended_by_its_vertex() {
    let mut graph = filled(3);
    assert_eq!(graph.set_edge(1, 3, Motion::Jump), Ok(()));
    assert_eq!(graph.first_dangling(), Some((1, 3)));
    assert_eq!(graph.add_vertex(Vertex::new(0, 0, 3)), Ok(()));
    assert_eq!(graph.first_dangling(), None);
}
