use maelstrom_demo::topology::{Topology, TopologyError};

fn s(x: &str) -> String {
    x.to_string()
}

fn line_mapping() -> Vec<(String, Vec<String>)> {
    vec![
        (s("A"), vec![s("B"), s("C")]),
        (s("B"), vec![s("A")]),
        (s("C"), vec![s("A")]),
    ]
}

#[test]
fn new_topology_has_no_neighbors() {
    let t = Topology::new();
    assert!(t.neighbors().is_empty());
}

#[test]
fn set_topology_keeps_given_order() {
    let mut t = Topology::new();
    assert_eq!(t.set_topology(&s("A"), &line_mapping()), Ok(()));
    assert_eq!(t.neighbors(), vec![s("B"), s("C")]);
}

#[test]
fn set_topology_takes_own_entry_only() {
    let mut t = Topology::new();
    assert_eq!(t.set_topology(&s("B"), &line_mapping()), Ok(()));
    assert_eq!(t.neighbors(), vec![s("A")]);
}

#[test]
fn set_topology_unknown_node_fails_and_keeps_list() {
    let mut t = Topology::new();
    t.set_topology(&s("A"), &line_mapping()).unwrap();
    let r = t.set_topology(&s("Z"), &line_mapping());
    assert_eq!(r, Err(TopologyError::UnknownNode));
    assert_eq!(t.neighbors(), vec![s("B"), s("C")]);
}

#[test]
fn set_topology_last_write_wins() {
    let mut t = Topology::new();
    t.set_topology(&s("A"), &line_mapping()).unwrap();
    let again = vec![(s("A"), vec![s("C")])];
    t.set_topology(&s("A"), &again).unwrap();
    assert_eq!(t.neighbors(), vec![s("C")]);
    t.set_topology(&s("A"), &again).unwrap();
    assert_eq!(t.neighbors(), vec![s("C")]);
}

#[test]
fn set_topology_empty_neighbor_list() {
    let mut t = Topology::new();
    let m = vec![(s("A"), Vec::new())];
    assert_eq!(t.set_topology(&s("A"), &m), Ok(()));
    assert!(t.neighbors().is_empty());
}
