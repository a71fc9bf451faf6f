use maelstrom_demo::broadcast::{targets_excluding, Disseminator};
use maelstrom_demo::node::{BroadcastNode, BroadcastReply, BroadcastRequest};
use std::collections::VecDeque;

fn s(x: &str) -> String {
    x.to_string()
}

#[test]
fn try_add_is_true_only_the_first_time() {
    let mut d = Disseminator::new();
    assert!(d.try_add(5));
    assert!(!d.try_add(5));
    assert!(d.try_add(6));
    let mut snap = d.snapshot();
    snap.sort();
    assert_eq!(snap, vec![5, 6]);
}

#[test]
fn snapshot_of_new_disseminator_is_empty() {
    let d = Disseminator::new();
    assert!(d.snapshot().is_empty());
}

#[test]
fn targets_exclude_the_sender() {
    let ns = vec![s("n1"), s("n2"), s("n3")];
    assert_eq!(targets_excluding(&ns, &s("n2")), vec![s("n1"), s("n3")]);
    assert_eq!(targets_excluding(&ns, &s("c1")), ns);
}

#[test]
fn receive_from_client_goes_to_every_neighbor() {
    let mut d = Disseminator::new();
    let ns = vec![s("n2"), s("n3")];
    assert_eq!(d.receive_broadcast(5, &s("c1"), &ns), ns);
}

#[test]
fn receive_from_peer_is_not_echoed_back() {
    let mut d = Disseminator::new();
    let ns = vec![s("n1"), s("n3")];
    assert_eq!(d.receive_broadcast(5, &s("n1"), &ns), vec![s("n3")]);
}

#[test]
fn value_delivered_many_times_is_forwarded_once() {
    let mut d = Disseminator::new();
    let ns = vec![s("n1"), s("n2"), s("n3")];
    let senders = ["n1", "n2", "c1", "n3", "n1", "n2"];
    let mut forwards = 0;
    for from in senders.iter() {
        if !d.receive_broadcast(7, &s(from), &ns).is_empty() {
            forwards += 1;
        }
    }
    assert_eq!(forwards, 1);
    assert_eq!(d.snapshot(), vec![7]);
}

fn read_values(n: &mut BroadcastNode) -> Vec<u64> {
    match n.handle(&s("c1"), &BroadcastRequest::Read) {
        (BroadcastReply::ReadOk { messages }, out) => {
            assert!(out.is_empty());
            let mut m = messages;
            m.sort();
            m
        }
        _ => panic!("read must answer read_ok"),
    }
}

#[test]
fn broadcast_spreads_along_a_line() {
    let ids = ["A", "B", "C"];
    let mapping = vec![
        (s("A"), vec![s("B")]),
        (s("B"), vec![s("A"), s("C")]),
        (s("C"), vec![s("B")]),
    ];
    let mut nodes: Vec<BroadcastNode> = ids.iter().map(|i| BroadcastNode::new(s(i))).collect();
    for n in nodes.iter_mut() {
        let (reply, out) = n.handle(&s("c0"), &BroadcastRequest::Topology { mapping: mapping.clone() });
        assert!(matches!(reply, BroadcastReply::TopologyOk));
        assert!(out.is_empty());
    }
    // messages in flight: (from, to, value)
    let mut queue: VecDeque<(String, String, u64)> = VecDeque::new();
    queue.push_back((s("c1"), s("A"), 5));
    let mut sent_ab = 0;
    let mut sent_ba = 0;
    while let Some((from, to, v)) = queue.pop_front() {
        let idx = ids.iter().position(|i| *i == to).unwrap();
        let (reply, out) = nodes[idx].handle(&from, &BroadcastRequest::Broadcast { message: v });
        assert!(matches!(reply, BroadcastReply::BroadcastOk));
        for dest in out {
            if to == "A" && dest == "B" {
                sent_ab += 1;
            }
            if to == "B" && dest == "A" {
                sent_ba += 1;
            }
            queue.push_back((to.clone(), dest, v));
        }
    }
    for n in nodes.iter_mut() {
        assert_eq!(read_values(n), vec![5]);
    }
    assert!(sent_ab <= 1);
    assert!(sent_ba <= 1);
}

#[test]
fn broadcast_node_forwards_to_topology_neighbors() {
    let mut n = BroadcastNode::new(s("n1"));
    let mapping = vec![(s("n1"), vec![s("n2"), s("n3")])];
    n.handle(&s("c0"), &BroadcastRequest::Topology { mapping });
    assert_eq!(n.neighbor_list(), vec![s("n2"), s("n3")]);
    let (_, out) = n.handle(&s("n3"), &BroadcastRequest::Broadcast { message: 9 });
    assert_eq!(out, vec![s("n2")]);
    let (_, again) = n.handle(&s("n2"), &BroadcastRequest::Broadcast { message: 9 });
    assert!(again.is_empty());
}

#[test]
fn broadcast_node_rejects_mapping_without_itself() {
    let mut n = BroadcastNode::new(s("n1"));
    let mapping = vec![(s("n2"), vec![s("n1")])];
    let (reply, out) = n.handle(&s("c0"), &BroadcastRequest::Topology { mapping });
    assert!(matches!(reply, BroadcastReply::Error(maelstrom_demo::kv::ErrorKind::UnknownNode)));
    assert!(out.is_empty());
    assert!(n.neighbor_list().is_empty());
}
