use mesh_sim::log::{connect_failure_line, listening_line, receive_line, write_failure_line};
use mesh_sim::topology::{mesh_addresses, peer_set, NodeAddr};

const LOCAL: [u8; 4] = [127, 0, 0, 1];

#[test]
fn mesh_addresses_count_up_from_the_base_port() {
    let addrs = mesh_addresses(LOCAL, 8000, 10);
    assert_eq!(addrs.len(), 10);
    for (i, a) in addrs.iter().enumerate() {
        assert_eq!(*a, NodeAddr { host: LOCAL, port: 8000 + i as u16 });
    }
}

#[test]
fn mesh_of_no_nodes_is_empty() {
    assert_eq!(mesh_addresses(LOCAL, 65535, 0), vec![]);
}

#[test]
fn mesh_may_end_on_the_last_port() {
    let addrs = mesh_addresses(LOCAL, 65534, 2);
    assert_eq!(addrs[1].port, 65535);
}

#[test]
fn address_renders_as_host_and_port() {
    assert_eq!(NodeAddr { host: LOCAL, port: 8000 }.render(), "127.0.0.1:8000");
    assert_eq!(NodeAddr { host: [0, 0, 0, 0], port: 0 }.render(), "0.0.0.0:0");
    assert_eq!(NodeAddr { host: [255, 255, 255, 255], port: 65535 }.render(), "255.255.255.255:65535");
    assert_eq!(NodeAddr { host: [10, 0, 200, 3], port: 80 }.render(), "10.0.200.3:80");
}

#[test]
fn peer_set_leaves_out_the_node_itself() {
    let addrs = mesh_addresses(LOCAL, 9000, 3);
    assert_eq!(peer_set(&addrs, 0), vec![addrs[1], addrs[2]]);
    assert_eq!(peer_set(&addrs, 1), vec![addrs[0], addrs[2]]);
    assert_eq!(peer_set(&addrs, 2), vec![addrs[0], addrs[1]]);
}

#[test]
fn peer_set_of_a_lone_node_is_empty() {
    let addrs = mesh_addresses(LOCAL, 9000, 1);
    assert_eq!(peer_set(&addrs, 0), vec![]);
}

#[test]
fn peer_set_of_an_unknown_node_is_every_address() {
    let addrs = mesh_addresses(LOCAL, 9000, 3);
    assert_eq!(peer_set(&addrs, 3), addrs);
}

#[test]
fn ten_node_mesh_is_full_and_symmetric() {
    let n = 10;
    let addrs = mesh_addresses(LOCAL, 8000, n);
    for i in 0..n {
        let peers = peer_set(&addrs, i);
        assert_eq!(peers.len(), n - 1);
        assert!(!peers.contains(&addrs[i]));
        for j in 0..n {
            if i != j {
                assert!(peers.contains(&addrs[j]));
                assert!(peer_set(&addrs, j).contains(&addrs[i]));
            }
        }
    }
}

#[test]
fn log_lines_read_as_expected() {
    let a = NodeAddr { host: LOCAL, port: 8003 };
    assert_eq!(
        receive_line(2, 7, "Share from Node 7"),
        "Node 2 received share from Node 7: Share from Node 7"
    );
    assert_eq!(listening_line(3, &a), "Node 3 listening on 127.0.0.1:8003");
    assert_eq!(
        connect_failure_line(1, &a, "Connection refused (os error 111)"),
        "Node 1 failed to connect to 127.0.0.1:8003: Connection refused (os error 111)"
    );
    assert_eq!(
        write_failure_line(1, &a, "Broken pipe (os error 32)"),
        "Node 1 failed to write to 127.0.0.1:8003: Broken pipe (os error 32)"
    );
}
