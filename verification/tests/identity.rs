use sandbench::firecracker::Firecracker;
use sandbench::firecracker::FirecrackerConfig;
use sandbench::hyperlight::Hyperlight;
use sandbench::hyperlight::HyperlightConfig;
use sandbench::process::Process;
use sandbench::process::ProcessConfig;
use sandbench::snapshot::response_indicates_success;
use sandbench::snapshot::FirecrackerSnapshot;
use sandbench::snapshot::FirecrackerSnapshotConfig;
use sandbench::unikraft::Unikraft;
use sandbench::unikraft::UnikraftConfig;

fn firecracker_config() -> FirecrackerConfig {
    FirecrackerConfig {
        firecracker_binary_dir: "/opt/fc".to_string(),
        firecracker_socket_prefix: "/tmp/fc-".to_string(),
        config_file_template: "/opt/fc/template.json".to_string(),
        network_setup_file: "/opt/fc/net-up.sh".to_string(),
        network_cleanup_file: "/opt/fc/net-down.sh".to_string(),
    }
}

#[test]
fn firecracker_identity_for_iteration_zero() {
    let fc = Firecracker::new(firecracker_config(), 0);
    assert_eq!(fc.get_tap_ip(), "172.16.0.1");
    assert_eq!(fc.get_target_ip(), "172.16.0.2");
    assert_eq!(fc.get_mac_address(), "06:00:AC:10:00:02");
    assert_eq!(fc.tap_device(), "tap0");
    assert_eq!(fc.get_gateway_ip(), "172.16.0.1");
    assert_eq!(fc.get_target_port(), 8080);
    assert_eq!(fc.get_name(), "Firecracker");
}

#[test]
fn firecracker_identity_for_later_iterations() {
    let fc = Firecracker::new(firecracker_config(), 3);
    assert_eq!(fc.get_tap_ip(), "172.16.0.7");
    assert_eq!(fc.get_target_ip(), "172.16.0.8");
    assert_eq!(fc.get_mac_address(), "06:00:AC:10:00:08");
    assert_eq!(fc.tap_device(), "tap3");
}

#[test]
fn firecracker_offsets_wrap_at_one_octet() {
    // The harness folds the offset into the last octet alone; the
    // second-to-last octet stays zero however large the offset grows.
    let fc = Firecracker::new(firecracker_config(), 127);
    assert_eq!(fc.get_target_ip(), "172.16.0.0");
    assert_eq!(fc.get_tap_ip(), "172.16.0.255");
    let fc = Firecracker::new(firecracker_config(), 200);
    assert_eq!(fc.get_target_ip(), "172.16.0.146");
}

#[test]
fn firecracker_paths_and_commands() {
    let fc = Firecracker::new(firecracker_config(), 1);
    assert_eq!(fc.log_location, format!("/opt/fc/firecracker_{}.log", fc.id));
    assert_eq!(fc.vm_config_location, format!("/opt/fc/vm_config_{}.json", fc.id));
    assert_eq!(fc.socket_addr(), format!("/tmp/fc-{}.socket", fc.id));
    let start = fc.start_command();
    assert_eq!(
        start,
        vec![
            "/opt/fc/firecracker".to_string(),
            "--config-file".to_string(),
            fc.vm_config_location.clone(),
            "--api-sock".to_string(),
            format!("/tmp/fc-{}.socket", fc.id),
        ]
    );
    assert_eq!(fc.setup_command(), "/opt/fc/net-up.sh tap1 172.16.0.3 172.16.0.4");
    assert_eq!(
        fc.cleanup_command(),
        vec!["/opt/fc/net-down.sh".to_string(), "tap1".to_string(), "172.16.0.4".to_string()]
    );
    assert_eq!(fc.process_log_path("out"), format!("/tmp/firecracker_{}_1.out", fc.id));
}

#[test]
fn firecracker_template_rendering_substitutes_all_tokens() {
    let fc = Firecracker::new(firecracker_config(), 0);
    let template = b"ip={{guest_ip}} tap={{tap_ip}} id={{tap_id}} mac={{mac_address}} log={{firecracker_log_location}} ip2={{guest_ip}}".to_vec();
    let rendered = fc.render_vm_config(&template);
    let expected = format!(
        "ip=172.16.0.2 tap=172.16.0.1 id=tap0 mac=06:00:AC:10:00:02 log={} ip2=172.16.0.2",
        fc.log_location
    );
    assert_eq!(String::from_utf8(rendered).unwrap(), expected);
}

fn snapshot_config() -> FirecrackerSnapshotConfig {
    FirecrackerSnapshotConfig {
        firecracker_binary_dir: "/opt/fc".to_string(),
        firecracker_socket_prefix: "/tmp/fcs-".to_string(),
        snapshot_file: "/blobs/vm.snap".to_string(),
        mem_file: "/blobs/vm.mem".to_string(),
        network_setup_file: "/opt/fc/net-up.sh".to_string(),
        network_cleanup_file: "/opt/fc/net-down.sh".to_string(),
        output_dir: "/tmp/out".to_string(),
    }
}

#[test]
fn snapshot_load_message_is_exact() {
    let sb = FirecrackerSnapshot::new(snapshot_config());
    let content = "{\n    \"snapshot_path\": \"/blobs/vm.snap\",\n    \"mem_file_path\": \"/blobs/vm.mem\"\n}";
    let expected = format!(
        "PUT /snapshot/load HTTP/1.1\r\nHost: localhost\r\nAccept: application/json\r\nContent-Type: application/json\r\nContent-Length: {}\r\n\r\n{}",
        content.len(),
        content
    );
    assert_eq!(sb.create_snapshot_load_http_string(), expected);
}

#[test]
fn resume_message_is_exact() {
    let sb = FirecrackerSnapshot::new(snapshot_config());
    let content = "{\n    \"state\": \"Resumed\"\n}";
    let expected = format!(
        "PATCH /vm HTTP/1.1\r\nAccept: application/json\r\nContent-Type: application/json\r\nContent-Length:{}\r\n\r\n{}",
        content.len(),
        content
    );
    assert_eq!(sb.create_resume_http_string(), expected);
}

#[test]
fn snapshot_fixed_identity_and_commands() {
    let sb = FirecrackerSnapshot::new(snapshot_config());
    assert_eq!(sb.get_tap_ip(), "172.16.0.1");
    assert_eq!(sb.get_target_ip(), "172.16.0.2");
    assert_eq!(sb.get_target_port(), 8080);
    assert_eq!(sb.get_name(), "Firecracker-Snapshot");
    assert_eq!(sb.get_socket_addr(), format!("/tmp/fcs-{}.socket", sb.id));
    assert_eq!(sb.setup_command(), "/opt/fc/net-up.sh tap0 172.16.0.1");
    assert_eq!(sb.cleanup_command(), vec!["/opt/fc/net-down.sh".to_string(), "tap0".to_string()]);
    assert_eq!(
        sb.start_command(),
        vec![
            "/opt/fc/firecracker".to_string(),
            "--api-sock".to_string(),
            format!("/tmp/fcs-{}.socket", sb.id),
        ]
    );
    assert_eq!(
        sb.log_path(0, ".out"),
        format!("/tmp/out/firecracker_snapshot{}-0.out", sb.id)
    );
}

#[test]
fn control_socket_answers_succeed_on_204_alone() {
    assert!(response_indicates_success(b"HTTP/1.1 204 No Content\r\n\r\n"));
    assert!(response_indicates_success(b"x204x"));
    assert!(!response_indicates_success(b"HTTP/1.1 200 OK\r\n\r\n"));
    assert!(!response_indicates_success(b"HTTP/1.1 400 Bad Request\r\n\r\n"));
    assert!(!response_indicates_success(b"20"));
    assert!(!response_indicates_success(b""));
}

#[test]
fn process_port_offsets_by_iteration() {
    let config = ProcessConfig {
        ip: "10.0.0.5".to_string(),
        port: 8000,
        binary_path: "/bin/echo-server".to_string(),
        output_dir: "/tmp/out".to_string(),
    };
    let p = Process::new(config, 5);
    assert_eq!(p.get_target_port(), 8005);
    assert_eq!(p.get_target_ip(), "10.0.0.5");
    assert_eq!(p.get_name(), "Process");
    assert_eq!(p.sockaddr(), "10.0.0.5:8005");
    assert_eq!(
        p.start_command(),
        vec!["/bin/echo-server".to_string(), "-listen".to_string(), "10.0.0.5:8005".to_string()]
    );
    assert_eq!(p.log_path(".err"), format!("/tmp/out/process{}-5.err", p.id));
}

#[test]
fn process_ports_never_collide_across_iterations() {
    let mk = |iteration| {
        Process::new(
            ProcessConfig {
                ip: "127.0.0.1".to_string(),
                port: 9000,
                binary_path: "/bin/echo-server".to_string(),
                output_dir: "/tmp/out".to_string(),
            },
            iteration,
        )
    };
    let ports: Vec<u16> = (0..10).map(|i| mk(i).get_target_port()).collect();
    for i in 0..ports.len() {
        for j in 0..ports.len() {
            if i != j {
                assert_ne!(ports[i], ports[j]);
            }
        }
    }
}

#[test]
fn unikraft_commands_and_identity() {
    let u = Unikraft::new(
        UnikraftConfig {
            guest_port: 8080,
            host_port: 8081,
            run_dir: "/opt/uk".to_string(),
            memory: "512M".to_string(),
            output_dir: "/tmp/out".to_string(),
        },
        2,
    );
    assert_eq!(
        u.start_command(),
        vec![
            "kraft".to_string(),
            "run".to_string(),
            "--rm".to_string(),
            "--plat".to_string(),
            "qemu".to_string(),
            "--arch".to_string(),
            "x86_64".to_string(),
            "-p".to_string(),
            "8081:8080".to_string(),
            "--memory".to_string(),
            "512M".to_string(),
            ".".to_string(),
        ]
    );
    assert_eq!(u.kill_command(), vec!["kraft".to_string(), "rm".to_string(), "--all".to_string()]);
    assert_eq!(u.get_target_ip(), "127.0.0.1");
    assert_eq!(u.get_target_port(), 8081);
    assert_eq!(u.get_name(), "Unikraft");
    assert_eq!(u.log_path(".out"), format!("/tmp/out/unikraft{}-2.out", u.id));
}

#[test]
fn hyperlight_commands_and_identity() {
    let h = Hyperlight::new(
        HyperlightConfig {
            guest_binary: "/opt/hl/guest.bin".to_string(),
            host_binary: "/opt/hl/host".to_string(),
            listen_ip: "127.0.0.1".to_string(),
            listen_port: 8090,
            output_dir: "/tmp/out".to_string(),
        },
        1,
    );
    assert_eq!(h.listen_addr(), "127.0.0.1:8090");
    assert_eq!(
        h.presetup_command(),
        vec![
            "/opt/hl/host".to_string(),
            "-listen".to_string(),
            "127.0.0.1:8090".to_string(),
            "-guest".to_string(),
            "/opt/hl/guest.bin".to_string(),
        ]
    );
    assert_eq!(h.get_target_ip(), "127.0.0.1");
    assert_eq!(h.get_target_port(), 8090);
    assert_eq!(h.get_name(), "Hyperlight");
    assert_eq!(h.log_path(".out"), format!("/tmp/out/hyperlight{}-1.out", h.id));
}

#[test]
fn instance_identities_are_distinct() {
    let a = Firecracker::new(firecracker_config(), 0);
    let b = Firecracker::new(firecracker_config(), 0);
    assert_eq!(a.id.len(), 36);
    assert_ne!(a.id, b.id);
}
