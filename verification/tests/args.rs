use sandbench::cli::ArgsError;

fn line(parts: &[&str]) -> Vec<String> {
    parts.iter().map(|s| s.to_string()).collect()
}

#[test]
fn server_args_read_all_options() {
    let args = sandbench::server::Args::parse(line(&[
        "host", "-listen", "127.0.0.1:8090", "-guest", "/opt/guest.bin", "-init-sandbox-size", "2",
    ]))
    .unwrap();
    assert_eq!(args.listen_sockaddr(), "127.0.0.1:8090");
    assert_eq!(args.guest(), "/opt/guest.bin");
    assert_eq!(args.init_sandbox_size(), 2);
}

#[test]
fn server_args_have_defaults() {
    let args = sandbench::server::Args::parse(line(&["host"])).unwrap();
    assert_eq!(args.listen_sockaddr(), "");
    assert_eq!(args.guest(), "");
    assert_eq!(args.init_sandbox_size(), 0);
}

#[test]
fn server_args_reject_bad_lines() {
    assert!(matches!(
        sandbench::server::Args::parse(line(&["host", "-help"])),
        Err(ArgsError::WrongUsage)
    ));
    assert!(matches!(
        sandbench::server::Args::parse(line(&["host", "-listen"])),
        Err(ArgsError::MissingValue)
    ));
    assert!(matches!(
        sandbench::server::Args::parse(line(&["host", "-bogus"])),
        Err(ArgsError::InvalidArgument)
    ));
    assert!(matches!(
        sandbench::server::Args::parse(line(&["host", "-init-sandbox-size", "two"])),
        Err(ArgsError::InvalidNumber)
    ));
}

#[test]
fn latency_args_read_all_options() {
    let args = sandbench::latency::Args::parse(line(&[
        "latency",
        "-config",
        "evals.json",
        "-data_size",
        "64",
        "-invocations",
        "10",
        "-iterations",
        "2",
    ]))
    .unwrap();
    assert_eq!(args.config(), "evals.json");
    assert_eq!(args.data_size(), 64);
    assert_eq!(args.invocations(), 10);
    assert_eq!(args.iterations(), 2);
}

#[test]
fn latency_args_have_defaults() {
    let args = sandbench::latency::Args::parse(line(&["latency"])).unwrap();
    assert_eq!(args.config(), "");
    assert_eq!(args.data_size(), 1024);
    assert_eq!(args.invocations(), 1000);
    assert_eq!(args.iterations(), 5);
}

#[test]
fn latency_args_refuse_numbers_out_of_range() {
    assert!(matches!(
        sandbench::latency::Args::parse(line(&["latency", "-iterations", "65536"])),
        Err(ArgsError::InvalidNumber)
    ));
    assert!(matches!(
        sandbench::latency::Args::parse(line(&["latency", "-invocations", "4294967296"])),
        Err(ArgsError::InvalidNumber)
    ));
}

#[test]
fn density_args_read_all_options() {
    let args = sandbench::density::Args::parse(line(&[
        "density",
        "-config",
        "evals.json",
        "-memory-limit",
        "256",
    ]))
    .unwrap();
    assert_eq!(args.config(), "evals.json");
    assert_eq!(args.memory_limit(), 256);
}

#[test]
fn density_args_have_defaults() {
    let args = sandbench::density::Args::parse(line(&["density"])).unwrap();
    assert_eq!(args.config(), "");
    assert_eq!(args.memory_limit(), 512);
}

#[test]
fn client_args_read_all_options() {
    let args = sandbench::client::Args::parse(line(&[
        "client",
        "-connect",
        "10.0.0.1:8080",
        "-frequency",
        "1000000",
        "-duration",
        "30",
        "-size",
        "128",
    ]))
    .unwrap();
    assert_eq!(args.connect_sockaddr(), "10.0.0.1:8080");
    assert_eq!(args.frequency(), 1000000);
    assert_eq!(args.duration(), 30);
    assert_eq!(args.size(), 128);
}

#[test]
fn client_args_reject_bad_numbers() {
    assert!(matches!(
        sandbench::client::Args::parse(line(&["client", "-frequency", "fast"])),
        Err(ArgsError::InvalidNumber)
    ));
    assert!(matches!(
        sandbench::client::Args::parse(line(&["client", "-duration"])),
        Err(ArgsError::MissingValue)
    ));
}

#[test]
fn host_args_read_listen_and_guest() {
    let args = sandbench::host::Args::parse(line(&[
        "host", "-listen", "0.0.0.0:8080", "-guest", "/g.bin",
    ]))
    .unwrap();
    assert_eq!(args.listen_sockaddr(), "0.0.0.0:8080");
    assert_eq!(args.guest(), "/g.bin");
}

#[test]
fn echo_args_read_listen() {
    let args = sandbench::echo::Args::parse(line(&["echo", "-listen", "0.0.0.0:9000"])).unwrap();
    assert_eq!(args.listen_sockaddr(), "0.0.0.0:9000");
    assert!(matches!(
        sandbench::echo::Args::parse(line(&["echo", "-x"])),
        Err(ArgsError::InvalidArgument)
    ));
}

#[test]
fn errors_describe_themselves() {
    assert_eq!(ArgsError::WrongUsage.describe(), "wrong usage");
    assert_eq!(ArgsError::InvalidArgument.describe(), "invalid argument");
    assert_eq!(ArgsError::MissingValue.describe(), "missing value for argument");
    assert_eq!(ArgsError::InvalidNumber.describe(), "invalid number");
}
