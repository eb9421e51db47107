use sombra::{ErrorKind, HostState, ServiceRegistry, Sombra, SombraLinux, SombraWindows};

fn root_host() -> HostState {
    HostState {
        username: "root".to_string(),
        registry: ServiceRegistry::new(),
        service_host: None,
    }
}

fn windows_host() -> HostState {
    HostState {
        username: "SYSTEM".to_string(),
        registry: ServiceRegistry::new(),
        service_host: Some("/abs/sombra-windows-service.exe".to_string()),
    }
}

fn linux_spec(name: &str, args: Vec<String>) -> SombraLinux {
    SombraLinux::build_resolved(name, "executables/tcp_echo", Ok("/abs/tcp_echo".to_string()), args)
        .unwrap()
}

fn windows_spec(name: &str, args: Vec<String>) -> SombraWindows {
    SombraWindows::build_resolved(
        name,
        "executables/tcp_echo.exe",
        Ok("/abs/tcp_echo.exe".to_string()),
        args,
    )
    .unwrap()
}

#[test]
fn create_then_delete_then_create_again() {
    let mut host = root_host();
    let s = linux_spec("tcp_echo", vec![]);
    assert!(s.create(&mut host).is_ok());
    assert!(host.registry.contains("tcp_echo"));
    assert!(s.delete(&mut host).is_ok());
    assert!(!host.registry.contains("tcp_echo"));
    assert!(s.create(&mut host).is_ok());
    assert!(s.delete(&mut host).is_ok());
}

#[test]
fn create_twice_same_name() {
    let mut host = root_host();
    let s = linux_spec("tcp_echo", vec![]);
    assert!(s.create(&mut host).is_ok());
    let s2 = linux_spec("tcp_echo", vec!["-p".to_string(), "30223".to_string()]);
    let second = s2.create(&mut host);
    assert!(second.is_err());
    assert_eq!(second.unwrap_err().kind, ErrorKind::Io);
    // the first registration is untouched
    let reg = host.registry.get("tcp_echo").unwrap();
    assert_eq!(reg.exec_path, "/abs/tcp_echo");
    assert_eq!(reg.args, Vec::<String>::new());
    assert!(s.delete(&mut host).is_ok());
}

#[test]
fn create_twice_other_name() {
    let mut host = root_host();
    let s1 = linux_spec("tcp_echo30222", vec!["-p".to_string(), "30222".to_string()]);
    let s2 = linux_spec("tcp_echo30223", vec!["-p".to_string(), "30223".to_string()]);
    assert!(s1.create(&mut host).is_ok());
    assert!(s2.create(&mut host).is_ok());
    let r1 = host.registry.get("tcp_echo30222").unwrap();
    assert_eq!(r1.args, vec!["-p".to_string(), "30222".to_string()]);
    let r2 = host.registry.get("tcp_echo30223").unwrap();
    assert_eq!(r2.args, vec!["-p".to_string(), "30223".to_string()]);
    // each is deletable on its own; the other stays reachable
    assert!(s1.delete(&mut host).is_ok());
    assert!(host.registry.contains("tcp_echo30223"));
    assert!(!host.registry.contains("tcp_echo30222"));
    assert!(s2.delete(&mut host).is_ok());
    assert!(!host.registry.contains("tcp_echo30223"));
}

#[test]
fn create_once_delete_twice() {
    let mut host = root_host();
    let s = linux_spec("tcp_echo", vec![]);
    assert!(s.create(&mut host).is_ok());
    assert!(s.delete(&mut host).is_ok());
    let again = s.delete(&mut host);
    assert!(again.is_err());
    assert_eq!(again.unwrap_err().kind, ErrorKind::Io);
}

#[test]
fn delete_without_create() {
    let mut host = root_host();
    let s = linux_spec("tcp_echo", vec![]);
    let r = s.delete(&mut host);
    assert!(r.is_err());
    assert_eq!(r.unwrap_err().kind, ErrorKind::Io);
    assert!(!host.registry.contains("tcp_echo"));
}

#[test]
fn create_without_privilege() {
    let mut host = root_host();
    host.username = "alice".to_string();
    let s = linux_spec("tcp_echo", vec![]);
    let r = s.create(&mut host);
    assert!(r.is_err());
    let e = r.unwrap_err();
    assert_eq!(e.kind, ErrorKind::Other);
    assert_eq!(e.to_string(), "<Other> Without root privileges.");
    // rejected before anything was recorded
    assert!(!host.registry.contains("tcp_echo"));
}

#[test]
fn arguments_pass_through_unchanged() {
    let mut host = root_host();
    let s = linux_spec("tcp_echo", vec!["-p".to_string(), "30223".to_string()]);
    assert!(s.create(&mut host).is_ok());
    let reg = host.registry.get("tcp_echo").unwrap();
    assert_eq!(reg.exec_path, "/abs/tcp_echo");
    assert_eq!(reg.args, vec!["-p".to_string(), "30223".to_string()]);
}

#[test]
fn empty_arguments_are_dropped() {
    let s = linux_spec(
        "tcp_echo",
        vec!["".to_string(), "-p".to_string(), "".to_string(), "30223".to_string()],
    );
    assert_eq!(s.process_args, vec!["-p".to_string(), "30223".to_string()]);
}

#[test]
fn invalid_names_are_rejected() {
    let empty = SombraLinux::build_resolved("", "p", Ok("/abs/p".to_string()), vec![]);
    let e = empty.unwrap_err();
    assert_eq!(e.kind, ErrorKind::Other);
    assert_eq!(e.content, Some("".to_string()));
    let slash = SombraLinux::build_resolved("a/b", "p", Ok("/abs/p".to_string()), vec![]);
    assert_eq!(slash.unwrap_err().content, Some("a/b".to_string()));
}

#[test]
fn unresolved_path_is_io_with_the_path() {
    let r = SombraLinux::build_resolved(
        "tcp_echo2",
        "executables/tcp_echos",
        Err("No such file or directory (os error 2)".to_string()),
        vec![],
    );
    let e = r.unwrap_err();
    assert_eq!(e.kind, ErrorKind::Io);
    assert_eq!(e.content, Some("executables/tcp_echos".to_string()));
    assert_eq!(
        e.to_string(),
        "<Io> executables/tcp_echos: No such file or directory (os error 2)"
    );
}

#[test]
fn windows_round_trip_and_double_delete() {
    let mut host = windows_host();
    let s = windows_spec("tcp_echo", vec![]);
    assert!(s.create(&mut host).is_ok());
    assert!(s.delete(&mut host).is_ok());
    let again = s.delete(&mut host);
    assert_eq!(again.unwrap_err().kind, ErrorKind::PlatformService);
    assert!(s.create(&mut host).is_ok());
}

#[test]
fn windows_duplicate_name() {
    let mut host = windows_host();
    let s = windows_spec("tcp_echo", vec![]);
    assert!(s.create(&mut host).is_ok());
    let second = s.create(&mut host);
    assert_eq!(second.unwrap_err().kind, ErrorKind::PlatformService);
}

#[test]
fn windows_delete_without_create() {
    let mut host = windows_host();
    let s = windows_spec("tcp_echo", vec![]);
    let r = s.delete(&mut host);
    assert_eq!(r.unwrap_err().kind, ErrorKind::PlatformService);
}

#[test]
fn windows_wraps_target_behind_service_host() {
    let mut host = windows_host();
    let s = windows_spec("tcp_echo", vec!["-p".to_string(), "30223".to_string()]);
    assert!(s.create(&mut host).is_ok());
    let reg = host.registry.get("tcp_echo").unwrap();
    // the manager launches the host binary; the target and its arguments
    // are the launch arguments, in order
    assert_eq!(reg.exec_path, "/abs/sombra-windows-service.exe");
    assert_eq!(
        reg.args,
        vec![
            "/abs/tcp_echo.exe".to_string(),
            "-p".to_string(),
            "30223".to_string()
        ]
    );
}

#[test]
fn windows_missing_host_binary() {
    let mut host = windows_host();
    host.service_host = None;
    let s = windows_spec("tcp_echo", vec![]);
    let r = s.create(&mut host);
    let e = r.unwrap_err();
    assert_eq!(e.kind, ErrorKind::EnvVar);
    assert_eq!(
        e.desc,
        "Environment variable SOMBRA_WINDOWS_SERVICE_PATH not found"
    );
    assert!(!host.registry.contains("tcp_echo"));
}

#[test]
fn windows_helpers() {
    let s = windows_spec("tcp_echo", vec!["-p".to_string(), "30223".to_string()]);
    assert_eq!(
        s.launch_arguments(),
        vec![
            "/abs/tcp_echo.exe".to_string(),
            "-p".to_string(),
            "30223".to_string()
        ]
    );
    assert_eq!(
        s.service_description(),
        "Sombra Service Wrapper on tcp_echo"
    );
    assert!(!SombraWindows::needs_stop(sombra::ServiceState::Stopped));
    assert!(SombraWindows::needs_stop(sombra::ServiceState::Running));
    assert!(SombraWindows::needs_stop(sombra::ServiceState::StopPending));
    assert_eq!(sombra::STOP_GRACE_PERIOD_MS, 100);
}

#[test]
fn unit_path_of_service() {
    let s = linux_spec("tcp_echo", vec![]);
    assert_eq!(s.unit_path(), "/etc/systemd/system/tcp_echo.service");
}

#[test]
fn three_services_delete_the_middle_one() {
    let mut host = root_host();
    let a = linux_spec("svc_a", vec![]);
    let b = linux_spec("svc_b", vec!["-p".to_string(), "1".to_string()]);
    let c = linux_spec("svc_c", vec![]);
    assert!(a.create(&mut host).is_ok());
    assert!(b.create(&mut host).is_ok());
    assert!(c.create(&mut host).is_ok());
    assert!(b.delete(&mut host).is_ok());
    assert!(host.registry.contains("svc_a"));
    assert!(!host.registry.contains("svc_b"));
    assert!(host.registry.contains("svc_c"));
    assert!(b.delete(&mut host).is_err());
    assert!(a.delete(&mut host).is_ok());
    assert!(c.delete(&mut host).is_ok());
}

#[test]
fn name_validation() {
    assert!(sombra::check_name("tcp_echo"));
    assert!(sombra::check_name("tcp-echo.2"));
    assert!(!sombra::check_name(""));
    assert!(!sombra::check_name("a/b"));
    assert!(!sombra::check_name("a\\b"));
}
