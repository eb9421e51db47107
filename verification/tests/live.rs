use sombra::{ErrorKind, Sombra, SombraLinux};

#[test]
fn build_resolves_an_existing_path() {
    // "/." canonicalizes to "/": the resolver really resolves, it does not
    // hand its argument back
    let s = sombra::build("tcp_echo", "/.", vec![]).unwrap();
    assert_eq!(s.process_path, "/");
    assert_eq!(s.process_name, "tcp_echo");
}

#[test]
fn build_with_nonexistent_path_fails_with_io() {
    let r = sombra::build("tcp_echo2", "executables/tcp_echos", vec![]);
    let e = r.unwrap_err();
    assert_eq!(e.kind, ErrorKind::Io);
    assert_eq!(e.content, Some("executables/tcp_echos".to_string()));
}

#[test]
fn build_drops_empty_arguments() {
    let s = sombra::build(
        "tcp_echo",
        "/.",
        vec!["".to_string(), "-p".to_string(), "30223".to_string(), "".to_string()],
    )
    .unwrap();
    assert_eq!(s.process_args, vec!["-p".to_string(), "30223".to_string()]);
}

#[test]
fn build_rejects_invalid_names() {
    let e = sombra::build("", "/.", vec![]).unwrap_err();
    assert_eq!(e.kind, ErrorKind::Other);
    let e2 = sombra::build("a/b", "/.", vec![]).unwrap_err();
    assert_eq!(e2.kind, ErrorKind::Other);
    assert_eq!(e2.content, Some("a/b".to_string()));
}

#[test]
fn trait_build_on_windows_adapter() {
    let r = <sombra::SombraWindows as Sombra>::build("tcp_echo", "executables/tcp_echo.exe", vec![]);
    // that path does not exist on this machine, so resolution fails
    let e = r.unwrap_err();
    assert_eq!(e.kind, ErrorKind::Io);
    assert_eq!(e.content, Some("executables/tcp_echo.exe".to_string()));
}

#[test]
fn root_is_the_privileged_user() {
    assert!(sombra::check_root(&"root".to_string()).is_ok());
    let e = sombra::check_root(&"alice".to_string()).unwrap_err();
    assert_eq!(e.kind, ErrorKind::Other);
    assert_eq!(e.desc, "Without root privileges.");
}

#[test]
fn privilege_check_runs() {
    // whichever user runs this, the check either passes or reports the
    // validation kind with the documented text
    match SombraLinux::is_root() {
        Ok(()) => {}
        Err(e) => assert_eq!(e.kind, ErrorKind::Other),
    }
}

#[test]
fn unit_content_for_the_invoking_user() {
    let s = sombra::build("tcp_echo", "/.", vec!["-p".to_string(), "30223".to_string()]).unwrap();
    match s.service_file_content() {
        Ok(content) => {
            let user = whoami::username().unwrap();
            let expected = format!(
                "[Unit]\nDescription=tcp_echo service\nAfter=network.target\nStartLimitIntervalSec=0\n\n[Service]\nType=simple\nUser={}\nExecStart=/ -p 30223\n\n[Install]\nWantedBy=multi-user.target",
                user
            );
            assert_eq!(content, expected);
        }
        Err(e) => {
            // the platform could not report the invoking user at all
            assert_eq!(e.kind, ErrorKind::Other);
            assert!(whoami::username().is_err());
        }
    }
}
