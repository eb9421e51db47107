use sombra::{
    Systemctl, already_exists_message, created_message, deleted_message, exec_start_line,
    not_found_message, render_unit,
};

#[test]
fn exec_start_without_args() {
    let line = exec_start_line("/abs/tcp_echo", &vec![]);
    assert_eq!(line, "/abs/tcp_echo");
}

#[test]
fn exec_start_with_args() {
    let args = vec!["-p".to_string(), "30223".to_string()];
    let line = exec_start_line("/abs/tcp_echo", &args);
    assert_eq!(line, "/abs/tcp_echo -p 30223");
}

#[test]
fn unit_content_exact() {
    let args = vec!["-p".to_string(), "30223".to_string()];
    let content = render_unit("tcp_echo", "/abs/tcp_echo", "root", &args);
    let expected = "[Unit]\n\
                    Description=tcp_echo service\n\
                    After=network.target\n\
                    StartLimitIntervalSec=0\n\
                    \n\
                    [Service]\n\
                    Type=simple\n\
                    User=root\n\
                    ExecStart=/abs/tcp_echo -p 30223\n\
                    \n\
                    [Install]\n\
                    WantedBy=multi-user.target";
    assert_eq!(content, expected);
}

#[test]
fn systemctl_argument_lists() {
    let ctl = Systemctl::new("tcp_echo");
    assert_eq!(ctl.name, "tcp_echo");
    assert_eq!(ctl.start_args(), vec!["start", "tcp_echo"]);
    assert_eq!(ctl.stop_args(), vec!["stop", "tcp_echo"]);
    assert_eq!(ctl.is_active_args(), vec!["is-active", "tcp_echo"]);
    assert_eq!(ctl.disable_args(), vec!["disable", "tcp_echo"]);
    assert_eq!(Systemctl::daemon_reload_args(), vec!["daemon-reload"]);
    assert_eq!(Systemctl::reset_failed_args(), vec!["reset-failed"]);
    assert_eq!(Systemctl::program(), "systemctl");
}

#[test]
fn is_active_parsing() {
    assert!(Systemctl::parse_is_active("active"));
    assert!(!Systemctl::parse_is_active("inactive"));
    assert!(!Systemctl::parse_is_active("activex"));
    assert!(!Systemctl::parse_is_active(""));
}

#[test]
fn outcome_messages() {
    assert_eq!(
        created_message("tcp_echo"),
        "Service tcp_echo created with success"
    );
    assert_eq!(
        deleted_message("tcp_echo"),
        "Service tcp_echo deleted with success"
    );
    assert_eq!(
        already_exists_message("tcp_echo"),
        "Service tcp_echo already exist"
    );
    assert_eq!(not_found_message("tcp_echo"), "Service tcp_echo not found");
}
