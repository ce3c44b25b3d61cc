use pm2_control::logs::{join_logs, log_paths};

#[test]
fn only_error_log_present() {
    assert_eq!(join_logs("E", ""), "E\n");
}

#[test]
fn both_logs_joined_error_first() {
    assert_eq!(join_logs("err line\n", "out line\n"), "err line\n\nout line\n");
}

#[test]
fn no_logs_at_all() {
    assert_eq!(join_logs("", ""), "\n");
}

#[test]
fn log_file_locations() {
    let (out, err) = log_paths("/home/ada", "api");
    assert_eq!(out, "/home/ada/.pm2/logs/api-out.log");
    assert_eq!(err, "/home/ada/.pm2/logs/api-error.log");
}
