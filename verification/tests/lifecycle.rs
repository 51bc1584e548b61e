use socks_relay::lifecycle::{
    Lifecycle, StartStep, INIT_ERR_ARG, INIT_ERR_BOOTSTRAP, INIT_ERR_ENGINE, START_ERR_BIND,
    START_ERR_NO_BACKEND, START_ERR_NO_ENGINE, STATUS_OK,
};

#[test]
fn status_code_values() {
    assert_eq!(STATUS_OK, 0);
    assert_eq!(INIT_ERR_ARG, -1);
    assert_eq!(INIT_ERR_ENGINE, -2);
    assert_eq!(INIT_ERR_BOOTSTRAP, -3);
    assert_eq!(START_ERR_NO_BACKEND, -1);
    assert_eq!(START_ERR_NO_ENGINE, -2);
    assert_eq!(START_ERR_BIND, -3);
}

#[test]
fn start_without_engine_is_refused_with_engine_error() {
    let mut lc = Lifecycle { engine_ready: false, backend_ready: true, listener_port: None };
    assert_eq!(lc.start_begin(), StartStep::Refuse(-2));
    assert_eq!(lc.current_port(), None);
}

#[test]
fn initialize_then_start_succeeds() {
    let mut lc = Lifecycle::new();
    assert_eq!(lc.engine_created(true), None);
    assert_eq!(lc.bootstrap_finished(true), 0);
    assert_eq!(lc.start_begin(), StartStep::Bind);
    assert_eq!(lc.bind_finished(9050, true), 0);
    assert_eq!(lc.current_port(), Some(9050));
}

#[test]
fn start_before_initialize_is_refused_without_bind() {
    let mut lc = Lifecycle::new();
    assert_eq!(lc.start_begin(), StartStep::Refuse(-1));
    assert_eq!(lc.current_port(), None);
}

#[test]
fn engine_creation_failure_reports_engine_error() {
    let mut lc = Lifecycle::new();
    assert_eq!(lc.engine_created(false), Some(-2));
    assert!(!lc.engine_present());
}

#[test]
fn engine_stays_once_created() {
    let mut lc = Lifecycle::new();
    assert_eq!(lc.engine_created(true), None);
    assert_eq!(lc.engine_created(false), None);
    assert!(lc.engine_present());
}

#[test]
fn bootstrap_failure_stores_no_backend() {
    let mut lc = Lifecycle::new();
    assert_eq!(lc.engine_created(true), None);
    assert_eq!(lc.bootstrap_finished(false), -3);
    assert!(!lc.backend_present());
    assert_eq!(lc.start_begin(), StartStep::Refuse(-1));
}

#[test]
fn bind_failure_leaves_no_listener() {
    let mut lc = Lifecycle::new();
    lc.engine_created(true);
    lc.bootstrap_finished(true);
    assert_eq!(lc.start_begin(), StartStep::Bind);
    assert_eq!(lc.bind_finished(80, false), -3);
    assert_eq!(lc.current_port(), None);
}

#[test]
fn second_start_supersedes_first_listener() {
    let mut lc = Lifecycle::new();
    lc.engine_created(true);
    lc.bootstrap_finished(true);
    lc.start_begin();
    lc.bind_finished(9050, true);
    assert_eq!(lc.current_port(), Some(9050));
    assert_eq!(lc.start_begin(), StartStep::Bind);
    assert_eq!(lc.current_port(), None);
    assert_eq!(lc.bind_finished(9150, true), 0);
    assert_eq!(lc.current_port(), Some(9150));
}

#[test]
fn stop_then_start_same_port_succeeds() {
    let mut lc = Lifecycle::new();
    lc.engine_created(true);
    lc.bootstrap_finished(true);
    lc.start_begin();
    lc.bind_finished(9050, true);
    assert_eq!(lc.stop(), 0);
    assert_eq!(lc.current_port(), None);
    assert_eq!(lc.start_begin(), StartStep::Bind);
    assert_eq!(lc.bind_finished(9050, true), 0);
    assert_eq!(lc.current_port(), Some(9050));
}

#[test]
fn stop_is_idempotent() {
    let mut lc = Lifecycle::new();
    assert_eq!(lc.stop(), 0);
    assert_eq!(lc.stop(), 0);
    assert_eq!(lc.current_port(), None);
}
