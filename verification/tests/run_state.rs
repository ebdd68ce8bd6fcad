use rperf::client::state::{ClientRunState, KILL_TIMEOUT_NANOS};
use rperf::protocol::state::RunState;
use rperf::server::state::{Admission, ServeStep, ServerRunState};

#[test]
fn a_new_client_run_is_alive() {
    assert!(ClientRunState::new().is_alive());
    assert!(ClientRunState::default().is_alive());
}

#[test]
fn a_client_shutdown_is_reported_once() {
    let mut state = ClientRunState::new();
    assert!(state.request_shutdown());
    assert!(!state.request_shutdown());
    assert!(!state.is_alive());
    state.reset();
    assert!(state.is_alive());
}

#[test]
fn a_fresh_kill_timer_leaves_the_run_alive() {
    let mut state = ClientRunState::new();
    state.start_kill_timer();
    assert!(state.is_alive());
}

#[test]
fn a_kill_timer_that_ran_too_long_ends_the_run() {
    let mut state = ClientRunState::new();
    state.start_kill_timer_at(std::time::SystemTime::UNIX_EPOCH);
    assert!(!state.is_alive());
    state.start_kill_timer();
    assert!(!state.is_alive());
    state.reset();
    assert!(state.is_alive());
}

#[test]
fn a_clock_that_was_set_back_counts_as_no_time() {
    let mut state = ClientRunState::new();
    let hour = std::time::Duration::from_secs(3600);
    state.start_kill_timer_at(std::time::SystemTime::now() + hour);
    assert!(state.is_alive());
    assert!(state.is_alive_after(None));
}

#[test]
fn the_kill_timer_expires_after_five_seconds() {
    assert_eq!(KILL_TIMEOUT_NANOS, 5_000_000_000);
    let mut state = ClientRunState::new();
    assert!(state.is_alive_after(Some(KILL_TIMEOUT_NANOS)));
    state.start_kill_timer_at(std::time::SystemTime::now());
    assert!(state.is_alive_after(Some(4_999_999_999)));
    assert!(!state.is_alive_after(Some(5_000_000_000)));
    assert!(!state.is_alive_after(Some(5_000_000_001)));
    state.request_shutdown();
    assert!(!state.is_alive_after(Some(0)));
}

#[test]
fn a_server_counts_its_clients() {
    let mut state = ServerRunState::new();
    assert_eq!(state.client_count(), 0);
    assert_eq!(state.client_connected(), 1);
    assert_eq!(state.client_connected(), 2);
    assert_eq!(state.client_disconnected(), 2);
    assert_eq!(state.client_count(), 1);
    assert_eq!(state.client_disconnected(), 1);
    assert_eq!(state.client_count(), 0);
}

#[test]
fn a_count_of_clients_wraps_below_zero() {
    let mut state = ServerRunState::default();
    assert_eq!(state.client_disconnected(), 0);
    assert_eq!(state.client_count(), u16::MAX);
}

#[test]
fn a_server_shutdown_keeps_the_clients() {
    let mut state = ServerRunState::new();
    state.client_connected();
    assert!(state.is_alive());
    assert!(state.request_shutdown());
    assert!(!state.request_shutdown());
    assert!(!state.is_alive());
    assert_eq!(state.client_count(), 1);
}

#[test]
fn clients_over_the_limit_are_refused() {
    let mut state = ServerRunState::new();
    assert_eq!(state.accept_client(2), Admission::Served);
    assert_eq!(state.accept_client(2), Admission::Served);
    assert_eq!(state.accept_client(2), Admission::Refused);
    assert_eq!(state.client_count(), 2);
    state.client_disconnected();
    assert_eq!(state.accept_client(2), Admission::Served);
}

#[test]
fn a_limit_of_zero_is_no_limit() {
    let mut state = ServerRunState::new();
    let mut served: u16 = 0;
    while served < 300 {
        assert_eq!(state.accept_client(0), Admission::Served);
        served += 1;
    }
    assert_eq!(state.client_count(), 300);
}

#[test]
fn a_server_waits_for_its_clients_before_it_returns() {
    let mut state = ServerRunState::new();
    assert_eq!(state.next_step(), ServeStep::Accept);
    state.client_connected();
    assert_eq!(state.next_step(), ServeStep::Accept);
    state.request_shutdown();
    assert_eq!(state.next_step(), ServeStep::Wait);
    state.client_disconnected();
    assert_eq!(state.next_step(), ServeStep::Return);
}

#[test]
fn calls_in_any_order_leave_the_difference() {
    let mut state = ServerRunState::new();
    assert_eq!(state.client_connected(), 1);
    assert!(state.request_shutdown());
    assert_eq!(state.client_connected(), 2);
    assert!(!state.request_shutdown());
    assert_eq!(state.client_connected(), 3);
    assert_eq!(state.client_disconnected(), 3);
    assert_eq!(state.client_count(), 2);
}
