use mini_lan_bridge::status::AppState;

#[test]
fn new_state_is_idle() {
    let st = AppState::new("192.168.1.5".to_string());
    assert_eq!(st.my_ip, "192.168.1.5");
    assert_eq!(st.peer_ip, "");
    assert_eq!(st.peer_port, "9000");
    assert_eq!(st.virtual_ip, "10.0.0.1");
    assert!(!st.observe_connected());
    assert!(!st.shutdown);
    assert!(st.observe_log().is_empty());
}

#[test]
fn log_keeps_order() {
    let mut st = AppState::new(String::new());
    st.log("one".to_string());
    st.log("two".to_string());
    st.log("three".to_string());
    assert_eq!(st.observe_log().as_slice(), ["one", "two", "three"]);
}

#[test]
fn log_bound_evicts_oldest() {
    let mut st = AppState::new(String::new());
    for i in 0..160 {
        st.log(format!("entry {}", i));
    }
    let logs = st.observe_log();
    assert_eq!(logs.len(), 150);
    // Exactly the most recent 150 entries, in their original order.
    for (k, entry) in logs.iter().enumerate() {
        assert_eq!(entry, &format!("entry {}", k + 10));
    }
}

#[test]
fn log_at_exact_capacity_keeps_everything() {
    let mut st = AppState::new(String::new());
    for i in 0..150 {
        st.log(format!("entry {}", i));
    }
    let logs = st.observe_log();
    assert_eq!(logs.len(), 150);
    assert_eq!(logs[0], "entry 0");
    assert_eq!(logs[149], "entry 149");
}

#[test]
fn flags_are_independent() {
    let mut st = AppState::new(String::new());
    st.set_connected(true);
    assert!(st.observe_connected());
    assert!(!st.shutdown);
    st.request_shutdown();
    assert!(st.shutdown);
    assert!(st.observe_connected());
    st.set_connected(false);
    assert!(!st.observe_connected());
}
