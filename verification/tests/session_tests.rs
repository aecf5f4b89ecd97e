use idili::config::default_config;
use idili::facade::{connect_veilid, get_node_id};
use idili::session::{AttachmentState, Session, SessionPhase};

#[test]
fn start_is_detached_and_running() {
    let s = Session::start(default_config());
    assert_eq!(s.phase, SessionPhase::Running);
    assert_eq!(s.attachment, AttachmentState::Detached);
    assert!(!s.attach_pending);
    assert!(s.node_ids.is_empty());
}

#[test]
fn ensure_attached_issues_one_request_while_detached() {
    let mut s = Session::start(default_config());
    assert!(s.ensure_attached());
    // The request is outstanding: repeated calls issue nothing further.
    assert!(!s.ensure_attached());
    assert!(!s.ensure_attached());
    assert!(!s.ensure_attached());
}

#[test]
fn ensure_attached_noop_while_already_attached() {
    let mut s = Session::start(default_config());
    s.observe_attachment(AttachmentState::AttachedGood);
    for _ in 0..5 {
        assert!(!s.ensure_attached());
    }
}

#[test]
fn ensure_attached_may_retry_after_failure() {
    let mut s = Session::start(default_config());
    assert!(s.ensure_attached());
    s.attach_failed();
    assert!(s.ensure_attached());
}

#[test]
fn observing_detached_keeps_request_outstanding() {
    let mut s = Session::start(default_config());
    assert!(s.ensure_attached());
    s.observe_attachment(AttachmentState::Detached);
    assert!(s.attach_pending);
    s.observe_attachment(AttachmentState::Attaching);
    assert!(!s.attach_pending);
}

#[test]
fn shutdown_twice_is_harmless_and_terminal() {
    let mut s = Session::start(default_config());
    s.observe_attachment(AttachmentState::FullyAttached);
    s.shutdown();
    let phase_once = s.phase;
    s.shutdown();
    assert_eq!(phase_once, SessionPhase::ShutDown);
    assert_eq!(s.phase, SessionPhase::ShutDown);
    // The handle is non-reusable: no attach request can go out any more.
    assert!(!s.ensure_attached());
    s.observe_attachment(AttachmentState::AttachedGood);
    assert_eq!(s.phase, SessionPhase::ShutDown);
    assert!(!s.ensure_attached());
}

#[test]
fn node_identity_empty_without_ids() {
    let s = Session::start(default_config());
    assert_eq!(s.current_node_identity(), "");
}

#[test]
fn node_identity_is_first_recorded_id() {
    let mut s = Session::start(default_config());
    s.record_node_ids(vec![
        "VLD0:7fmbzW2YkbzCtmPRSpU4HPQKSKsFwgadzBhSg_A7u0o".to_string(),
        "VLD0:other".to_string(),
    ]);
    assert_eq!(
        s.current_node_identity(),
        "VLD0:7fmbzW2YkbzCtmPRSpU4HPQKSKsFwgadzBhSg_A7u0o"
    );
}

#[test]
fn get_node_id_without_session_is_empty() {
    assert_eq!(get_node_id(None), "");
}

#[test]
fn get_node_id_reads_session_identity() {
    let mut s = Session::start(default_config());
    assert_eq!(get_node_id(Some(&s)), "");
    s.record_node_ids(vec!["VLD0:abc".to_string()]);
    assert_eq!(get_node_id(Some(&s)), "VLD0:abc");
}

#[test]
fn connect_delegates_to_ensure_attached() {
    let mut s = Session::start(default_config());
    assert!(connect_veilid(&mut s));
    assert!(!connect_veilid(&mut s));
    s.observe_attachment(AttachmentState::AttachedWeak);
    assert!(!connect_veilid(&mut s));
}
