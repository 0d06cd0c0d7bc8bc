use wayland_submitter::connect::{connect_outcome, fallback_endpoint, EndpointChoice};
use wayland_submitter::connectors::{ContentConnector, UIConnector, UiNotice};
use wayland_submitter::errors::{CapabilityWarning, FatalError};

#[test]
fn env_endpoint_success_is_preferred() {
    assert_eq!(connect_outcome(true, false), Ok(EndpointChoice::EnvIndicated));
    assert_eq!(connect_outcome(true, true), Ok(EndpointChoice::EnvIndicated));
}

#[test]
fn fallback_endpoint_rescues_a_failed_env_attempt() {
    assert_eq!(connect_outcome(false, true), Ok(EndpointChoice::Fallback));
}

#[test]
fn both_attempts_exhausted_is_fatal() {
    assert_eq!(connect_outcome(false, false), Err(FatalError::ConnectionFailed));
}

#[test]
fn fallback_endpoint_name_is_fixed() {
    assert_eq!(fallback_endpoint(), "wayland-0");
}

#[test]
fn text_changed_passes_surrounding_text_through_unmodified() {
    let connector = ContentConnector::new();
    let notice = connector.text_changed("hello ".to_owned(), "world".to_owned());
    assert_eq!(notice.left, "hello ");
    assert_eq!(notice.right, "world");
}

#[test]
fn visibility_requests_pass_through() {
    let connector = UIConnector::new();
    assert_eq!(connector.activate_im(), UiNotice::Activate);
    assert_eq!(connector.deactivate_im(), UiNotice::Deactivate);
}

#[test]
fn hint_and_purpose_pass_through_unmodified() {
    let connector = UIConnector::new();
    let notice = connector.set_hint_purpose(3, 2);
    assert_eq!(notice, UiNotice::HintPurpose { content_hint: 3, content_purpose: 2 });
}

#[test]
fn fatal_error_messages_name_each_failure() {
    assert!(FatalError::ConnectionFailed.message().contains("connect"));
    assert!(FatalError::UnexpectedEvent.message().contains("unexpected event"));
    assert!(FatalError::SeatMissing.message().contains("seat"));
}

#[test]
fn capability_warnings_describe_the_specific_loss() {
    let vk = CapabilityWarning::VirtualKeyboardUnsupported.message();
    let im = CapabilityWarning::InputMethodUnsupported.message();
    assert!(vk.contains("virtual-keyboard"));
    assert!(vk.contains("keycodes cannot be entered"));
    assert!(im.contains("input-method"));
    assert!(im.contains("only keycodes can be entered"));
}
