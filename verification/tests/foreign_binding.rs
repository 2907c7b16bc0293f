use rsocket_transport_iroh::interop::client_label;
use rsocket_transport_iroh::interop::gather;
use rsocket_transport_iroh::interop::Interaction;

#[test]
fn each_interaction_words_its_failure() {
    assert_eq!(Interaction::MetadataPush.failure_text("x"), "MetadataPush failed: x");
    assert_eq!(Interaction::FireAndForget.failure_text("x"), "FireAndForget failed: x");
    assert_eq!(Interaction::RequestResponse.failure_text("x"), "RequestResponse failed: x");
    assert_eq!(Interaction::RequestStream.failure_text("x"), "Stream error: x");
    assert_eq!(Interaction::RequestChannel.failure_text(""), "Channel error: ");
}

#[test]
fn gather_keeps_payloads_in_order() {
    let mut results: Vec<u32> = Vec::new();
    assert_eq!(gather(&mut results, Ok(3), Interaction::RequestStream), Ok(()));
    assert_eq!(gather(&mut results, Ok(1), Interaction::RequestStream), Ok(()));
    assert_eq!(gather(&mut results, Ok(2), Interaction::RequestStream), Ok(()));
    assert_eq!(results, vec![3, 1, 2]);
}

#[test]
fn gather_stops_at_a_failure() {
    let mut results: Vec<u32> = vec![7];
    let outcome = gather(&mut results, Err("broken pipe".to_string()), Interaction::RequestChannel);
    assert_eq!(outcome, Err("Channel error: broken pipe".to_string()));
    assert_eq!(results, vec![7]);
    let outcome = gather(&mut results, Err("late".to_string()), Interaction::RequestStream);
    assert_eq!(outcome, Err("Stream error: late".to_string()));
}

#[test]
fn client_shows_its_name() {
    assert_eq!(client_label(), "RSocket Client");
}
