use dhl_tracking::client::{classify_status, request_url, Client};
use dhl_tracking::error::ClientError;
use dhl_tracking::validator::TrackingNumber;

#[test]
fn client_keeps_the_api_key() {
    let c = Client::new("demo-key");
    assert_eq!(c.api_key(), "demo-key");
}

#[test]
fn request_url_appends_the_validated_number() {
    let t = TrackingNumber::validate("00340434161094681800").unwrap();
    assert_eq!(
        request_url(&t),
        "https://api-eu.dhl.com/track/shipments?trackingNumber=00340434161094681800"
    );
}

#[test]
fn request_url_uses_the_trimmed_stored_number() {
    let t = TrackingNumber::validate("123456789  ").unwrap();
    assert_eq!(
        request_url(&t),
        "https://api-eu.dhl.com/track/shipments?trackingNumber=123456789"
    );
}

#[test]
fn status_200_proceeds() {
    assert!(classify_status(200).is_ok());
}

#[test]
fn status_401_is_unauthorized() {
    assert!(matches!(classify_status(401), Err(ClientError::Unauthorized)));
}

#[test]
fn status_404_is_parcel_not_found() {
    assert!(matches!(classify_status(404), Err(ClientError::ParcelNotFound)));
}

#[test]
fn other_statuses_are_server_errors() {
    assert!(matches!(classify_status(500), Err(ClientError::ServerError)));
    assert!(matches!(classify_status(503), Err(ClientError::ServerError)));
    assert!(matches!(classify_status(204), Err(ClientError::ServerError)));
    assert!(matches!(classify_status(301), Err(ClientError::ServerError)));
}

#[test]
fn a_malformed_number_is_rejected_before_any_transport_work() {
    // The validator alone decides this; no URL is ever built for it.
    assert!(matches!(
        TrackingNumber::validate("!!!"),
        Err(ClientError::InvalidTrackingNumber)
    ));
}

#[test]
fn transport_failures_pass_through_opaquely() {
    let e = ClientError::TransportError("connection refused".to_string());
    match e {
        ClientError::TransportError(m) => assert_eq!(m, "connection refused"),
        _ => panic!("expected a transport error"),
    }
}
