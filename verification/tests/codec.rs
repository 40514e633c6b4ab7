use dhl_tracking::codec::{Service, StatusCode};
use dhl_tracking::error::ClientError;

#[test]
fn parses_every_service_string() {
    assert!(matches!(Service::parse("freight"), Ok(Service::Freight)));
    assert!(matches!(Service::parse("express"), Ok(Service::Express)));
    assert!(matches!(Service::parse("parcel-de"), Ok(Service::ParcelDE)));
    assert!(matches!(Service::parse("parcel-nl"), Ok(Service::ParcelNL)));
    assert!(matches!(Service::parse("dsc"), Ok(Service::DSC)));
    assert!(matches!(Service::parse("dgf"), Ok(Service::DGF)));
    assert!(matches!(Service::parse("ecommerce"), Ok(Service::Ecommerce)));
}

#[test]
fn service_matching_is_case_sensitive() {
    assert!(matches!(
        Service::parse("PARCEL-DE"),
        Err(ClientError::DeserializationError(_))
    ));
    assert!(matches!(
        Service::parse("Express"),
        Err(ClientError::DeserializationError(_))
    ));
}

#[test]
fn service_input_is_trimmed_before_comparison() {
    assert!(matches!(Service::parse("  express  "), Ok(Service::Express)));
    assert!(matches!(Service::parse("\tfreight\n"), Ok(Service::Freight)));
}

#[test]
fn parcel_pl_has_no_input_string() {
    // The variant exists but the carrier exposes no code for it; the gap is
    // kept as it stands.
    assert!(matches!(
        Service::parse("parcel-pl"),
        Err(ClientError::DeserializationError(_))
    ));
}

#[test]
fn unknown_service_is_an_error() {
    match Service::parse("pigeon-post") {
        Err(ClientError::DeserializationError(m)) => assert_eq!(m, "Not a valid service"),
        _ => panic!("expected a deserialization error"),
    }
}

#[test]
fn parses_every_status_code_string() {
    assert!(matches!(
        StatusCode::parse("pre-transit"),
        Ok(StatusCode::PreTransit)
    ));
    assert!(matches!(StatusCode::parse("transit"), Ok(StatusCode::Transit)));
    assert!(matches!(
        StatusCode::parse("delivered"),
        Ok(StatusCode::Delivered)
    ));
    assert!(matches!(StatusCode::parse("failure"), Ok(StatusCode::Failure)));
    assert!(matches!(StatusCode::parse("unknown"), Ok(StatusCode::Unknown)));
}

#[test]
fn status_code_input_is_trimmed_before_comparison() {
    assert!(matches!(
        StatusCode::parse(" delivered "),
        Ok(StatusCode::Delivered)
    ));
}

#[test]
fn unknown_status_code_is_an_error() {
    match StatusCode::parse("bogus") {
        Err(ClientError::DeserializationError(m)) => assert_eq!(m, "Not a valid status code"),
        _ => panic!("expected a deserialization error"),
    }
    assert!(matches!(
        StatusCode::parse("DELIVERED"),
        Err(ClientError::DeserializationError(_))
    ));
}
