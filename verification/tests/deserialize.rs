use dhl_tracking::codec::{Service, StatusCode};
use dhl_tracking::error::ClientError;
use dhl_tracking::model::{
    Address, Place, ProofOfDelivery, Response, Shipment, ShipmentDetails, ShipmentEvent,
};
use dhl_tracking::raw::{RawResponse, RawShipment, RawShipmentEvent};
use dhl_tracking::timestamp::Timestamp;

fn raw_event(timestamp: &str, status_code: Option<&str>) -> RawShipmentEvent {
    RawShipmentEvent {
        timestamp: timestamp.to_string(),
        location: Some(Place {
            address: Address {
                country_code: Some("DE".to_string()),
                postal_code: Some("53113".to_string()),
                address_locality: Some("Bonn".to_string()),
                street_address: None,
            },
        }),
        status_code: status_code.map(|s| s.to_string()),
        description: Some("picked up".to_string()),
        remark: None,
        next_steps: None,
    }
}

fn details() -> ShipmentDetails {
    ShipmentDetails {
        carrier: None,
        product: None,
        receiver: None,
        sender: None,
        proof_of_delivery: ProofOfDelivery {
            document_url: "https://example.invalid/pod/1".to_string(),
        },
        total_number_of_pieces: 1,
        piece_ids: vec!["p-1".to_string()],
    }
}

fn raw_shipment() -> RawShipment {
    RawShipment {
        id: "00340434161094681800".to_string(),
        service: "express".to_string(),
        origin: None,
        destination: None,
        status: raw_event("2021-06-15T10:30:00", Some("transit")),
        estimated_time_of_delivery: "2021-06-15".to_string(),
        estimated_time_of_delivery_remark: Some("by end of day".to_string()),
        details: details(),
        events: vec![raw_event("2021-06-14T08:00:00", Some("pre-transit"))],
    }
}

#[test]
fn missing_status_code_deserializes_as_none() {
    let ev = ShipmentEvent::from_raw(raw_event("2021-06-15T10:30:00", None)).unwrap();
    assert!(ev.status_code.is_none());
    assert_eq!(
        ev.timestamp,
        Timestamp {
            year: 2021,
            month: 6,
            day: 15,
            hour: 10,
            minute: 30,
            second: 0
        }
    );
    assert_eq!(ev.description.as_deref(), Some("picked up"));
}

#[test]
fn unrecognized_status_code_fails_the_parse() {
    let res = ShipmentEvent::from_raw(raw_event("2021-06-15T10:30:00", Some("bogus")));
    assert!(matches!(res, Err(ClientError::DeserializationError(_))));
}

#[test]
fn unparsable_event_timestamp_fails_the_parse() {
    let res = ShipmentEvent::from_raw(raw_event("yesterday", Some("transit")));
    assert!(matches!(res, Err(ClientError::DeserializationError(_))));
}

#[test]
fn one_shipment_round_trips_field_by_field() {
    let raw = RawResponse {
        shipments: vec![raw_shipment()],
        possible_additional_shipments_url: vec!["/track/shipments?offset=1".to_string()],
    };
    let resp: Response = Response::from_raw(raw).unwrap();
    assert_eq!(resp.shipments.len(), 1);
    assert_eq!(
        resp.possible_additional_shipments_url,
        vec!["/track/shipments?offset=1".to_string()]
    );
    let s: &Shipment = &resp.shipments[0];
    assert_eq!(s.id, "00340434161094681800");
    assert!(matches!(s.service, Service::Express));
    assert!(s.origin.is_none());
    assert!(s.destination.is_none());
    assert_eq!(
        s.estimated_time_of_delivery,
        Timestamp {
            year: 2021,
            month: 6,
            day: 15,
            hour: 0,
            minute: 0,
            second: 1
        }
    );
    assert_eq!(s.estimated_time_of_delivery_remark.as_deref(), Some("by end of day"));
    assert_eq!(
        s.status.timestamp,
        Timestamp {
            year: 2021,
            month: 6,
            day: 15,
            hour: 10,
            minute: 30,
            second: 0
        }
    );
    assert!(matches!(s.status.status_code, Some(StatusCode::Transit)));
    let loc = s.status.location.as_ref().unwrap();
    assert_eq!(loc.address.country_code.as_deref(), Some("DE"));
    assert_eq!(loc.address.postal_code.as_deref(), Some("53113"));
    assert_eq!(loc.address.address_locality.as_deref(), Some("Bonn"));
    assert!(loc.address.street_address.is_none());
    assert_eq!(s.details.total_number_of_pieces, 1);
    assert_eq!(s.details.piece_ids, vec!["p-1".to_string()]);
    assert_eq!(
        s.details.proof_of_delivery.document_url,
        "https://example.invalid/pod/1"
    );
    assert_eq!(s.events.len(), 1);
    assert_eq!(
        s.events[0].timestamp,
        Timestamp {
            year: 2021,
            month: 6,
            day: 14,
            hour: 8,
            minute: 0,
            second: 0
        }
    );
    assert!(matches!(s.events[0].status_code, Some(StatusCode::PreTransit)));
}

#[test]
fn a_bad_service_fails_the_whole_response() {
    let mut shipment = raw_shipment();
    shipment.service = "carrier-pigeon".to_string();
    let raw = RawResponse {
        shipments: vec![shipment],
        possible_additional_shipments_url: vec![],
    };
    assert!(matches!(
        Response::from_raw(raw),
        Err(ClientError::DeserializationError(_))
    ));
}

#[test]
fn a_bad_event_deep_in_the_history_fails_the_whole_response() {
    let mut shipment = raw_shipment();
    shipment.events.push(raw_event("2021-02-30T00:00:00", None));
    let raw = RawResponse {
        shipments: vec![shipment],
        possible_additional_shipments_url: vec![],
    };
    assert!(matches!(
        Response::from_raw(raw),
        Err(ClientError::DeserializationError(_))
    ));
}

#[test]
fn an_empty_response_deserializes_to_an_empty_response() {
    let raw = RawResponse {
        shipments: vec![],
        possible_additional_shipments_url: vec![],
    };
    let resp = Response::from_raw(raw).unwrap();
    assert!(resp.shipments.is_empty());
    assert!(resp.possible_additional_shipments_url.is_empty());
}
