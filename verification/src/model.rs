//! The typed shipment model: immutable value objects constructed once from a
//! successful API response. Fields marked optional here may be omitted by
//! the carrier; every other field is required for the whole parse to
//! succeed.

use vstd::prelude::*;

use crate::codec::{Service, StatusCode};
use crate::timestamp::Timestamp;

verus! {

/// A postal address; the carrier may omit any part of it.
#[derive(Clone)]
pub struct Address {
    pub country_code: Option<String>,
    pub postal_code: Option<String>,
    pub address_locality: Option<String>,
    pub street_address: Option<String>,
}

/// A named place, wrapping an address.
#[derive(Clone)]
pub struct Place {
    pub address: Address,
}

/// A natural person named on the shipment.
#[derive(Clone)]
pub struct Person {
    pub family_name: String,
    pub given_name: String,
    pub name: String,
}

/// The carrier or another organization named on the shipment.
#[derive(Clone)]
pub struct Organization {
    pub description: String,
    pub organization_name: String,
}

/// The booked product.
#[derive(Clone)]
pub struct Product {
    pub description: String,
    pub product_name: String,
}

/// Reference to the carrier's delivery-confirmation document.
#[derive(Clone)]
pub struct ProofOfDelivery {
    pub document_url: String,
}

/// Piece counts, parties and the proof of delivery for a shipment.
#[derive(Clone)]
pub struct ShipmentDetails {
    pub carrier: Option<Organization>,
    pub product: Option<Product>,
    pub receiver: Option<Person>,
    pub sender: Option<Person>,
    pub proof_of_delivery: ProofOfDelivery,
    pub total_number_of_pieces: u32,
    pub piece_ids: Vec<String>,
}

/// A single timestamped status update in a shipment's history. A missing
/// status code is tolerated; a present but unrecognized one is not.
#[derive(Clone)]
pub struct ShipmentEvent {
    pub timestamp: Timestamp,
    pub location: Option<Place>,
    pub status_code: Option<StatusCode>,
    pub description: Option<String>,
    pub remark: Option<String>,
    pub next_steps: Option<String>,
}

/// One tracked shipment: identity, current status and history.
#[derive(Clone)]
pub struct Shipment {
    pub id: String,
    pub service: Service,
    pub origin: Option<Place>,
    pub destination: Option<Place>,
    pub status: ShipmentEvent,
    pub estimated_time_of_delivery: Timestamp,
    pub estimated_time_of_delivery_remark: Option<String>,
    pub details: ShipmentDetails,
    pub events: Vec<ShipmentEvent>,
}

/// A full API answer: the shipments returned inline, and URLs for any
/// additional shipments not included.
#[derive(Clone)]
pub struct Response {
    pub shipments: Vec<Shipment>,
    pub possible_additional_shipments_url: Vec<String>,
}

} // verus!
