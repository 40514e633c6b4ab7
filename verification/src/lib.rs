//! Client library for a parcel-carrier tracking API: tracking-number format
//! validation, strict parsing of the carrier's date and enum encodings, and a
//! typed model of the shipment data returned by the carrier.

use vstd::prelude::*;

pub mod client;
pub mod codec;
pub mod error;
pub mod model;
pub mod raw;
pub mod text;
pub mod timestamp;
pub mod validator;

verus! {

pub use crate::client::Client;
pub use crate::codec::Service;
pub use crate::codec::StatusCode;
pub use crate::error::ClientError;
pub use crate::error::ClientResult;
pub use crate::model::Address;
pub use crate::model::Organization;
pub use crate::model::Person;
pub use crate::model::Place;
pub use crate::model::Product;
pub use crate::model::ProofOfDelivery;
pub use crate::model::Response;
pub use crate::model::Shipment;
pub use crate::model::ShipmentDetails;
pub use crate::model::ShipmentEvent;
pub use crate::timestamp::Timestamp;
pub use crate::validator::TrackingNumber;

} // verus!
