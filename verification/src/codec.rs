//! The closed string-to-enum mappings the carrier uses: service type and
//! status code. Input is trimmed before comparison; matching is exact and
//! case-sensitive; anything outside the closed set is an error.

use vstd::prelude::*;

use crate::error::{ClientError, ClientResult};
use crate::text::{str_eq, trim, trim_spec};

verus! {

/// The carrier's service lines. `ParcelPL` is a valid variant but has no
/// input string in `service_of`: the carrier exposes no code for it, and the
/// gap is kept deliberately.
#[derive(Clone, Copy, Debug, PartialEq, Eq, Structural)]
pub enum Service {
    Freight,
    Express,
    ParcelDE,
    ParcelNL,
    ParcelPL,
    DSC,
    DGF,
    Ecommerce,
}

/// Coarse status of a shipment event.
#[derive(Clone, Copy, Debug, PartialEq, Eq, Structural)]
pub enum StatusCode {
    PreTransit,
    Transit,
    Delivered,
    Failure,
    Unknown,
}

/// The service denoted by `s` after trimming, or `None` when `s` is outside
/// the closed set.
pub open spec fn service_of(s: Seq<char>) -> Option<Service> {
    let t = trim_spec(s);
    if t == "freight"@ {
        Some(Service::Freight)
    } else if t == "express"@ {
        Some(Service::Express)
    } else if t == "parcel-de"@ {
        Some(Service::ParcelDE)
    } else if t == "parcel-nl"@ {
        Some(Service::ParcelNL)
    } else if t == "dsc"@ {
        Some(Service::DSC)
    } else if t == "dgf"@ {
        Some(Service::DGF)
    } else if t == "ecommerce"@ {
        Some(Service::Ecommerce)
    } else {
        None
    }
}

/// The status code denoted by `s` after trimming, or `None` when `s` is
/// outside the closed set.
pub open spec fn status_code_of(s: Seq<char>) -> Option<StatusCode> {
    let t = trim_spec(s);
    if t == "pre-transit"@ {
        Some(StatusCode::PreTransit)
    } else if t == "transit"@ {
        Some(StatusCode::Transit)
    } else if t == "delivered"@ {
        Some(StatusCode::Delivered)
    } else if t == "failure"@ {
        Some(StatusCode::Failure)
    } else if t == "unknown"@ {
        Some(StatusCode::Unknown)
    } else {
        None
    }
}

impl Service {
    /// Decodes a carrier service string. Succeeds exactly on the trimmed
    /// members of the closed set; every other input is a
    /// `DeserializationError`.
    pub fn parse(raw: &str) -> (res: ClientResult<Service>)
        ensures
            res is Ok <==> service_of(raw@) is Some,
            res matches Ok(s) ==> service_of(raw@) == Some(s),
            res matches Err(e) ==> e matches ClientError::DeserializationError(m)
                && m@ == "Not a valid service"@,
    {
        let t = trim(raw);
        if str_eq(t, "freight") {
            Ok(Service::Freight)
        } else if str_eq(t, "express") {
            Ok(Service::Express)
        } else if str_eq(t, "parcel-de") {
            Ok(Service::ParcelDE)
        } else if str_eq(t, "parcel-nl") {
            Ok(Service::ParcelNL)
        } else if str_eq(t, "dsc") {
            Ok(Service::DSC)
        } else if str_eq(t, "dgf") {
            Ok(Service::DGF)
        } else if str_eq(t, "ecommerce") {
            Ok(Service::Ecommerce)
        } else {
            Err(ClientError::DeserializationError(String::from_str("Not a valid service")))
        }
    }
}

impl StatusCode {
    /// Decodes a carrier status-code string. Succeeds exactly on the trimmed
    /// members of the closed set; every other input is a
    /// `DeserializationError`.
    pub fn parse(raw: &str) -> (res: ClientResult<StatusCode>)
        ensures
            res is Ok <==> status_code_of(raw@) is Some,
            res matches Ok(c) ==> status_code_of(raw@) == Some(c),
            res matches Err(e) ==> e matches ClientError::DeserializationError(m)
                && m@ == "Not a valid status code"@,
    {
        let t = trim(raw);
        if str_eq(t, "pre-transit") {
            Ok(StatusCode::PreTransit)
        } else if str_eq(t, "transit") {
            Ok(StatusCode::Transit)
        } else if str_eq(t, "delivered") {
            Ok(StatusCode::Delivered)
        } else if str_eq(t, "failure") {
            Ok(StatusCode::Failure)
        } else if str_eq(t, "unknown") {
            Ok(StatusCode::Unknown)
        } else {
            Err(ClientError::DeserializationError(String::from_str("Not a valid status code")))
        }
    }
}

} // verus!
