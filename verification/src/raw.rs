//! The raw, structurally-decoded form of the carrier's JSON and its
//! transformation into the typed model. A JSON decoder fills these raw
//! records — every date and enum still a plain string — and the functions
//! here apply the codecs field by field, exactly as the carrier's tolerance
//! rules demand: a missing status code is accepted as absent, a present but
//! unrecognized one fails the whole parse.

use vstd::prelude::*;

use crate::codec::{service_of, status_code_of, Service, StatusCode};
use crate::error::{ClientError, ClientResult};
use crate::model::{Place, Response, Shipment, ShipmentDetails, ShipmentEvent};
use crate::timestamp::{date_of, datetime_of, Timestamp};

verus! {

/// A shipment event as decoded from JSON: the timestamp and the optional
/// status code still carrier-encoded strings.
#[derive(Clone)]
pub struct RawShipmentEvent {
    pub timestamp: String,
    pub location: Option<Place>,
    pub status_code: Option<String>,
    pub description: Option<String>,
    pub remark: Option<String>,
    pub next_steps: Option<String>,
}

/// A shipment as decoded from JSON: service, dates and nested events still
/// carrier-encoded.
#[derive(Clone)]
pub struct RawShipment {
    pub id: String,
    pub service: String,
    pub origin: Option<Place>,
    pub destination: Option<Place>,
    pub status: RawShipmentEvent,
    pub estimated_time_of_delivery: String,
    pub estimated_time_of_delivery_remark: Option<String>,
    pub details: ShipmentDetails,
    pub events: Vec<RawShipmentEvent>,
}

/// A full API answer as decoded from JSON.
#[derive(Clone)]
pub struct RawResponse {
    pub shipments: Vec<RawShipment>,
    pub possible_additional_shipments_url: Vec<String>,
}

/// The typed event a raw event denotes: `None` when its timestamp does not
/// parse, or when a status code is present but outside the closed set. A
/// missing status code stays `None` in the typed event and is no error.
pub open spec fn event_of(r: RawShipmentEvent) -> Option<ShipmentEvent> {
    match datetime_of(r.timestamp@) {
        Option::None => Option::None,
        Option::Some(ts) => match r.status_code {
            Option::None => Option::Some(
                ShipmentEvent {
                    timestamp: ts,
                    location: r.location,
                    status_code: Option::None,
                    description: r.description,
                    remark: r.remark,
                    next_steps: r.next_steps,
                },
            ),
            Option::Some(sc) => match status_code_of(sc@) {
                Option::None => Option::None,
                Option::Some(code) => Option::Some(
                    ShipmentEvent {
                        timestamp: ts,
                        location: r.location,
                        status_code: Option::Some(code),
                        description: r.description,
                        remark: r.remark,
                        next_steps: r.next_steps,
                    },
                ),
            },
        },
    }
}

/// Every carrier-encoded field of the raw shipment decodes.
pub open spec fn shipment_ok(r: RawShipment) -> bool {
    &&& service_of(r.service@) is Some
    &&& event_of(r.status) is Some
    &&& date_of(r.estimated_time_of_delivery@) is Some
    &&& forall|i: int| 0 <= i < r.events@.len() ==> event_of(#[trigger] r.events@[i]) is Some
}

/// The typed shipment `s` is exactly the decoding of the raw shipment `r`:
/// decoded fields come from the codecs, every other field is carried over
/// unchanged, and the event history keeps its order.
pub open spec fn shipment_matches(r: RawShipment, s: Shipment) -> bool {
    &&& s.id == r.id
    &&& service_of(r.service@) == Option::Some(s.service)
    &&& s.origin == r.origin
    &&& s.destination == r.destination
    &&& event_of(r.status) == Option::Some(s.status)
    &&& date_of(r.estimated_time_of_delivery@) == Option::Some(s.estimated_time_of_delivery)
    &&& s.estimated_time_of_delivery_remark == r.estimated_time_of_delivery_remark
    &&& s.details == r.details
    &&& s.events@.len() == r.events@.len()
    &&& forall|i: int|
        0 <= i < r.events@.len() ==> event_of(#[trigger] r.events@[i]) == Option::Some(
            s.events@[i],
        )
}

/// Every shipment of the raw response decodes.
pub open spec fn response_ok(r: RawResponse) -> bool {
    forall|i: int| 0 <= i < r.shipments@.len() ==> shipment_ok(#[trigger] r.shipments@[i])
}

/// The typed response is exactly the decoding of the raw response, shipment
/// by shipment and in order, with the pagination URLs carried over
/// unchanged.
pub open spec fn response_matches(r: RawResponse, resp: Response) -> bool {
    &&& resp.shipments@.len() == r.shipments@.len()
    &&& forall|i: int|
        0 <= i < r.shipments@.len() ==> shipment_matches(
            #[trigger] r.shipments@[i],
            resp.shipments@[i],
        )
    &&& resp.possible_additional_shipments_url == r.possible_additional_shipments_url
}

impl ShipmentEvent {
    /// Decodes one raw event. Succeeds exactly when `event_of` names a typed
    /// event, and returns exactly that event.
    pub fn from_raw(raw: RawShipmentEvent) -> (res: ClientResult<ShipmentEvent>)
        ensures
            res is Ok <==> event_of(raw) is Some,
            res matches Ok(ev) ==> event_of(raw) == Some(ev),
            res matches Err(e) ==> e matches ClientError::DeserializationError(_),
    {
        let RawShipmentEvent { timestamp, location, status_code, description, remark, next_steps } =
            raw;
        let ts = match Timestamp::parse_datetime(timestamp.as_str()) {
            Ok(t) => t,
            Err(e) => {
                return Err(e);
            },
        };
        let code = match status_code {
            None => None,
            Some(sc) => match StatusCode::parse(sc.as_str()) {
                Ok(c) => Some(c),
                Err(e) => {
                    return Err(e);
                },
            },
        };
        Ok(
            ShipmentEvent {
                timestamp: ts,
                location,
                status_code: code,
                description,
                remark,
                next_steps,
            },
        )
    }
}

/// Decodes a sequence of raw events, keeping their order. Succeeds exactly
/// when every event decodes; the first failure aborts the whole parse.
fn parse_events(raws: Vec<RawShipmentEvent>) -> (res: ClientResult<Vec<ShipmentEvent>>)
    ensures
        res is Ok <==> (forall|i: int|
            0 <= i < raws@.len() ==> event_of(#[trigger] raws@[i]) is Some),
        res matches Ok(v) ==> v@.len() == raws@.len() && (forall|i: int|
            0 <= i < raws@.len() ==> event_of(#[trigger] raws@[i]) == Some(v@[i])),
        res matches Err(e) ==> e matches ClientError::DeserializationError(_),
{
    let mut rest = raws;
    let mut out: Vec<ShipmentEvent> = Vec::new();
    while rest.len() > 0
        invariant
            out@.len() + rest@.len() == raws@.len(),
            rest@ == raws@.skip(out@.len() as int),
            forall|i: int| 0 <= i < out@.len() ==> event_of(#[trigger] raws@[i]) == Some(out@[i]),
        decreases rest@.len(),
    {
        let ghost done = out@.len() as int;
        let r = rest.remove(0);
        proof {
            assert(r == raws@[done]);
            assert(raws@.skip(done).remove(0) =~= raws@.skip(done + 1));
        }
        match ShipmentEvent::from_raw(r) {
            Ok(ev) => {
                out.push(ev);
            },
            Err(e) => {
                proof {
                    assert(event_of(raws@[done]) is None);
                }
                return Err(e);
            },
        }
    }
    Ok(out)
}

impl Shipment {
    /// Decodes one raw shipment. Succeeds exactly when every carrier-encoded
    /// field decodes (`shipment_ok`), and then returns exactly the shipment
    /// that `shipment_matches` describes.
    pub fn from_raw(raw: RawShipment) -> (res: ClientResult<Shipment>)
        ensures
            res is Ok <==> shipment_ok(raw),
            res matches Ok(s) ==> shipment_matches(raw, s),
            res matches Err(e) ==> e matches ClientError::DeserializationError(_),
    {
        let RawShipment {
            id,
            service,
            origin,
            destination,
            status,
            estimated_time_of_delivery,
            estimated_time_of_delivery_remark,
            details,
            events,
        } = raw;
        let svc = match Service::parse(service.as_str()) {
            Ok(s) => s,
            Err(e) => {
                return Err(e);
            },
        };
        let st = match ShipmentEvent::from_raw(status) {
            Ok(ev) => ev,
            Err(e) => {
                return Err(e);
            },
        };
        let eta = match Timestamp::parse_date(estimated_time_of_delivery.as_str()) {
            Ok(t) => t,
            Err(e) => {
                return Err(e);
            },
        };
        let evs = match parse_events(events) {
            Ok(v) => v,
            Err(e) => {
                return Err(e);
            },
        };
        Ok(
            Shipment {
                id,
                service: svc,
                origin,
                destination,
                status: st,
                estimated_time_of_delivery: eta,
                estimated_time_of_delivery_remark,
                details,
                events: evs,
            },
        )
    }
}

/// Decodes a sequence of raw shipments, keeping their order.
fn parse_shipments(raws: Vec<RawShipment>) -> (res: ClientResult<Vec<Shipment>>)
    ensures
        res is Ok <==> (forall|i: int| 0 <= i < raws@.len() ==> shipment_ok(#[trigger] raws@[i])),
        res matches Ok(v) ==> v@.len() == raws@.len() && (forall|i: int|
            0 <= i < raws@.len() ==> shipment_matches(#[trigger] raws@[i], v@[i])),
        res matches Err(e) ==> e matches ClientError::DeserializationError(_),
{
    let mut rest = raws;
    let mut out: Vec<Shipment> = Vec::new();
    while rest.len() > 0
        invariant
            out@.len() + rest@.len() == raws@.len(),
            rest@ == raws@.skip(out@.len() as int),
            forall|i: int| 0 <= i < out@.len() ==> shipment_ok(#[trigger] raws@[i]),
            forall|i: int|
                0 <= i < out@.len() ==> shipment_matches(#[trigger] raws@[i], out@[i]),
        decreases rest@.len(),
    {
        let ghost done = out@.len() as int;
        let r = rest.remove(0);
        proof {
            assert(r == raws@[done]);
            assert(raws@.skip(done).remove(0) =~= raws@.skip(done + 1));
        }
        match Shipment::from_raw(r) {
            Ok(s) => {
                out.push(s);
            },
            Err(e) => {
                proof {
                    assert(!shipment_ok(raws@[done]));
                }
                return Err(e);
            },
        }
    }
    Ok(out)
}

impl Response {
    /// Decodes a whole raw response. Succeeds exactly when every shipment in
    /// it decodes (`response_ok`), and then returns exactly the response
    /// that `response_matches` describes; any failure inside is a
    /// `DeserializationError`.
    pub fn from_raw(raw: RawResponse) -> (res: ClientResult<Response>)
        ensures
            res is Ok <==> response_ok(raw),
            res matches Ok(resp) ==> response_matches(raw, resp),
            res matches Err(e) ==> e matches ClientError::DeserializationError(_),
    {
        let RawResponse { shipments, possible_additional_shipments_url } = raw;
        let decoded = match parse_shipments(shipments) {
            Ok(v) => v,
            Err(e) => {
                return Err(e);
            },
        };
        Ok(Response { shipments: decoded, possible_additional_shipments_url })
    }
}

} // verus!
