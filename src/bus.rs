use vstd::prelude::*;
use std::sync::Arc;
use crate::gnss::GnssInformation;
use crate::position::GnssPosition;
use crate::session::{Session, SessionInfo};
use crate::track::Track;

verus! {

/// A request on the bus: a correlation id chosen by the sender, the
/// sender's address, and a payload.
#[derive(Debug, Clone)]
pub struct Request<T> {
    pub id: u64,
    pub sender_addr: u64,
    pub data: T,
}

/// A response on the bus: the id and the address of the request it
/// answers, and a payload.
#[derive(Debug, Clone)]
pub struct Response<T> {
    pub id: u64,
    pub receiver_addr: u64,
    pub data: T,
}

impl<T> Request<T> {
    pub fn new(id: u64, sender_addr: u64, data: T) -> (r: Arc<Self>)
        ensures
            r.id == id,
            r.sender_addr == sender_addr,
            r.data == data,
    {
        Arc::new(Request { id, sender_addr, data })
    }
}

impl Request<()> {
    pub fn empty_request(id: u64, sender_addr: u64) -> (r: Arc<Self>)
        ensures
            r.id == id,
            r.sender_addr == sender_addr,
    {
        Arc::new(Request { id, sender_addr, data: () })
    }
}

impl<T> Response<T> {
    pub fn new(id: u64, receiver_addr: u64, data: T) -> (r: Arc<Self>)
        ensures
            r.id == id,
            r.receiver_addr == receiver_addr,
            r.data == data,
    {
        Arc::new(Response { id, receiver_addr, data })
    }

    /// The response to `req` carrying `data`: it echoes the request's id
    /// and sends it back to the request's sender.
    pub fn reply<U>(req: &Request<U>, data: T) -> (r: Arc<Self>)
        ensures
            r.id == req.id,
            r.receiver_addr == req.sender_addr,
            r.data == data,
    {
        Response::new(req.id, req.sender_addr, data)
    }
}

/// Why a storage request failed.
#[derive(Clone, Copy, Debug, PartialEq, Eq, Structural)]
pub enum StoreError {
    NotFound,
    InvalidData,
    Other,
}

/// Errors of a module's bus context.
#[derive(Debug)]
pub enum ModuleCtxError {
    PublishError(String),
    ReceiveError(String),
    ReceiveTimeout,
}

/// Everything that travels on the event bus. Durations are nanoseconds.
#[derive(Clone, Debug)]
pub enum EventKind {
    QuitEvent,
    GnssPositionEvent(Arc<GnssPosition>),
    GnssInformationEvent(Arc<GnssInformation>),
    LapStartedEvent,
    LapFinishedEvent(u64),
    SectorFinshedEvent(u64),
    CurrentLaptimeEvent(u64),
    LoadStoredSessionIdsRequestEvent(Arc<Request<()>>),
    LoadStoredSessionIdsResponseEvent(Arc<Response<Arc<Vec<SessionInfo>>>>),
    SaveSessionRequestEvent(Arc<Request<Arc<Session>>>),
    SaveSessionResponseEvent(Arc<Response<Result<String, StoreError>>>),
    LoadSessionRequestEvent(Arc<Request<String>>),
    LoadSessionResponseEvent(Arc<Response<Result<Arc<Session>, StoreError>>>),
    DeleteSessionRequestEvent(Arc<Request<String>>),
    DeleteSessionResponseEvent(Arc<Response<Result<(), StoreError>>>),
    LoadStoredTrackIdsRequest(Arc<Request<()>>),
    LoadStoredTrackIdsResponseEvent(Arc<Response<Vec<String>>>),
    LoadAllStoredTracksRequestEvent(Arc<Request<()>>),
    LoadAllStoredTracksResponseEvent(Arc<Response<Vec<Track>>>),
    DetectTrackRequestEvent(Arc<Request<()>>),
    DetectTrackResponseEvent(Arc<Response<Vec<Track>>>),
}

/// The variant of an [`EventKind`], without its payload.
#[derive(Clone, Copy, Debug, PartialEq, Eq, Hash, Structural)]
pub enum EventKindType {
    QuitEvent,
    GnssPositionEvent,
    GnssInformationEvent,
    LapStartedEvent,
    LapFinishedEvent,
    SectorFinshedEvent,
    CurrentLaptimeEvent,
    LoadStoredSessionIdsRequestEvent,
    LoadStoredSessionIdsResponseEvent,
    SaveSessionRequestEvent,
    SaveSessionResponseEvent,
    LoadSessionRequestEvent,
    LoadSessionResponseEvent,
    DeleteSessionRequestEvent,
    DeleteSessionResponseEvent,
    LoadStoredTrackIdsRequest,
    LoadStoredTrackIdsResponseEvent,
    LoadAllStoredTracksRequestEvent,
    LoadAllStoredTracksResponseEvent,
    DetectTrackRequestEvent,
    DetectTrackResponseEvent,
}

/// One event on the bus.
#[derive(Clone, Debug)]
pub struct Event {
    pub kind: EventKind,
}

pub open spec fn kind_type(k: EventKind) -> EventKindType {
    match k {
        EventKind::QuitEvent => EventKindType::QuitEvent,
        EventKind::GnssPositionEvent(_) => EventKindType::GnssPositionEvent,
        EventKind::GnssInformationEvent(_) => EventKindType::GnssInformationEvent,
        EventKind::LapStartedEvent => EventKindType::LapStartedEvent,
        EventKind::LapFinishedEvent(_) => EventKindType::LapFinishedEvent,
        EventKind::SectorFinshedEvent(_) => EventKindType::SectorFinshedEvent,
        EventKind::CurrentLaptimeEvent(_) => EventKindType::CurrentLaptimeEvent,
        EventKind::LoadStoredSessionIdsRequestEvent(_) => EventKindType::LoadStoredSessionIdsRequestEvent,
        EventKind::LoadStoredSessionIdsResponseEvent(_) => EventKindType::LoadStoredSessionIdsResponseEvent,
        EventKind::SaveSessionRequestEvent(_) => EventKindType::SaveSessionRequestEvent,
        EventKind::SaveSessionResponseEvent(_) => EventKindType::SaveSessionResponseEvent,
        EventKind::LoadSessionRequestEvent(_) => EventKindType::LoadSessionRequestEvent,
        EventKind::LoadSessionResponseEvent(_) => EventKindType::LoadSessionResponseEvent,
        EventKind::DeleteSessionRequestEvent(_) => EventKindType::DeleteSessionRequestEvent,
        EventKind::DeleteSessionResponseEvent(_) => EventKindType::DeleteSessionResponseEvent,
        EventKind::LoadStoredTrackIdsRequest(_) => EventKindType::LoadStoredTrackIdsRequest,
        EventKind::LoadStoredTrackIdsResponseEvent(_) => EventKindType::LoadStoredTrackIdsResponseEvent,
        EventKind::LoadAllStoredTracksRequestEvent(_) => EventKindType::LoadAllStoredTracksRequestEvent,
        EventKind::LoadAllStoredTracksResponseEvent(_) => EventKindType::LoadAllStoredTracksResponseEvent,
        EventKind::DetectTrackRequestEvent(_) => EventKindType::DetectTrackRequestEvent,
        EventKind::DetectTrackResponseEvent(_) => EventKindType::DetectTrackResponseEvent,
    }
}

/// The correlation id of an event: the request's or response's `id`.
pub open spec fn event_id(k: EventKind) -> Option<u64> {
    match k {
        EventKind::LoadStoredSessionIdsRequestEvent(r) => Some(r.id),
        EventKind::LoadStoredTrackIdsRequest(r) => Some(r.id),
        EventKind::LoadAllStoredTracksRequestEvent(r) => Some(r.id),
        EventKind::DetectTrackRequestEvent(r) => Some(r.id),
        EventKind::SaveSessionRequestEvent(r) => Some(r.id),
        EventKind::LoadSessionRequestEvent(r) => Some(r.id),
        EventKind::DeleteSessionRequestEvent(r) => Some(r.id),
        EventKind::LoadStoredSessionIdsResponseEvent(r) => Some(r.id),
        EventKind::SaveSessionResponseEvent(r) => Some(r.id),
        EventKind::LoadSessionResponseEvent(r) => Some(r.id),
        EventKind::DeleteSessionResponseEvent(r) => Some(r.id),
        EventKind::LoadStoredTrackIdsResponseEvent(r) => Some(r.id),
        EventKind::LoadAllStoredTracksResponseEvent(r) => Some(r.id),
        EventKind::DetectTrackResponseEvent(r) => Some(r.id),
        _ => None,
    }
}

/// The address of an event: a request's sender, a response's receiver.
pub open spec fn event_addr(k: EventKind) -> Option<u64> {
    match k {
        EventKind::LoadStoredSessionIdsRequestEvent(r) => Some(r.sender_addr),
        EventKind::LoadStoredTrackIdsRequest(r) => Some(r.sender_addr),
        EventKind::LoadAllStoredTracksRequestEvent(r) => Some(r.sender_addr),
        EventKind::DetectTrackRequestEvent(r) => Some(r.sender_addr),
        EventKind::SaveSessionRequestEvent(r) => Some(r.sender_addr),
        EventKind::LoadSessionRequestEvent(r) => Some(r.sender_addr),
        EventKind::DeleteSessionRequestEvent(r) => Some(r.sender_addr),
        EventKind::LoadStoredSessionIdsResponseEvent(r) => Some(r.receiver_addr),
        EventKind::SaveSessionResponseEvent(r) => Some(r.receiver_addr),
        EventKind::LoadSessionResponseEvent(r) => Some(r.receiver_addr),
        EventKind::DeleteSessionResponseEvent(r) => Some(r.receiver_addr),
        EventKind::LoadStoredTrackIdsResponseEvent(r) => Some(r.receiver_addr),
        EventKind::LoadAllStoredTracksResponseEvent(r) => Some(r.receiver_addr),
        EventKind::DetectTrackResponseEvent(r) => Some(r.receiver_addr),
        _ => None,
    }
}

/// The event a waiter for `(id, addr, kind)` accepts.
pub open spec fn awaited(k: EventKind, id: u64, addr: u64, kind: EventKindType) -> bool {
    kind_type(k) == kind && event_id(k) == Some(id) && event_addr(k) == Some(addr)
}

impl Event {
    pub fn event_type(&self) -> (r: EventKindType)
        ensures
            r == kind_type(self.kind),
    {
        match &self.kind {
            EventKind::QuitEvent => EventKindType::QuitEvent,
            EventKind::GnssPositionEvent(_) => EventKindType::GnssPositionEvent,
            EventKind::GnssInformationEvent(_) => EventKindType::GnssInformationEvent,
            EventKind::LapStartedEvent => EventKindType::LapStartedEvent,
            EventKind::LapFinishedEvent(_) => EventKindType::LapFinishedEvent,
            EventKind::SectorFinshedEvent(_) => EventKindType::SectorFinshedEvent,
            EventKind::CurrentLaptimeEvent(_) => EventKindType::CurrentLaptimeEvent,
            EventKind::LoadStoredSessionIdsRequestEvent(_) => EventKindType::LoadStoredSessionIdsRequestEvent,
            EventKind::LoadStoredSessionIdsResponseEvent(_) => EventKindType::LoadStoredSessionIdsResponseEvent,
            EventKind::SaveSessionRequestEvent(_) => EventKindType::SaveSessionRequestEvent,
            EventKind::SaveSessionResponseEvent(_) => EventKindType::SaveSessionResponseEvent,
            EventKind::LoadSessionRequestEvent(_) => EventKindType::LoadSessionRequestEvent,
            EventKind::LoadSessionResponseEvent(_) => EventKindType::LoadSessionResponseEvent,
            EventKind::DeleteSessionRequestEvent(_) => EventKindType::DeleteSessionRequestEvent,
            EventKind::DeleteSessionResponseEvent(_) => EventKindType::DeleteSessionResponseEvent,
            EventKind::LoadStoredTrackIdsRequest(_) => EventKindType::LoadStoredTrackIdsRequest,
            EventKind::LoadStoredTrackIdsResponseEvent(_) => EventKindType::LoadStoredTrackIdsResponseEvent,
            EventKind::LoadAllStoredTracksRequestEvent(_) => EventKindType::LoadAllStoredTracksRequestEvent,
            EventKind::LoadAllStoredTracksResponseEvent(_) => EventKindType::LoadAllStoredTracksResponseEvent,
            EventKind::DetectTrackRequestEvent(_) => EventKindType::DetectTrackRequestEvent,
            EventKind::DetectTrackResponseEvent(_) => EventKindType::DetectTrackResponseEvent,
        }
    }

    /// The correlation id carried by the event, if any.
    pub fn id(&self) -> (r: Option<u64>)
        ensures
            r == event_id(self.kind),
    {
        match &self.kind {
            EventKind::LoadStoredSessionIdsRequestEvent(req)
            | EventKind::LoadStoredTrackIdsRequest(req)
            | EventKind::LoadAllStoredTracksRequestEvent(req)
            | EventKind::DetectTrackRequestEvent(req) => Some(req.id),
            EventKind::SaveSessionRequestEvent(req) => Some(req.id),
            EventKind::LoadSessionRequestEvent(req) => Some(req.id),
            EventKind::DeleteSessionRequestEvent(req) => Some(req.id),
            EventKind::LoadStoredSessionIdsResponseEvent(res) => Some(res.id),
            EventKind::SaveSessionResponseEvent(res) => Some(res.id),
            EventKind::LoadSessionResponseEvent(res) => Some(res.id),
            EventKind::DeleteSessionResponseEvent(res) => Some(res.id),
            EventKind::LoadStoredTrackIdsResponseEvent(res) => Some(res.id),
            EventKind::LoadAllStoredTracksResponseEvent(res) => Some(res.id),
            EventKind::DetectTrackResponseEvent(res) => Some(res.id),
            _ => None,
        }
    }

    /// The address carried by the event: a request's sender, a response's
    /// receiver.
    pub fn addr(&self) -> (r: Option<u64>)
        ensures
            r == event_addr(self.kind),
    {
        match &self.kind {
            EventKind::LoadStoredSessionIdsRequestEvent(req) => Some(req.sender_addr),
            EventKind::SaveSessionRequestEvent(req) => Some(req.sender_addr),
            EventKind::LoadSessionRequestEvent(req) => Some(req.sender_addr),
            EventKind::DeleteSessionRequestEvent(req) => Some(req.sender_addr),
            EventKind::LoadStoredTrackIdsRequest(req)
            | EventKind::LoadAllStoredTracksRequestEvent(req)
            | EventKind::DetectTrackRequestEvent(req) => Some(req.sender_addr),
            EventKind::LoadStoredSessionIdsResponseEvent(res) => Some(res.receiver_addr),
            EventKind::SaveSessionResponseEvent(res) => Some(res.receiver_addr),
            EventKind::LoadSessionResponseEvent(res) => Some(res.receiver_addr),
            EventKind::DeleteSessionResponseEvent(res) => Some(res.receiver_addr),
            EventKind::LoadStoredTrackIdsResponseEvent(res) => Some(res.receiver_addr),
            EventKind::LoadAllStoredTracksResponseEvent(res) => Some(res.receiver_addr),
            EventKind::DetectTrackResponseEvent(res) => Some(res.receiver_addr),
            _ => None,
        }
    }

    /// Whether a waiter for a response of type `kind` to its request
    /// `(id, addr)` takes this event: variant, id and address must all agree.
    pub fn is_awaited(&self, id: u64, addr: u64, kind: EventKindType) -> (r: bool)
        ensures
            r == awaited(self.kind, id, addr, kind),
    {
        if self.event_type() != kind {
            return false;
        }
        let same_id = match self.id() {
            Some(i) => i == id,
            None => false,
        };
        let same_addr = match self.addr() {
            Some(a) => a == addr,
            None => false,
        };
        same_id && same_addr
    }
}

} // verus!
