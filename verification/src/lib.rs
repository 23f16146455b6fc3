//! Offline source-fact layer for the jin10 data source (`source_id = jin10`):
//! typed envelopes and data kinds, strict calendar values, offline conversion of
//! synthetic envelope documents, cross-domain write guards and out-of-order
//! protection of macro observations. No network, no credentials, no storage.
pub mod error;
pub mod parse;
pub mod text;
pub mod value;

pub use error::{Jin10Error, Jin10ErrorKind, Jin10Result};
pub use parse::{
    convert_envelope_document, RawCalendarEvent, RawEnvelope, RawEnvelopeFile, RawFlashNews,
    RawPayload, RawQuoteSnapshot,
};
pub use value::envelope::{
    interface_plans, DataKind, InterfaceId, Jin10Clock, Jin10Importance, Jin10InterfacePlan,
    Jin10Timestamp, PLANNED_PERIODS_ARE_NOT_ACCESS_CONTRACT, SOURCE_ID,
};
pub use value::mapping::{
    decide_macro_write, propose_macro_mapping, write_sovereignty, Jin10AcceptedFact,
    Jin10MacroMappingRequest, Jin10MacroProposal, Jin10WriteDecision, Jin10WriteSovereignty,
    PENDING_WRITE_SOVEREIGNTY_NOTE,
};
pub use value::number::Jin10Number;
pub use value::payload::{
    validate_envelope, validate_payload, CalendarEvent, FlashNews, Jin10Envelope, Jin10Payload,
    QuoteSnapshot,
};
pub use value::{Date, Frequency, Jin10Unit, Period};
