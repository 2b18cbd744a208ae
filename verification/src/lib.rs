//! Session state, validation and publication rules of the attyd bridge.
pub mod api;
pub mod assets;
pub mod bootstrap;
pub mod catch_up;
pub mod codec;
pub mod connection_laws;
pub mod content_laws;
pub mod control_laws;
pub mod conversation_laws;
pub mod event_laws;
pub mod events;
pub mod fold;
pub mod fold_laws;
pub mod guarantees;
pub mod hub;
pub mod hub_laws;
pub mod identity;
pub mod independence;
pub mod interaction_laws;
pub mod journal;
pub mod journal_laws;
pub mod json;
pub mod laws;
pub mod observation;
pub mod operation_laws;
pub mod origin;
pub mod places;
pub mod projection;
pub mod reader_laws;
pub mod registry;
pub mod request_laws;
pub mod requests;
pub mod runtime_types;
pub mod semantic;
pub mod series;
pub mod session_laws;
pub mod session_live;
pub mod session_update;
pub mod settlement;
pub mod steps;
pub mod subscribers;
pub mod table;
pub mod text;
pub mod text_laws;
pub mod turn_laws;
pub mod view_laws;
pub mod wire;
pub mod wire_laws;
