//! A message-routing core: services register typed capabilities and receive
//! routed operation requests, together with one concrete service built on the
//! router — a SpecBundle ingestion pipeline that plans the durable persistence
//! of a multi-part knowledge artifact behind a pre-write redaction guard.

pub mod strutil;
pub mod json;
pub mod envelope;
pub mod ext;
pub mod registry;
pub mod specbundle;
pub mod bundle_text;
pub mod bundle_codec;
pub mod model_manager;
pub mod secrets;
pub mod front;
pub mod events;
pub mod ko;
pub mod api;
