//! Terminal-client core for a transit open-data provider: a domain client
//! that builds queries, decodes responses and parses provider timestamps,
//! a debounced autocomplete controller, a refresh-task supervisor and a
//! session mode state machine.

pub mod api;
pub mod client;
pub mod decode;
pub mod error;
pub mod fake;
pub mod input;
pub mod json;
pub mod session;
pub mod strutil;
pub mod supervisor;
pub mod timestamp;
pub mod url;

pub use api::{api_check, call_me, Call};
pub use client::{fetch_journeys, fetch_places, user_agent, FakeClient, HTTPClient};
pub use decode::{Journey, Place, RawJourney};
pub use error::{SncfAPIError, SncfAPIErrorV};
pub use input::InputState;
pub use session::{Mode, RenderModel, Session};
pub use supervisor::{refresh_task_result_to_err, FatalSupervisorError};
pub use timestamp::{
    format_clock, format_date, parse_provider_timestamp, duration_between, Timestamp,
};
