//! A basic-auth HTTPS gateway in front of a systems-management server.
//!
//! The library holds what the gateway decides: how backend replies are read,
//! how system details are rendered, and the per-request session protocol that
//! opens a backend session, issues the dependent calls and always closes it.
//! Performing the calls is left to the caller.

pub mod config;
pub mod decimal;
pub mod laws;
pub mod render;
pub mod replies;
pub mod session;
pub mod value;

pub use config::{endpoint_url, BackendConfig, GetServerId};
pub use decimal::format_i32;
pub use render::{render_details, DetailField};
pub use replies::{
    errata_ids, job_id, login_token, logout_confirmed, resolve_system_id, ResolveError,
    ShapeError,
};
pub use session::{Action, Operation, Phase, RpcCall, Session};
pub use value::{lookup_member, Member, RpcValue};
