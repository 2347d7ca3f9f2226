//! Verified core of the blog backend: agent scopes and authentication
//! decisions, the agent response envelope, site configuration state,
//! recommendation ranking, record-id decoding and account helpers.

pub mod text;
pub mod clock;
pub mod response;
pub mod auth;
pub mod site;
pub mod recommendation;
pub mod account;
pub mod record_id;
pub mod listing;
pub mod handlers;
pub mod token;
