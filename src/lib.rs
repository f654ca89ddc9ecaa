//! An automated posting agent: OAuth 1.0a request signing, a daily post
//! quota, a mention cursor, a keyword rule engine that picks reply topics,
//! a content filter, and the decisions of the posting and reply cycles.

pub mod text;
pub mod percent;
pub mod params;
pub mod clock;
pub mod oauth;
pub mod quota;
pub mod api;
pub mod cursor;
pub mod filter;
pub mod facts;
pub mod reasoning;
pub mod knowledge;
pub mod responder;
pub mod templates;
pub mod config;
pub mod generator;
pub mod cycle;
