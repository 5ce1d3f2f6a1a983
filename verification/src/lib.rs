//! The session layer of a database client: it resolves connection
//! descriptors, keeps the one open session, runs scripts and reports an
//! outcome for each statement, encodes the outcomes for the wire, and keeps
//! the registry of live subscriptions. Around it stand the helpers of the
//! desktop application: paths, configuration, the file whitelist and the
//! commands that start and stop a local server.

pub mod analytics;
pub mod assoc;
pub mod config;
pub mod connection;
pub mod database;
pub mod definition;
pub mod encode;
pub mod json;
pub mod live;
pub mod open;
pub mod outcome;
pub mod paths;
pub mod query;
pub mod schema;
pub mod session;
pub mod ssh;
pub mod text;
pub mod whitelist;
pub mod window;
