//! Cluster membership and rumor dissemination after the SWIM protocol.
//!
//! - `proto`: the wire records, field for field.
//! - `swim`: members, memberships and SWIM datagrams, checked against their records.
//! - `rumor`: the seven kinds of rumor, their merge rules and their records.
//! - `member_list`: what this member knows of every member, with refutation.
//! - `rumor_store`: the latest version of every rumor and its dissemination counter.
//! - `inbound`, `pull`, `outbound`: the decisions of the receiving, gossip and
//!   probing loops, which the process around the library runs.
//! - `ids`, `text`: comparison of texts, and the text work done by outside code.
//! - `error`: what can be wrong with what peers send.

pub mod error;
pub mod ids;
pub mod inbound;
pub mod member_list;
pub mod outbound;
pub mod proto;
pub mod pull;
pub mod rumor;
pub mod rumor_store;
pub mod swim;
pub mod text;
