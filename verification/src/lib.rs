//! Verified core of a small CRM system: the SQL that the user-statistics
//! service runs, the content and notification messages that the other
//! services build, and the decisions of the CRM front service.

pub mod crm;
pub mod fakes;
pub mod metadata;
pub mod query;
pub mod send;
pub mod text;
pub mod time;
