//! A registry of documents (mostly spreadsheets) that users upload or e-mail
//! to the site, share with each other and group into organizations.

pub mod text;
pub mod ids;
pub mod error;
pub mod time;
pub mod model;
pub mod base;
pub mod query;
pub mod accesses;
pub mod orgs;
pub mod limits;
pub mod docs;
pub mod site;
pub mod mail;
pub mod message;
