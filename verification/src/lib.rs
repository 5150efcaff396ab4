//! The verified core of a chat application.
//!
//! Its main part keeps the files of each conversation in a workspace: safe
//! file names ([`path`]), the directory of each workspace ([`store`],
//! [`identifier`]), the bookkeeping of an upload ([`upload`]), the
//! notifications that a change on disk leads to ([`notification`]), the life
//! of a watch connection ([`watch`]) and the list that a viewer keeps
//! ([`viewer`]). [`disk`] states what these add up to on a model of the
//! directories. Nothing here touches the disk or the network: the caller does
//! that and reports what happened.
//!
//! [`models`] and [`pgdb`] hold the data that the application exchanges with
//! its clients, the model service and the database.

pub mod disk;
pub mod error;
pub mod identifier;
pub mod mime;
pub mod models;
pub mod notification;
pub mod path;
pub mod pgdb;
pub mod store;
pub mod upload;
pub mod viewer;
pub mod watch;
