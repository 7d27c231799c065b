//! Relationship resolution and presentation data for storage objects.
//!
//! A [`Client`] holds one snapshot of the objects that the storage service
//! exports, each with the interfaces it exposes, and answers questions about
//! how they relate: which block device backs a drive, which partitions belong
//! to a table, which devices form an array. From the same snapshot it builds
//! the name, description, icons, one-line summary and sort key under which an
//! object is shown to a user.
pub mod ata;
pub mod block;
pub mod catalog;
pub mod client;
pub mod drive;
pub mod error;
pub mod gettext;
pub mod id;
pub mod job;
pub mod laws;
pub mod loopdev;
pub mod manager;
pub mod mdraid;
pub mod media;
pub mod messages;
pub mod nvme;
pub mod object;
pub mod object_info;
pub mod partition;
pub mod partition_subtypes;
pub mod partition_types;
pub mod partitiontable;
pub mod resolve;
pub mod size;
pub mod text;

pub use client::Client;
pub use error::{Error, Iscsi, Result};
pub use object::Object;
pub use object_info::ObjectInfo;
