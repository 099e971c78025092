//! `scuffle`: reading and writing the properties of SMF services, instances
//! and snapshots through `libscf`.
//!
//! This crate holds the logic of the library, each function with its
//! contract: values and their SMF text forms, how values are handed to and
//! read back from `libscf`, FMRIs, the reading of strings that `libscf`
//! writes into buffers, and every decision taken on what a `libscf` call
//! returned (lookups, iteration, property group updates and deletion,
//! transactions, operations on an instance's SMF state). The handles that
//! call into `libscf` itself build on it.

pub mod buf;
pub mod edit_property_groups;
pub mod error;
pub mod instance;
pub mod iter;
pub mod lookup;
pub mod message;
pub mod net;
pub mod property;
pub mod property_group;
pub mod scf;
pub mod scf_value;
pub mod text;
pub mod transaction;
pub mod utf8cstring;
pub mod value;

pub use edit_property_groups::AddPropertyGroupFlags;
pub use edit_property_groups::DeletePropertyGroupResult;
pub use instance::SmfDegradeFlags;
pub use instance::SmfEnableDisableFlags;
pub use instance::SmfMaintainFlags;
pub use property_group::PropertyGroupComposed;
pub use property_group::PropertyGroupDirect;
pub use property_group::PropertyGroupType;
pub use property_group::PropertyGroupUpdateResult;
pub use transaction::TransactionCommitted;
pub use transaction::TransactionReset;
pub use transaction::TransactionStarted;
pub use value::Timestamp;
pub use value::Value;
pub use value::ValueDisplaySmf;
pub use value::ValueKind;
pub use value::ValueRef;
