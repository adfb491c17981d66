//! An in-memory registry of person records.
//!
//! Raw text coming from a caller is turned into validated values, a validated
//! request is given a fresh identifier and stored, and stored records can be
//! looked up and counted. Reads take the registry by shared reference and the
//! single write operation takes it by exclusive reference, so any lock that
//! hands out `&Registry` to readers and `&mut Registry` to one writer at a
//! time gives the multi-reader / single-writer discipline for free.

pub mod date;
pub mod identifier;
pub mod laws;
pub mod operations;
pub mod person;
pub mod registry;
pub mod validation;

pub use date::BirthDate;
pub use operations::{count_people, create_person, find_person, CreateError};
pub use person::{NewPerson, Person, RawPerson};
pub use registry::{NotFound, Registry};
pub use validation::{Nick, PersonName, Tech, ValidationError};
