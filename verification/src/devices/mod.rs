//! The list of devices that a user sees.
//!
//! Live sightings come with the keys, the artwork and the names that the
//! configuration and the asset registry hold for them; this module decides what
//! becomes of them in the list.

pub mod card_laws;
pub mod codename;
pub mod fold;
pub mod identity_laws;
pub mod key_laws;
pub mod keys;
pub mod list;
pub mod list_laws;
pub mod model;
pub mod offline;
pub mod placeholder_laws;
pub mod record;
pub mod sighting;
