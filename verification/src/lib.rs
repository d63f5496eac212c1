//! A codec for `safe://` URLs: locators that carry a 32-byte name, a type tag,
//! a data type and a content type in the host of a URL, either as an encoded
//! label or behind a human-chosen name that hashes to the same locator.
//!
//! * [`safe_url`] holds the locator, [`SafeUrl`]: its constructors, getters,
//!   setters and the two forms in which it is written.
//! * [`label`] is the binary form of a locator, [`parts`] the shape of a URL,
//!   [`query`] the pairs of a query, [`path`] the stored form of a path.
//! * [`content`] and [`media_types`] hold the discriminators and the registry
//!   of media types; [`text`] splits, joins and reads numbers.
//! * [`foreign`] holds every call into another crate. Verus proves all the
//!   rest; of what those calls return it knows only what is written there.
//! * [`laws`] states what holds across functions, and [`error`] how
//!   contracts speak of failures.

pub mod content;
pub mod error;
pub mod foreign;
pub mod label;
pub mod laws;
pub mod media_types;
pub mod parts;
pub mod path;
pub mod query;
pub mod safe_url;
pub mod text;

pub use content::{
    SafeContentType, SafeDataType, XorName, XorUrlBase, DEFAULT_XORURL_BASE, XOR_NAME_LEN,
};
pub use error::{Error, ErrorKind};
pub use label::XOR_URL_VERSION_1;
pub use parts::SafeUrlParts;
pub use safe_url::{SafeUrl, NRS_MAP_TYPE_TAG};
