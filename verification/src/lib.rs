//! Verified policy layer of an XMP metadata binding.
//!
//! The native XMP toolkit parses, stores and serialises metadata. This
//! library holds everything the binding itself decides: which arguments are
//! acceptable, how text is encoded for the native side, what each native
//! outcome means, and which state every handle is in.
//!
//! Nothing here calls the native side. An operation is made in two steps
//! around the native call: a method of [`Xmp`], [`XmpFile`] or
//! [`XmpIterator`] prepares the call or refuses it, and a function of
//! [`reply`], or a method named in the past tense, reads the outcome.
pub mod datetime;
pub mod error;
pub mod filetype;
pub mod flags;
pub mod init;
pub mod namespace;
pub mod reply;
pub mod text;
pub mod xmp;
pub mod xmpfile;
pub mod xmpiterator;
pub mod xmpstring;

pub use datetime::{DateTime, TzSign, XmpDateTime};
pub use error::{get_error, Error, XmpError};
pub use filetype::FileType;
pub use flags::close::CloseFlags;
pub use flags::format::FormatOptionFlags;
pub use flags::iter::IterFlags;
pub use flags::open::OpenFlags;
pub use flags::prop::PropFlags;
pub use flags::serial::SerialFlags;
pub use flags::skip::IterSkipFlags;
pub use init::{InitOnce, InitState, InitStep};
pub use namespace::{namespace_prefix, prefix_namespace, register_namespace};
pub use xmp::Xmp;
pub use xmpfile::{FileState, PacketInfo, XmpFile, XmpPacketInfo};
pub use xmpiterator::{IteratorValue, XmpIterator};
pub use xmpstring::XmpString;
