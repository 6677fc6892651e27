//! Classification of module specifiers.
//!
//! Given a text string that references another module or resource (an import
//! path, a `require()` argument, or a URL-like reference inside markup), the
//! library classifies it into one of a small set of semantic forms (relative,
//! absolute, home-relative, in-document fragment, package with subpath,
//! builtin module, or opaque URL) and extracts any trailing query string.
//! The grammar applied depends on the interpretation context: ECMAScript
//! module imports, CommonJS requires, or generic URL references.

pub mod builtins;
pub mod laws;
pub mod chars;
pub mod classify;
pub mod decode;
pub mod file_url;
pub mod package;
pub mod parts;
pub mod scan;
pub mod types;

pub use builtins::is_builtin;
pub use classify::decode_path;
pub use package::parse_package_specifier;
pub use parts::parse_scheme;
pub use types::{ParseFlags, Specifier, SpecifierError, SpecifierType};

