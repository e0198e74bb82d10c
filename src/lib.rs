//! Semantic version bookkeeping: a `MAJOR.MINOR.PATCH` core, an optional
//! pre-release descriptor and optional build metadata rendered from a template.

pub mod buildmeta;
pub mod fuver;
pub mod identifier;
pub mod pre;
pub mod text;
pub mod version;

pub use buildmeta::{BuildMetaData, BuildMetaError, DEFAULT_FORMAT};
pub use fuver::{FuVer, FuVerError};
pub use identifier::{check_dot_separated_identifiers, check_identifier, FormatError};
pub use pre::{PreRelease, PreReleaseError};
pub use version::{Version, VersionError};
