//! Shell-style tilde expansion over raw byte paths.
//!
//! A path that begins with `~` or `~username` has that leading segment
//! replaced by the user's home directory, looked up in the operating
//! system's account database; every other path is returned unchanged.

pub mod expand;
pub mod resolve;

pub use expand::expand_with;
pub use expand::expandable_name;
pub use expand::tilde_expand;
pub use resolve::resolve_home;
pub use resolve::LookupError;
