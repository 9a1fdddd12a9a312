//! Decides whether a package version is exposed to a security advisory, from the
//! advisory's "patched" range expression, for one package or for a whole set of
//! dependencies.
//!
//! - `version`: the order on version strings, semantic-version order with a
//!   fallback for strings that do not parse.
//! - `constraint`: reading a patched expression into clauses, and when a version
//!   meets a clause.
//! - `advisory`: advisory records, and direct and transitive resolution.
//! - `stored`: the text form in which lists of advisory details are stored.
//! - `cve`: CVE records with their page addresses.
//! - `evaluate`, `github`: the figures that repository evaluation reads, and the
//!   shapes of GitHub's answers they come from.
//! - `text`: splitting, joining and trimming text.

pub mod advisory;
pub mod constraint;
pub mod cve;
pub mod evaluate;
pub mod github;
pub mod stored;
pub mod text;
pub mod version;
