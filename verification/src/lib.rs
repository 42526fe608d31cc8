//! The workings of `cargo kcov`, which collects the test coverage of a Cargo
//! package with kcov.
//!
//! At the heart are two ways to find the test executables of a package:
//! in the output of a verbose test build (`build_log`), and among the files
//! of a target directory (`targets`). Both go by the names that Cargo gives
//! to what it builds (`names`). Around them stand the steps of a coverage
//! run, as far as they decide or compute (`coverage`, `cargo`, `options`,
//! `report`). Nothing here starts a program, reads the environment or touches
//! the file system: the caller does, and hands over what it got.

pub mod build_log;
pub mod cargo;
pub mod coverage;
pub mod errors;
pub mod json_shape;
pub mod names;
pub mod options;
pub mod paths;
pub mod report;
pub mod scan_laws;
pub mod specimen;
pub mod target_laws;
pub mod targets;
pub mod text;

pub use build_log::parse_rustc_command_lines_into;
pub use errors::Error;
pub use names::{find_package_name_from_pkgid, normalize_package_name};
pub use targets::{find_test_targets, DirectoryEntry};
