//! What a validated flag resolves to.

use vstd::prelude::*;

verus! {

/// `std::path::PathBuf`, carried through as an opaque value: nothing is
/// claimed of what a path holds.
#[verifier::external_type_specification]
#[verifier::external_body]
pub struct ExPathBuf(std::path::PathBuf);

/// Determines which value is to be displayed, including newlines.
#[derive(PartialEq, Debug)]
pub enum DisplayValue {
    /// The flag whose value is displayed.
    Flag(String),
    /// A line break.
    Newline,
    /// Nothing yet: the state of a fresh `Config`.
    NoValue,
}

/// Holds the information of a value that is to be displayed.
#[derive(PartialEq, Debug)]
pub struct Config {
    /// The value that is to be displayed.
    pub display_value: DisplayValue,
    /// The path of the command to be run.
    pub command_path: Option<std::path::PathBuf>,
    /// The path of the config file to be read.
    pub config_path: Option<std::path::PathBuf>,
    /// The path of the file to be read directly.
    pub file_path: Option<std::path::PathBuf>,
    /// The arguments passed with the flag.
    pub arguments: Option<Vec<String>>,
}

} // verus!
