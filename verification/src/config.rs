//! Configuration as plain values: the accounts to run and the image to paint.

use vstd::prelude::*;

verus! {

/// One account's credentials.
#[derive(Clone, Debug)]
pub struct ConfigUser {
    pub username: String,
    pub password: String,
}

/// The accounts file: a list of credentials.
#[derive(Clone, Debug)]
pub struct ConfigUserToml {
    pub users: Vec<ConfigUser>,
}

/// Where on the canvas the top-left pixel of the image goes.
#[derive(Clone, Copy, Debug, PartialEq, Eq)]
pub struct ConfigOffset {
    pub x: u32,
    pub y: u32,
}

/// The image to paint: the path of its bitmap and its place on the canvas.
#[derive(Clone, Debug)]
pub struct ConfigImage {
    pub path: String,
    pub offset: ConfigOffset,
}

/// The target file.
#[derive(Clone, Debug)]
pub struct ConfigData {
    pub image: ConfigImage,
}

/// Why a configuration file gave no value.
#[derive(Clone, Copy, Debug, PartialEq, Eq)]
pub enum ConfigError {
    /// The file could not be read.
    Unreadable,
    /// The file's text is not what the loader expects.
    Malformed,
}

/// The accounts that a loaded accounts file names, in the file's order; a
/// failure to load is passed on unchanged.
pub fn load_available_accounts(loaded: Result<ConfigUserToml, ConfigError>) -> (r: Result<
    Vec<ConfigUser>,
    ConfigError,
>)
    ensures
        match loaded {
            Ok(content) => r == Ok::<Vec<ConfigUser>, ConfigError>(content.users),
            Err(why) => r == Err::<Vec<ConfigUser>, ConfigError>(why),
        },
{
    match loaded {
        Ok(content) => Ok(content.users),
        Err(why) => Err(why),
    }
}

} // verus!
