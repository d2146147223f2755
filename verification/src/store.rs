//! Where the sealed package is kept between runs.
//!
//! The package lives in one file at a fixed place below the application's
//! configuration directory. The library names the place; reading and
//! writing the file is the caller's part.

use crate::error::KeyError;
use vstd::prelude::*;

verus! {

/// The directory of the key file, below the configuration directory.
pub const KEY_DIRECTORY: &'static str = "mesa";

/// The name of the key file.
pub const KEY_FILE_NAME: &'static str = "private_key.json";

/// The place of the key file: `base`, then the directory, then the file.
#[derive(Debug)]
pub struct KeyFileLocation<D> {
    /// The application's configuration directory.
    pub base: D,
    /// The directory below `base` that holds the file.
    pub directory: &'static str,
    /// The name of the file in that directory.
    pub file_name: &'static str,
}

/// The place of the key file below the configuration directory, or the
/// failure `ConfigDirectory` where the application has none.
pub fn get_key_storage_path<D>(config_dir: Option<D>) -> (r: Result<KeyFileLocation<D>, KeyError>)
    ensures
        match config_dir {
            Some(base) => r matches Ok(location) && {
                &&& location.base == base
                &&& location.directory@ == KEY_DIRECTORY@
                &&& location.file_name@ == KEY_FILE_NAME@
            },
            None => r == Err::<KeyFileLocation<D>, KeyError>(KeyError::ConfigDirectory),
        },
{
    match config_dir {
        Some(base) => Ok(KeyFileLocation { base, directory: KEY_DIRECTORY, file_name: KEY_FILE_NAME }),
        None => Err(KeyError::ConfigDirectory),
    }
}

} // verus!
