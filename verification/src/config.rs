//! Service configuration and the bootstrap decision made from the data file.
//!
//! Filesystem paths are carried as their components, root first, so that the
//! decisions made over them are plain functions of plain values; the callers
//! that touch the filesystem convert to and from native paths at the edge.

use crate::CoreError;
use vstd::prelude::*;

verus! {

/// The path component under which the signer keeps its data, as characters.
pub open spec fn path_identifier() -> Seq<char> {
    "manta-signer"@
}

/// The path component under which the signer keeps its data.
pub fn path_identifier_segment() -> (result: String)
    ensures
        result@ == path_identifier(),
{
    String::from_str("manta-signer")
}

/// Pushes the signer's path identifier to the end of the given `path` if
/// there is one, attaching the file `name` afterwards.
pub fn file(path: Option<Vec<String>>, name: String) -> (result: Option<Vec<String>>)
    ensures
        result is Some <==> path is Some,
        path is Some ==> {
            let base = path->0@;
            let full = result->0@;
            &&& full.len() == base.len() + 2
            &&& full.subrange(0, base.len() as int) == base
            &&& full[base.len() as int]@ == path_identifier()
            &&& full.last() == name
        },
{
    match path {
        Some(mut components) => {
            let ghost base = components@;
            components.push(path_identifier_segment());
            components.push(name);
            proof {
                assert(components@.subrange(0, base.len() as int) =~= base);
            }
            Some(components)
        },
        None => None,
    }
}

/// Relies on dirs_next::config_dir: the platform configuration directory as
/// path components, if the environment defines one. The value depends on the
/// environment, so nothing is promised of it.
#[verifier::external_body]
fn platform_config_directory() -> (result: Option<Vec<String>>) {
    dirs_next::config_dir().map(|path| {
        path.iter().map(|component| component.to_string_lossy().into_owned()).collect()
    })
}

/// Configuration of the signing service.
#[derive(Clone, Debug, Eq, Hash, PartialEq)]
pub struct Config {
    /// Path of the data file, as components root first.
    pub data_path: Vec<String>,

    /// Address the service listens on.
    pub service_url: String,

    /// Origin allowed to reach the service, if restricted.
    pub origin_url: Option<String>,
}

impl Config {
    /// Tries to build the default configuration. The data file lives under
    /// the signer's directory inside the platform configuration directory;
    /// nothing is returned when the environment defines no such directory.
    pub fn try_default() -> (result: Option<Config>)
        ensures
            match result {
                Some(config) => {
                    &&& config.data_path@.len() >= 2
                    &&& config.data_path@.last()@ == "storage.dat"@
                    &&& config.data_path@[config.data_path@.len() - 2]@ == path_identifier()
                    &&& config.service_url@ == "127.0.0.1:29987"@
                    &&& config.origin_url is Some
                    &&& config.origin_url->0@ == "https://app.dolphin.manta.network"@
                },
                None => true,
            },
    {
        match file(platform_config_directory(), String::from_str("storage.dat")) {
            Some(data_path) => Some(
                Config {
                    data_path,
                    service_url: String::from_str("127.0.0.1:29987"),
                    origin_url: Some(String::from_str("https://app.dolphin.manta.network")),
                },
            ),
            None => None,
        }
    }

    /// Returns the directory that holds the data file: every component of
    /// the data path but the last.
    pub fn data_directory(&self) -> (result: Vec<String>)
        requires
            self.data_path@.len() >= 1,
        ensures
            result@ == self.data_path@.drop_last(),
    {
        let mut result: Vec<String> = Vec::new();
        let mut i: usize = 0;
        let last = self.data_path.len() - 1;
        while i < last
            invariant
                last == self.data_path@.len() - 1,
                i <= last,
                result@ =~= self.data_path@.subrange(0, i as int),
            decreases last - i,
        {
            let component = &self.data_path[i];
            result.push(component.clone());
            i = i + 1;
        }
        proof {
            assert(result@ =~= self.data_path@.drop_last());
        }
        result
    }

    /// Decides the bootstrap phase from what the filesystem showed at the
    /// data path. `mnemonic` is the phrase that a cryptographically secure
    /// generator produced for this call; it is consumed exactly when nothing
    /// exists at the path yet.
    pub fn setup(&self, status: DataStatus, mnemonic: String) -> (result: Result<Setup, CoreError>)
        ensures
            result == (match status {
                DataStatus::RegularFile => Ok::<Setup, CoreError>(Setup::Login),
                DataStatus::NotRegularFile => Err::<Setup, CoreError>(CoreError::InvalidDataFormat),
                DataStatus::Absent => Ok::<Setup, CoreError>(Setup::CreateAccount(mnemonic)),
                DataStatus::Inaccessible => Err::<Setup, CoreError>(CoreError::IoFailure),
            }),
    {
        match status {
            DataStatus::RegularFile => Ok(Setup::Login),
            DataStatus::NotRegularFile => Err(CoreError::InvalidDataFormat),
            DataStatus::Absent => Ok(Setup::CreateAccount(mnemonic)),
            DataStatus::Inaccessible => Err(CoreError::IoFailure),
        }
    }
}

/// What a metadata inspection of the data path showed. The caller that can
/// reach the filesystem inspects the path and reports one of these.
#[derive(Clone, Copy, Debug, PartialEq, Eq, Structural)]
pub enum DataStatus {
    /// The path exists and is a regular file.
    RegularFile,
    /// The path exists but is not a regular file: a directory, a device, or
    /// a dangling link occupies the slot.
    NotRegularFile,
    /// Nothing exists at the path.
    Absent,
    /// The inspection itself failed.
    Inaccessible,
}

/// Bootstrap phase decided at service start.
#[derive(Clone)]
pub enum Setup {
    /// No account exists yet: one must be created from the carried,
    /// freshly generated mnemonic phrase.
    CreateAccount(String),
    /// An account already exists on disk.
    Login,
}

} // verus!
