//! The well-known locations of the Unity Hub and of this tool's own files.
//!
//! Every location is a fixed path below one of three directories of the
//! platform. `Locations` holds those three as they were found, and says
//! where everything else lies; a directory that the platform does not have
//! leaves the locations below it absent. The free functions of this module
//! look the platform up afresh on each call.

use vstd::prelude::*;
use vstd::string::*;
use crate::path::{path_of, FsPath, PathModel};

verus! {

/// The parse error of `serde_json`.
#[verifier::external_type_specification]
#[verifier::external_body]
pub struct ExJsonError(serde_json::Error);

/// What `serde_json` reads from `text` when it is asked for a string:
/// `Some` with the characters of the string where the whole text is one JSON
/// string, and `None` where the parser rejects the text.
pub uninterp spec fn json_string_value(text: Seq<u8>) -> Option<Seq<char>>;

/// Reads `text` as one JSON string with `serde_json::from_slice`. The result
/// depends on the bytes alone: it is `Ok` with the string that the text
/// denotes, or the parser's error where the text is not a JSON string.
#[verifier::external_body]
fn json_string(text: &[u8]) -> (parsed: Result<String, serde_json::Error>)
    ensures
        match parsed {
            Ok(value) => json_string_value(text@) == Some(value@),
            Err(_) => json_string_value(text@) is None,
        },
{
    serde_json::from_slice::<String>(text)
}

/// The user's data directory, from `dirs_2::data_dir`. It depends on the
/// environment of the process, so nothing is promised of it.
#[verifier::external_body]
fn platform_data_dir() -> (dir: Option<String>) {
    dirs_2::data_dir().and_then(|dir| dir.into_os_string().into_string().ok())
}

/// The user's cache directory, from `dirs_2::cache_dir`. It depends on the
/// environment of the process, so nothing is promised of it.
#[verifier::external_body]
fn platform_cache_dir() -> (dir: Option<String>) {
    dirs_2::cache_dir().and_then(|dir| dir.into_os_string().into_string().ok())
}

/// The directory for installed applications, from
/// `dirs_2::application_dir`. It depends on the platform and the
/// environment of the process, so nothing is promised of it.
#[verifier::external_body]
fn platform_application_dir() -> (dir: Option<String>) {
    dirs_2::application_dir().and_then(|dir| dir.into_os_string().into_string().ok())
}

/// The value of a path that may be absent.
pub open spec fn path_model(path: Option<FsPath>) -> Option<PathModel> {
    match path {
        Some(path) => Some(path@),
        None => None,
    }
}

/// The path that `relative` names below `base`, where there is a base.
pub open spec fn below(base: Option<PathModel>, relative: Seq<char>) -> Option<PathModel> {
    match base {
        Some(base) => Some(base.join(path_of(relative))),
        None => None,
    }
}

/// The install path that is in force: the configured one, unless there is
/// none or it is empty; then the default.
pub open spec fn chosen_install_path(configured: Option<Seq<char>>, default: Option<PathModel>)
    -> Option<PathModel> {
    match configured {
        Some(text) => if text.len() > 0 {
            Some(path_of(text))
        } else {
            default
        },
        None => default,
    }
}

/// What the content of the install-path file configures: the string that
/// its JSON denotes. A file that is missing, unreadable or not a JSON string
/// configures nothing.
pub open spec fn configured_install_path(content: Option<Seq<u8>>) -> Option<Seq<char>> {
    match content {
        Some(text) => json_string_value(text),
        None => None,
    }
}

/// The value of file content that may be absent.
pub open spec fn content_model(content: Option<&[u8]>) -> Option<Seq<u8>> {
    match content {
        Some(text) => Some(text@),
        None => None,
    }
}

/// The mathematical value of `Locations`.
pub struct LocationsModel {
    pub data_dir: Option<PathModel>,
    pub cache_dir: Option<PathModel>,
    pub application_dir: Option<PathModel>,
}

impl LocationsModel {
    /// Where editors are installed unless configured otherwise.
    pub open spec fn default_install_path(self) -> Option<PathModel> {
        below(self.application_dir, "Unity/Hub/Editor"@)
    }

    /// Where editors are installed, given the content of the file at
    /// `secondary_install_path_config_path`.
    pub open spec fn install_path(self, content: Option<Seq<u8>>) -> Option<PathModel> {
        chosen_install_path(configured_install_path(content), self.default_install_path())
    }

    /// The directory of the Unity Hub's configuration.
    pub open spec fn config_path(self) -> Option<PathModel> {
        below(self.data_dir, "UnityHub"@)
    }

    /// The file that lists the editors known to the Hub.
    pub open spec fn editors_config_path(self) -> Option<PathModel> {
        below(self.config_path(), "editors.json"@)
    }

    /// The file that configures another install path.
    pub open spec fn secondary_install_path_config_path(self) -> Option<PathModel> {
        below(self.config_path(), "secondaryInstallPath.json"@)
    }

    /// The file that names the default editor.
    pub open spec fn default_editor_config_path(self) -> Option<PathModel> {
        below(self.config_path(), "defaultEditor.json"@)
    }

    /// The directory of this tool's cached files.
    pub open spec fn cache_dir(self) -> Option<PathModel> {
        below(below(self.cache_dir, "Wooga"@), "UnityVersionManager"@)
    }

    /// The directory of the lock files, one for each install target.
    pub open spec fn locks_dir(self) -> Option<PathModel> {
        below(self.cache_dir(), "locks"@)
    }

    /// The directory of the cached version hashes.
    pub open spec fn hash_cache_dir(self) -> Option<PathModel> {
        below(self.cache_dir(), "versions"@)
    }
}

/// The three directories of the platform that every location lies below.
#[derive(Debug)]
pub struct Locations {
    pub data_dir: Option<FsPath>,
    pub cache_dir: Option<FsPath>,
    pub application_dir: Option<FsPath>,
}

impl View for Locations {
    type V = LocationsModel;

    open spec fn view(&self) -> LocationsModel {
        LocationsModel {
            data_dir: path_model(self.data_dir),
            cache_dir: path_model(self.cache_dir),
            application_dir: path_model(self.application_dir),
        }
    }
}

/// The path that `text` denotes, where there is a text.
fn read_dir(text: Option<String>) -> (dir: Option<FsPath>)
    ensures
        match text {
            Some(text) => path_model(dir) == Some(path_of(text@)),
            None => dir is None,
        },
{
    match text {
        Some(text) => Some(FsPath::parse(text.as_str())),
        None => None,
    }
}

/// The path that `relative` names below `base`, where there is a base.
fn path_below(base: Option<FsPath>, relative: &str) -> (path: Option<FsPath>)
    ensures
        path_model(path) == below(path_model(base), relative@),
{
    match base {
        Some(base) => Some(base.child(relative)),
        None => None,
    }
}

/// The install path that is in force: `configured`, unless there is none or
/// it is empty; then `default`.
pub fn choose_install_path(configured: Option<String>, default: Option<FsPath>) -> (path: Option<
    FsPath,
>)
    ensures
        path_model(path) == chosen_install_path(
            match configured {
                Some(text) => Some(text@),
                None => None,
            },
            path_model(default),
        ),
{
    match configured {
        Some(text) => {
            if text.as_str().unicode_len() > 0 {
                Some(FsPath::parse(text.as_str()))
            } else {
                default
            }
        },
        None => default,
    }
}

/// What the content of the install-path file configures.
fn read_install_path_config(content: Option<&[u8]>) -> (configured: Option<String>)
    ensures
        (match configured {
            Some(text) => Some(text@),
            None => None,
        }) == configured_install_path(content_model(content)),
{
    match content {
        Some(text) => match json_string(text) {
            Ok(value) => Some(value),
            Err(_) => None,
        },
        None => None,
    }
}

impl Locations {
    /// The locations as the platform has them now.
    ///
    /// Which directories the platform names depends on the environment of
    /// the process. Whatever it names, each of the three is taken as the
    /// platform gave it: present where the platform named one, and then the
    /// path that the named text denotes.
    pub fn detect() -> (dirs: Locations)
        ensures
            exists|
                data_dir: Option<Seq<char>>,
                cache_dir: Option<Seq<char>>,
                application_dir: Option<Seq<char>>,
            |
                dirs@ == LocationsModel::read(data_dir, cache_dir, application_dir),
    {
        let data_dir = platform_data_dir();
        let cache_dir = platform_cache_dir();
        let application_dir = platform_application_dir();
        let dirs = Locations::read(data_dir, cache_dir, application_dir);
        assert(dirs@ == LocationsModel::read(
            text_model(data_dir),
            text_model(cache_dir),
            text_model(application_dir),
        ));
        dirs
    }

    /// The locations on a platform that names these three directories, each
    /// as text or not at all.
    pub fn read(
        data_dir: Option<String>,
        cache_dir: Option<String>,
        application_dir: Option<String>,
    ) -> (dirs: Locations)
        ensures
            dirs@ == LocationsModel::read(
                text_model(data_dir),
                text_model(cache_dir),
                text_model(application_dir),
            ),
    {
        Locations {
            data_dir: read_dir(data_dir),
            cache_dir: read_dir(cache_dir),
            application_dir: read_dir(application_dir),
        }
    }

    /// Where editors are installed unless configured otherwise.
    pub fn default_install_path(&self) -> (path: Option<FsPath>)
        ensures
            path_model(path) == self@.default_install_path(),
    {
        match &self.application_dir {
            Some(base) => Some(base.child("Unity/Hub/Editor")),
            None => None,
        }
    }

    /// Where editors are installed. `secondary_config` is the content of the
    /// file at `secondary_install_path_config_path`, or `None` where the
    /// file is missing or cannot be read. The path that the file configures
    /// is taken, unless it configures none or an empty one; then the default
    /// install path is.
    pub fn install_path(&self, secondary_config: Option<&[u8]>) -> (path: Option<FsPath>)
        ensures
            path_model(path) == self@.install_path(content_model(secondary_config)),
    {
        choose_install_path(
            read_install_path_config(secondary_config),
            self.default_install_path(),
        )
    }

    /// The directory of the Unity Hub's configuration.
    pub fn config_path(&self) -> (path: Option<FsPath>)
        ensures
            path_model(path) == self@.config_path(),
    {
        match &self.data_dir {
            Some(base) => Some(base.child("UnityHub")),
            None => None,
        }
    }

    /// The file that lists the editors known to the Hub.
    pub fn editors_config_path(&self) -> (path: Option<FsPath>)
        ensures
            path_model(path) == self@.editors_config_path(),
    {
        path_below(self.config_path(), "editors.json")
    }

    /// The file that configures another install path.
    pub fn secondary_install_path_config_path(&self) -> (path: Option<FsPath>)
        ensures
            path_model(path) == self@.secondary_install_path_config_path(),
    {
        path_below(self.config_path(), "secondaryInstallPath.json")
    }

    /// The file that names the default editor.
    pub fn default_editor_config_path(&self) -> (path: Option<FsPath>)
        ensures
            path_model(path) == self@.default_editor_config_path(),
    {
        path_below(self.config_path(), "defaultEditor.json")
    }

    /// The directory of this tool's cached files.
    pub fn cache_dir(&self) -> (path: Option<FsPath>)
        ensures
            path_model(path) == self@.cache_dir(),
    {
        match &self.cache_dir {
            Some(base) => Some(base.child("Wooga").child("UnityVersionManager")),
            None => None,
        }
    }

    /// The directory of the lock files.
    pub fn locks_dir(&self) -> (path: Option<FsPath>)
        ensures
            path_model(path) == self@.locks_dir(),
    {
        path_below(self.cache_dir(), "locks")
    }

    /// The directory of the cached version hashes.
    pub fn hash_cache_dir(&self) -> (path: Option<FsPath>)
        ensures
            path_model(path) == self@.hash_cache_dir(),
    {
        path_below(self.cache_dir(), "versions")
    }
}

/// Where editors are installed unless configured otherwise, on this
/// platform as it is now.
pub fn default_install_path() -> (path: Option<FsPath>)
    ensures
        exists|dirs: LocationsModel| path_model(path) == dirs.default_install_path(),
{
    let dirs = Locations::detect();
    let path = dirs.default_install_path();
    assert(path_model(path) == dirs@.default_install_path());
    path
}

/// Where editors are installed, on this platform as it is now.
/// `secondary_config` is the content of the file at
/// `secondary_install_path_config_path`, or `None` where the file is missing
/// or cannot be read.
pub fn install_path(secondary_config: Option<&[u8]>) -> (path: Option<FsPath>)
    ensures
        exists|dirs: LocationsModel|
            path_model(path) == dirs.install_path(content_model(secondary_config)),
{
    let dirs = Locations::detect();
    let path = dirs.install_path(secondary_config);
    assert(path_model(path) == dirs@.install_path(content_model(secondary_config)));
    path
}

/// The directory of the Unity Hub's configuration, on this platform as it
/// is now.
pub fn config_path() -> (path: Option<FsPath>)
    ensures
        exists|dirs: LocationsModel| path_model(path) == dirs.config_path(),
{
    let dirs = Locations::detect();
    let path = dirs.config_path();
    assert(path_model(path) == dirs@.config_path());
    path
}

/// The file that lists the editors known to the Hub, on this platform as it
/// is now.
pub fn editors_config_path() -> (path: Option<FsPath>)
    ensures
        exists|dirs: LocationsModel| path_model(path) == dirs.editors_config_path(),
{
    let dirs = Locations::detect();
    let path = dirs.editors_config_path();
    assert(path_model(path) == dirs@.editors_config_path());
    path
}

/// The file that configures another install path, on this platform as it is
/// now.
pub fn secondary_install_path_config_path() -> (path: Option<FsPath>)
    ensures
        exists|dirs: LocationsModel|
            path_model(path) == dirs.secondary_install_path_config_path(),
{
    let dirs = Locations::detect();
    let path = dirs.secondary_install_path_config_path();
    assert(path_model(path) == dirs@.secondary_install_path_config_path());
    path
}

/// The file that names the default editor, on this platform as it is now.
pub fn default_editor_config_path() -> (path: Option<FsPath>)
    ensures
        exists|dirs: LocationsModel| path_model(path) == dirs.default_editor_config_path(),
{
    let dirs = Locations::detect();
    let path = dirs.default_editor_config_path();
    assert(path_model(path) == dirs@.default_editor_config_path());
    path
}

/// The directory of this tool's cached files, on this platform as it is
/// now.
pub fn cache_dir() -> (path: Option<FsPath>)
    ensures
        exists|dirs: LocationsModel| path_model(path) == dirs.cache_dir(),
{
    let dirs = Locations::detect();
    let path = dirs.cache_dir();
    assert(path_model(path) == dirs@.cache_dir());
    path
}

/// The directory of the lock files, on this platform as it is now.
pub fn locks_dir() -> (path: Option<FsPath>)
    ensures
        exists|dirs: LocationsModel| path_model(path) == dirs.locks_dir(),
{
    let dirs = Locations::detect();
    let path = dirs.locks_dir();
    assert(path_model(path) == dirs@.locks_dir());
    path
}

/// The directory of the cached version hashes, on this platform as it is
/// now.
pub fn hash_cache_dir() -> (path: Option<FsPath>)
    ensures
        exists|dirs: LocationsModel| path_model(path) == dirs.hash_cache_dir(),
{
    let dirs = Locations::detect();
    let path = dirs.hash_cache_dir();
    assert(path_model(path) == dirs@.hash_cache_dir());
    path
}

/// The value of a text that may be absent.
pub open spec fn text_model(text: Option<String>) -> Option<Seq<char>> {
    match text {
        Some(text) => Some(text@),
        None => None,
    }
}

/// The path that `text` denotes, where there is a text.
pub open spec fn read_path(text: Option<Seq<char>>) -> Option<PathModel> {
    match text {
        Some(text) => Some(path_of(text)),
        None => None,
    }
}

impl LocationsModel {
    /// The locations on a platform that names these three directories, each
    /// as text or not at all.
    pub open spec fn read(
        data_dir: Option<Seq<char>>,
        cache_dir: Option<Seq<char>>,
        application_dir: Option<Seq<char>>,
    ) -> LocationsModel {
        LocationsModel {
            data_dir: read_path(data_dir),
            cache_dir: read_path(cache_dir),
            application_dir: read_path(application_dir),
        }
    }
}

} // verus!
