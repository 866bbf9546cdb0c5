//! The description of one installation.

use vstd::prelude::*;
use crate::path::{FsPath, PathModel};

verus! {

/// Marks an installer of a whole editor.
#[derive(Clone, Copy, Debug)]
pub struct UnityEditor;

/// Marks an installer of a module that is added to an editor.
#[derive(Clone, Copy, Debug)]
pub struct UnityModule;

/// The mathematical value of an `Installer`.
pub struct InstallerModel {
    /// The archive to install.
    pub source: PathModel,
    /// Where the content is to end up.
    pub destination: PathModel,
    /// The move to make once the archive is unpacked, from the first path to
    /// the second.
    pub rename: Option<(PathModel, PathModel)>,
    /// The directory below which editors are installed.
    pub install_root: PathModel,
}

impl InstallerModel {
    /// The archive and the destination are absolute paths.
    pub open spec fn well_formed(self) -> bool {
        self.source.absolute && self.destination.absolute
    }
}

/// The value of a pair of paths to move between.
pub open spec fn rename_model(rename: Option<(FsPath, FsPath)>) -> Option<(PathModel, PathModel)> {
    match rename {
        Some((from, to)) => Some((from@, to@)),
        None => None,
    }
}

/// What one installation works on. `V` says what is installed, an editor or a
/// module, and `F` in which format the archive is; the lifecycle of each
/// pairing is its `InstallHandler`.
#[derive(Debug)]
pub struct Installer<V, F> {
    variant: V,
    format: F,
    source: FsPath,
    destination: FsPath,
    rename: Option<(FsPath, FsPath)>,
    install_root: FsPath,
}

impl<V, F> View for Installer<V, F> {
    type V = InstallerModel;

    closed spec fn view(&self) -> InstallerModel {
        InstallerModel {
            source: self.source@,
            destination: self.destination@,
            rename: rename_model(self.rename),
            install_root: self.install_root@,
        }
    }
}

impl<V, F> Installer<V, F> {
    #[verifier::type_invariant]
    spec fn paths_are_absolute(self) -> bool {
        self@.well_formed()
    }

    /// Describes an installation of the archive at `source` to `destination`.
    /// Both must be absolute paths: with a relative one there is no
    /// installer.
    pub fn new(
        variant: V,
        format: F,
        source: FsPath,
        destination: FsPath,
        rename: Option<(FsPath, FsPath)>,
        install_root: FsPath,
    ) -> (made: Option<Self>)
        ensures
            made is Some <==> source@.absolute && destination@.absolute,
            made matches Some(installer) ==> installer@ == (InstallerModel {
                source: source@,
                destination: destination@,
                rename: rename_model(rename),
                install_root: install_root@,
            }),
    {
        if source.is_absolute() && destination.is_absolute() {
            Some(Installer { variant, format, source, destination, rename, install_root })
        } else {
            None
        }
    }

    /// The archive to install.
    pub fn source(&self) -> (path: &FsPath)
        ensures
            path@ == self@.source,
            path@.absolute,
    {
        proof {
            use_type_invariant(self);
        }
        &self.source
    }

    /// Where the content is to end up.
    pub fn destination(&self) -> (path: &FsPath)
        ensures
            path@ == self@.destination,
            path@.absolute,
    {
        proof {
            use_type_invariant(self);
        }
        &self.destination
    }

    /// The move to make once the archive is unpacked.
    pub fn rename(&self) -> (rename: &Option<(FsPath, FsPath)>)
        ensures
            rename_model(*rename) == self@.rename,
    {
        &self.rename
    }

    /// The directory below which editors are installed.
    pub fn install_root(&self) -> (path: &FsPath)
        ensures
            path@ == self@.install_root,
    {
        &self.install_root
    }
}

} // verus!
