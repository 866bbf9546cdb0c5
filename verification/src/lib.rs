//! Installation engine for editor and module archives: path resolution,
//! the install lifecycle, and the well-known directories it works in.

pub mod action;
pub mod error;
pub mod hub;
pub mod installer;
pub mod lifecycle;
pub mod path;
pub mod text;
pub mod xz;

pub use action::Action;
pub use error::{handle_notfound, ErrorKind, Failure, FailureKind, InstallError};
pub use installer::{Installer, UnityEditor, UnityModule};
pub use lifecycle::{InstallHandler, InstallState, Outcome, Transition};
pub use path::{path_contains_subpath, path_to_editor_root, FsPath};
pub use xz::{EditorXzInstaller, ModuleXzInstaller, Xz};
