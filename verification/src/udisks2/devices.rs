//! Drives and block devices, and the two roles a block device can play.
pub mod block;
pub mod drive;
pub mod encrypted;
pub mod filesystem;

pub use block::{Block, BlockView, EncInfo, EncInfoView, FsInfo, FsInfoView};
pub use drive::{Drive, DriveView};
pub use encrypted::{Credential, CredentialView, Encrypted, UnlockStep, UnlockStepView};
pub use filesystem::{Filesystem, MountStep, MountStepView};
