//! A block device in its role as a filesystem that can be mounted.
use vstd::prelude::*;
use crate::err::{outcome_view, MounterError, MounterErrorView, TransportError};
use crate::udisks2::devices::block::{Block, BlockView};

verus! {

/// A block device that holds a filesystem.
pub struct Filesystem {
    pub device: Block,
}

/// What to do in order to have a filesystem mounted.
#[derive(Debug, PartialEq, Eq)]
pub enum MountStep {
    /// Nothing: the filesystem is mounted at this path already.
    Mounted(String),
    /// Ask the service to mount the object at this path.
    Call(String),
}

/// A `MountStep` with its path as text.
pub ghost enum MountStepView {
    Mounted(Seq<char>),
    Call(Seq<char>),
}

impl View for MountStep {
    type V = MountStepView;

    open spec fn view(&self) -> MountStepView {
        match self {
            MountStep::Mounted(path) => MountStepView::Mounted(path@),
            MountStep::Call(object_path) => MountStepView::Call(object_path@),
        }
    }
}

impl DeepView for MountStep {
    type V = MountStepView;

    open spec fn deep_view(&self) -> MountStepView {
        self@
    }
}

/// The step that mounts `device`: none where it is mounted already, which
/// gives the first of its mount paths; else a request to the service.
pub open spec fn mount_step(device: BlockView) -> MountStepView {
    if device.is_mounted() {
        MountStepView::Mounted(device.fs_info->0.mount_paths->0[0])
    } else {
        MountStepView::Call(device.object_path)
    }
}

/// What a mount request came to: the mount path, or the failure of the bus.
pub open spec fn mount_result(reply: Result<String, TransportError>) -> Result<
    Seq<char>,
    MounterErrorView,
> {
    match reply {
        Ok(path) => Ok(path@),
        Err(e) => Err(MounterErrorView::TransportFailure(e@)),
    }
}

impl Filesystem {
    /// Whether the filesystem is mounted somewhere.
    pub fn is_mounted(&self) -> (mounted: bool)
        ensures
            mounted == self.device@.is_mounted(),
    {
        match &self.device.fs_info {
            Some(info) => match &info.mount_paths {
                Some(paths) => paths.len() > 0,
                None => false,
            },
            None => false,
        }
    }

    /// The step that mounts the filesystem. The caller performs a
    /// `MountStep::Call` and hands the reply to `finish_mount`.
    pub fn mount(&self) -> (step: MountStep)
        ensures
            step@ == mount_step(self.device@),
    {
        match &self.device.fs_info {
            Some(info) => match &info.mount_paths {
                Some(paths) => if paths.len() > 0 {
                    return MountStep::Mounted(paths[0].clone());
                },
                None => {},
            },
            None => {},
        }
        MountStep::Call(self.device.object_path.clone())
    }

    /// Turns the reply to a mount request into the mount path or the error.
    pub fn finish_mount(reply: Result<String, TransportError>) -> (result: Result<
        String,
        MounterError,
    >)
        ensures
            outcome_view(result) == mount_result(reply),
    {
        match reply {
            Ok(path) => Ok(path),
            Err(e) => Err(MounterError::TransportFailure(e)),
        }
    }
}

} // verus!
