//! Names of the things that the reactor tracks.
use vstd::prelude::*;

verus! {

/// A process id.
#[allow(non_camel_case_types)]
pub type pid_t = i32;

/// A window as its application knows it.
#[derive(Clone, Copy, Debug, PartialEq, Eq, Structural, Hash)]
pub struct WindowId {
    pub pid: pid_t,
    pub idx: u32,
}

/// A window as the window server knows it.
#[derive(Clone, Copy, Debug, PartialEq, Eq, Structural, Hash)]
pub struct WindowServerId(pub u32);

impl WindowServerId {
    pub fn new(id: u32) -> (r: WindowServerId)
        ensures
            r == WindowServerId(id),
    {
        WindowServerId(id)
    }

    pub fn as_u32(&self) -> (r: u32)
        ensures
            r == self.0,
    {
        self.0
    }
}

/// A native space (one desktop of one display).
#[derive(Clone, Copy, Debug, PartialEq, Eq, Structural, Hash)]
pub struct SpaceId(pub u64);

impl SpaceId {
    pub fn new(id: u64) -> (r: SpaceId)
        ensures
            r == SpaceId(id),
    {
        SpaceId(id)
    }

    pub fn get(&self) -> (r: u64)
        ensures
            r == self.0,
    {
        self.0
    }
}

/// A display.
#[derive(Clone, Copy, Debug, PartialEq, Eq, Structural, Hash)]
pub struct ScreenId(pub u32);

/// A virtual workspace inside a space.
#[derive(Clone, Copy, Debug, PartialEq, Eq, Structural, Hash)]
pub struct VirtualWorkspaceId(pub u64);

/// A frame change that the reactor asked an application for.
#[derive(Clone, Copy, Debug, PartialEq, Eq, Structural, Hash)]
pub struct TransactionId(pub u32);

/// A window seen from one space.
#[derive(Clone, Copy, Debug, PartialEq, Eq, Structural, Hash)]
pub struct SpaceWindow {
    pub space: SpaceId,
    pub window: WindowId,
}

/// A virtual workspace together with the space that it belongs to.
#[derive(Clone, Copy, Debug, PartialEq, Eq, Structural, Hash)]
pub struct SpaceWorkspace {
    pub space: SpaceId,
    pub workspace: VirtualWorkspaceId,
}

/// Values that a table can be keyed by: `same` decides equality.
pub trait Key: Copy {
    fn same(&self, other: &Self) -> (r: bool)
        ensures
            r == (*self == *other),
    ;
}

impl Key for i32 {
    fn same(&self, other: &Self) -> (r: bool) {
        *self == *other
    }
}

impl Key for u32 {
    fn same(&self, other: &Self) -> (r: bool) {
        *self == *other
    }
}

impl Key for WindowId {
    fn same(&self, other: &Self) -> (r: bool) {
        *self == *other
    }
}

impl Key for WindowServerId {
    fn same(&self, other: &Self) -> (r: bool) {
        *self == *other
    }
}

impl Key for SpaceId {
    fn same(&self, other: &Self) -> (r: bool) {
        *self == *other
    }
}

impl Key for ScreenId {
    fn same(&self, other: &Self) -> (r: bool) {
        *self == *other
    }
}

impl Key for VirtualWorkspaceId {
    fn same(&self, other: &Self) -> (r: bool) {
        *self == *other
    }
}

impl Key for SpaceWindow {
    fn same(&self, other: &Self) -> (r: bool) {
        *self == *other
    }
}

impl Key for SpaceWorkspace {
    fn same(&self, other: &Self) -> (r: bool) {
        *self == *other
    }
}

} // verus!
