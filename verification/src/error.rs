//! The error taxonomy: one-time initialization failures, and the two
//! unrecoverable steady-state failures (device loss, and over-subscribing
//! the single-console host-engine bridge).  Out-of-range console writes
//! are deliberately not errors: they are silent no-ops.

use vstd::prelude::*;

verus! {

/// A fatal failure during one-time initialization; returned to the caller,
/// never retried.
#[derive(Clone, Copy, PartialEq, Eq, Structural, Debug)]
pub enum InitError {
    /// A fullscreen window was requested but no monitor is enumerable.
    NoMonitorFound,
    /// The shader at this registry index failed to compile or link; a
    /// single failure aborts the whole registry.
    ShaderCompile(usize),
    /// The backing framebuffer could not be created.
    FramebufferBuild,
    /// The windowed graphics context could not be created.
    ContextCreate,
}

impl InitError {
    pub open spec fn describe_spec(self) -> Seq<char> {
        match self {
            InitError::NoMonitorFound => "no available monitor found"@,
            InitError::ShaderCompile(_) => "shader compilation failed"@,
            InitError::FramebufferBuild => "backing framebuffer creation failed"@,
            InitError::ContextCreate => "graphics context creation failed"@,
        }
    }

    /// A message naming the resource that failed.
    pub fn describe(&self) -> (m: &'static str)
        ensures
            m@ == self.describe_spec(),
    {
        match self {
            InitError::NoMonitorFound => "no available monitor found",
            InitError::ShaderCompile(_) => "shader compilation failed",
            InitError::FramebufferBuild => "backing framebuffer creation failed",
            InitError::ContextCreate => "graphics context creation failed",
        }
    }
}

/// A fatal failure in the steady-state frame cycle; the loop terminates,
/// no in-place recovery is attempted.
#[derive(Clone, Copy, PartialEq, Eq, Structural, Debug)]
pub enum RunError {
    /// The graphics context was invalidated mid-session.
    DeviceLost,
    /// More consoles were bridged to the host engine than it supports.
    ResourceLimit,
}

impl RunError {
    pub open spec fn describe_spec(self) -> Seq<char> {
        match self {
            RunError::DeviceLost => "graphics device lost"@,
            RunError::ResourceLimit => "host engine supports a single dense console"@,
        }
    }

    /// A message naming the failure.
    pub fn describe(&self) -> (m: &'static str)
        ensures
            m@ == self.describe_spec(),
    {
        match self {
            RunError::DeviceLost => "graphics device lost",
            RunError::ResourceLimit => "host engine supports a single dense console",
        }
    }
}

} // verus!
