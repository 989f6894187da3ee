//! The engine's error taxonomy.
//!
//! Three classes, each answered differently: transient surface conditions
//! are retried once after the swapchain is rebuilt; resource exhaustion
//! drops the frame and lets later frames try again; programming errors —
//! an invariant was broken — are fatal for the process. Every failure below
//! the frame coordinator propagates up to it; only there is retry-or-abort
//! decided.

use crate::material::MaterialId;
use vstd::prelude::*;

verus! {

/// What went wrong.
#[derive(Clone, Copy, PartialEq, Eq, Structural, Debug)]
pub enum NimbusError {
    /// The surface is out of date (a resize happened): rebuild the
    /// swapchain and retry the frame once.
    SurfaceStale,
    /// The surface stayed out of date right after a rebuild: fatal.
    SurfaceLost,
    /// A GPU allocation failed; the frame is dropped, later ones may succeed.
    AllocationFailed,
    /// A submesh referenced a material the registry does not hold — a
    /// resource-lifecycle bug, not a recoverable condition.
    MissingMaterial(MaterialId),
}

/// How an error is answered.
#[derive(Clone, Copy, PartialEq, Eq, Structural, Debug)]
pub enum ErrorClass {
    /// Rebuild the swapchain and retry the frame once.
    Transient,
    /// Drop the frame; do not present; later frames may succeed.
    ResourceExhaustion,
    /// A violated invariant or a persistently broken surface: fail fast.
    Fatal,
}

impl NimbusError {
    /// The class that decides retry-versus-abort for this error.
    pub open spec fn spec_class(self) -> ErrorClass {
        match self {
            NimbusError::SurfaceStale => ErrorClass::Transient,
            NimbusError::SurfaceLost => ErrorClass::Fatal,
            NimbusError::AllocationFailed => ErrorClass::ResourceExhaustion,
            NimbusError::MissingMaterial(_) => ErrorClass::Fatal,
        }
    }

    pub fn class(&self) -> (r: ErrorClass)
        ensures
            r == self.spec_class(),
    {
        match self {
            NimbusError::SurfaceStale => ErrorClass::Transient,
            NimbusError::SurfaceLost => ErrorClass::Fatal,
            NimbusError::AllocationFailed => ErrorClass::ResourceExhaustion,
            NimbusError::MissingMaterial(_) => ErrorClass::Fatal,
        }
    }

    /// Whether the frame coordinator may retry the frame after this error.
    pub fn is_retryable(&self) -> (r: bool)
        ensures
            r == (self.spec_class() == ErrorClass::Transient),
    {
        match self {
            NimbusError::SurfaceStale => true,
            _ => false,
        }
    }
}

} // verus!
