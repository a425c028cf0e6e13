//! Classification of bootstrap failures.
//!
//! Every step of the isolation pipeline is fail-fast: no step proceeds past a
//! failed prerequisite.  Each failure is classified by the step that failed
//! and carries the underlying system complaint verbatim, so that the driver
//! can print one distinct, actionable diagnostic per failure kind.

use vstd::prelude::*;
use vstd::string::StringExecFns;

verus! {

/// One classified failure of the isolation pipeline.
///
/// The variants follow the pipeline order: resource-limiter setup and
/// cleanup in the parent, namespace creation in the parent, then the
/// child-side jail steps (hostname, root change, `/proc` mount, process
/// handover), and finally the parent's observation of the child.
#[derive(Debug)]
pub enum IsolateError {
    /// The resource-control group could not be created or configured.
    ResourceSetupError { detail: String },
    /// The resource-control group could not be removed afterwards.
    ResourceCleanupError { detail: String },
    /// The kernel refused to create the requested namespaces.
    NamespaceCreationError { detail: String },
    /// The container hostname could not be set inside the new namespace.
    HostnameError { detail: String },
    /// The jail root could not be entered, typically because the prepared
    /// root directory does not exist.
    JailEntryError { detail: String },
    /// The process-information pseudo-filesystem could not be mounted.
    MountError { detail: String },
    /// The target command could not replace the process image, typically
    /// because the binary is missing inside the jail.
    ExecError { detail: String },
    /// The child's termination could not be observed, or the child could
    /// not be spawned at all; distinct from the child's own exit status.
    ChildWaitError { detail: String },
}

/// The diagnostic prefix naming the step that failed.
pub open spec fn label_seq(e: IsolateError) -> Seq<char> {
    match e {
        IsolateError::ResourceSetupError { .. } => "resource limit setup failed: "@,
        IsolateError::ResourceCleanupError { .. } => "resource limit cleanup failed: "@,
        IsolateError::NamespaceCreationError { .. } => "namespace creation failed: "@,
        IsolateError::HostnameError { .. } => "setting container hostname failed: "@,
        IsolateError::JailEntryError { .. } => "entering jail root failed: "@,
        IsolateError::MountError { .. } => "mounting /proc failed: "@,
        IsolateError::ExecError { .. } => "executing target command failed: "@,
        IsolateError::ChildWaitError { .. } => "waiting for child failed: "@,
    }
}

/// The system complaint carried by the error.
pub open spec fn detail_seq(e: IsolateError) -> Seq<char> {
    match e {
        IsolateError::ResourceSetupError { detail } => detail@,
        IsolateError::ResourceCleanupError { detail } => detail@,
        IsolateError::NamespaceCreationError { detail } => detail@,
        IsolateError::HostnameError { detail } => detail@,
        IsolateError::JailEntryError { detail } => detail@,
        IsolateError::MountError { detail } => detail@,
        IsolateError::ExecError { detail } => detail@,
        IsolateError::ChildWaitError { detail } => detail@,
    }
}

/// The full human-readable diagnostic: step prefix followed by the system
/// complaint.
pub open spec fn describe_seq(e: IsolateError) -> Seq<char> {
    label_seq(e) + detail_seq(e)
}

impl IsolateError {
    /// Renders the diagnostic for this failure.
    pub fn describe(&self) -> (m: String)
        ensures
            m@ == describe_seq(*self),
    {
        match self {
            IsolateError::ResourceSetupError { detail } => {
                let mut m = String::from_str("resource limit setup failed: ");
                m.append(detail.as_str());
                m
            },
            IsolateError::ResourceCleanupError { detail } => {
                let mut m = String::from_str("resource limit cleanup failed: ");
                m.append(detail.as_str());
                m
            },
            IsolateError::NamespaceCreationError { detail } => {
                let mut m = String::from_str("namespace creation failed: ");
                m.append(detail.as_str());
                m
            },
            IsolateError::HostnameError { detail } => {
                let mut m = String::from_str("setting container hostname failed: ");
                m.append(detail.as_str());
                m
            },
            IsolateError::JailEntryError { detail } => {
                let mut m = String::from_str("entering jail root failed: ");
                m.append(detail.as_str());
                m
            },
            IsolateError::MountError { detail } => {
                let mut m = String::from_str("mounting /proc failed: ");
                m.append(detail.as_str());
                m
            },
            IsolateError::ExecError { detail } => {
                let mut m = String::from_str("executing target command failed: ");
                m.append(detail.as_str());
                m
            },
            IsolateError::ChildWaitError { detail } => {
                let mut m = String::from_str("waiting for child failed: ");
                m.append(detail.as_str());
                m
            },
        }
    }
}

} // verus!
