//! The resource limiter: paths and file contents for the kernel
//! resource-control group that caps how many processes may run inside the
//! container at once.
//!
//! The group lives under the system's resource-control mount point, under a
//! fixed name.  Creating the directory creates the kernel object; writing
//! the ceiling into its limit file configures it; writing the parent's
//! process id into its membership file enrols the parent, so that the child
//! spawned afterwards inherits membership at creation time.  Removing the
//! directory destroys the group.  This module computes every path and every
//! file content involved; performing the filesystem writes is the driver's
//! job.

use vstd::prelude::*;
use vstd::string::StringExecFns;

use crate::decimal::decimal_seq;
use crate::decimal::u64_to_decimal;

verus! {

/// Ceiling on the number of concurrently allowed processes in the group.
pub const PROCESS_LIMIT: u64 = 5;

/// Mount point of the kernel's resource-control filesystem.
pub open spec fn cgroup_root_seq() -> Seq<char> {
    "/sys/fs/cgroup"@
}

/// Fixed name of the container's resource-control group.
pub open spec fn group_name_seq() -> Seq<char> {
    "carapace-container"@
}

/// Directory of the container's resource-control group.
pub open spec fn group_dir_seq() -> Seq<char> {
    cgroup_root_seq() + "/"@ + group_name_seq()
}

/// The group's process-count-limit file.
pub open spec fn limit_file_seq() -> Seq<char> {
    group_dir_seq() + "/pids.max"@
}

/// The group's membership file.
pub open spec fn procs_file_seq() -> Seq<char> {
    group_dir_seq() + "/cgroup.procs"@
}

/// Path of the group directory.
pub fn group_dir_path() -> (p: String)
    ensures
        p@ == group_dir_seq(),
{
    let mut p = String::from_str("/sys/fs/cgroup");
    p.append("/");
    p.append("carapace-container");
    p
}

/// Path of the process-count-limit file.
pub fn limit_file_path() -> (p: String)
    ensures
        p@ == limit_file_seq(),
{
    let mut p = group_dir_path();
    p.append("/pids.max");
    p
}

/// Path of the membership file.
pub fn procs_file_path() -> (p: String)
    ensures
        p@ == procs_file_seq(),
{
    let mut p = group_dir_path();
    p.append("/cgroup.procs");
    p
}

/// What is written into the limit file: the ceiling, as decimal text.
pub fn limit_file_contents() -> (c: String)
    ensures
        c@ == decimal_seq(PROCESS_LIMIT as nat),
{
    u64_to_decimal(PROCESS_LIMIT)
}

/// What is written into the membership file: the enrolled process's id, as
/// decimal text.
pub fn procs_file_contents(pid: u64) -> (c: String)
    ensures
        c@ == decimal_seq(pid as nat),
{
    u64_to_decimal(pid)
}

} // verus!
