//! Kernel interface constants and enums mirrored from the kernel headers.

use vstd::prelude::*;

verus! {

/// Map type code for a hash map.
pub const BPF_MAP_TYPE_HASH: u32 = 1;

/// Map type code for an array map.
pub const BPF_MAP_TYPE_ARRAY: u32 = 2;

/// Map type code for a perf event array.
pub const BPF_MAP_TYPE_PERF_EVENT_ARRAY: u32 = 4;

/// Map type code for a longest-prefix-match trie.
pub const BPF_MAP_TYPE_LPM_TRIE: u32 = 11;

/// Attachment points the kernel accepts for socket-lifecycle programs.
#[allow(non_camel_case_types)]
#[derive(Copy, Clone, Debug, PartialEq, Eq, Structural)]
pub enum bpf_attach_type {
    /// Run after an IPv4 socket is bound.
    BPF_CGROUP_INET4_POST_BIND,
    /// Run after an IPv6 socket is bound.
    BPF_CGROUP_INET6_POST_BIND,
    /// Run when a socket is created.
    BPF_CGROUP_INET_SOCK_CREATE,
    /// Run when a socket is released.
    BPF_CGROUP_INET_SOCK_RELEASE,
}

} // verus!
