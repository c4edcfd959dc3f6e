//! Program-kind specific types: cgroup socket programs.

use vstd::prelude::*;

use crate::generated::bpf_attach_type;
use crate::strutil::str_eq;

verus! {

/// Defines where to attach a cgroup socket program.
#[derive(Copy, Clone, Debug)]
pub enum CgroupSockAttachType {
    /// Called after the IPv4 bind events.
    PostBind4,
    /// Called after the IPv6 bind events.
    PostBind6,
    /// Attach to IPv4 connect events.
    SockCreate,
    /// Attach to IPv6 connect events.
    SockRelease,
}

impl Default for CgroupSockAttachType {
    // The kernel treats a zero attach type as sock_create; mirror that choice.
    fn default() -> (r: Self)
        ensures
            r is SockCreate,
    {
        CgroupSockAttachType::SockCreate
    }
}

impl From<CgroupSockAttachType> for bpf_attach_type {
    fn from(s: CgroupSockAttachType) -> (r: bpf_attach_type) {
        match s {
            CgroupSockAttachType::PostBind4 => bpf_attach_type::BPF_CGROUP_INET4_POST_BIND,
            CgroupSockAttachType::PostBind6 => bpf_attach_type::BPF_CGROUP_INET6_POST_BIND,
            CgroupSockAttachType::SockCreate => bpf_attach_type::BPF_CGROUP_INET_SOCK_CREATE,
            CgroupSockAttachType::SockRelease => bpf_attach_type::BPF_CGROUP_INET_SOCK_RELEASE,
        }
    }
}

impl vstd::std_specs::convert::FromSpecImpl<CgroupSockAttachType> for bpf_attach_type {
    open spec fn obeys_from_spec() -> bool {
        true
    }

    open spec fn from_spec(s: CgroupSockAttachType) -> bpf_attach_type {
        match s {
            CgroupSockAttachType::PostBind4 => bpf_attach_type::BPF_CGROUP_INET4_POST_BIND,
            CgroupSockAttachType::PostBind6 => bpf_attach_type::BPF_CGROUP_INET6_POST_BIND,
            CgroupSockAttachType::SockCreate => bpf_attach_type::BPF_CGROUP_INET_SOCK_CREATE,
            CgroupSockAttachType::SockRelease => bpf_attach_type::BPF_CGROUP_INET_SOCK_RELEASE,
        }
    }
}

/// The name handed to [`CgroupSockAttachType::try_from`] names no attach point.
pub struct InvalidAttachType(pub String);

impl CgroupSockAttachType {
    /// Parses an attach-point name from a section suffix.
    pub fn try_from(value: &str) -> (r: Result<CgroupSockAttachType, InvalidAttachType>)
        ensures
            value@ == "post_bind4"@ ==> (r matches Ok(a) && a is PostBind4),
            value@ == "post_bind6"@ ==> (r matches Ok(a) && a is PostBind6),
            value@ == "sock_create"@ ==> (r matches Ok(a) && a is SockCreate),
            value@ == "sock_release"@ ==> (r matches Ok(a) && a is SockRelease),
            r is Err <==> (value@ != "post_bind4"@ && value@ != "post_bind6"@
                && value@ != "sock_create"@ && value@ != "sock_release"@),
            r matches Err(e) ==> e.0@ == value@,
    {
        proof {
            reveal_strlit("post_bind4");
            reveal_strlit("post_bind6");
            reveal_strlit("sock_create");
            reveal_strlit("sock_release");
            assert("post_bind4"@ != "post_bind6"@) by {
                assert("post_bind4"@[9] == '4' && "post_bind6"@[9] == '6');
            };
            assert("post_bind4"@.len() == 10 && "post_bind6"@.len() == 10
                && "sock_create"@.len() == 11 && "sock_release"@.len() == 12);
        }
        if str_eq(value, "post_bind4") {
            Ok(CgroupSockAttachType::PostBind4)
        } else if str_eq(value, "post_bind6") {
            Ok(CgroupSockAttachType::PostBind6)
        } else if str_eq(value, "sock_create") {
            Ok(CgroupSockAttachType::SockCreate)
        } else if str_eq(value, "sock_release") {
            Ok(CgroupSockAttachType::SockRelease)
        } else {
            Err(InvalidAttachType(value.to_owned()))
        }
    }
}

} // verus!
