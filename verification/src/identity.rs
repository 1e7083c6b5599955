//! What the host says of itself, and the lines with which the agent
//! introduces itself.

use vstd::prelude::*;
use vstd::string::StringExecFns;
use crate::text::{optional_view, views_of};

verus! {

/// The text that stands for an identity string the host cannot supply.
pub open spec fn unknown() -> Seq<char> {
    "Unknown"@
}

/// The first line of every introduction.
pub open spec fn agent_tag() -> Seq<char> {
    "bee:"@
}

/// The four identity strings of the host, each absent where the host has none.
#[derive(Debug, PartialEq, Eq)]
pub struct SystemIdentity {
    pub os_name: Option<String>,
    pub kernel_version: Option<String>,
    pub os_version: Option<String>,
    pub host_name: Option<String>,
}

/// The identity strings as plain character sequences.
pub struct SystemIdentityModel {
    pub os_name: Option<Seq<char>>,
    pub kernel_version: Option<Seq<char>>,
    pub os_version: Option<Seq<char>>,
    pub host_name: Option<Seq<char>>,
}

impl View for SystemIdentity {
    type V = SystemIdentityModel;

    open spec fn view(&self) -> SystemIdentityModel {
        SystemIdentityModel {
            os_name: optional_view(self.os_name),
            kernel_version: optional_view(self.kernel_version),
            os_version: optional_view(self.os_version),
            host_name: optional_view(self.host_name),
        }
    }
}

/// A label followed by a value, or by `Unknown` where there is no value.
pub open spec fn labelled(label: Seq<char>, value: Option<Seq<char>>) -> Seq<char> {
    match value {
        Some(v) => label + v,
        None => label + unknown(),
    }
}

/// The seven lines of an introduction: the tag, the node's name and
/// description, then the system's name, kernel version, version and host name.
pub open spec fn introduction(
    node_name: Seq<char>,
    info: Seq<char>,
    identity: SystemIdentityModel,
) -> Seq<Seq<char>> {
    seq![
        agent_tag(),
        "名称: "@ + node_name,
        "描述: "@ + info,
        labelled("系统名称: "@, identity.os_name),
        labelled("系统内核版本: "@, identity.kernel_version),
        labelled("系统操作系统版本: "@, identity.os_version),
        labelled("系统主机名: "@, identity.host_name),
    ]
}

/// `sysinfo::System::name`. What it returns depends on the host; nothing is
/// claimed of it.
#[verifier::external_body]
fn os_name() -> Option<String> {
    sysinfo::System::name()
}

/// `sysinfo::System::kernel_version`. What it returns depends on the host;
/// nothing is claimed of it.
#[verifier::external_body]
fn kernel_version() -> Option<String> {
    sysinfo::System::kernel_version()
}

/// `sysinfo::System::os_version`. What it returns depends on the host; nothing
/// is claimed of it.
#[verifier::external_body]
fn os_version() -> Option<String> {
    sysinfo::System::os_version()
}

/// `sysinfo::System::host_name`. What it returns depends on the host; nothing
/// is claimed of it.
#[verifier::external_body]
fn host_name() -> Option<String> {
    sysinfo::System::host_name()
}

/// One line of the introduction: the label, then the value or `Unknown`.
pub fn labelled_line(label: &str, value: &Option<String>) -> (line: String)
    ensures
        line@ == labelled(label@, optional_view(*value)),
{
    match value {
        Some(v) => String::from_str(label).concat(v.as_str()),
        None => String::from_str(label).concat("Unknown"),
    }
}

impl SystemIdentity {
    /// Asks the host for its four identity strings.
    pub fn probe() -> SystemIdentity {
        SystemIdentity {
            os_name: os_name(),
            kernel_version: kernel_version(),
            os_version: os_version(),
            host_name: host_name(),
        }
    }

    /// The introduction of a node with this identity.
    pub fn introduce(&self, node_name: &str, info: &str) -> (lines: Vec<String>)
        ensures
            views_of(lines@) == introduction(node_name@, info@, self@),
            lines.len() == 7,
    {
        let mut lines: Vec<String> = Vec::new();
        lines.push(String::from_str("bee:"));
        lines.push(String::from_str("名称: ").concat(node_name));
        lines.push(String::from_str("描述: ").concat(info));
        lines.push(labelled_line("系统名称: ", &self.os_name));
        lines.push(labelled_line("系统内核版本: ", &self.kernel_version));
        lines.push(labelled_line("系统操作系统版本: ", &self.os_version));
        lines.push(labelled_line("系统主机名: ", &self.host_name));
        assert(views_of(lines@) =~= introduction(node_name@, info@, self@));
        lines
    }
}

} // verus!
