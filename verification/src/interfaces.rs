//! The network interfaces of the host and the lines that report them.

use vstd::prelude::*;
use vstd::string::StringExecFns;
use crate::text::views_of;

verus! {

/// The address of an interface, as the text it is written with.
#[derive(Debug, PartialEq, Eq)]
pub enum InterfaceAddress {
    V4(String),
    V6(String),
}

/// One address of one interface.
#[derive(Debug, PartialEq, Eq)]
pub struct Interface {
    pub name: String,
    pub address: InterfaceAddress,
}

/// What asking the host for its interfaces came to.
#[derive(Debug, PartialEq, Eq)]
pub enum InterfaceListing {
    /// The interfaces, one entry for each address.
    Found(Vec<Interface>),
    /// The host could not list them; the text says why.
    Failed(String),
}

pub enum InterfaceAddressModel {
    V4(Seq<char>),
    V6(Seq<char>),
}

pub struct InterfaceModel {
    pub name: Seq<char>,
    pub address: InterfaceAddressModel,
}

pub enum InterfaceListingModel {
    Found(Seq<InterfaceModel>),
    Failed(Seq<char>),
}

impl View for InterfaceAddress {
    type V = InterfaceAddressModel;

    open spec fn view(&self) -> InterfaceAddressModel {
        match self {
            InterfaceAddress::V4(text) => InterfaceAddressModel::V4(text@),
            InterfaceAddress::V6(text) => InterfaceAddressModel::V6(text@),
        }
    }
}

impl View for Interface {
    type V = InterfaceModel;

    open spec fn view(&self) -> InterfaceModel {
        InterfaceModel { name: self.name@, address: self.address@ }
    }
}

impl View for InterfaceListing {
    type V = InterfaceListingModel;

    open spec fn view(&self) -> InterfaceListingModel {
        match self {
            InterfaceListing::Found(interfaces) => InterfaceListingModel::Found(
                interfaces@.map_values(|i: Interface| i@),
            ),
            InterfaceListing::Failed(reason) => InterfaceListingModel::Failed(reason@),
        }
    }
}

/// The line that names an interface.
pub open spec fn name_line(name: Seq<char>) -> Seq<char> {
    "Interface: "@ + name
}

/// The line that gives an interface's address, marked with its family.
pub open spec fn address_line(address: InterfaceAddressModel) -> Seq<char> {
    match address {
        InterfaceAddressModel::V4(text) => "  IPv4 Address: "@ + text,
        InterfaceAddressModel::V6(text) => "  IPv6 Address: "@ + text,
    }
}

/// Two lines for each interface, in the order of the listing: its name, then
/// its address.
pub open spec fn found_lines(interfaces: Seq<InterfaceModel>) -> Seq<Seq<char>> {
    Seq::new(
        2 * interfaces.len(),
        |i: int|
            if i % 2 == 0 {
                name_line(interfaces[i / 2].name)
            } else {
                address_line(interfaces[i / 2].address)
            },
    )
}

/// The single line that reports a failed listing.
pub open spec fn failure_line(reason: Seq<char>) -> Seq<char> {
    "Error getting interface addresses: "@ + reason
}

/// The lines that answer an interfaces query.
pub open spec fn interface_lines(listing: InterfaceListingModel) -> Seq<Seq<char>> {
    match listing {
        InterfaceListingModel::Found(interfaces) => found_lines(interfaces),
        InterfaceListingModel::Failed(reason) => seq![failure_line(reason)],
    }
}

/// One more interface adds its two lines at the end.
pub proof fn lemma_found_lines_next(interfaces: Seq<InterfaceModel>, k: int)
    requires
        0 <= k < interfaces.len(),
    ensures
        found_lines(interfaces.take(k + 1)) == found_lines(interfaces.take(k)).push(
            name_line(interfaces[k].name),
        ).push(address_line(interfaces[k].address)),
{
    let longer = found_lines(interfaces.take(k + 1));
    let shorter = found_lines(interfaces.take(k)).push(name_line(interfaces[k].name)).push(
        address_line(interfaces[k].address),
    );
    assert(longer.len() == shorter.len());
    assert forall|i: int| 0 <= i < longer.len() implies longer[i] == shorter[i] by {
        if i < 2 * k {
            assert(interfaces.take(k + 1)[i / 2] == interfaces.take(k)[i / 2]);
        } else {
            assert(i / 2 == k);
            assert(interfaces.take(k + 1)[k] == interfaces[k]);
        }
    }
    assert(longer =~= shorter);
}

/// `if_addrs::get_if_addrs`. Each entry it returns becomes one `Interface`:
/// the name as it is, the address as `Display` of its `ip` field writes it,
/// under the family of the entry's `IfAddr`; an error becomes the text of its
/// `Display`. What it returns depends on the host; nothing is claimed of it.
#[verifier::external_body]
fn get_interfaces() -> InterfaceListing {
    match if_addrs::get_if_addrs() {
        Ok(found) => InterfaceListing::Found(
            found.into_iter().map(|entry| Interface {
                name: entry.name,
                address: match entry.addr {
                    if_addrs::IfAddr::V4(v4) => InterfaceAddress::V4(v4.ip.to_string()),
                    if_addrs::IfAddr::V6(v6) => InterfaceAddress::V6(v6.ip.to_string()),
                },
            }).collect(),
        ),
        Err(error) => InterfaceListing::Failed(error.to_string()),
    }
}

impl InterfaceAddress {
    /// The line that gives this address.
    pub fn line(&self) -> (line: String)
        ensures
            line@ == address_line(self@),
    {
        match self {
            InterfaceAddress::V4(text) => String::from_str("  IPv4 Address: ").concat(
                text.as_str(),
            ),
            InterfaceAddress::V6(text) => String::from_str("  IPv6 Address: ").concat(
                text.as_str(),
            ),
        }
    }
}

impl InterfaceListing {
    /// Asks the host for its interfaces.
    pub fn enumerate() -> InterfaceListing {
        get_interfaces()
    }

    /// The lines that report this listing: two for each interface found, or
    /// one that gives the reason of the failure.
    pub fn lines(&self) -> (lines: Vec<String>)
        ensures
            views_of(lines@) == interface_lines(self@),
    {
        let mut lines: Vec<String> = Vec::new();
        match self {
            InterfaceListing::Found(interfaces) => {
                let ghost models = interfaces@.map_values(|i: Interface| i@);
                assert(views_of(lines@) =~= found_lines(models.take(0)));
                let mut k: usize = 0;
                while k < interfaces.len()
                    invariant
                        k <= interfaces.len(),
                        models == interfaces@.map_values(|i: Interface| i@),
                        views_of(lines@) == found_lines(models.take(k as int)),
                    decreases interfaces.len() - k,
                {
                    let interface = &interfaces[k];
                    let named = String::from_str("Interface: ").concat(interface.name.as_str());
                    let addressed = interface.address.line();
                    proof {
                        lemma_found_lines_next(models, k as int);
                    }
                    lines.push(named);
                    lines.push(addressed);
                    k += 1;
                    assert(views_of(lines@) =~= found_lines(models.take(k as int)));
                }
                assert(models.take(k as int) == models);
            },
            InterfaceListing::Failed(reason) => {
                lines.push(
                    String::from_str("Error getting interface addresses: ").concat(
                        reason.as_str(),
                    ),
                );
                assert(views_of(lines@) =~= seq![failure_line(reason@)]);
            },
        }
        lines
    }
}

} // verus!
