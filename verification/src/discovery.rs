//! Picking the adapter and its two bulk endpoints from what USB enumeration reports.
//!
//! Enumeration itself is done by the caller. This module works on the plain values
//! it yields: vendor and product identifiers, serial-number strings, and the endpoint
//! descriptors of a device's interfaces.

use vstd::prelude::*;
use crate::error::Error;

verus! {

/// USB vendor identifier of the adapter.
pub const CH341_VID: u16 = 0x1a86;

/// USB product identifier of the adapter in its I2C mode.
pub const CH341_PID: u16 = 0x5512;

/// Direction of an endpoint, as seen from the host.
#[derive(Clone, Copy, Debug, PartialEq, Eq, Structural)]
pub enum Direction {
    /// Device to host.
    In,
    /// Host to device.
    Out,
}

/// Transfer type of an endpoint.
#[derive(Clone, Copy, Debug, PartialEq, Eq, Structural)]
pub enum TransferType {
    /// Control transfers: configuration and commands.
    Control,
    /// Isochronous transfers: periodic, with a guaranteed rate and no retry.
    Isochronous,
    /// Bulk transfers: error-checked, with no guaranteed rate.
    Bulk,
    /// Interrupt transfers: small, with a bounded delay.
    Interrupt,
}

/// What an endpoint descriptor says of its endpoint.
#[derive(Clone, Copy, Debug, PartialEq, Eq, Structural)]
pub struct EndpointInfo {
    /// The endpoint's address, as bulk transfers name it.
    pub address: u8,
    pub direction: Direction,
    pub transfer_type: TransferType,
}

/// One interface of a device: the endpoint descriptors of each of its alternate
/// settings, in the order the device reports them.
#[derive(Debug, PartialEq, Eq)]
pub struct InterfaceInfo {
    pub settings: Vec<Vec<EndpointInfo>>,
}

/// Whether `endpoint` is a bulk endpoint in direction `direction`.
pub open spec fn is_bulk(endpoint: EndpointInfo, direction: Direction) -> bool {
    endpoint.transfer_type == TransferType::Bulk && endpoint.direction == direction
}

/// Whether `endpoints[i]` is a bulk endpoint in direction `direction` and none before it is.
pub open spec fn is_first_bulk(endpoints: Seq<EndpointInfo>, direction: Direction, i: int) -> bool {
    &&& 0 <= i < endpoints.len()
    &&& is_bulk(endpoints[i], direction)
    &&& forall|j: int| 0 <= j < i ==> !is_bulk(#[trigger] endpoints[j], direction)
}

/// Address of the first bulk endpoint in direction `direction`, if there is one.
pub open spec fn first_bulk(endpoints: Seq<EndpointInfo>, direction: Direction) -> Option<u8>
    decreases endpoints.len(),
{
    if endpoints.len() == 0 {
        None
    } else {
        match first_bulk(endpoints.drop_last(), direction) {
            Some(address) => Some(address),
            None => if is_bulk(endpoints.last(), direction) {
                Some(endpoints.last().address)
            } else {
                None
            },
        }
    }
}

/// The endpoint descriptors of the given alternate settings, one setting after the other.
pub open spec fn joined(settings: Seq<Vec<EndpointInfo>>) -> Seq<EndpointInfo>
    decreases settings.len(),
{
    if settings.len() == 0 {
        Seq::empty()
    } else {
        joined(settings.drop_last()) + settings.last()@
    }
}

impl InterfaceInfo {
    /// All endpoint descriptors of the interface, one alternate setting after the other.
    pub open spec fn endpoints(&self) -> Seq<EndpointInfo> {
        joined(self.settings@)
    }
}

/// The addresses of the first bulk OUT and the first bulk IN endpoint of the first
/// interface, output first. There is none if the device has no interface, or its
/// first interface lacks either endpoint.
pub open spec fn bulk_pair(interfaces: Seq<InterfaceInfo>) -> Option<(u8, u8)> {
    if interfaces.len() == 0 {
        None
    } else {
        match (
            first_bulk(interfaces[0].endpoints(), Direction::Out),
            first_bulk(interfaces[0].endpoints(), Direction::In),
        ) {
            (Some(ep_out), Some(ep_in)) => Some((ep_out, ep_in)),
            _ => None,
        }
    }
}

/// Whether a device with these identifiers is the adapter.
pub fn is_adapter(vendor_id: u16, product_id: u16) -> (b: bool)
    ensures
        b == (vendor_id == CH341_VID && product_id == CH341_PID),
{
    vendor_id == CH341_VID && product_id == CH341_PID
}

/// Whether `wanted` is among the serial-number strings that a device reports, one for
/// each language it knows.
pub open spec fn serial_among(serials: Seq<String>, wanted: Seq<char>) -> bool {
    exists|i: int| 0 <= i < serials.len() && (#[trigger] serials[i])@ == wanted
}

/// Whether a device that reports the serial-number strings `serials`, one for each
/// language it knows, is the device with the serial number `wanted`.
pub fn has_serial(serials: &Vec<String>, wanted: &String) -> (b: bool)
    ensures
        b == serial_among(serials@, wanted@),
{
    let mut i: usize = 0;
    while i < serials.len()
        invariant
            i <= serials@.len(),
            forall|j: int| 0 <= j < i ==> (#[trigger] serials@[j])@ != wanted@,
        decreases serials@.len() - i,
    {
        if serials[i] == *wanted {
            return true;
        }
        i = i + 1;
    }
    false
}

/// Finds the bulk endpoints to talk to the adapter through: the first bulk OUT and the
/// first bulk IN endpoint of the device's first interface, output first. A device
/// that lacks either is refused: no address is made up for a missing endpoint.
pub fn find_bulk_endpoints(interfaces: &Vec<InterfaceInfo>) -> (r: Result<(u8, u8), Error>)
    ensures
        r == match bulk_pair(interfaces@) {
            Some(pair) => Ok::<(u8, u8), Error>(pair),
            None => Err::<(u8, u8), Error>(Error::NotFound),
        },
{
    if interfaces.len() == 0 {
        return Err(Error::NotFound);
    }
    let interface = &interfaces[0];
    let mut ep_in: Option<u8> = None;
    let mut ep_out: Option<u8> = None;
    let mut s: usize = 0;
    while s < interface.settings.len()
        invariant
            s <= interface.settings@.len(),
            ep_out == first_bulk(joined(interface.settings@.take(s as int)), Direction::Out),
            ep_in == first_bulk(joined(interface.settings@.take(s as int)), Direction::In),
        decreases interface.settings@.len() - s,
    {
        let setting = &interface.settings[s];
        let ghost before = joined(interface.settings@.take(s as int));
        let mut k: usize = 0;
        while k < setting.len()
            invariant
                k <= setting@.len(),
                ep_out == first_bulk(before + setting@.take(k as int), Direction::Out),
                ep_in == first_bulk(before + setting@.take(k as int), Direction::In),
            decreases setting@.len() - k,
        {
            let endpoint = setting[k];
            proof {
                let grown = before + setting@.take(k + 1);
                assert(grown.drop_last() =~= before + setting@.take(k as int));
            }
            match endpoint.transfer_type {
                TransferType::Bulk => {
                    match endpoint.direction {
                        Direction::In => {
                            if ep_in.is_none() {
                                ep_in = Some(endpoint.address);
                            }
                        },
                        Direction::Out => {
                            if ep_out.is_none() {
                                ep_out = Some(endpoint.address);
                            }
                        },
                    }
                },
                _ => {},
            }
            k = k + 1;
        }
        proof {
            let next = interface.settings@.take(s + 1);
            assert(next.drop_last() =~= interface.settings@.take(s as int));
            assert(setting@.take(setting@.len() as int) =~= setting@);
        }
        s = s + 1;
    }
    assert(interface.settings@.take(s as int) =~= interface.settings@);
    match (ep_out, ep_in) {
        (Some(o), Some(i)) => Ok((o, i)),
        _ => Err(Error::NotFound),
    }
}

/// [`first_bulk`] gives the address of the earliest bulk endpoint in the given
/// direction, and nothing exactly when there is no such endpoint.
pub proof fn law_first_bulk_is_earliest(endpoints: Seq<EndpointInfo>, direction: Direction)
    ensures
        match first_bulk(endpoints, direction) {
            Some(address) => exists|i: int| #[trigger]
                is_first_bulk(endpoints, direction, i) && endpoints[i].address == address,
            None => forall|i: int|
                0 <= i < endpoints.len() ==> !is_bulk(#[trigger] endpoints[i], direction),
        },
    decreases endpoints.len(),
{
    if endpoints.len() > 0 {
        let front = endpoints.drop_last();
        law_first_bulk_is_earliest(front, direction);
        match first_bulk(front, direction) {
            Some(address) => {
                let i = choose|i: int| #[trigger]
                    is_first_bulk(front, direction, i) && front[i].address == address;
                assert forall|j: int| 0 <= j < i implies !is_bulk(
                    #[trigger] endpoints[j],
                    direction,
                ) by {
                    assert(!is_bulk(front[j], direction));
                }
                assert(is_first_bulk(endpoints, direction, i));
            },
            None => {
                assert forall|j: int| 0 <= j < front.len() implies !is_bulk(
                    #[trigger] endpoints[j],
                    direction,
                ) by {
                    assert(!is_bulk(front[j], direction));
                }
                if is_bulk(endpoints.last(), direction) {
                    assert(is_first_bulk(endpoints, direction, endpoints.len() - 1));
                }
            },
        }
    }
}

} // verus!
