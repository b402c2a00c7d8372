//! Routes by which a HID++ device is reached.

use vstd::prelude::*;
use vstd::string::*;

use crate::text::{same_text, to_lower_text};

verus! {

/// HID++ device index of a device that is attached without a receiver.
pub const DIRECT_DEVICE_INDEX: u8 = 0xff;

/// How one device is reached from this host.
#[derive(Debug, PartialEq, Eq)]
pub enum DeviceRoute {
    /// A slot of a Logi Bolt receiver.
    Bolt {
        /// Unique id of the receiver, compared without regard to ASCII case.
        receiver_uid: String,
        /// Pairing slot on the receiver.
        slot: u8,
    },
    /// A device attached directly, over USB or Bluetooth.
    Direct {
        /// USB vendor id.
        vendor_id: u16,
        /// USB or Bluetooth product id.
        product_id: u16,
    },
    /// A standalone device that speaks no HID++.
    RawHid {
        /// USB vendor id.
        vendor_id: u16,
        /// USB product id.
        product_id: u16,
        /// HID usage page of the opened collection.
        usage_page: u16,
        /// HID usage id of the opened collection.
        usage_id: u16,
        /// What tells this node from another of the same model.
        identity: String,
    },
}

/// Mathematical content of a [`DeviceRoute`].
pub enum RouteView {
    /// See [`DeviceRoute::Bolt`].
    Bolt { receiver_uid: Seq<char>, slot: u8 },
    /// See [`DeviceRoute::Direct`].
    Direct { vendor_id: u16, product_id: u16 },
    /// See [`DeviceRoute::RawHid`].
    RawHid {
        vendor_id: u16,
        product_id: u16,
        usage_page: u16,
        usage_id: u16,
        identity: Seq<char>,
    },
}

impl View for DeviceRoute {
    type V = RouteView;

    open spec fn view(&self) -> RouteView {
        match self {
            DeviceRoute::Bolt { receiver_uid, slot } => RouteView::Bolt {
                receiver_uid: receiver_uid@,
                slot: *slot,
            },
            DeviceRoute::Direct { vendor_id, product_id } => RouteView::Direct {
                vendor_id: *vendor_id,
                product_id: *product_id,
            },
            DeviceRoute::RawHid { vendor_id, product_id, usage_page, usage_id, identity } =>
                RouteView::RawHid {
                    vendor_id: *vendor_id,
                    product_id: *product_id,
                    usage_page: *usage_page,
                    usage_id: *usage_id,
                    identity: identity@,
                },
        }
    }
}

impl Clone for DeviceRoute {
    fn clone(&self) -> (copy: Self)
        ensures
            copy == *self,
    {
        match self {
            DeviceRoute::Bolt { receiver_uid, slot } => DeviceRoute::Bolt {
                receiver_uid: receiver_uid.clone(),
                slot: *slot,
            },
            DeviceRoute::Direct { vendor_id, product_id } => DeviceRoute::Direct {
                vendor_id: *vendor_id,
                product_id: *product_id,
            },
            DeviceRoute::RawHid { vendor_id, product_id, usage_page, usage_id, identity } =>
                DeviceRoute::RawHid {
                    vendor_id: *vendor_id,
                    product_id: *product_id,
                    usage_page: *usage_page,
                    usage_id: *usage_id,
                    identity: identity.clone(),
                },
        }
    }
}

/// Whether two routes go through one receiver, and so through one channel.
///
/// Only receiver slots share a transport: a directly attached device owns its
/// channel, even when two routes name the same product.
pub open spec fn one_transport(left: RouteView, right: RouteView) -> bool {
    match (left, right) {
        (RouteView::Bolt { receiver_uid: a, .. }, RouteView::Bolt { receiver_uid: b, .. }) =>
            crate::text::lower_text(a) == crate::text::lower_text(b),
        _ => false,
    }
}

/// The HID++ index by which the device at the end of a route is addressed.
pub open spec fn route_index(route: RouteView) -> u8 {
    match route {
        RouteView::Bolt { slot, .. } => slot,
        _ => DIRECT_DEVICE_INDEX,
    }
}

impl DeviceRoute {
    /// Whether two routes are the same route.
    pub fn same_route(&self, other: &DeviceRoute) -> (same: bool)
        ensures
            same == (self@ == other@),
    {
        match (self, other) {
            (
                DeviceRoute::Bolt { receiver_uid: a, slot: x },
                DeviceRoute::Bolt { receiver_uid: b, slot: y },
            ) => *x == *y && *a == *b,
            (
                DeviceRoute::Direct { vendor_id: a, product_id: x },
                DeviceRoute::Direct { vendor_id: b, product_id: y },
            ) => *a == *b && *x == *y,
            (
                DeviceRoute::RawHid {
                    vendor_id: a,
                    product_id: x,
                    usage_page: p,
                    usage_id: u,
                    identity: i,
                },
                DeviceRoute::RawHid {
                    vendor_id: b,
                    product_id: y,
                    usage_page: q,
                    usage_id: v,
                    identity: j,
                },
            ) => *a == *b && *x == *y && *p == *q && *u == *v && *i == *j,
            _ => false,
        }
    }

    /// HID++ index by which the device is addressed on its channel.
    pub fn device_index(&self) -> (index: u8)
        ensures
            index == route_index(self@),
    {
        match self {
            DeviceRoute::Bolt { slot, .. } => *slot,
            _ => DIRECT_DEVICE_INDEX,
        }
    }

    /// Whether both routes go through the channel of one receiver.
    pub fn shares_transport(&self, other: &DeviceRoute) -> (shared: bool)
        ensures
            shared == one_transport(self@, other@),
    {
        match (self, other) {
            (
                DeviceRoute::Bolt { receiver_uid: a, .. },
                DeviceRoute::Bolt { receiver_uid: b, .. },
            ) => {
                let a = to_lower_text(a.as_str());
                let b = to_lower_text(b.as_str());
                same_text(a.as_str(), b.as_str())
            },
            _ => false,
        }
    }
}

/// Two letters are one letter, but for their ASCII case.
pub open spec fn one_letter(left: char, right: char) -> bool {
    ||| left == right
    ||| 'A' <= left <= 'Z' && right as int == left as int + 32
    ||| 'A' <= right <= 'Z' && left as int == right as int + 32
}

/// Two devices share a channel exactly where both are on receivers whose ids
/// agree letter by letter, whatever the ASCII case and whatever their slots. A
/// device that is attached directly shares its channel with none.
pub proof fn only_devices_of_one_receiver_share_a_channel(left: RouteView, right: RouteView)
    ensures
        one_transport(left, right) <==> (left matches RouteView::Bolt { receiver_uid: a, .. } && (
        right matches RouteView::Bolt { receiver_uid: b, .. } && a.len() == b.len() && forall|i: int|
            0 <= i < a.len() ==> one_letter(#[trigger] a[i], b[i]))),
        one_transport(left, right) == one_transport(right, left),
{
    if let (
        RouteView::Bolt { receiver_uid: a, .. },
        RouteView::Bolt { receiver_uid: b, .. },
    ) = (left, right) {
        let x = crate::text::lower_text(a);
        let y = crate::text::lower_text(b);
        if x == y {
            assert(x.len() == a.len() && y.len() == b.len());
            assert forall|i: int| 0 <= i < a.len() implies one_letter(#[trigger] a[i], b[i]) by {
                assert(x[i] == y[i]);
            }
        }
        if a.len() == b.len() && forall|i: int|
            0 <= i < a.len() ==> one_letter(#[trigger] a[i], b[i]) {
            assert forall|i: int| 0 <= i < x.len() implies x[i] == y[i] by {
                assert(one_letter(a[i], b[i]));
            }
            assert(x =~= y);
        }
    }
}

/// A device on a receiver is addressed by its slot, and every other one by the
/// index that stands for a direct connection.
pub proof fn a_device_is_addressed_by_its_slot(route: RouteView)
    ensures
        route matches RouteView::Bolt { slot, .. } ==> route_index(route) == slot,
        !(route is Bolt) ==> route_index(route) == 0xff,
{
}

} // verus!
