//! HID interfaces as an enumeration reports them, and the choice of the one
//! that accepts the control protocol.
//!
//! One physical keyboard shows several HID interfaces: the keyboard proper,
//! consumer control, a vendor-specific one. Only the last speaks the protocol.
//! It is told apart by its usage and usage page.

use vstd::prelude::*;

verus! {

/// Usage of the interface that accepts the control protocol.
pub const HID_USAGE: u16 = 0x61;

/// Usage page of the interface that accepts the control protocol.
pub const HID_USAGE_PAGE: u16 = 0xFF60;

/// One HID interface as contracts see it.
pub struct HidInterfaceView {
    pub vendor_id: u16,
    pub product_id: u16,
    pub usage: u16,
    pub usage_page: u16,
    pub path: Seq<u8>,
}

/// One logical HID interface of a connected device. `path` is the name the
/// transport opens it by; nothing here reads it.
#[derive(Clone, Debug, PartialEq, Eq)]
pub struct HidInterfaceDescriptor {
    pub vendor_id: u16,
    pub product_id: u16,
    pub usage: u16,
    pub usage_page: u16,
    pub path: Vec<u8>,
}

impl View for HidInterfaceDescriptor {
    type V = HidInterfaceView;

    open spec fn view(&self) -> HidInterfaceView {
        HidInterfaceView {
            vendor_id: self.vendor_id,
            product_id: self.product_id,
            usage: self.usage,
            usage_page: self.usage_page,
            path: self.path@,
        }
    }
}

impl HidInterfaceView {
    /// Whether this is the control interface of a keyboard with these
    /// identifiers: all four fields must agree.
    pub open spec fn is_target(self, vendor_id: u16, product_id: u16) -> bool {
        &&& self.vendor_id == vendor_id
        &&& self.product_id == product_id
        &&& self.usage == HID_USAGE
        &&& self.usage_page == HID_USAGE_PAGE
    }
}

impl HidInterfaceDescriptor {
    /// Whether this is the control interface of a keyboard with these
    /// identifiers: vendor, product, usage and usage page must all agree.
    pub fn is_target(&self, vendor_id: u16, product_id: u16) -> (b: bool)
        ensures
            b == self@.is_target(vendor_id, product_id),
    {
        self.vendor_id == vendor_id && self.product_id == product_id && self.usage == HID_USAGE
            && self.usage_page == HID_USAGE_PAGE
    }
}

/// An enumeration as contracts see it.
pub open spec fn interface_views(interfaces: Seq<HidInterfaceDescriptor>) -> Seq<HidInterfaceView> {
    interfaces.map_values(|d: HidInterfaceDescriptor| d@)
}

/// Whether `i` is the first position of the enumeration that holds the
/// control interface of a keyboard with these identifiers.
pub open spec fn is_first_target(
    interfaces: Seq<HidInterfaceView>,
    vendor_id: u16,
    product_id: u16,
    i: int,
) -> bool {
    &&& 0 <= i < interfaces.len()
    &&& interfaces[i].is_target(vendor_id, product_id)
    &&& forall|j: int| 0 <= j < i ==> !(#[trigger] interfaces[j]).is_target(vendor_id, product_id)
}

/// Whether the enumeration holds no control interface of a keyboard with
/// these identifiers.
pub open spec fn no_target(interfaces: Seq<HidInterfaceView>, vendor_id: u16, product_id: u16) -> bool {
    forall|j: int|
        0 <= j < interfaces.len() ==> !(#[trigger] interfaces[j]).is_target(vendor_id, product_id)
}

/// The first position of the enumeration that holds the control interface of
/// a keyboard with these identifiers, if there is one.
pub open spec fn first_target(interfaces: Seq<HidInterfaceView>, vendor_id: u16, product_id: u16) -> Option<
    int,
> {
    if exists|i: int| is_first_target(interfaces, vendor_id, product_id, i) {
        Some(choose|i: int| is_first_target(interfaces, vendor_id, product_id, i))
    } else {
        None
    }
}

/// The interface at the first target position, if there is one.
pub open spec fn target_interface(
    interfaces: Seq<HidInterfaceView>,
    vendor_id: u16,
    product_id: u16,
) -> Option<HidInterfaceView> {
    match first_target(interfaces, vendor_id, product_id) {
        Some(i) => Some(interfaces[i]),
        None => None,
    }
}

/// A position that is a first target is the first target.
pub proof fn lemma_first_target_is(
    interfaces: Seq<HidInterfaceView>,
    vendor_id: u16,
    product_id: u16,
    i: int,
)
    requires
        is_first_target(interfaces, vendor_id, product_id, i),
    ensures
        first_target(interfaces, vendor_id, product_id) == Some(i),
{
    let k = choose|k: int| is_first_target(interfaces, vendor_id, product_id, k);
    assert(is_first_target(interfaces, vendor_id, product_id, k));
    if k < i {
        assert(!interfaces[k].is_target(vendor_id, product_id));
    } else if i < k {
        assert(!interfaces[i].is_target(vendor_id, product_id));
    }
}

/// Below or at any target position lies a first target.
proof fn lemma_least_target(
    interfaces: Seq<HidInterfaceView>,
    vendor_id: u16,
    product_id: u16,
    j: int,
) -> (i: int)
    requires
        0 <= j < interfaces.len(),
        interfaces[j].is_target(vendor_id, product_id),
    ensures
        i <= j,
        is_first_target(interfaces, vendor_id, product_id, i),
    decreases j,
{
    if exists|k: int| 0 <= k < j && (#[trigger] interfaces[k]).is_target(vendor_id, product_id) {
        let k = choose|k: int|
            0 <= k < j && (#[trigger] interfaces[k]).is_target(vendor_id, product_id);
        lemma_least_target(interfaces, vendor_id, product_id, k)
    } else {
        j
    }
}

/// What the first target is: where the enumeration holds a target, the
/// position found is a first target; where it holds none, nothing is found.
pub proof fn lemma_first_target(interfaces: Seq<HidInterfaceView>, vendor_id: u16, product_id: u16)
    ensures
        match first_target(interfaces, vendor_id, product_id) {
            Some(i) => is_first_target(interfaces, vendor_id, product_id, i),
            None => no_target(interfaces, vendor_id, product_id),
        },
        first_target(interfaces, vendor_id, product_id) is None <==> no_target(
            interfaces,
            vendor_id,
            product_id,
        ),
{
    if no_target(interfaces, vendor_id, product_id) {
        if exists|i: int| is_first_target(interfaces, vendor_id, product_id, i) {
            let i = choose|i: int| is_first_target(interfaces, vendor_id, product_id, i);
            assert(interfaces[i].is_target(vendor_id, product_id));
        }
    } else {
        let j = choose|j: int|
            0 <= j < interfaces.len() && (#[trigger] interfaces[j]).is_target(vendor_id, product_id);
        let i = lemma_least_target(interfaces, vendor_id, product_id, j);
        lemma_first_target_is(interfaces, vendor_id, product_id, i);
    }
}

/// The first interface of the enumeration that is the control interface of a
/// keyboard with these identifiers, by its position; `None` where the
/// enumeration holds none. A keyboard that arrived on the bus may not show
/// its interfaces yet: that is `None` too, and no error.
pub fn find_interface_index(
    interfaces: &[HidInterfaceDescriptor],
    vendor_id: u16,
    product_id: u16,
) -> (found: Option<usize>)
    ensures
        match found {
            Some(i) => is_first_target(interface_views(interfaces@), vendor_id, product_id, i as int),
            None => no_target(interface_views(interfaces@), vendor_id, product_id),
        },
        found is Some <==> first_target(interface_views(interfaces@), vendor_id, product_id) is Some,
        found matches Some(i) ==> first_target(interface_views(interfaces@), vendor_id, product_id)
            == Some(i as int),
{
    let ghost views = interface_views(interfaces@);
    let mut i: usize = 0;
    while i < interfaces.len()
        invariant
            i <= interfaces.len(),
            views == interface_views(interfaces@),
            forall|j: int| 0 <= j < i ==> !(#[trigger] views[j]).is_target(vendor_id, product_id),
        decreases interfaces.len() - i,
    {
        if interfaces[i].is_target(vendor_id, product_id) {
            proof {
                assert(views[i as int] == interfaces@[i as int]@);
                lemma_first_target_is(views, vendor_id, product_id, i as int);
            }
            return Some(i);
        }
        assert(views[i as int] == interfaces@[i as int]@);
        i += 1;
    }
    proof {
        lemma_first_target(views, vendor_id, product_id);
    }
    None
}

/// The first interface of the enumeration that is the control interface of a
/// keyboard with these identifiers; `None` where the enumeration holds none.
pub fn find_interface<'a>(
    interfaces: &'a [HidInterfaceDescriptor],
    vendor_id: u16,
    product_id: u16,
) -> (found: Option<&'a HidInterfaceDescriptor>)
    ensures
        match found {
            Some(d) => target_interface(interface_views(interfaces@), vendor_id, product_id)
                == Some(d@),
            None => target_interface(interface_views(interfaces@), vendor_id, product_id) is None,
        },
        found is None <==> no_target(interface_views(interfaces@), vendor_id, product_id),
        found matches Some(d) ==> d@.is_target(vendor_id, product_id),
{
    proof {
        lemma_first_target(interface_views(interfaces@), vendor_id, product_id);
    }
    match find_interface_index(interfaces, vendor_id, product_id) {
        Some(i) => Some(&interfaces[i]),
        None => None,
    }
}

/// Where no interface of the enumeration carries the vendor and product
/// identifiers, nothing is found for them.
pub proof fn lemma_absent_device_finds_nothing(
    interfaces: Seq<HidInterfaceView>,
    vendor_id: u16,
    product_id: u16,
)
    requires
        forall|j: int|
            0 <= j < interfaces.len() ==> !((#[trigger] interfaces[j]).vendor_id == vendor_id
                && interfaces[j].product_id == product_id),
    ensures
        first_target(interfaces, vendor_id, product_id) is None,
        target_interface(interfaces, vendor_id, product_id) is None,
{
    lemma_first_target(interfaces, vendor_id, product_id);
}

/// An interface whose usage or usage page differs from the protocol's is
/// never the one found, whatever its vendor and product identifiers.
pub proof fn lemma_other_usage_never_found(
    interfaces: Seq<HidInterfaceView>,
    vendor_id: u16,
    product_id: u16,
    k: int,
)
    requires
        0 <= k < interfaces.len(),
        interfaces[k].usage != HID_USAGE || interfaces[k].usage_page != HID_USAGE_PAGE,
    ensures
        first_target(interfaces, vendor_id, product_id) != Some(k),
{
    lemma_first_target(interfaces, vendor_id, product_id);
}

/// Taking an interface that is no target out of the enumeration changes
/// nothing about the interface found: only interfaces that agree in all four
/// fields count.
pub proof fn lemma_non_target_is_ignored(
    interfaces: Seq<HidInterfaceView>,
    vendor_id: u16,
    product_id: u16,
    k: int,
)
    requires
        0 <= k < interfaces.len(),
        !interfaces[k].is_target(vendor_id, product_id),
    ensures
        target_interface(interfaces.remove(k), vendor_id, product_id) == target_interface(
            interfaces,
            vendor_id,
            product_id,
        ),
{
    let rest = interfaces.remove(k);
    lemma_first_target(interfaces, vendor_id, product_id);
    lemma_first_target(rest, vendor_id, product_id);
    match first_target(interfaces, vendor_id, product_id) {
        Some(i) => {
            let r = if i < k {
                i
            } else {
                i - 1
            };
            assert(rest[r] == interfaces[i]);
            assert forall|j: int| 0 <= j < r implies !(#[trigger] rest[j]).is_target(
                vendor_id,
                product_id,
            ) by {
                if j < k {
                    assert(rest[j] == interfaces[j]);
                } else {
                    assert(rest[j] == interfaces[j + 1]);
                }
            }
            lemma_first_target_is(rest, vendor_id, product_id, r);
        },
        None => {
            assert forall|j: int| 0 <= j < rest.len() implies !(#[trigger] rest[j]).is_target(
                vendor_id,
                product_id,
            ) by {
                if j < k {
                    assert(rest[j] == interfaces[j]);
                } else {
                    assert(rest[j] == interfaces[j + 1]);
                }
            }
        },
    }
}

/// Of two targets in one enumeration the earlier wins: the position found is
/// at or before every target, so the later of two equal interfaces is never
/// the one found.
pub proof fn lemma_earliest_target_wins(
    interfaces: Seq<HidInterfaceView>,
    vendor_id: u16,
    product_id: u16,
    i: int,
    j: int,
)
    requires
        0 <= i < j < interfaces.len(),
        interfaces[i].is_target(vendor_id, product_id),
        interfaces[j].is_target(vendor_id, product_id),
    ensures
        first_target(interfaces, vendor_id, product_id) matches Some(f) && f <= i,
        first_target(interfaces, vendor_id, product_id) != Some(j),
{
    lemma_first_target(interfaces, vendor_id, product_id);
}

} // verus!
