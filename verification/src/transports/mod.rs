//! How devices are found and what passes between them and the host.

pub mod hid;
pub mod usb;

use vstd::prelude::*;

verus! {

/// The devices of a product.
#[derive(Debug, Clone, Copy, PartialEq, Eq, Structural)]
pub struct UsbFilter {
    /// The number of the vendor.
    pub vendor_id: u16,
    /// The number of the product.
    pub product_id: u16,
}

impl UsbFilter {
    /// Whether a device is one of the product.
    pub open spec fn accepts(self, vendor_id: u16, product_id: u16) -> bool {
        self.vendor_id == vendor_id && self.product_id == product_id
    }

    /// Whether a device is one of any of the products.
    pub fn any_accepts(filters: &[UsbFilter], vendor_id: u16, product_id: u16) -> (result: bool)
        ensures
            result <==> exists|i: int|
                0 <= i < filters@.len() && #[trigger] filters@[i].accepts(vendor_id, product_id),
            result <==> filters@.contains((UsbFilter { vendor_id, product_id })),
    {
        let mut i: usize = 0;
        while i < filters.len()
            invariant
                i <= filters@.len(),
                forall|j: int|
                    0 <= j < i ==> !#[trigger] filters@[j].accepts(vendor_id, product_id),
            decreases filters@.len() - i,
        {
            let filter = filters[i];
            if filter.vendor_id == vendor_id && filter.product_id == product_id {
                assert(filters@[i as int].accepts(vendor_id, product_id));
                assert(filters@[i as int] == (UsbFilter { vendor_id, product_id }));
                return true;
            }
            i = i + 1;
        }
        proof {
            if filters@.contains((UsbFilter { vendor_id, product_id })) {
                let j = choose|j: int|
                    0 <= j < filters@.len() && filters@[j] == (UsbFilter { vendor_id, product_id });
                assert(filters@[j].accepts(vendor_id, product_id));
            }
        }
        false
    }
}

} // verus!
