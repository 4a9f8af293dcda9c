//! Reference-counted property handles: a mesh keeps a property list only while it has any
//! outstanding requests for it.

use vstd::prelude::*;
use crate::mesh::item_handle::MeshItemHandle;
use crate::property::container::PropertyContainer;
use crate::property::handle::{Handle, PropHandle};
use crate::property::size::{Size, INVALID_INDEX};
use crate::property::value::Value;

verus! {

/// Ref-counted property handle.
///
/// The mesh stores one for each of its standard properties, so that a property list lives only
/// while there are outstanding requests for it.
pub struct RcPropHandle<H, T> {
    pub(crate) handle: PropHandle<H, T>,
    pub(crate) ref_count: u32,
}

impl<H, T> RcPropHandle<H, T> {
    /// The handle of the property list, invalid while nothing requested it.
    pub closed spec fn spec_handle(&self) -> PropHandle<H, T> {
        self.handle
    }

    /// The number of outstanding requests.
    pub closed spec fn spec_count(&self) -> nat {
        self.ref_count as nat
    }

    /// The handle of the property list.
    pub fn handle(&self) -> (h: PropHandle<H, T>)
        ensures
            h == self.spec_handle(),
    {
        self.handle
    }
}

impl<H, T> Clone for RcPropHandle<H, T> {
    fn clone(&self) -> (r: Self)
        ensures
            r == *self,
    {
        RcPropHandle { handle: self.handle, ref_count: self.ref_count }
    }
}

impl<H, T> Copy for RcPropHandle<H, T> {
}

impl<H: MeshItemHandle, T> Default for RcPropHandle<H, T> {
    fn default() -> (r: Self)
        ensures
            r.spec_handle().spec_index() == INVALID_INDEX,
            r.spec_count() == 0,
    {
        RcPropHandle { handle: PropHandle::new(), ref_count: 0 }
    }
}

/// What `request_prop` may be called on: the count does not overflow, and where the property is
/// added, its length and the slot it takes are valid indices.
pub open spec fn can_request<H: MeshItemHandle, T: Value<H>>(
    props: PropertyContainer<H>,
    rc: RcPropHandle<H, T>,
    len: Size,
) -> bool {
    &&& rc.spec_count() < u32::MAX
    &&& rc.spec_count() == 0 ==> {
        &&& len < INVALID_INDEX
        &&& forall|pos: int| crate::property::container::is_first_free(props.slots(), pos) ==> pos < INVALID_INDEX
    }
}

/// Requests a property of the item type: the first request adds it, named `name` with the item
/// type's prefix and holding `len` default values; every request increases the count.
pub fn request_prop<H: MeshItemHandle, T: Value<H>>(
    name: &str,
    props: &mut PropertyContainer<H>,
    rc_handle: &mut RcPropHandle<H, T>,
    len: Size,
)
    requires
        can_request(*old(props), *old(rc_handle), len),
    ensures
        final(rc_handle).spec_count() == old(rc_handle).spec_count() + 1,
        old(rc_handle).spec_count() == 0 ==> old(props).is_added(
            *final(props),
            final(rc_handle).spec_handle(),
            H::spec_prefix() + name@,
            len as nat,
        ),
        old(rc_handle).spec_count() > 0 ==> {
            &&& *final(props) == *old(props)
            &&& final(rc_handle).spec_handle() == old(rc_handle).spec_handle()
        },
{
    rc_handle.ref_count = rc_handle.ref_count + 1;
    if rc_handle.ref_count == 1 {
        let name = H::with_prefix(name);
        rc_handle.handle = props.add::<T>(Some(name), len);
    }
}

/// Releases a property of the item type: it decreases a positive count, and removes the property
/// when the count drops to zero.
pub fn release_prop<H: MeshItemHandle, T: Value<H>>(
    props: &mut PropertyContainer<H>,
    rc_handle: &mut RcPropHandle<H, T>,
)
    ensures
        old(rc_handle).spec_count() == 0 ==> {
            &&& *final(props) == *old(props)
            &&& *final(rc_handle) == *old(rc_handle)
        },
        old(rc_handle).spec_count() > 0 ==> final(rc_handle).spec_count() == old(rc_handle).spec_count() - 1,
        old(rc_handle).spec_count() == 1 ==> {
            &&& old(props).is_removed(*final(props), old(rc_handle).spec_handle())
            &&& final(rc_handle).spec_handle().spec_index() == INVALID_INDEX
        },
        old(rc_handle).spec_count() > 1 ==> {
            &&& *final(props) == *old(props)
            &&& final(rc_handle).spec_handle() == old(rc_handle).spec_handle()
        },
{
    if rc_handle.ref_count == 0 {
        return;
    }
    rc_handle.ref_count = rc_handle.ref_count - 1;
    if rc_handle.ref_count == 0 {
        props.remove::<T>(rc_handle.handle);
        rc_handle.handle.invalidate();
    }
}

}
