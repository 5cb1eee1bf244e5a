//! Buffers that hold one array in host memory, in device memory, or in both.

use vstd::prelude::*;

verus! {

/// How the device copy of a buffer is attached to the rendering context.
#[derive(Clone, Copy, Debug, PartialEq, Eq, Structural)]
pub enum BufferType {
    /// Per-vertex attribute data.
    Array,
    /// Triangle indices.
    ElementArray,
}

/// Hint on how often the device copy is expected to change.
#[derive(Clone, Copy, Debug, PartialEq, Eq, Structural)]
pub enum AllocationType {
    StaticDraw,
    DynamicDraw,
}

/// Where the data of a buffer currently lives.
#[derive(Clone, Copy, Debug, PartialEq, Eq, Structural)]
pub enum Residency {
    HostOnly,
    DeviceOnly,
    Both,
}

/// Failures of the device context.
#[derive(Clone, Copy, Debug, PartialEq, Eq, Structural)]
pub enum DeviceError {
    /// Every device handle has been handed out.
    HandlesExhausted,
}

/// A device context that hands out buffer handles and records which buffer
/// is attached to each binding point. Handle 0 never names a buffer.
pub struct DeviceContext {
    pub next_handle: u64,
    pub bound_array: Option<u64>,
    pub bound_element: Option<u64>,
}

impl DeviceContext {
    pub open spec fn bound(&self, t: BufferType) -> Option<u64> {
        match t {
            BufferType::Array => self.bound_array,
            BufferType::ElementArray => self.bound_element,
        }
    }

    /// A fresh context with nothing allocated and nothing attached.
    pub fn new() -> (r: DeviceContext)
        ensures
            r.next_handle == 1,
            r.bound_array.is_none(),
            r.bound_element.is_none(),
    {
        DeviceContext { next_handle: 1, bound_array: None, bound_element: None }
    }

    fn attach(&mut self, t: BufferType, h: Option<u64>)
        ensures
            final(self).next_handle == old(self).next_handle,
            final(self).bound(t) == h,
            forall|u: BufferType| u != t ==> final(self).bound(u) == old(self).bound(u),
    {
        match t {
            BufferType::Array => self.bound_array = h,
            BufferType::ElementArray => self.bound_element = h,
        }
    }
}

/// A vertex attribute slot of a shader, and the buffer attached to it.
pub struct ShaderAttribute {
    pub location: u32,
    pub source: Option<u64>,
}

impl ShaderAttribute {
    /// An attribute slot with nothing attached.
    pub fn new(location: u32) -> (r: ShaderAttribute)
        ensures
            r.location == location,
            r.source.is_none(),
    {
        ShaderAttribute { location, source: None }
    }

    /// Binds `v` and attaches its device copy to this slot.
    pub fn bind<T: Copy>(&mut self, v: &mut GPUVector<T>, ctx: &mut DeviceContext) -> (r: Result<(), DeviceError>)
        requires
            old(v).wf(),
        ensures
            final(v).wf(),
            bound_from(old(v)@, final(v)@, *old(ctx), *final(ctx), r),
            final(self).location == old(self).location,
            r is Ok ==> final(self).source == Some(final(v)@.device.unwrap().handle),
            r is Err ==> final(self).source == old(self).source,
    {
        let r = v.bind(ctx);
        if r.is_ok() {
            self.source = v.handle();
        }
        r
    }
}

/// What a call of `bind` on a buffer in state `m` with result `r` did, to
/// the buffer (now `m2`) and to the context (`c` before, `c2` after).
pub open spec fn bound_from<T>(
    m: BufferModel<T>,
    m2: BufferModel<T>,
    c: DeviceContext,
    c2: DeviceContext,
    r: Result<(), DeviceError>,
) -> bool {
    &&& contents(m2) == contents(m)
    &&& m2.host == m.host
    &&& m2.buf_type == m.buf_type
    &&& m2.alloc_type == m.alloc_type
    &&& (r is Err <==> (m.device.is_none() && c.next_handle == u64::MAX))
    &&& r is Err ==> m2 == m && c2 == c
    &&& r is Ok ==> {
        &&& m2.synced
        &&& m2.device.unwrap().data == contents(m)
        &&& c2.bound(m.buf_type) == Some(m2.device.unwrap().handle)
        &&& forall|u: BufferType| u != m.buf_type ==> c2.bound(u) == c.bound(u)
        &&& match m.device {
            Some(d) => m2.device.unwrap().handle == d.handle && c2.next_handle == c.next_handle,
            None => m2.device.unwrap().handle == c.next_handle && c2.next_handle == c.next_handle + 1,
        }
    }
}

/// The device-side copy: its handle and what was last uploaded to it.
struct DeviceCopy<T> {
    handle: u64,
    data: Vec<T>,
}

/// The device-side copy of a buffer, as a value.
pub struct DeviceModel<T> {
    pub handle: u64,
    pub data: Seq<T>,
}

/// The state of a buffer, as a value.
pub struct BufferModel<T> {
    /// The host copy, if the data is in host memory.
    pub host: Option<Seq<T>>,
    /// The device copy, if the data is in device memory.
    pub device: Option<DeviceModel<T>>,
    /// Whether the device copy holds the current data.
    pub synced: bool,
    pub buf_type: BufferType,
    pub alloc_type: AllocationType,
}

/// The data that a buffer stands for, wherever it is held.
pub open spec fn contents<T>(m: BufferModel<T>) -> Seq<T> {
    match m.host {
        Some(h) => h,
        None => m.device.unwrap().data,
    }
}

pub open spec fn residency_of<T>(m: BufferModel<T>) -> Residency {
    if m.host.is_some() && m.device.is_some() {
        Residency::Both
    } else if m.host.is_some() {
        Residency::HostOnly
    } else {
        Residency::DeviceOnly
    }
}

/// The state after bringing the data into host memory.
pub open spec fn loaded<T>(m: BufferModel<T>) -> BufferModel<T> {
    if m.host.is_none() {
        BufferModel { host: Some(m.device.unwrap().data), synced: true, ..m }
    } else {
        m
    }
}

/// The state after dropping the host copy, which happens only where the
/// device copy holds the current data.
pub open spec fn unloaded<T>(m: BufferModel<T>) -> BufferModel<T> {
    if m.host.is_some() && m.device.is_some() && m.synced {
        BufferModel { host: None, ..m }
    } else {
        m
    }
}

/// A model that some buffer can be in: the data is somewhere, and where both
/// copies are current they agree.
pub open spec fn model_wf<T>(m: BufferModel<T>) -> bool {
    &&& m.host.is_some() || m.device.is_some()
    &&& m.host.is_none() ==> m.synced
    &&& m.synced ==> m.device.is_some()
    &&& (m.synced && m.host.is_some()) ==> m.host.unwrap() == m.device.unwrap().data
}

/// One array of `T` that may live in host memory, in device memory, or both.
pub struct GPUVector<T> {
    host: Option<Vec<T>>,
    device: Option<DeviceCopy<T>>,
    synced: bool,
    buf_type: BufferType,
    alloc_type: AllocationType,
}

impl<T> View for GPUVector<T> {
    type V = BufferModel<T>;

    closed spec fn view(&self) -> BufferModel<T> {
        BufferModel {
            host: match self.host {
                Some(v) => Some(v@),
                None => None,
            },
            device: match self.device {
                Some(d) => Some(DeviceModel { handle: d.handle, data: d.data@ }),
                None => None,
            },
            synced: self.synced,
            buf_type: self.buf_type,
            alloc_type: self.alloc_type,
        }
    }
}

/// An exact copy of `v`.
fn copy_vec<T: Copy>(v: &Vec<T>) -> (r: Vec<T>)
    ensures
        r@ == v@,
{
    let mut r: Vec<T> = Vec::with_capacity(v.len());
    let mut i: usize = 0;
    while i < v.len()
        invariant
            i <= v@.len(),
            r@ == v@.subrange(0, i as int),
        decreases v@.len() - i,
    {
        r.push(v[i]);
        i += 1;
        proof {
            assert(r@ =~= v@.subrange(0, i as int));
        }
    }
    proof {
        assert(r@ =~= v@);
    }
    r
}

impl<T: Copy> GPUVector<T> {
    pub open spec fn wf(&self) -> bool {
        model_wf(self@)
    }

    /// A buffer held in host memory only; the device copy is made on first bind.
    pub fn new(data: Vec<T>, buf_type: BufferType, alloc_type: AllocationType) -> (r: GPUVector<T>)
        ensures
            r.wf(),
            r@.host == Some(data@),
            r@.device.is_none(),
            !r@.synced,
            r@.buf_type == buf_type,
            r@.alloc_type == alloc_type,
    {
        GPUVector { host: Some(data), device: None, synced: false, buf_type, alloc_type }
    }

    /// Whether the data is in host memory.
    pub fn is_on_ram(&self) -> (r: bool)
        ensures
            r == self@.host.is_some(),
    {
        self.host.is_some()
    }

    /// Whether the data is in device memory.
    pub fn is_on_gpu(&self) -> (r: bool)
        ensures
            r == self@.device.is_some(),
    {
        self.device.is_some()
    }

    pub fn residency(&self) -> (r: Residency)
        requires
            self.wf(),
        ensures
            r == residency_of(self@),
    {
        if self.host.is_some() && self.device.is_some() {
            Residency::Both
        } else if self.host.is_some() {
            Residency::HostOnly
        } else {
            Residency::DeviceOnly
        }
    }

    pub fn buf_type(&self) -> (r: BufferType)
        ensures
            r == self@.buf_type,
    {
        self.buf_type
    }

    pub fn alloc_type(&self) -> (r: AllocationType)
        ensures
            r == self@.alloc_type,
    {
        self.alloc_type
    }

    /// The device handle, once the buffer has been uploaded.
    pub fn handle(&self) -> (r: Option<u64>)
        ensures
            r == (match self@.device {
                Some(d) => Some(d.handle),
                None => None::<u64>,
            }),
    {
        match &self.device {
            Some(d) => Some(d.handle),
            None => None,
        }
    }

    /// Number of elements, wherever they are held.
    pub fn len(&self) -> (r: usize)
        requires
            self.wf(),
        ensures
            r == contents(self@).len(),
    {
        match &self.host {
            Some(h) => h.len(),
            None => self.device.as_ref().unwrap().data.len(),
        }
    }

    /// Brings the data into host memory by reading back the device copy.
    pub fn load_to_ram(&mut self)
        requires
            old(self).wf(),
        ensures
            final(self).wf(),
            final(self)@ == loaded(old(self)@),
            contents(final(self)@) == contents(old(self)@),
    {
        if self.host.is_none() {
            let data = copy_vec(&self.device.as_ref().unwrap().data);
            self.host = Some(data);
            self.synced = true;
        }
    }

    /// Drops the host copy where the device copy holds the current data;
    /// otherwise leaves the buffer as it is, so that no data is lost.
    pub fn unload_from_ram(&mut self)
        requires
            old(self).wf(),
        ensures
            final(self).wf(),
            final(self)@ == unloaded(old(self)@),
            contents(final(self)@) == contents(old(self)@),
    {
        if self.host.is_some() && self.device.is_some() && self.synced {
            self.host = None;
        }
    }

    /// A copy of the host data, or `None` where it is not in host memory.
    pub fn to_owned(&self) -> (r: Option<Vec<T>>)
        ensures
            match r {
                Some(v) => self@.host == Some(v@),
                None => self@.host.is_none(),
            },
    {
        match &self.host {
            Some(h) => Some(copy_vec(h)),
            None => None,
        }
    }

    /// The host data, where it is in host memory.
    pub fn data(&self) -> (r: Option<&Vec<T>>)
        ensures
            match r {
                Some(v) => self@.host == Some(v@),
                None => self@.host.is_none(),
            },
    {
        match &self.host {
            Some(h) => Some(h),
            None => None,
        }
    }

    /// Replaces the data by `data`, held in host memory; a device copy, if
    /// there is one, is refreshed on the next bind.
    pub fn set_data(&mut self, data: Vec<T>)
        requires
            old(self).wf(),
        ensures
            final(self).wf(),
            final(self)@ == (BufferModel { host: Some(data@), synced: false, ..old(self)@ }),
            contents(final(self)@) == data@,
    {
        self.host = Some(data);
        self.synced = false;
    }

    /// Attaches the device copy to the context, first creating it from the
    /// host copy, or refreshing it, where it does not hold the current data.
    pub fn bind(&mut self, ctx: &mut DeviceContext) -> (r: Result<(), DeviceError>)
        requires
            old(self).wf(),
        ensures
            final(self).wf(),
            bound_from(old(self)@, final(self)@, *old(ctx), *final(ctx), r),
    {
        if self.device.is_none() {
            if ctx.next_handle == u64::MAX {
                return Err(DeviceError::HandlesExhausted);
            }
            let handle = ctx.next_handle;
            ctx.next_handle = handle + 1;
            let data = copy_vec(self.host.as_ref().unwrap());
            self.device = Some(DeviceCopy { handle, data });
            self.synced = true;
        } else if !self.synced {
            let data = copy_vec(self.host.as_ref().unwrap());
            let handle = self.device.as_ref().unwrap().handle;
            self.device = Some(DeviceCopy { handle, data });
            self.synced = true;
        }
        let h = self.device.as_ref().unwrap().handle;
        ctx.attach(self.buf_type, Some(h));
        Ok(())
    }

    /// Gives up the device copy, first bringing the data into host memory,
    /// and returns the handle it had, for the device resource to be freed.
    pub fn release_device(&mut self) -> (r: Option<u64>)
        requires
            old(self).wf(),
        ensures
            final(self).wf(),
            final(self)@ == (BufferModel { host: Some(contents(old(self)@)), device: None, synced: false, ..old(self)@ }),
            r == (match old(self)@.device {
                Some(d) => Some(d.handle),
                None => None::<u64>,
            }),
    {
        self.load_to_ram();
        let r = self.handle();
        self.device = None;
        self.synced = false;
        r
    }

    /// Detaches whatever is attached to this buffer's binding point.
    pub fn unbind(&self, ctx: &mut DeviceContext)
        ensures
            final(ctx).next_handle == old(ctx).next_handle,
            final(ctx).bound(self@.buf_type).is_none(),
            forall|u: BufferType| u != self@.buf_type ==> final(ctx).bound(u) == old(ctx).bound(u),
    {
        ctx.attach(self.buf_type, None);
    }
}

/// Loading twice leaves a buffer as loading once does.
pub proof fn lemma_load_idempotent<T>(m: BufferModel<T>)
    requires
        model_wf(m),
    ensures
        loaded(loaded(m)) == loaded(m),
        loaded(m).host == Some(contents(m)),
{
}

} // verus!
