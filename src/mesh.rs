//! Meshes: four buffers (coordinates, faces, normals, texture coordinates)
//! held in a pool, so that several meshes can share one buffer.

use vstd::prelude::*;
use crate::buffer::{
    bound_from, contents, loaded, residency_of, model_wf, unloaded, AllocationType, BufferModel, BufferType,
    DeviceContext, DeviceError, GPUVector, ShaderAttribute,
};
use crate::normals::{
    add_at, contribution_counts, corner_count, face_averaged, face_normal, face_sum, faces_in_range,
    faces_within, mean_normal, origins, Face, MeshError, NormalVector, Origin,
};

verus! {

pub open spec fn models<T>(v: Seq<GPUVector<T>>) -> Seq<BufferModel<T>> {
    v.map_values(|b: GPUVector<T>| b@)
}

/// The buffers of a pool, as values.
pub struct PoolModel<P, N, U> {
    pub coords: Seq<BufferModel<P>>,
    pub faces: Seq<BufferModel<Face>>,
    pub normals: Seq<BufferModel<N>>,
    pub uvs: Seq<BufferModel<U>>,
}

/// Every buffer is in a reachable state and has the role of its kind (an
/// index buffer for faces, a vertex attribute buffer otherwise), and every
/// faces buffer has few enough faces for its corners to be counted.
pub open spec fn pool_wf<P, N, U>(p: PoolModel<P, N, U>) -> bool {
    &&& forall|i: int| 0 <= i < p.coords.len() ==> buffer_wf(#[trigger] p.coords[i], BufferType::Array)
    &&& forall|i: int| 0 <= i < p.normals.len() ==> buffer_wf(#[trigger] p.normals[i], BufferType::Array)
    &&& forall|i: int| 0 <= i < p.uvs.len() ==> buffer_wf(#[trigger] p.uvs[i], BufferType::Array)
    &&& forall|i: int|
        0 <= i < p.faces.len() ==> buffer_wf(#[trigger] p.faces[i], BufferType::ElementArray) && 3 * contents(
            p.faces[i],
        ).len() <= usize::MAX
}

/// A reachable buffer state, for a buffer of role `t`.
pub open spec fn buffer_wf<T>(m: BufferModel<T>, t: BufferType) -> bool {
    model_wf(m) && m.buf_type == t
}

/// The buffers that meshes refer to by id. Buffers of one role are numbered
/// from 0 in the order they were added.
pub struct BufferPool<P, N, U> {
    coords: Vec<GPUVector<P>>,
    faces: Vec<GPUVector<Face>>,
    normals: Vec<GPUVector<N>>,
    uvs: Vec<GPUVector<U>>,
}

impl<P, N, U> View for BufferPool<P, N, U> {
    type V = PoolModel<P, N, U>;

    closed spec fn view(&self) -> PoolModel<P, N, U> {
        PoolModel {
            coords: models(self.coords@),
            faces: models(self.faces@),
            normals: models(self.normals@),
            uvs: models(self.uvs@),
        }
    }
}

/// A buffer held in host memory only, as `GPUVector::new` makes it.
pub open spec fn fresh<T>(data: Seq<T>, buf_type: BufferType, alloc_type: AllocationType) -> BufferModel<T> {
    BufferModel { host: Some(data), device: None, synced: false, buf_type, alloc_type }
}

pub open spec fn allocation_for(dynamic_draw: bool) -> AllocationType {
    if dynamic_draw {
        AllocationType::DynamicDraw
    } else {
        AllocationType::StaticDraw
    }
}

fn push_buffer<T: Copy>(v: &mut Vec<GPUVector<T>>, b: GPUVector<T>) -> (r: usize)
    requires
        old(v)@.len() < usize::MAX,
    ensures
        r == old(v)@.len(),
        models(final(v)@) == models(old(v)@).push(b@),
{
    let r = v.len();
    v.push(b);
    proof {
        assert(models(v@) =~= models(old(v)@).push(b@));
    }
    r
}

fn load_at<T: Copy>(v: &mut Vec<GPUVector<T>>, i: usize)
    requires
        i < old(v)@.len(),
        old(v)@[i as int].wf(),
    ensures
        final(v)@.len() == old(v)@.len(),
        models(final(v)@) == models(old(v)@).update(i as int, loaded(old(v)@[i as int]@)),
{
    v[i].load_to_ram();
    proof {
        assert(models(v@) =~= models(old(v)@).update(i as int, loaded(old(v)@[i as int]@)));
    }
}

fn unload_at<T: Copy>(v: &mut Vec<GPUVector<T>>, i: usize)
    requires
        i < old(v)@.len(),
        old(v)@[i as int].wf(),
    ensures
        final(v)@.len() == old(v)@.len(),
        models(final(v)@) == models(old(v)@).update(i as int, unloaded(old(v)@[i as int]@)),
{
    v[i].unload_from_ram();
    proof {
        assert(models(v@) =~= models(old(v)@).update(i as int, unloaded(old(v)@[i as int]@)));
    }
}

/// `m` after its device copy is given up, its data kept in host memory.
pub open spec fn released<T>(m: BufferModel<T>) -> BufferModel<T> {
    BufferModel { host: Some(contents(m)), device: None, synced: false, ..m }
}

pub open spec fn handle_if_any<T>(m: BufferModel<T>) -> Option<u64> {
    match m.device {
        Some(d) => Some(d.handle),
        None => None,
    }
}

fn release_at<T: Copy>(v: &mut Vec<GPUVector<T>>, i: usize) -> (r: Option<u64>)
    requires
        i < old(v)@.len(),
        old(v)@[i as int].wf(),
    ensures
        final(v)@.len() == old(v)@.len(),
        models(final(v)@) == models(old(v)@).update(i as int, released(old(v)@[i as int]@)),
        r == handle_if_any(old(v)@[i as int]@),
{
    let r = v[i].release_device();
    proof {
        assert(models(v@) =~= models(old(v)@).update(i as int, released(old(v)@[i as int]@)));
    }
    r
}

fn set_at<T: Copy>(v: &mut Vec<GPUVector<T>>, i: usize, data: Vec<T>)
    requires
        i < old(v)@.len(),
        old(v)@[i as int].wf(),
    ensures
        final(v)@.len() == old(v)@.len(),
        models(final(v)@) == models(old(v)@).update(
            i as int,
            BufferModel { host: Some(data@), synced: false, ..old(v)@[i as int]@ },
        ),
{
    let ghost d = data@;
    v[i].set_data(data);
    proof {
        assert(models(v@) =~= models(old(v)@).update(
            i as int,
            BufferModel { host: Some(d), synced: false, ..old(v)@[i as int]@ },
        ));
    }
}

fn bind_at<T: Copy>(v: &mut Vec<GPUVector<T>>, i: usize, ctx: &mut DeviceContext, attr: &mut ShaderAttribute) -> (r: Result<(), DeviceError>)
    requires
        i < old(v)@.len(),
        old(v)@[i as int].wf(),
    ensures
        rebound(models(old(v)@), models(final(v)@), i as int, *old(ctx), *final(ctx), r),
        attached(models(final(v)@)[i as int], *old(attr), *final(attr), r),
{
    let r = attr.bind(&mut v[i], ctx);
    proof {
        assert(models(v@) =~= models(old(v)@).update(i as int, models(v@)[i as int]));
    }
    r
}

fn bind_faces_at(v: &mut Vec<GPUVector<Face>>, i: usize, ctx: &mut DeviceContext) -> (r: Result<(), DeviceError>)
    requires
        i < old(v)@.len(),
        old(v)@[i as int].wf(),
    ensures
        rebound(models(old(v)@), models(final(v)@), i as int, *old(ctx), *final(ctx), r),
{
    let r = v[i].bind(ctx);
    proof {
        assert(models(v@) =~= models(old(v)@).update(i as int, models(v@)[i as int]));
    }
    r
}

/// `m` with its data replaced by `d`, held in host memory.
pub open spec fn with_host<T>(m: BufferModel<T>, d: Seq<T>) -> BufferModel<T> {
    BufferModel { host: Some(d), synced: false, ..m }
}

impl<P: Copy, N: Copy, U: Copy> BufferPool<P, N, U> {
    pub open spec fn wf(&self) -> bool {
        pool_wf(self@)
    }

    /// An empty pool.
    pub fn new() -> (r: BufferPool<P, N, U>)
        ensures
            r.wf(),
            r@.coords.len() == 0,
            r@.faces.len() == 0,
            r@.normals.len() == 0,
            r@.uvs.len() == 0,
    {
        let r = BufferPool { coords: Vec::new(), faces: Vec::new(), normals: Vec::new(), uvs: Vec::new() };
        proof {
            assert(models(r.coords@) =~= Seq::empty());
            assert(models(r.faces@) =~= Seq::empty());
            assert(models(r.normals@) =~= Seq::empty());
            assert(models(r.uvs@) =~= Seq::empty());
        }
        r
    }

    /// Adds a coordinates buffer and returns its id; refuses one that is not
    /// a vertex attribute buffer.
    pub fn add_coords(&mut self, b: GPUVector<P>) -> (r: Result<usize, MeshError>)
        requires
            old(self).wf(),
            b.wf(),
            old(self)@.coords.len() < usize::MAX,
        ensures
            final(self).wf(),
            r is Err <==> b@.buf_type != BufferType::Array,
            r is Err ==> r == Err::<usize, MeshError>(MeshError::WrongBufferType) && final(self)@ == old(self)@,
            r is Ok ==> r == Ok::<usize, MeshError>(old(self)@.coords.len() as usize) && final(self)@ == (
            PoolModel { coords: old(self)@.coords.push(b@), ..old(self)@ }),
    {
        if b.buf_type() != BufferType::Array {
            return Err(MeshError::WrongBufferType);
        }
        Ok(push_buffer(&mut self.coords, b))
    }

    /// Adds a faces buffer and returns its id; refuses one that is not an
    /// index buffer, or with more faces than three corners each can be
    /// counted for.
    pub fn add_faces(&mut self, b: GPUVector<Face>) -> (r: Result<usize, MeshError>)
        requires
            old(self).wf(),
            b.wf(),
            old(self)@.faces.len() < usize::MAX,
        ensures
            final(self).wf(),
            r is Err <==> (b@.buf_type != BufferType::ElementArray || 3 * contents(b@).len() > usize::MAX),
            b@.buf_type != BufferType::ElementArray ==> r == Err::<usize, MeshError>(MeshError::WrongBufferType),
            b@.buf_type == BufferType::ElementArray && 3 * contents(b@).len() > usize::MAX ==> r == Err::<
                usize,
                MeshError,
            >(MeshError::TooManyFaces),
            r is Err ==> final(self)@ == old(self)@,
            r is Ok ==> r == Ok::<usize, MeshError>(old(self)@.faces.len() as usize) && final(self)@ == (
            PoolModel { faces: old(self)@.faces.push(b@), ..old(self)@ }),
    {
        if b.buf_type() != BufferType::ElementArray {
            return Err(MeshError::WrongBufferType);
        }
        if b.len() > usize::MAX / 3 {
            return Err(MeshError::TooManyFaces);
        }
        Ok(push_buffer(&mut self.faces, b))
    }

    /// Adds a normals buffer and returns its id; refuses one that is not
    /// a vertex attribute buffer.
    pub fn add_normals(&mut self, b: GPUVector<N>) -> (r: Result<usize, MeshError>)
        requires
            old(self).wf(),
            b.wf(),
            old(self)@.normals.len() < usize::MAX,
        ensures
            final(self).wf(),
            r is Err <==> b@.buf_type != BufferType::Array,
            r is Err ==> r == Err::<usize, MeshError>(MeshError::WrongBufferType) && final(self)@ == old(self)@,
            r is Ok ==> r == Ok::<usize, MeshError>(old(self)@.normals.len() as usize) && final(self)@ == (
            PoolModel { normals: old(self)@.normals.push(b@), ..old(self)@ }),
    {
        if b.buf_type() != BufferType::Array {
            return Err(MeshError::WrongBufferType);
        }
        Ok(push_buffer(&mut self.normals, b))
    }

    /// Adds a texture coordinates buffer and returns its id; refuses one that is not
    /// a vertex attribute buffer.
    pub fn add_uvs(&mut self, b: GPUVector<U>) -> (r: Result<usize, MeshError>)
        requires
            old(self).wf(),
            b.wf(),
            old(self)@.uvs.len() < usize::MAX,
        ensures
            final(self).wf(),
            r is Err <==> b@.buf_type != BufferType::Array,
            r is Err ==> r == Err::<usize, MeshError>(MeshError::WrongBufferType) && final(self)@ == old(self)@,
            r is Ok ==> r == Ok::<usize, MeshError>(old(self)@.uvs.len() as usize) && final(self)@ == (
            PoolModel { uvs: old(self)@.uvs.push(b@), ..old(self)@ }),
    {
        if b.buf_type() != BufferType::Array {
            return Err(MeshError::WrongBufferType);
        }
        Ok(push_buffer(&mut self.uvs, b))
    }

    /// The coordinates buffer `id`, if there is one.
    pub fn coords_buffer(&self, id: usize) -> (r: Option<&GPUVector<P>>)
        ensures
            r is Some <==> id < self@.coords.len(),
            r is Some ==> r->Some_0@ == self@.coords[id as int],
    {
        if id < self.coords.len() {
            Some(&self.coords[id])
        } else {
            None
        }
    }

    /// The faces buffer `id`, if there is one.
    pub fn faces_buffer(&self, id: usize) -> (r: Option<&GPUVector<Face>>)
        ensures
            r is Some <==> id < self@.faces.len(),
            r is Some ==> r->Some_0@ == self@.faces[id as int],
    {
        if id < self.faces.len() {
            Some(&self.faces[id])
        } else {
            None
        }
    }

    /// The normals buffer `id`, if there is one.
    pub fn normals_buffer(&self, id: usize) -> (r: Option<&GPUVector<N>>)
        ensures
            r is Some <==> id < self@.normals.len(),
            r is Some ==> r->Some_0@ == self@.normals[id as int],
    {
        if id < self.normals.len() {
            Some(&self.normals[id])
        } else {
            None
        }
    }

    /// The texture coordinates buffer `id`, if there is one.
    pub fn uvs_buffer(&self, id: usize) -> (r: Option<&GPUVector<U>>)
        ensures
            r is Some <==> id < self@.uvs.len(),
            r is Some ==> r->Some_0@ == self@.uvs[id as int],
    {
        if id < self.uvs.len() {
            Some(&self.uvs[id])
        } else {
            None
        }
    }

    /// Replaces the data of coordinates buffer `id`.
    pub fn set_coords(&mut self, id: usize, data: Vec<P>) -> (r: Result<(), MeshError>)
        requires
            old(self).wf(),
        ensures
            final(self).wf(),
            r is Err <==> id >= old(self)@.coords.len(),
            r is Err ==> r == Err::<(), MeshError>(MeshError::UnknownBuffer) && final(self)@ == old(self)@,
            r is Ok ==> final(self)@ == (PoolModel {
                coords: old(self)@.coords.update(id as int, with_host(old(self)@.coords[id as int], data@)),
                ..old(self)@
            }),
    {
        if id >= self.coords.len() {
            return Err(MeshError::UnknownBuffer);
        }
        proof {
            assert(self.coords@[id as int]@ == self@.coords[id as int]);
        }
        set_at(&mut self.coords, id, data);
        Ok(())
    }

    /// Replaces the faces of faces buffer `id`.
    pub fn set_faces(&mut self, id: usize, data: Vec<Face>) -> (r: Result<(), MeshError>)
        requires
            old(self).wf(),
        ensures
            final(self).wf(),
            r is Err <==> (id >= old(self)@.faces.len() || 3 * data@.len() > usize::MAX),
            id >= old(self)@.faces.len() ==> r == Err::<(), MeshError>(MeshError::UnknownBuffer),
            id < old(self)@.faces.len() && 3 * data@.len() > usize::MAX ==> r == Err::<(), MeshError>(
                MeshError::TooManyFaces),
            r is Err ==> final(self)@ == old(self)@,
            r is Ok ==> final(self)@ == (PoolModel {
                faces: old(self)@.faces.update(id as int, with_host(old(self)@.faces[id as int], data@)),
                ..old(self)@
            }),
    {
        if id >= self.faces.len() {
            return Err(MeshError::UnknownBuffer);
        }
        if data.len() > usize::MAX / 3 {
            return Err(MeshError::TooManyFaces);
        }
        proof {
            assert(self.faces@[id as int]@ == self@.faces[id as int]);
        }
        set_at(&mut self.faces, id, data);
        Ok(())
    }

    /// Replaces the data of normals buffer `id`.
    pub fn set_normals(&mut self, id: usize, data: Vec<N>) -> (r: Result<(), MeshError>)
        requires
            old(self).wf(),
        ensures
            final(self).wf(),
            r is Err <==> id >= old(self)@.normals.len(),
            r is Err ==> r == Err::<(), MeshError>(MeshError::UnknownBuffer) && final(self)@ == old(self)@,
            r is Ok ==> final(self)@ == (PoolModel {
                normals: old(self)@.normals.update(id as int, with_host(old(self)@.normals[id as int], data@)),
                ..old(self)@
            }),
    {
        if id >= self.normals.len() {
            return Err(MeshError::UnknownBuffer);
        }
        proof {
            assert(self.normals@[id as int]@ == self@.normals[id as int]);
        }
        set_at(&mut self.normals, id, data);
        Ok(())
    }

    /// Replaces the data of texture coordinates buffer `id`.
    pub fn set_uvs(&mut self, id: usize, data: Vec<U>) -> (r: Result<(), MeshError>)
        requires
            old(self).wf(),
        ensures
            final(self).wf(),
            r is Err <==> id >= old(self)@.uvs.len(),
            r is Err ==> r == Err::<(), MeshError>(MeshError::UnknownBuffer) && final(self)@ == old(self)@,
            r is Ok ==> final(self)@ == (PoolModel {
                uvs: old(self)@.uvs.update(id as int, with_host(old(self)@.uvs[id as int], data@)),
                ..old(self)@
            }),
    {
        if id >= self.uvs.len() {
            return Err(MeshError::UnknownBuffer);
        }
        proof {
            assert(self.uvs@[id as int]@ == self@.uvs[id as int]);
        }
        set_at(&mut self.uvs, id, data);
        Ok(())
    }
}

pub open spec fn opt_len<T>(o: Option<Vec<T>>) -> Option<nat> {
    match o {
        Some(v) => Some(v@.len()),
        None => None,
    }
}

/// Why `Mesh::new` refuses its arguments, if it does: too many faces, a face
/// naming a missing vertex, or normals or texture coordinates given with
/// other than one entry per vertex.
pub open spec fn new_failure(n: nat, faces: Seq<Face>, normals: Option<nat>, uvs: Option<nat>) -> Option<MeshError> {
    if 3 * faces.len() > usize::MAX {
        Some(MeshError::TooManyFaces)
    } else if !faces_in_range(faces, n as int) {
        Some(MeshError::FaceIndexOutOfRange)
    } else if normals is Some && normals.unwrap() != n {
        Some(MeshError::AttributeLengthMismatch)
    } else if uvs is Some && uvs.unwrap() != n {
        Some(MeshError::AttributeLengthMismatch)
    } else {
        None
    }
}

/// `p2` is `p` with one fresh buffer appended for each role, holding
/// `coords` and `faces`, and normals and texture coordinates with one entry
/// per vertex: `normals` and `uvs` where they are given, else face-averaged
/// normals and the origin; `m` names them.
pub open spec fn appended_mesh<P, N: NormalVector<P>, U: Origin>(
    p: PoolModel<P, N, U>,
    p2: PoolModel<P, N, U>,
    m: Mesh,
    coords: Seq<P>,
    faces: Seq<Face>,
    normals: Option<Seq<N>>,
    uvs: Option<Seq<U>>,
    dynamic_draw: bool,
) -> bool {
    let at = allocation_for(dynamic_draw);
    &&& m.coords_id() == p.coords.len() && m.faces_id() == p.faces.len()
    &&& m.normals_id() == p.normals.len() && m.uvs_id() == p.uvs.len()
    &&& p2.coords == p.coords.push(fresh(coords, BufferType::Array, at))
    &&& p2.faces == p.faces.push(fresh(faces, BufferType::ElementArray, at))
    &&& p2.normals.len() == p.normals.len() + 1 && p2.normals.drop_last() == p.normals
    &&& p2.uvs.len() == p.uvs.len() + 1 && p2.uvs.drop_last() == p.uvs
    &&& p2.normals.last() == fresh(contents(p2.normals.last()), BufferType::Array, at)
    &&& p2.uvs.last() == fresh(contents(p2.uvs.last()), BufferType::Array, at)
    &&& contents(p2.normals.last()).len() == coords.len()
    &&& contents(p2.uvs.last()).len() == coords.len()
    &&& normals is Some ==> contents(p2.normals.last()) == normals.unwrap()
    &&& uvs is Some ==> contents(p2.uvs.last()) == uvs.unwrap()
    &&& normals is None ==> contents(p2.normals.last()) == face_averaged::<P, N>(coords, faces)
    &&& uvs is None ==> contents(p2.uvs.last()) == origins::<U>(coords.len())
}

pub open spec fn opt_view<T>(o: Option<Vec<T>>) -> Option<Seq<T>> {
    match o {
        Some(v) => Some(v@),
        None => None,
    }
}

/// Pool capacity for one more buffer of each role.
pub open spec fn has_room<P, N, U>(p: PoolModel<P, N, U>) -> bool {
    &&& p.coords.len() < usize::MAX
    &&& p.faces.len() < usize::MAX
    &&& p.normals.len() < usize::MAX
    &&& p.uvs.len() < usize::MAX
}

/// What `recompute_normals` returns for mesh `m` on pool `p`.
pub open spec fn recompute_outcome<P, N, U>(m: Mesh, p: PoolModel<P, N, U>) -> Result<(), MeshError> {
    if !m.valid_in(p) {
        Err(MeshError::UnknownBuffer)
    } else if p.coords[m.coords_id()].host is None || p.faces[m.faces_id()].host is None {
        Err(MeshError::NotOnHost)
    } else if !faces_in_range(contents(p.faces[m.faces_id()]), contents(p.coords[m.coords_id()]).len() as int) {
        Err(MeshError::FaceIndexOutOfRange)
    } else {
        Ok(())
    }
}

/// A vertex of no face has the zero sum.
proof fn lemma_empty_sum<P, N: NormalVector<P>>(c: Seq<P>, faces: Seq<Face>, v: int)
    ensures
        corner_count(faces, v) == 0 ==> face_sum::<P, N>(c, faces, v) == N::spec_zero(),
    decreases faces.len(),
{
    if faces.len() > 0 {
        lemma_empty_sum::<P, N>(c, faces.drop_last(), v);
    }
}

proof fn lemma_kept_same<T>(s: Seq<BufferModel<T>>, i: int)
    requires
        0 <= i < s.len(),
    ensures
        kept(s, s, i),
{
    assert(s.update(i, s[i]) =~= s);
}

proof fn lemma_restore<T>(m: BufferModel<T>)
    requires
        model_wf(m),
    ensures
        m.host is Some ==> loaded(m) == m,
        m.host is None ==> unloaded(loaded(m)) == m,
{
}

/// Buffer `i` of `s` was bound, with result `r`, and became that of `s2`;
/// the others are as they were.
pub open spec fn rebound<T>(
    s: Seq<BufferModel<T>>,
    s2: Seq<BufferModel<T>>,
    i: int,
    c: DeviceContext,
    c2: DeviceContext,
    r: Result<(), DeviceError>,
) -> bool {
    &&& s2.len() == s.len()
    &&& s2 == s.update(i, s2[i])
    &&& model_wf(s2[i])
    &&& bound_from(s[i], s2[i], c, c2, r)
}

/// After binding, with result `r`, a buffer now in state `m`, the attribute
/// slot `a` became `a2`.
pub open spec fn attached<T>(m: BufferModel<T>, a: ShaderAttribute, a2: ShaderAttribute, r: Result<(), DeviceError>) -> bool {
    &&& a2.location == a.location
    &&& r is Ok ==> a2.source == Some(m.device.unwrap().handle)
    &&& r is Err ==> a2.source == a.source
}

/// Buffer `i` of `s` became that of `s2`, with the same data in the same
/// places, and the others are as they were.
pub open spec fn kept<T>(s: Seq<BufferModel<T>>, s2: Seq<BufferModel<T>>, i: int) -> bool {
    &&& s2.len() == s.len()
    &&& s2 == s.update(i, s2[i])
    &&& contents(s2[i]) == contents(s[i])
    &&& s2[i].host == s[i].host
    &&& s2[i].buf_type == s[i].buf_type
    &&& s2[i].alloc_type == s[i].alloc_type
}

/// Buffer `i` of `s` is in device memory and current there.
pub open spec fn uploaded<T>(s: Seq<BufferModel<T>>, i: int) -> bool {
    s[i].synced && s[i].device is Some && s[i].device.unwrap().data == contents(s[i])
}

/// Binding the four buffers of `m` one after another, coordinates, normals,
/// texture coordinates, faces, each succeeding, took pool `p` to `p2` and the
/// context from `c` through `c1`, `c2`, `c3` to `c4`.
pub open spec fn bound_in_order<P, N, U>(
    m: Mesh,
    p: PoolModel<P, N, U>,
    p2: PoolModel<P, N, U>,
    c: DeviceContext,
    c1: DeviceContext,
    c2: DeviceContext,
    c3: DeviceContext,
    c4: DeviceContext,
) -> bool {
    &&& rebound(p.coords, p2.coords, m.coords_id(), c, c1, Ok(()))
    &&& rebound(p.normals, p2.normals, m.normals_id(), c1, c2, Ok(()))
    &&& rebound(p.uvs, p2.uvs, m.uvs_id(), c2, c3, Ok(()))
    &&& rebound(p.faces, p2.faces, m.faces_id(), c3, c4, Ok(()))
}

pub open spec fn handle_of<T>(m: BufferModel<T>) -> u64 {
    m.device.unwrap().handle
}

/// A drawable mesh: the ids of its four buffers in a `BufferPool`. Meshes
/// that hold the same id share that buffer.
#[derive(Clone, Copy, Debug, PartialEq, Eq, Structural)]
pub struct Mesh {
    coords: usize,
    faces: usize,
    normals: usize,
    uvs: usize,
}

/// A triangle mesh as plain arrays, with one index triple per face.
pub struct TriMesh<P, N, U> {
    pub coords: Vec<P>,
    pub normals: Option<Vec<N>>,
    pub uvs: Option<Vec<U>>,
    pub faces: Vec<Face>,
}

impl Mesh {
    pub closed spec fn coords_id(&self) -> int {
        self.coords as int
    }

    pub closed spec fn faces_id(&self) -> int {
        self.faces as int
    }

    pub closed spec fn normals_id(&self) -> int {
        self.normals as int
    }

    pub closed spec fn uvs_id(&self) -> int {
        self.uvs as int
    }

    /// Every buffer id of this mesh names a buffer of `p`.
    pub open spec fn valid_in<P, N, U>(&self, p: PoolModel<P, N, U>) -> bool {
        &&& 0 <= self.coords_id() < p.coords.len()
        &&& 0 <= self.faces_id() < p.faces.len()
        &&& 0 <= self.normals_id() < p.normals.len()
        &&& 0 <= self.uvs_id() < p.uvs.len()
    }

    /// A mesh made of four buffers that are already in a pool; nothing is copied.
    pub fn new_with_gpu_vectors(coords: usize, faces: usize, normals: usize, uvs: usize) -> (r: Mesh)
        ensures
            r.coords_id() == coords,
            r.faces_id() == faces,
            r.normals_id() == normals,
            r.uvs_id() == uvs,
    {
        Mesh { coords, faces, normals, uvs }
    }

    /// The id of this mesh's faces buffer.
    pub fn faces(&self) -> (r: usize)
        ensures
            r == self.faces_id(),
    {
        self.faces
    }

    /// The id of this mesh's normals buffer.
    pub fn normals(&self) -> (r: usize)
        ensures
            r == self.normals_id(),
    {
        self.normals
    }

    /// The id of this mesh's vertex coordinates buffer.
    pub fn coords(&self) -> (r: usize)
        ensures
            r == self.coords_id(),
    {
        self.coords
    }

    /// The id of this mesh's texture coordinates buffer.
    pub fn uvs(&self) -> (r: usize)
        ensures
            r == self.uvs_id(),
    {
        self.uvs
    }

    /// Face-averaged vertex normals: each vertex gets the mean of the unit
    /// normals of the faces it is a corner of (a degenerate face adds zero),
    /// and a vertex of no face keeps the zero vector.
    pub fn compute_normals_array<P: Copy, N: NormalVector<P>>(coordinates: &Vec<P>, faces: &Vec<Face>) -> (r: Result<Vec<N>, MeshError>)
        ensures
            r is Ok <==> 3 * faces@.len() <= usize::MAX && faces_in_range(faces@, coordinates@.len() as int),
            3 * faces@.len() > usize::MAX ==> r == Err::<Vec<N>, MeshError>(MeshError::TooManyFaces),
            3 * faces@.len() <= usize::MAX && !faces_in_range(faces@, coordinates@.len() as int) ==> r
                == Err::<Vec<N>, MeshError>(MeshError::FaceIndexOutOfRange),
            r is Ok ==> r->Ok_0@ == face_averaged::<P, N>(coordinates@, faces@),
    {
        if faces.len() > usize::MAX / 3 {
            return Err(MeshError::TooManyFaces);
        }
        let n = coordinates.len();
        let counts = match contribution_counts(n, faces) {
            Ok(c) => c,
            Err(e) => return Err(e),
        };
        let ghost c = coordinates@;
        let mut normals: Vec<N> = Vec::with_capacity(n);
        let mut k: usize = 0;
        while k < n
            invariant
                k <= n,
                normals@.len() == k,
                forall|v: int| 0 <= v < k ==> #[trigger] normals@[v] == N::spec_zero(),
            decreases n - k,
        {
            normals.push(N::zero());
            k += 1;
        }
        proof {
            assert forall|v: int| 0 <= v < n implies #[trigger] normals@[v] == face_sum::<P, N>(
                c,
                faces@.subrange(0, 0),
                v,
            ) by {}
        }
        let mut i: usize = 0;
        while i < faces.len()
            invariant
                n == coordinates@.len(),
                c == coordinates@,
                i <= faces@.len(),
                faces_in_range(faces@, n as int),
                normals@.len() == n,
                forall|v: int|
                    0 <= v < n ==> #[trigger] normals@[v] == face_sum::<P, N>(c, faces@.subrange(0, i as int), v),
            decreases faces@.len() - i,
        {
            let f = faces[i];
            assert(crate::normals::face_in_range(faces@[i as int], n as int));
            let a = &coordinates[f.x as usize];
            let edge1 = N::edge(a, &coordinates[f.y as usize]);
            let edge2 = N::edge(a, &coordinates[f.z as usize]);
            let cross = edge1.cross(&edge2);
            let normal = if cross.is_zero() {
                cross
            } else {
                cross.normalize()
            };
            assert(normal == face_normal::<P, N>(c, f));
            let ghost pre = normals@;
            let nx = normals[f.x as usize].add(&normal);
            normals.set(f.x as usize, nx);
            let ghost n1 = normals@;
            let ny = normals[f.y as usize].add(&normal);
            normals.set(f.y as usize, ny);
            let ghost n2 = normals@;
            let nz = normals[f.z as usize].add(&normal);
            normals.set(f.z as usize, nz);
            proof {
                let s = faces@.subrange(0, i + 1);
                assert(s.drop_last() =~= faces@.subrange(0, i as int));
                assert(s.last() == f);
                assert forall|v: int| 0 <= v < n implies #[trigger] normals@[v] == face_sum::<P, N>(c, s, v) by {
                    assert(n1[v] == (if f.x as int == v { N::spec_add(pre[v], normal) } else { pre[v] }));
                    assert(n2[v] == (if f.y as int == v { N::spec_add(n1[v], normal) } else { n1[v] }));
                    assert(normals@[v] == (if f.z as int == v { N::spec_add(n2[v], normal) } else { n2[v] }));
                    assert(normals@[v] == add_at::<P, N>(pre[v], f, v, normal));
                }
            }
            i += 1;
        }
        assert(faces@.subrange(0, i as int) =~= faces@);
        let mut v: usize = 0;
        while v < n
            invariant
                n == coordinates@.len(),
                c == coordinates@,
                v <= n,
                normals@.len() == n,
                counts@.len() == n,
                forall|u: int| 0 <= u < n ==> #[trigger] counts@[u] == corner_count(faces@, u),
                forall|u: int| 0 <= u < v ==> #[trigger] normals@[u] == mean_normal::<P, N>(c, faces@, u),
                forall|u: int| v <= u < n ==> #[trigger] normals@[u] == face_sum::<P, N>(c, faces@, u),
            decreases n - v,
        {
            proof {
                lemma_empty_sum::<P, N>(c, faces@, v as int);
            }
            if counts[v] > 0 {
                let mean = normals[v].div_count(counts[v]);
                normals.set(v, mean);
            }
            v += 1;
        }
        assert(normals@ =~= face_averaged::<P, N>(c, faces@));
        Ok(normals)
    }

    /// Computes face-averaged normals, as `compute_normals_array` does, into
    /// `normals`, whose earlier content is discarded; on failure `normals`
    /// is left as it was.
    pub fn compute_normals<P: Copy, N: NormalVector<P>>(coordinates: &Vec<P>, faces: &Vec<Face>, normals: &mut Vec<N>) -> (r: Result<(), MeshError>)
        ensures
            r is Ok <==> 3 * faces@.len() <= usize::MAX && faces_in_range(faces@, coordinates@.len() as int),
            3 * faces@.len() > usize::MAX ==> r == Err::<(), MeshError>(MeshError::TooManyFaces),
            3 * faces@.len() <= usize::MAX && !faces_in_range(faces@, coordinates@.len() as int) ==> r
                == Err::<(), MeshError>(MeshError::FaceIndexOutOfRange),
            r is Ok ==> final(normals)@ == face_averaged::<P, N>(coordinates@, faces@),
            r is Err ==> final(normals)@ == old(normals)@,
    {
        match Mesh::compute_normals_array(coordinates, faces) {
            Ok(ns) => {
                *normals = ns;
                Ok(())
            },
            Err(e) => Err(e),
        }
    }
}

impl Mesh {
    /// A mesh of fresh buffers holding the given arrays. Normals not given
    /// are face-averaged (`compute_normals_array`); texture coordinates not
    /// given are all the origin.
    pub fn new<P: Copy, N: NormalVector<P>, U: Origin>(
        pool: &mut BufferPool<P, N, U>,
        coords: Vec<P>,
        faces: Vec<Face>,
        normals: Option<Vec<N>>,
        uvs: Option<Vec<U>>,
        dynamic_draw: bool,
    ) -> (r: Result<Mesh, MeshError>)
        requires
            old(pool).wf(),
            has_room(old(pool)@),
        ensures
            final(pool).wf(),
            match new_failure(coords@.len(), faces@, opt_len(normals), opt_len(uvs)) {
                Some(e) => r == Err::<Mesh, MeshError>(e) && final(pool)@ == old(pool)@,
                None => r is Ok && appended_mesh(
                    old(pool)@,
                    final(pool)@,
                    r->Ok_0,
                    coords@,
                    faces@,
                    opt_view(normals),
                    opt_view(uvs),
                    dynamic_draw,
                ),
            },
    {
        let n = coords.len();
        if faces.len() > usize::MAX / 3 {
            return Err(MeshError::TooManyFaces);
        }
        if !faces_within(&faces, n) {
            return Err(MeshError::FaceIndexOutOfRange);
        }
        let ghost given_normals = opt_view(normals);
        let normals = match normals {
            Some(ns) => {
                if ns.len() != n {
                    return Err(MeshError::AttributeLengthMismatch);
                }
                ns
            },
            None => match Mesh::compute_normals_array(&coords, &faces) {
                Ok(ns) => ns,
                Err(e) => return Err(e),
            },
        };
        let ghost given_uvs = opt_view(uvs);
        let uvs = match uvs {
            Some(us) => {
                if us.len() != n {
                    return Err(MeshError::AttributeLengthMismatch);
                }
                us
            },
            None => {
                let mut us: Vec<U> = Vec::with_capacity(n);
                let mut k: usize = 0;
                while k < n
                    invariant
                        k <= n,
                        us@.len() == k,
                        forall|j: int| 0 <= j < k ==> #[trigger] us@[j] == U::spec_origin(),
                    decreases n - k,
                {
                    us.push(U::origin());
                    k += 1;
                }
                assert(us@ =~= origins::<U>(n as nat));
                us
            },
        };
        let location = if dynamic_draw {
            AllocationType::DynamicDraw
        } else {
            AllocationType::StaticDraw
        };
        let ghost p0 = pool@;
        let cs = match pool.add_coords(GPUVector::new(coords, BufferType::Array, location)) {
            Ok(id) => id,
            Err(e) => return Err(e),
        };
        let fs = match pool.add_faces(GPUVector::new(faces, BufferType::ElementArray, location)) {
            Ok(id) => id,
            Err(e) => return Err(e),
        };
        let ns = match pool.add_normals(GPUVector::new(normals, BufferType::Array, location)) {
            Ok(id) => id,
            Err(e) => return Err(e),
        };
        let us = match pool.add_uvs(GPUVector::new(uvs, BufferType::Array, location)) {
            Ok(id) => id,
            Err(e) => return Err(e),
        };
        proof {
            assert(pool@.normals.drop_last() =~= p0.normals);
            assert(pool@.uvs.drop_last() =~= p0.uvs);
        }
        Ok(Mesh::new_with_gpu_vectors(cs, fs, ns, us))
    }

    /// A mesh of fresh buffers holding the arrays of `mesh`, as `new` makes it.
    pub fn from_trimesh<P: Copy, N: NormalVector<P>, U: Origin>(
        pool: &mut BufferPool<P, N, U>,
        mesh: TriMesh<P, N, U>,
        dynamic_draw: bool,
    ) -> (r: Result<Mesh, MeshError>)
        requires
            old(pool).wf(),
            has_room(old(pool)@),
        ensures
            final(pool).wf(),
            match new_failure(mesh.coords@.len(), mesh.faces@, opt_len(mesh.normals), opt_len(mesh.uvs)) {
                Some(e) => r == Err::<Mesh, MeshError>(e) && final(pool)@ == old(pool)@,
                None => r is Ok && appended_mesh(
                    old(pool)@,
                    final(pool)@,
                    r->Ok_0,
                    mesh.coords@,
                    mesh.faces@,
                    opt_view(mesh.normals),
                    opt_view(mesh.uvs),
                    dynamic_draw,
                ),
            },
    {
        let TriMesh { coords, normals, uvs, faces } = mesh;
        Mesh::new(pool, coords, faces, normals, uvs, dynamic_draw)
    }

    /// Whether every buffer id of this mesh names a buffer of `pool`.
    pub fn is_valid_in<P: Copy, N: Copy, U: Copy>(&self, pool: &BufferPool<P, N, U>) -> (r: bool)
        ensures
            r == self.valid_in(pool@),
    {
        self.coords < pool.coords.len() && self.faces < pool.faces.len() && self.normals
            < pool.normals.len() && self.uvs < pool.uvs.len()
    }

    /// The arrays of this mesh as a `TriMesh`, or `None` where one of its ids
    /// names no buffer. Buffers not in host memory are read back from the
    /// device for the copy and then dropped from host memory again, so the
    /// pool ends as it began.
    pub fn to_trimesh<P: Copy, N: Copy, U: Copy>(&self, pool: &mut BufferPool<P, N, U>) -> (r: Option<TriMesh<P, N, U>>)
        requires
            old(pool).wf(),
        ensures
            final(pool)@ == old(pool)@,
            r is Some <==> self.valid_in(old(pool)@),
            r is Some ==> {
                let t = r->Some_0;
                &&& t.coords@ == contents(old(pool)@.coords[self.coords_id()])
                &&& t.faces@ == contents(old(pool)@.faces[self.faces_id()])
                &&& opt_view(t.normals) == Some(contents(old(pool)@.normals[self.normals_id()]))
                &&& opt_view(t.uvs) == Some(contents(old(pool)@.uvs[self.uvs_id()]))
            },
    {
        if !self.is_valid_in(pool) {
            return None;
        }
        let ghost p0 = pool@;
        proof {
            lemma_restore(p0.coords[self.coords as int]);
            lemma_restore(p0.faces[self.faces as int]);
            lemma_restore(p0.normals[self.normals as int]);
            lemma_restore(p0.uvs[self.uvs as int]);
            assert(pool.coords@[self.coords as int]@ == p0.coords[self.coords as int]);
            assert(pool.faces@[self.faces as int]@ == p0.faces[self.faces as int]);
            assert(pool.normals@[self.normals as int]@ == p0.normals[self.normals as int]);
            assert(pool.uvs@[self.uvs as int]@ == p0.uvs[self.uvs as int]);
        }
        let unload_coords = !pool.coords[self.coords].is_on_ram();
        let unload_faces = !pool.faces[self.faces].is_on_ram();
        let unload_normals = !pool.normals[self.normals].is_on_ram();
        let unload_uvs = !pool.uvs[self.uvs].is_on_ram();

        load_at(&mut pool.coords, self.coords);
        load_at(&mut pool.faces, self.faces);
        load_at(&mut pool.normals, self.normals);
        load_at(&mut pool.uvs, self.uvs);

        proof {
            assert(pool.coords@[self.coords as int]@ == pool@.coords[self.coords as int]);
            assert(pool.faces@[self.faces as int]@ == pool@.faces[self.faces as int]);
            assert(pool.normals@[self.normals as int]@ == pool@.normals[self.normals as int]);
            assert(pool.uvs@[self.uvs as int]@ == pool@.uvs[self.uvs as int]);
        }
        let coords = pool.coords[self.coords].to_owned();
        let faces = pool.faces[self.faces].to_owned();
        let normals = pool.normals[self.normals].to_owned();
        let uvs = pool.uvs[self.uvs].to_owned();

        if unload_coords {
            unload_at(&mut pool.coords, self.coords);
        }
        if unload_faces {
            unload_at(&mut pool.faces, self.faces);
        }
        if unload_normals {
            unload_at(&mut pool.normals, self.normals);
        }
        if unload_uvs {
            unload_at(&mut pool.uvs, self.uvs);
        }
        proof {
            assert(pool@.coords =~= p0.coords);
            assert(pool@.faces =~= p0.faces);
            assert(pool@.normals =~= p0.normals);
            assert(pool@.uvs =~= p0.uvs);
        }
        match (coords, faces) {
            (Some(cs), Some(fs)) => Some(TriMesh { coords: cs, normals, uvs, faces: fs }),
            _ => None,
        }
    }
}

impl Mesh {
    /// Binds the coordinates buffer and attaches it to `coords`.
    pub fn bind_coords<P: Copy, N: Copy, U: Copy>(&self, pool: &mut BufferPool<P, N, U>, ctx: &mut DeviceContext, coords: &mut ShaderAttribute) -> (r: Result<(), DeviceError>)
        requires
            old(pool).wf(),
            self.valid_in(old(pool)@),
        ensures
            final(pool).wf(),
            final(pool)@ == (PoolModel { coords: final(pool)@.coords, ..old(pool)@ }),
            rebound(old(pool)@.coords, final(pool)@.coords, self.coords_id(), *old(ctx), *final(ctx), r),
            attached(final(pool)@.coords[self.coords_id()], *old(coords), *final(coords), r),
    {
        proof {
            assert(pool.coords@[self.coords as int]@ == pool@.coords[self.coords as int]);
        }
        bind_at(&mut pool.coords, self.coords, ctx, coords)
    }

    /// Binds the normals buffer and attaches it to `normals`.
    pub fn bind_normals<P: Copy, N: Copy, U: Copy>(&self, pool: &mut BufferPool<P, N, U>, ctx: &mut DeviceContext, normals: &mut ShaderAttribute) -> (r: Result<(), DeviceError>)
        requires
            old(pool).wf(),
            self.valid_in(old(pool)@),
        ensures
            final(pool).wf(),
            final(pool)@ == (PoolModel { normals: final(pool)@.normals, ..old(pool)@ }),
            rebound(old(pool)@.normals, final(pool)@.normals, self.normals_id(), *old(ctx), *final(ctx), r),
            attached(final(pool)@.normals[self.normals_id()], *old(normals), *final(normals), r),
    {
        proof {
            assert(pool.normals@[self.normals as int]@ == pool@.normals[self.normals as int]);
        }
        bind_at(&mut pool.normals, self.normals, ctx, normals)
    }

    /// Binds the texture coordinates buffer and attaches it to `uvs`.
    pub fn bind_uvs<P: Copy, N: Copy, U: Copy>(&self, pool: &mut BufferPool<P, N, U>, ctx: &mut DeviceContext, uvs: &mut ShaderAttribute) -> (r: Result<(), DeviceError>)
        requires
            old(pool).wf(),
            self.valid_in(old(pool)@),
        ensures
            final(pool).wf(),
            final(pool)@ == (PoolModel { uvs: final(pool)@.uvs, ..old(pool)@ }),
            rebound(old(pool)@.uvs, final(pool)@.uvs, self.uvs_id(), *old(ctx), *final(ctx), r),
            attached(final(pool)@.uvs[self.uvs_id()], *old(uvs), *final(uvs), r),
    {
        proof {
            assert(pool.uvs@[self.uvs as int]@ == pool@.uvs[self.uvs as int]);
        }
        bind_at(&mut pool.uvs, self.uvs, ctx, uvs)
    }

    /// Binds the faces buffer as the index buffer.
    pub fn bind_faces<P: Copy, N: Copy, U: Copy>(&self, pool: &mut BufferPool<P, N, U>, ctx: &mut DeviceContext) -> (r: Result<(), DeviceError>)
        requires
            old(pool).wf(),
            self.valid_in(old(pool)@),
        ensures
            final(pool).wf(),
            final(pool)@ == (PoolModel { faces: final(pool)@.faces, ..old(pool)@ }),
            rebound(old(pool)@.faces, final(pool)@.faces, self.faces_id(), *old(ctx), *final(ctx), r),
    {
        proof {
            assert(pool.faces@[self.faces as int]@ == pool@.faces[self.faces as int]);
        }
        bind_faces_at(&mut pool.faces, self.faces, ctx)
    }

    /// Binds all four buffers, in the order coordinates, normals, texture
    /// coordinates, faces, stopping at the first failure. The data of every
    /// buffer is kept; on success each is current in device memory, the
    /// three attribute slots hold their buffers, the faces buffer is the
    /// index buffer, and the texture coordinates, bound last of the vertex
    /// attribute buffers, stay attached. Success is certain while four handles are left.
    pub fn bind<P: Copy, N: Copy, U: Copy>(
        &self,
        pool: &mut BufferPool<P, N, U>,
        ctx: &mut DeviceContext,
        coords: &mut ShaderAttribute,
        normals: &mut ShaderAttribute,
        uvs: &mut ShaderAttribute,
    ) -> (r: Result<(), DeviceError>)
        requires
            old(pool).wf(),
            self.valid_in(old(pool)@),
        ensures
            final(pool).wf(),
            kept(old(pool)@.coords, final(pool)@.coords, self.coords_id()),
            kept(old(pool)@.faces, final(pool)@.faces, self.faces_id()),
            kept(old(pool)@.normals, final(pool)@.normals, self.normals_id()),
            kept(old(pool)@.uvs, final(pool)@.uvs, self.uvs_id()),
            old(ctx).next_handle <= u64::MAX - 4 ==> r is Ok,
            r is Ok ==> {
                let p2 = final(pool)@;
                &&& uploaded(p2.coords, self.coords_id())
                &&& uploaded(p2.faces, self.faces_id())
                &&& uploaded(p2.normals, self.normals_id())
                &&& uploaded(p2.uvs, self.uvs_id())
                &&& final(coords).source == Some(handle_of(p2.coords[self.coords_id()]))
                &&& final(normals).source == Some(handle_of(p2.normals[self.normals_id()]))
                &&& final(uvs).source == Some(handle_of(p2.uvs[self.uvs_id()]))
                &&& final(ctx).bound(BufferType::ElementArray) == Some(handle_of(p2.faces[self.faces_id()]))
                &&& final(ctx).bound(BufferType::Array) == Some(handle_of(p2.uvs[self.uvs_id()]))
                &&& exists|c1: DeviceContext, c2: DeviceContext, c3: DeviceContext| #[trigger]
                    bound_in_order(*self, old(pool)@, final(pool)@, *old(ctx), c1, c2, c3, *final(ctx))
            },
    {
        let ghost p0 = pool@;
        let ghost c0 = *ctx;
        proof {
            lemma_kept_same(p0.coords, self.coords as int);
            lemma_kept_same(p0.faces, self.faces as int);
            lemma_kept_same(p0.normals, self.normals as int);
            lemma_kept_same(p0.uvs, self.uvs as int);
        }
        let r1 = self.bind_coords(pool, ctx, coords);
        if r1.is_err() {
            return r1;
        }
        let ghost c1 = *ctx;
        let r2 = self.bind_normals(pool, ctx, normals);
        if r2.is_err() {
            return r2;
        }
        let ghost c2 = *ctx;
        let r3 = self.bind_uvs(pool, ctx, uvs);
        if r3.is_err() {
            return r3;
        }
        let ghost c3 = *ctx;
        let r4 = self.bind_faces(pool, ctx);
        proof {
            if r4 is Ok {
                assert(bound_in_order(*self, p0, pool@, c0, c1, c2, c3, *ctx));
            }
            assert(c1.next_handle <= c0.next_handle + 1);
            assert(c2.next_handle <= c1.next_handle + 1);
            assert(c3.next_handle <= c2.next_handle + 1);
        }
        r4
    }

    /// Detaches whatever is attached at the vertex and index binding points.
    pub fn unbind<P: Copy, N: Copy, U: Copy>(&self, pool: &BufferPool<P, N, U>, ctx: &mut DeviceContext)
        requires
            pool.wf(),
            self.valid_in(pool@),
        ensures
            final(ctx).next_handle == old(ctx).next_handle,
            final(ctx).bound(BufferType::Array) is None,
            final(ctx).bound(BufferType::ElementArray) is None,
    {
        proof {
            assert(pool.coords@[self.coords as int]@ == pool@.coords[self.coords as int]);
            assert(pool.faces@[self.faces as int]@ == pool@.faces[self.faces as int]);
            assert(pool.normals@[self.normals as int]@ == pool@.normals[self.normals as int]);
            assert(pool.uvs@[self.uvs as int]@ == pool@.uvs[self.uvs as int]);
        }
        pool.coords[self.coords].unbind(ctx);
        pool.normals[self.normals].unbind(ctx);
        pool.uvs[self.uvs].unbind(ctx);
        pool.faces[self.faces].unbind(ctx);
    }

    /// Number of points needed to draw this mesh: three per face.
    pub fn num_pts<P: Copy, N: Copy, U: Copy>(&self, pool: &BufferPool<P, N, U>) -> (r: usize)
        requires
            pool.wf(),
            self.valid_in(pool@),
        ensures
            r == 3 * contents(pool@.faces[self.faces_id()]).len(),
    {
        proof {
            assert(pool.faces@[self.faces as int]@ == pool@.faces[self.faces as int]);
        }
        pool.faces[self.faces].len() * 3
    }

    /// Replaces the normals with face-averaged ones computed from the
    /// coordinates and faces, which must be in host memory.
    pub fn recompute_normals<P: Copy, N: NormalVector<P>, U: Copy>(&self, pool: &mut BufferPool<P, N, U>) -> (r: Result<(), MeshError>)
        requires
            old(pool).wf(),
        ensures
            final(pool).wf(),
            r == recompute_outcome(*self, old(pool)@),
            r is Err ==> final(pool)@ == old(pool)@,
            r is Ok ==> {
                let p = old(pool)@;
                let p2 = final(pool)@;
                let i = self.normals_id();
                &&& p2 == (PoolModel {
                    normals: p.normals.update(i, with_host(p.normals[i], face_averaged::<P, N>(
                        contents(p.coords[self.coords_id()]),
                        contents(p.faces[self.faces_id()]),
                    ))),
                    ..p
                })
            },
    {
        if !self.is_valid_in(pool) {
            return Err(MeshError::UnknownBuffer);
        }
        proof {
            assert(pool.coords@[self.coords as int]@ == pool@.coords[self.coords as int]);
            assert(pool.faces@[self.faces as int]@ == pool@.faces[self.faces as int]);
        }
        let computed = match (pool.coords[self.coords].data(), pool.faces[self.faces].data()) {
            (Some(cs), Some(fs)) => Mesh::compute_normals_array(cs, fs),
            _ => Err(MeshError::NotOnHost),
        };
        match computed {
            Ok(ns) => {
                let ghost d = ns@;
                proof {
                    assert(pool.normals@[self.normals as int]@ == pool@.normals[self.normals as int]);
                }
                let ghost p0 = pool@;
                set_at(&mut pool.normals, self.normals, ns);
                proof {
                    assert(pool@.normals[self.normals as int] == with_host(p0.normals[self.normals as int], d));
                }
                Ok(())
            },
            Err(e) => Err(e),
        }
    }

    /// Gives up the device copies of the four buffers, keeping their data in
    /// host memory, and returns the handles they had (coordinates, faces,
    /// normals, texture coordinates), for the device resources to be freed.
    /// Meshes sharing a buffer upload it again on their next bind.
    pub fn release_device<P: Copy, N: Copy, U: Copy>(&self, pool: &mut BufferPool<P, N, U>) -> (r: (
        Option<u64>,
        Option<u64>,
        Option<u64>,
        Option<u64>,
    ))
        requires
            old(pool).wf(),
            self.valid_in(old(pool)@),
        ensures
            final(pool).wf(),
            final(pool)@ == (PoolModel {
                coords: old(pool)@.coords.update(self.coords_id(), released(old(pool)@.coords[self.coords_id()])),
                faces: old(pool)@.faces.update(self.faces_id(), released(old(pool)@.faces[self.faces_id()])),
                normals: old(pool)@.normals.update(self.normals_id(), released(old(pool)@.normals[self.normals_id()])),
                uvs: old(pool)@.uvs.update(self.uvs_id(), released(old(pool)@.uvs[self.uvs_id()])),
            }),
            r.0 == handle_if_any(old(pool)@.coords[self.coords_id()]),
            r.1 == handle_if_any(old(pool)@.faces[self.faces_id()]),
            r.2 == handle_if_any(old(pool)@.normals[self.normals_id()]),
            r.3 == handle_if_any(old(pool)@.uvs[self.uvs_id()]),
    {
        proof {
            assert(pool.coords@[self.coords as int]@ == pool@.coords[self.coords as int]);
            assert(pool.faces@[self.faces as int]@ == pool@.faces[self.faces as int]);
            assert(pool.normals@[self.normals as int]@ == pool@.normals[self.normals as int]);
            assert(pool.uvs@[self.uvs as int]@ == pool@.uvs[self.uvs as int]);
        }
        let c = release_at(&mut pool.coords, self.coords);
        let f = release_at(&mut pool.faces, self.faces);
        let n = release_at(&mut pool.normals, self.normals);
        let u = release_at(&mut pool.uvs, self.uvs);
        (c, f, n, u)
    }

    /// Brings all four buffers into host memory.
    pub fn load_to_ram<P: Copy, N: Copy, U: Copy>(&self, pool: &mut BufferPool<P, N, U>)
        requires
            old(pool).wf(),
            self.valid_in(old(pool)@),
        ensures
            final(pool).wf(),
            final(pool)@ == (PoolModel {
                coords: old(pool)@.coords.update(self.coords_id(), loaded(old(pool)@.coords[self.coords_id()])),
                faces: old(pool)@.faces.update(self.faces_id(), loaded(old(pool)@.faces[self.faces_id()])),
                normals: old(pool)@.normals.update(self.normals_id(), loaded(old(pool)@.normals[self.normals_id()])),
                uvs: old(pool)@.uvs.update(self.uvs_id(), loaded(old(pool)@.uvs[self.uvs_id()])),
            }),
    {
        proof {
            assert(pool.coords@[self.coords as int]@ == pool@.coords[self.coords as int]);
            assert(pool.faces@[self.faces as int]@ == pool@.faces[self.faces as int]);
            assert(pool.normals@[self.normals as int]@ == pool@.normals[self.normals as int]);
            assert(pool.uvs@[self.uvs as int]@ == pool@.uvs[self.uvs as int]);
        }
        load_at(&mut pool.coords, self.coords);
        load_at(&mut pool.faces, self.faces);
        load_at(&mut pool.normals, self.normals);
        load_at(&mut pool.uvs, self.uvs);
    }

    /// Drops from host memory each of the four buffers whose device copy
    /// holds its current data; each buffer is handled on its own.
    pub fn unload_from_ram<P: Copy, N: Copy, U: Copy>(&self, pool: &mut BufferPool<P, N, U>)
        requires
            old(pool).wf(),
            self.valid_in(old(pool)@),
        ensures
            final(pool).wf(),
            final(pool)@ == (PoolModel {
                coords: old(pool)@.coords.update(self.coords_id(), unloaded(old(pool)@.coords[self.coords_id()])),
                faces: old(pool)@.faces.update(self.faces_id(), unloaded(old(pool)@.faces[self.faces_id()])),
                normals: old(pool)@.normals.update(self.normals_id(), unloaded(old(pool)@.normals[self.normals_id()])),
                uvs: old(pool)@.uvs.update(self.uvs_id(), unloaded(old(pool)@.uvs[self.uvs_id()])),
            }),
    {
        proof {
            assert(pool.coords@[self.coords as int]@ == pool@.coords[self.coords as int]);
            assert(pool.faces@[self.faces as int]@ == pool@.faces[self.faces as int]);
            assert(pool.normals@[self.normals as int]@ == pool@.normals[self.normals as int]);
            assert(pool.uvs@[self.uvs as int]@ == pool@.uvs[self.uvs as int]);
        }
        unload_at(&mut pool.coords, self.coords);
        unload_at(&mut pool.faces, self.faces);
        unload_at(&mut pool.normals, self.normals);
        unload_at(&mut pool.uvs, self.uvs);
    }
}

/// A mesh description taken from a mesh and given back to `from_trimesh`
/// makes a mesh with the same coordinates and faces, as long as the faces
/// name existing vertices and the normals and texture coordinates have one
/// entry per vertex.
pub proof fn lemma_round_trip<P, N: NormalVector<P>, U: Origin>(p: PoolModel<P, N, U>, m: Mesh, p2: PoolModel<P, N, U>, m2: Mesh, dynamic_draw: bool)
    requires
        pool_wf(p),
        m.valid_in(p),
        faces_in_range(contents(p.faces[m.faces_id()]), contents(p.coords[m.coords_id()]).len() as int),
        contents(p.normals[m.normals_id()]).len() == contents(p.coords[m.coords_id()]).len(),
        contents(p.uvs[m.uvs_id()]).len() == contents(p.coords[m.coords_id()]).len(),
        appended_mesh(
            p,
            p2,
            m2,
            contents(p.coords[m.coords_id()]),
            contents(p.faces[m.faces_id()]),
            Some(contents(p.normals[m.normals_id()])),
            Some(contents(p.uvs[m.uvs_id()])),
            dynamic_draw,
        ),
    ensures
        new_failure(
            contents(p.coords[m.coords_id()]).len(),
            contents(p.faces[m.faces_id()]),
            Some(contents(p.normals[m.normals_id()]).len()),
            Some(contents(p.uvs[m.uvs_id()]).len()),
        ) is None,
        contents(p2.coords[m2.coords_id()]) == contents(p.coords[m.coords_id()]),
        contents(p2.faces[m2.faces_id()]) == contents(p.faces[m.faces_id()]),
{
    assert(3 * contents(p.faces[m.faces_id()]).len() <= usize::MAX);
}

/// Two meshes that share a coordinates buffer but not a faces buffer: new
/// faces for the first leave what the second sees unchanged, and new
/// coordinates through the first are what the second sees.
pub proof fn lemma_shared_buffers<P, N, U>(p: PoolModel<P, N, U>, m: Mesh, m2: Mesh, fs: Seq<Face>, cs: Seq<P>)
    requires
        m.valid_in(p),
        m2.valid_in(p),
        m2.coords_id() == m.coords_id(),
        m2.faces_id() != m.faces_id(),
    ensures
        ({
            let q = PoolModel { faces: p.faces.update(m.faces_id(), with_host(p.faces[m.faces_id()], fs)), ..p };
            &&& q.coords[m2.coords_id()] == p.coords[m2.coords_id()]
            &&& q.faces[m2.faces_id()] == p.faces[m2.faces_id()]
            &&& contents(q.faces[m.faces_id()]) == fs
        }),
        ({
            let q = PoolModel { coords: p.coords.update(m.coords_id(), with_host(p.coords[m.coords_id()], cs)), ..p };
            &&& contents(q.coords[m.coords_id()]) == cs
            &&& contents(q.coords[m2.coords_id()]) == cs
        }),
{
}

/// Reading a mesh out with `to_trimesh` leaves every buffer where it was:
/// one in host memory is not changed by loading, and one in device memory
/// only is back there after loading and unloading.
pub proof fn lemma_residency_kept<T>(m: BufferModel<T>)
    requires
        model_wf(m),
    ensures
        m.host is Some ==> residency_of(loaded(m)) == residency_of(m),
        m.host is None ==> residency_of(unloaded(loaded(m))) == residency_of(m),
{
    lemma_restore(m);
}

} // verus!
