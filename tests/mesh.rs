use kiss3d::buffer::{AllocationType, BufferType, DeviceContext, DeviceError, GPUVector, Residency, ShaderAttribute};
use kiss3d::mesh::{BufferPool, Mesh, TriMesh};
use kiss3d::normals::{contribution_counts, Face, MeshError, NormalVector, Origin};

#[derive(Clone, Copy, Debug, PartialEq)]
struct Pt([f32; 3]);

#[derive(Clone, Copy, Debug, PartialEq)]
struct V3([f32; 3]);

#[derive(Clone, Copy, Debug, PartialEq)]
struct Uv([f32; 2]);

impl NormalVector<Pt> for V3 {
    fn spec_zero() -> V3 {
        <V3 as NormalVector<Pt>>::zero()
    }
    fn spec_edge(from: Pt, to: Pt) -> V3 {
        <V3 as NormalVector<Pt>>::edge(&from, &to)
    }
    fn spec_cross(a: V3, b: V3) -> V3 {
        NormalVector::<Pt>::cross(&a, &b)
    }
    fn spec_is_zero(a: V3) -> bool {
        NormalVector::<Pt>::is_zero(&a)
    }
    fn spec_normalize(a: V3) -> V3 {
        NormalVector::<Pt>::normalize(&a)
    }
    fn spec_add(a: V3, b: V3) -> V3 {
        NormalVector::<Pt>::add(&a, &b)
    }
    fn spec_div_count(a: V3, count: usize) -> V3 {
        NormalVector::<Pt>::div_count(&a, count)
    }
    fn zero() -> V3 {
        V3([0.0; 3])
    }
    fn edge(from: &Pt, to: &Pt) -> V3 {
        V3([to.0[0] - from.0[0], to.0[1] - from.0[1], to.0[2] - from.0[2]])
    }
    fn cross(&self, o: &V3) -> V3 {
        let (a, b) = (self.0, o.0);
        V3([a[1] * b[2] - a[2] * b[1], a[2] * b[0] - a[0] * b[2], a[0] * b[1] - a[1] * b[0]])
    }
    fn is_zero(&self) -> bool {
        self.0 == [0.0; 3]
    }
    fn normalize(&self) -> V3 {
        let n = (self.0[0] * self.0[0] + self.0[1] * self.0[1] + self.0[2] * self.0[2]).sqrt();
        V3([self.0[0] / n, self.0[1] / n, self.0[2] / n])
    }
    fn add(&self, o: &V3) -> V3 {
        V3([self.0[0] + o.0[0], self.0[1] + o.0[1], self.0[2] + o.0[2]])
    }
    fn div_count(&self, count: usize) -> V3 {
        let c = count as f32;
        V3([self.0[0] / c, self.0[1] / c, self.0[2] / c])
    }
}

impl Origin for Uv {
    fn spec_origin() -> Uv {
        Uv::origin()
    }
    fn origin() -> Uv {
        Uv([0.0; 2])
    }
}

fn face(x: u32, y: u32, z: u32) -> Face {
    Face { x, y, z }
}

fn triangle() -> (Vec<Pt>, Vec<Face>) {
    (vec![Pt([0.0, 0.0, 0.0]), Pt([1.0, 0.0, 0.0]), Pt([0.0, 1.0, 0.0])], vec![face(0, 1, 2)])
}

fn length(v: &V3) -> f32 {
    (v.0[0] * v.0[0] + v.0[1] * v.0[1] + v.0[2] * v.0[2]).sqrt()
}

#[test]
fn triangle_normals_point_up() {
    let (cs, fs) = triangle();
    let ns: Vec<V3> = Mesh::compute_normals_array(&cs, &fs).unwrap();
    assert_eq!(ns, vec![V3([0.0, 0.0, 1.0]); 3]);
}

#[test]
fn face_normal_is_unit_length() {
    let cs = vec![Pt([0.0, 0.0, 0.0]), Pt([3.0, 0.0, 0.0]), Pt([0.0, 0.0, 5.0])];
    let ns: Vec<V3> = Mesh::compute_normals_array(&cs, &vec![face(0, 1, 2)]).unwrap();
    for n in &ns {
        assert!((length(n) - 1.0).abs() < 1e-6);
    }
    assert_eq!(ns[0], V3([0.0, -1.0, 0.0]));
}

#[test]
fn degenerate_face_contributes_zero() {
    let cs = vec![Pt([0.0, 0.0, 0.0]), Pt([1.0, 1.0, 1.0]), Pt([2.0, 2.0, 2.0])];
    let ns: Vec<V3> = Mesh::compute_normals_array(&cs, &vec![face(0, 1, 2)]).unwrap();
    assert_eq!(ns, vec![V3([0.0; 3]); 3]);
}

#[test]
fn shared_vertex_gets_mean_of_face_normals() {
    let cs = vec![
        Pt([0.0, 0.0, 0.0]),
        Pt([1.0, 0.0, 0.0]),
        Pt([0.0, 1.0, 0.0]),
        Pt([0.0, 0.0, 1.0]),
    ];
    // (0,1,2) has normal +z; (0,2,3) has normal +x.
    let ns: Vec<V3> = Mesh::compute_normals_array(&cs, &vec![face(0, 1, 2), face(0, 2, 3)]).unwrap();
    assert_eq!(ns[0], V3([0.5, 0.0, 0.5]));
    assert_eq!(ns[1], V3([0.0, 0.0, 1.0]));
    assert_eq!(ns[2], V3([0.5, 0.0, 0.5]));
    assert_eq!(ns[3], V3([1.0, 0.0, 0.0]));
}

#[test]
fn vertex_of_no_face_keeps_zero() {
    let (mut cs, fs) = triangle();
    cs.push(Pt([5.0, 5.0, 5.0]));
    let ns: Vec<V3> = Mesh::compute_normals_array(&cs, &fs).unwrap();
    assert_eq!(ns.len(), 4);
    assert_eq!(ns[3], V3([0.0; 3]));
}

#[test]
fn compute_normals_refuses_out_of_range_face() {
    let (cs, _) = triangle();
    let mut ns = vec![V3([9.0; 3])];
    let r = Mesh::compute_normals(&cs, &vec![face(0, 1, 3)], &mut ns);
    assert_eq!(r, Err(MeshError::FaceIndexOutOfRange));
    assert_eq!(ns, vec![V3([9.0; 3])]);
    assert_eq!(Mesh::compute_normals(&cs, &vec![face(0, 1, 2)], &mut ns), Ok(()));
    assert_eq!(ns.len(), 3);
}

#[test]
fn counts_corners_per_vertex() {
    let fs = vec![face(0, 1, 2), face(0, 2, 3), face(3, 3, 0)];
    assert_eq!(contribution_counts(5, &fs), Ok(vec![3, 1, 2, 3, 0]));
    assert_eq!(contribution_counts(3, &fs), Err(MeshError::FaceIndexOutOfRange));
}

#[test]
fn hundred_vertices_without_faces() {
    let mut pool: BufferPool<Pt, V3, Uv> = BufferPool::new();
    let cs: Vec<Pt> = (0..100).map(|i| Pt([i as f32, 0.0, 0.0])).collect();
    let m = Mesh::new(&mut pool, cs, vec![], None, None, false).unwrap();
    assert_eq!(m.num_pts(&pool), 0);
    assert_eq!(m.recompute_normals(&mut pool), Ok(()));
    let ns = pool.normals_buffer(m.normals()).unwrap().to_owned().unwrap();
    assert_eq!(ns, vec![V3([0.0; 3]); 100]);
}

#[test]
fn recompute_normals_keeps_one_per_vertex() {
    let mut pool: BufferPool<Pt, V3, Uv> = BufferPool::new();
    let (cs, fs) = triangle();
    let m = Mesh::new(&mut pool, cs, fs, Some(vec![V3([1.0, 0.0, 0.0]); 3]), None, true).unwrap();
    assert_eq!(m.num_pts(&pool), 3);
    assert_eq!(m.recompute_normals(&mut pool), Ok(()));
    let ns = pool.normals_buffer(m.normals()).unwrap().to_owned().unwrap();
    assert_eq!(ns, vec![V3([0.0, 0.0, 1.0]); 3]);
}

#[test]
fn new_fills_defaults_and_policy() {
    let mut pool: BufferPool<Pt, V3, Uv> = BufferPool::new();
    let (cs, fs) = triangle();
    let m = Mesh::new(&mut pool, cs, fs, None, None, true).unwrap();
    let uvs = pool.uvs_buffer(m.uvs()).unwrap();
    assert_eq!(uvs.to_owned().unwrap(), vec![Uv([0.0; 2]); 3]);
    assert_eq!(uvs.alloc_type(), AllocationType::DynamicDraw);
    let faces = pool.faces_buffer(m.faces()).unwrap();
    assert_eq!(faces.buf_type(), BufferType::ElementArray);
    assert_eq!(faces.residency(), Residency::HostOnly);
    let ns = pool.normals_buffer(m.normals()).unwrap().to_owned().unwrap();
    assert_eq!(ns, vec![V3([0.0, 0.0, 1.0]); 3]);
}

#[test]
fn new_refuses_bad_input() {
    let mut pool: BufferPool<Pt, V3, Uv> = BufferPool::new();
    let (cs, _) = triangle();
    let r = Mesh::new(&mut pool, cs.clone(), vec![face(0, 1, 7)], None, None, false);
    assert_eq!(r, Err(MeshError::FaceIndexOutOfRange));
    let r = Mesh::new(&mut pool, cs.clone(), vec![face(0, 1, 2)], Some(vec![V3([0.0; 3]); 2]), None, false);
    assert_eq!(r, Err(MeshError::AttributeLengthMismatch));
    let r = Mesh::new(&mut pool, cs, vec![face(0, 1, 2)], None, Some(vec![Uv([0.0; 2]); 4]), false);
    assert_eq!(r, Err(MeshError::AttributeLengthMismatch));
    assert!(pool.coords_buffer(0).is_none());
}

#[test]
fn round_trip_keeps_coords_and_faces() {
    let mut pool: BufferPool<Pt, V3, Uv> = BufferPool::new();
    let cs = vec![Pt([0.0, 0.0, 0.0]), Pt([1.0, 0.0, 0.0]), Pt([0.0, 1.0, 0.0]), Pt([0.0, 0.0, 1.0])];
    let fs = vec![face(0, 1, 2), face(0, 2, 3)];
    let m = Mesh::new(&mut pool, cs.clone(), fs.clone(), None, None, false).unwrap();
    let t = m.to_trimesh(&mut pool).unwrap();
    assert_eq!(t.coords, cs);
    assert_eq!(t.faces, fs);
    let m2 = Mesh::from_trimesh(&mut pool, t, false).unwrap();
    assert_ne!(m2.coords(), m.coords());
    assert_eq!(pool.coords_buffer(m2.coords()).unwrap().to_owned().unwrap(), cs);
    assert_eq!(pool.faces_buffer(m2.faces()).unwrap().to_owned().unwrap(), fs);
}

#[test]
fn from_trimesh_computes_missing_normals() {
    let mut pool: BufferPool<Pt, V3, Uv> = BufferPool::new();
    let (cs, fs) = triangle();
    let t = TriMesh { coords: cs, normals: None, uvs: None, faces: fs };
    let m = Mesh::from_trimesh(&mut pool, t, false).unwrap();
    let ns = pool.normals_buffer(m.normals()).unwrap().to_owned().unwrap();
    assert_eq!(ns, vec![V3([0.0, 0.0, 1.0]); 3]);
}

#[test]
fn load_to_ram_twice_same_as_once() {
    let mut ctx = DeviceContext::new();
    let mut v = GPUVector::new(vec![1u32, 2, 3], BufferType::Array, AllocationType::StaticDraw);
    assert_eq!(v.bind(&mut ctx), Ok(()));
    v.unload_from_ram();
    assert!(!v.is_on_ram());
    assert_eq!(v.to_owned(), None);
    assert_eq!(v.len(), 3);
    v.load_to_ram();
    let once = v.to_owned();
    v.load_to_ram();
    assert_eq!(v.to_owned(), once);
    assert_eq!(once, Some(vec![1, 2, 3]));
    assert_eq!(v.residency(), Residency::Both);
}

#[test]
fn unload_without_device_copy_keeps_data() {
    let mut v = GPUVector::new(vec![4u32, 5], BufferType::Array, AllocationType::StaticDraw);
    v.unload_from_ram();
    assert_eq!(v.residency(), Residency::HostOnly);
    assert_eq!(v.to_owned(), Some(vec![4, 5]));
}

#[test]
fn unload_of_stale_device_copy_keeps_data() {
    let mut ctx = DeviceContext::new();
    let mut v = GPUVector::new(vec![4u32, 5], BufferType::Array, AllocationType::StaticDraw);
    v.bind(&mut ctx).unwrap();
    v.set_data(vec![6, 7, 8]);
    v.unload_from_ram();
    assert_eq!(v.to_owned(), Some(vec![6, 7, 8]));
    v.bind(&mut ctx).unwrap();
    assert_eq!(v.handle(), Some(1));
    v.unload_from_ram();
    v.load_to_ram();
    assert_eq!(v.to_owned(), Some(vec![6, 7, 8]));
}

#[test]
fn to_trimesh_keeps_residency() {
    let mut pool: BufferPool<Pt, V3, Uv> = BufferPool::new();
    let mut ctx = DeviceContext::new();
    let (cs, fs) = triangle();
    let m = Mesh::new(&mut pool, cs.clone(), fs.clone(), None, None, false).unwrap();
    let (mut a, mut b, mut c) = (ShaderAttribute::new(0), ShaderAttribute::new(1), ShaderAttribute::new(2));
    assert_eq!(m.bind(&mut pool, &mut ctx, &mut a, &mut b, &mut c), Ok(()));
    m.unload_from_ram(&mut pool);
    // Put the texture coordinates back in host memory only.
    pool.set_uvs(m.uvs(), vec![Uv([1.0, 1.0]); 3]).unwrap();
    let before = [
        pool.coords_buffer(m.coords()).unwrap().residency(),
        pool.faces_buffer(m.faces()).unwrap().residency(),
        pool.normals_buffer(m.normals()).unwrap().residency(),
        pool.uvs_buffer(m.uvs()).unwrap().residency(),
    ];
    assert_eq!(before, [Residency::DeviceOnly, Residency::DeviceOnly, Residency::DeviceOnly, Residency::Both]);
    let t = m.to_trimesh(&mut pool).unwrap();
    assert_eq!(t.coords, cs);
    assert_eq!(t.faces, fs);
    assert_eq!(t.uvs, Some(vec![Uv([1.0, 1.0]); 3]));
    let after = [
        pool.coords_buffer(m.coords()).unwrap().residency(),
        pool.faces_buffer(m.faces()).unwrap().residency(),
        pool.normals_buffer(m.normals()).unwrap().residency(),
        pool.uvs_buffer(m.uvs()).unwrap().residency(),
    ];
    assert_eq!(after, before);
}

#[test]
fn recompute_needs_host_data() {
    let mut pool: BufferPool<Pt, V3, Uv> = BufferPool::new();
    let mut ctx = DeviceContext::new();
    let (cs, fs) = triangle();
    let m = Mesh::new(&mut pool, cs, fs, None, None, false).unwrap();
    let (mut a, mut b, mut c) = (ShaderAttribute::new(0), ShaderAttribute::new(1), ShaderAttribute::new(2));
    m.bind(&mut pool, &mut ctx, &mut a, &mut b, &mut c).unwrap();
    m.unload_from_ram(&mut pool);
    assert_eq!(m.recompute_normals(&mut pool), Err(MeshError::NotOnHost));
    m.load_to_ram(&mut pool);
    assert_eq!(m.recompute_normals(&mut pool), Ok(()));
}

#[test]
fn recompute_refuses_malformed_faces() {
    let mut pool: BufferPool<Pt, V3, Uv> = BufferPool::new();
    let (cs, fs) = triangle();
    let m = Mesh::new(&mut pool, cs, fs, None, None, false).unwrap();
    pool.set_faces(m.faces(), vec![face(0, 1, 3)]).unwrap();
    assert_eq!(m.recompute_normals(&mut pool), Err(MeshError::FaceIndexOutOfRange));
}

#[test]
fn unknown_buffer_ids() {
    let mut pool: BufferPool<Pt, V3, Uv> = BufferPool::new();
    let m = Mesh::new_with_gpu_vectors(0, 0, 0, 0);
    assert!(!m.is_valid_in(&pool));
    assert!(m.to_trimesh(&mut pool).is_none());
    assert_eq!(m.recompute_normals(&mut pool), Err(MeshError::UnknownBuffer));
    assert_eq!(pool.set_coords(0, vec![]), Err(MeshError::UnknownBuffer));
    assert_eq!(pool.set_faces(3, vec![]), Err(MeshError::UnknownBuffer));
}

#[test]
fn shared_coords_distinct_faces() {
    let mut pool: BufferPool<Pt, V3, Uv> = BufferPool::new();
    let cs = vec![Pt([0.0, 0.0, 0.0]), Pt([1.0, 0.0, 0.0]), Pt([0.0, 1.0, 0.0]), Pt([0.0, 0.0, 1.0])];
    let m = Mesh::new(&mut pool, cs.clone(), vec![face(0, 1, 2)], None, None, false).unwrap();
    let f2 = pool.add_faces(GPUVector::new(vec![face(0, 2, 3)], BufferType::ElementArray, AllocationType::StaticDraw)).unwrap();
    let m2 = Mesh::new_with_gpu_vectors(m.coords(), f2, m.normals(), m.uvs());
    pool.set_faces(m.faces(), vec![face(1, 2, 3)]).unwrap();
    assert_eq!(pool.coords_buffer(m2.coords()).unwrap().to_owned().unwrap(), cs);
    assert_eq!(pool.faces_buffer(m2.faces()).unwrap().to_owned().unwrap(), vec![face(0, 2, 3)]);
    let moved = vec![Pt([2.0, 0.0, 0.0]); 4];
    pool.set_coords(m.coords(), moved.clone()).unwrap();
    assert_eq!(m2.to_trimesh(&mut pool).unwrap().coords, moved);
    assert_eq!(m.to_trimesh(&mut pool).unwrap().coords, moved);
}

#[test]
fn bind_order_and_handles() {
    let mut pool: BufferPool<Pt, V3, Uv> = BufferPool::new();
    let mut ctx = DeviceContext::new();
    let (cs, fs) = triangle();
    let m = Mesh::new(&mut pool, cs, fs, None, None, false).unwrap();
    let (mut a, mut b, mut c) = (ShaderAttribute::new(0), ShaderAttribute::new(1), ShaderAttribute::new(2));
    m.bind(&mut pool, &mut ctx, &mut a, &mut b, &mut c).unwrap();
    assert_eq!((a.source, b.source, c.source), (Some(1), Some(2), Some(3)));
    assert_eq!(ctx.bound_element, Some(4));
    assert_eq!(ctx.bound_array, Some(3));
    assert_eq!(ctx.next_handle, 5);
    m.bind(&mut pool, &mut ctx, &mut a, &mut b, &mut c).unwrap();
    assert_eq!(ctx.next_handle, 5);
    m.unbind(&pool, &mut ctx);
    assert_eq!((ctx.bound_array, ctx.bound_element), (None, None));
}

#[test]
fn bind_fails_when_handles_run_out() {
    let mut ctx = DeviceContext::new();
    ctx.next_handle = u64::MAX;
    let mut v = GPUVector::new(vec![1u32], BufferType::Array, AllocationType::StaticDraw);
    let mut attr = ShaderAttribute::new(3);
    assert_eq!(attr.bind(&mut v, &mut ctx), Err(DeviceError::HandlesExhausted));
    assert_eq!(attr.source, None);
    assert!(!v.is_on_gpu());
}

#[test]
fn pool_refuses_buffers_of_the_wrong_role() {
    let mut pool: BufferPool<Pt, V3, Uv> = BufferPool::new();
    let f = GPUVector::new(vec![face(0, 1, 2)], BufferType::Array, AllocationType::StaticDraw);
    assert_eq!(pool.add_faces(f), Err(MeshError::WrongBufferType));
    let c = GPUVector::new(vec![Pt([0.0; 3])], BufferType::ElementArray, AllocationType::StaticDraw);
    assert_eq!(pool.add_coords(c), Err(MeshError::WrongBufferType));
    let n = GPUVector::new(vec![V3([0.0; 3])], BufferType::Array, AllocationType::StaticDraw);
    assert_eq!(pool.add_normals(n), Ok(0));
    assert!(pool.faces_buffer(0).is_none());
}

#[test]
fn release_device_keeps_data_and_returns_handles() {
    let mut pool: BufferPool<Pt, V3, Uv> = BufferPool::new();
    let mut ctx = DeviceContext::new();
    let (cs, fs) = triangle();
    let m = Mesh::new(&mut pool, cs.clone(), fs, None, None, false).unwrap();
    let (mut a, mut b, mut c) = (ShaderAttribute::new(0), ShaderAttribute::new(1), ShaderAttribute::new(2));
    m.bind(&mut pool, &mut ctx, &mut a, &mut b, &mut c).unwrap();
    m.unload_from_ram(&mut pool);
    assert_eq!(m.release_device(&mut pool), (Some(1), Some(4), Some(2), Some(3)));
    let coords = pool.coords_buffer(m.coords()).unwrap();
    assert_eq!(coords.residency(), Residency::HostOnly);
    assert_eq!(coords.to_owned(), Some(cs));
    assert_eq!(m.release_device(&mut pool), (None, None, None, None));
    m.bind(&mut pool, &mut ctx, &mut a, &mut b, &mut c).unwrap();
    assert_eq!(a.source, Some(5));
}
