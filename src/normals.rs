//! Triangles, their validity against a vertex count, and the per-vertex
//! counts that face-averaged normals are divided by.

use vstd::prelude::*;

verus! {

/// One triangle, as three indices into a vertex array.
#[derive(Clone, Copy, Debug, PartialEq, Eq, Structural)]
pub struct Face {
    pub x: u32,
    pub y: u32,
    pub z: u32,
}

/// Why a mesh operation could not be carried out.
#[derive(Clone, Copy, Debug, PartialEq, Eq, Structural)]
pub enum MeshError {
    /// A face names a vertex that the coordinates do not have.
    FaceIndexOutOfRange,
    /// Normals or texture coordinates do not have one entry per vertex.
    AttributeLengthMismatch,
    /// More faces than three corners each can be counted for.
    TooManyFaces,
    /// The data needed is not in host memory.
    NotOnHost,
    /// A buffer id names no buffer of the pool.
    UnknownBuffer,
    /// A buffer has another role than the one it is added for: faces are
    /// an index buffer, the other arrays vertex attribute buffers.
    WrongBufferType,
}

/// Vector arithmetic for normals of type `Self` over points of type `P`.
/// Each operation is a function of its arguments, named by a spec function.
pub trait NormalVector<P>: Sized + Copy {
    spec fn spec_zero() -> Self;

    spec fn spec_edge(from: P, to: P) -> Self;

    spec fn spec_cross(a: Self, b: Self) -> Self;

    spec fn spec_is_zero(a: Self) -> bool;

    spec fn spec_normalize(a: Self) -> Self;

    spec fn spec_add(a: Self, b: Self) -> Self;

    spec fn spec_div_count(a: Self, count: usize) -> Self;

    /// The zero vector.
    fn zero() -> (r: Self)
        ensures
            r == Self::spec_zero(),
    ;

    /// The vector from `from` to `to`.
    fn edge(from: &P, to: &P) -> (r: Self)
        ensures
            r == Self::spec_edge(*from, *to),
    ;

    fn cross(&self, other: &Self) -> (r: Self)
        ensures
            r == Self::spec_cross(*self, *other),
    ;

    fn is_zero(&self) -> (r: bool)
        ensures
            r == Self::spec_is_zero(*self),
    ;

    /// `self` scaled to unit length; called on non-zero vectors only.
    fn normalize(&self) -> (r: Self)
        ensures
            r == Self::spec_normalize(*self),
    ;

    fn add(&self, other: &Self) -> (r: Self)
        ensures
            r == Self::spec_add(*self, *other),
    ;

    /// `self` divided by `count`; called with a positive count only.
    fn div_count(&self, count: usize) -> (r: Self)
        ensures
            r == Self::spec_div_count(*self, count),
    ;
}

/// A value standing for the origin of a space (the default texture coordinate).
pub trait Origin: Sized + Copy {
    spec fn spec_origin() -> Self;

    fn origin() -> (r: Self)
        ensures
            r == Self::spec_origin(),
    ;
}

/// The normal that face `f` of a mesh with vertices `c` contributes: the
/// unit normal of its plane, or the zero cross product of a degenerate face.
pub open spec fn face_normal<P, N: NormalVector<P>>(c: Seq<P>, f: Face) -> N {
    let k = N::spec_cross(
        N::spec_edge(c[f.x as int], c[f.y as int]),
        N::spec_edge(c[f.x as int], c[f.z as int]),
    );
    if N::spec_is_zero(k) {
        k
    } else {
        N::spec_normalize(k)
    }
}

/// `acc` with `w` added once for each corner of `f` at vertex `v`, corners
/// taken in the order x, y, z.
pub open spec fn add_at<P, N: NormalVector<P>>(acc: N, f: Face, v: int, w: N) -> N {
    let a1 = if f.x as int == v { N::spec_add(acc, w) } else { acc };
    let a2 = if f.y as int == v { N::spec_add(a1, w) } else { a1 };
    if f.z as int == v { N::spec_add(a2, w) } else { a2 }
}

/// The sum, from the zero vector and in face order, of the normals of the
/// faces at vertex `v`, one term per corner.
pub open spec fn face_sum<P, N: NormalVector<P>>(c: Seq<P>, faces: Seq<Face>, v: int) -> N
    decreases faces.len(),
{
    if faces.len() == 0 {
        N::spec_zero()
    } else {
        add_at::<P, N>(face_sum::<P, N>(c, faces.drop_last(), v), faces.last(), v, face_normal::<P, N>(c, faces.last()))
    }
}

/// The face-averaged normal of vertex `v`: the sum of the normals of its
/// faces divided by their number, or the zero vector for a vertex of no face.
pub open spec fn mean_normal<P, N: NormalVector<P>>(c: Seq<P>, faces: Seq<Face>, v: int) -> N {
    if corner_count(faces, v) == 0 {
        N::spec_zero()
    } else {
        N::spec_div_count(face_sum::<P, N>(c, faces, v), corner_count(faces, v) as usize)
    }
}

/// The face-averaged normals of all vertices of `c`.
pub open spec fn face_averaged<P, N: NormalVector<P>>(c: Seq<P>, faces: Seq<Face>) -> Seq<N> {
    Seq::new(c.len(), |v: int| mean_normal::<P, N>(c, faces, v))
}

/// `n` copies of the origin.
pub open spec fn origins<U: Origin>(n: nat) -> Seq<U> {
    Seq::new(n, |i: int| U::spec_origin())
}

pub open spec fn face_in_range(f: Face, n: int) -> bool {
    &&& (f.x as int) < n
    &&& (f.y as int) < n
    &&& (f.z as int) < n
}

/// Every face names vertices below `n` only.
pub open spec fn faces_in_range(faces: Seq<Face>, n: int) -> bool {
    forall|i: int| 0 <= i < faces.len() ==> face_in_range(#[trigger] faces[i], n)
}

/// How many corners of `f` are vertex `v`.
pub open spec fn corners_at(f: Face, v: int) -> nat {
    (if f.x as int == v { 1nat } else { 0nat }) + (if f.y as int == v { 1nat } else { 0nat }) + (
    if f.z as int == v {
        1nat
    } else {
        0nat
    })
}

/// How many face corners, over all of `faces`, are vertex `v`.
pub open spec fn corner_count(faces: Seq<Face>, v: int) -> nat
    decreases faces.len(),
{
    if faces.len() == 0 {
        0
    } else {
        corner_count(faces.drop_last(), v) + corners_at(faces.last(), v)
    }
}

pub proof fn lemma_corner_count_bound(faces: Seq<Face>, v: int)
    ensures
        corner_count(faces, v) <= 3 * faces.len(),
    decreases faces.len(),
{
    if faces.len() > 0 {
        lemma_corner_count_bound(faces.drop_last(), v);
    }
}

/// Returns whether every face names vertices below `n` only.
pub fn faces_within(faces: &Vec<Face>, n: usize) -> (r: bool)
    ensures
        r == faces_in_range(faces@, n as int),
{
    let mut i: usize = 0;
    while i < faces.len()
        invariant
            i <= faces@.len(),
            faces_in_range(faces@.subrange(0, i as int), n as int),
        decreases faces@.len() - i,
    {
        let f = faces[i];
        if !((f.x as usize) < n) {
            assert(!face_in_range(faces@[i as int], n as int));
            return false;
        }
        if !((f.y as usize) < n) {
            assert(!face_in_range(faces@[i as int], n as int));
            return false;
        }
        if !((f.z as usize) < n) {
            assert(!face_in_range(faces@[i as int], n as int));
            return false;
        }
        proof {
            assert forall|j: int| 0 <= j < i + 1 implies face_in_range(
                #[trigger] faces@.subrange(0, i + 1)[j],
                n as int,
            ) by {
                if j < i {
                    assert(faces@.subrange(0, i + 1)[j] == faces@.subrange(0, i as int)[j]);
                }
            }
        }
        i += 1;
    }
    assert(faces@.subrange(0, i as int) =~= faces@);
    true
}

fn bump(counts: &mut Vec<usize>, k: usize)
    requires
        k < old(counts)@.len(),
        old(counts)@[k as int] < usize::MAX,
    ensures
        final(counts)@ == old(counts)@.update(k as int, (old(counts)@[k as int] + 1) as usize),
{
    counts.set(k, counts[k] + 1);
}

/// For each of `n` vertices, how many face corners are that vertex: the
/// number of face normals that its mean is taken over.
pub fn contribution_counts(n: usize, faces: &Vec<Face>) -> (r: Result<Vec<usize>, MeshError>)
    requires
        3 * faces@.len() <= usize::MAX,
    ensures
        r is Ok <==> faces_in_range(faces@, n as int),
        r is Err ==> r == Err::<Vec<usize>, MeshError>(MeshError::FaceIndexOutOfRange),
        r is Ok ==> r->Ok_0@.len() == n && forall|v: int|
            0 <= v < n ==> #[trigger] r->Ok_0@[v] == corner_count(faces@, v),
{
    if !faces_within(faces, n) {
        return Err(MeshError::FaceIndexOutOfRange);
    }
    let mut counts: Vec<usize> = Vec::with_capacity(n);
    let mut k: usize = 0;
    while k < n
        invariant
            k <= n,
            counts@.len() == k,
            forall|v: int| 0 <= v < k ==> #[trigger] counts@[v] == 0,
        decreases n - k,
    {
        counts.push(0);
        k += 1;
    }
    let mut i: usize = 0;
    while i < faces.len()
        invariant
            i <= faces@.len(),
            3 * faces@.len() <= usize::MAX,
            faces_in_range(faces@, n as int),
            counts@.len() == n,
            forall|v: int|
                0 <= v < n ==> #[trigger] counts@[v] == corner_count(faces@.subrange(0, i as int), v),
        decreases faces@.len() - i,
    {
        let f = faces[i];
        assert(face_in_range(faces@[i as int], n as int));
        let ghost pre = counts@;
        proof {
            assert forall|v: int| 0 <= v < n implies #[trigger] pre[v] <= 3 * i by {
                lemma_corner_count_bound(faces@.subrange(0, i as int), v);
            }
        }
        bump(&mut counts, f.x as usize);
        bump(&mut counts, f.y as usize);
        bump(&mut counts, f.z as usize);
        proof {
            let s = faces@.subrange(0, i + 1);
            assert(s.drop_last() =~= faces@.subrange(0, i as int));
            assert(s.last() == f);
            assert forall|v: int| 0 <= v < n implies #[trigger] counts@[v] == corner_count(s, v) by {
                assert(corner_count(s, v) == corner_count(faces@.subrange(0, i as int), v)
                    + corners_at(f, v));
            }
        }
        i += 1;
    }
    assert(faces@.subrange(0, i as int) =~= faces@);
    Ok(counts)
}

/// A mesh without faces has one normal per vertex, each the zero vector.
pub proof fn lemma_faceless_normals_zero<P, N: NormalVector<P>>(c: Seq<P>)
    ensures
        face_averaged::<P, N>(c, Seq::empty()).len() == c.len(),
        forall|v: int| 0 <= v < c.len() ==> #[trigger] face_averaged::<P, N>(c, Seq::empty())[v] == N::spec_zero(),
{
}

/// A degenerate face, whose edge cross product is zero, contributes that
/// zero cross product unnormalized.
pub proof fn lemma_degenerate_face_contributes_zero<P, N: NormalVector<P>>(c: Seq<P>, f: Face)
    requires
        N::spec_is_zero(
            N::spec_cross(N::spec_edge(c[f.x as int], c[f.y as int]), N::spec_edge(c[f.x as int], c[f.z as int])),
        ),
    ensures
        face_normal::<P, N>(c, f) == N::spec_cross(
            N::spec_edge(c[f.x as int], c[f.y as int]),
            N::spec_edge(c[f.x as int], c[f.z as int]),
        ),
{
}

} // verus!
