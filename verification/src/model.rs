//! The in-memory mesh: positions, per-face index triples for
//! vertices, texture coordinates and normals.  Loading and decoding
//! the file happen outside; this module owns the invariant that
//! every face index is valid against its attribute array and every
//! attribute is within the range the pipeline accepts.
use vstd::prelude::*;

use crate::fx::FX_ONE;
use crate::vec::Vec3;
use crate::vertex::in_raster;

verus! {

pub struct Model {
    pub verts: Vec<Vec3>,
    pub faces: Vec<[usize; 3]>,
    pub texcoords: Vec<i64>,
    pub texcoords_indices: Vec<[usize; 3]>,
    pub normals: Vec<Vec3>,
    pub normal_indices: Vec<[usize; 3]>,
}

/// A position or normal the pipeline can carry.
pub open spec fn attr_vec_ok(v: Vec3) -> bool {
    in_raster(v.x) && in_raster(v.y) && in_raster(v.z)
}

/// Whether the six arrays form a mesh: equal face counts, every
/// index triple valid against its attribute array, and every
/// attribute within range (texture coordinates normalized to
/// `[0, 1]`).
pub open spec fn model_wf(
    verts: Seq<Vec3>,
    faces: Seq<[usize; 3]>,
    texcoords: Seq<i64>,
    texcoords_indices: Seq<[usize; 3]>,
    normals: Seq<Vec3>,
    normal_indices: Seq<[usize; 3]>,
) -> bool {
    &&& faces.len() == texcoords_indices.len()
    &&& faces.len() == normal_indices.len()
    &&& forall|i: int, j: int|
        0 <= i < faces.len() && 0 <= j < 3 ==> (#[trigger] faces[i][j]) < verts.len()
    &&& forall|i: int, j: int|
        0 <= i < texcoords_indices.len() && 0 <= j < 3 ==> 2 * (
        #[trigger] texcoords_indices[i][j]) + 1 < texcoords.len()
    &&& forall|i: int, j: int|
        0 <= i < normal_indices.len() && 0 <= j < 3 ==> (#[trigger] normal_indices[i][j])
            < normals.len()
    &&& forall|k: int| 0 <= k < verts.len() ==> attr_vec_ok(#[trigger] verts[k])
    &&& forall|k: int| 0 <= k < texcoords.len() ==> 0 <= (#[trigger] texcoords[k]) <= FX_ONE
    &&& forall|k: int| 0 <= k < normals.len() ==> attr_vec_ok(#[trigger] normals[k])
}

impl Model {
    pub open spec fn wf(self) -> bool {
        model_wf(
            self.verts@,
            self.faces@,
            self.texcoords@,
            self.texcoords_indices@,
            self.normals@,
            self.normal_indices@,
        )
    }

    /// Assemble a mesh from decoded attribute arrays, validating
    /// every face index and attribute range.
    pub fn new(
        verts: Vec<Vec3>,
        faces: Vec<[usize; 3]>,
        texcoords: Vec<i64>,
        texcoords_indices: Vec<[usize; 3]>,
        normals: Vec<Vec3>,
        normal_indices: Vec<[usize; 3]>,
    ) -> (r: Option<Model>)
        ensures
            r is Some <==> model_wf(
                verts@,
                faces@,
                texcoords@,
                texcoords_indices@,
                normals@,
                normal_indices@,
            ),
            r is Some ==> ({
                let m = r.unwrap();
                &&& m.wf()
                &&& m.verts@ == verts@
                &&& m.faces@ == faces@
                &&& m.texcoords@ == texcoords@
                &&& m.texcoords_indices@ == texcoords_indices@
                &&& m.normals@ == normals@
                &&& m.normal_indices@ == normal_indices@
            }),
    {
        if faces.len() != texcoords_indices.len() || faces.len() != normal_indices.len() {
            return None;
        }
        let mut i: usize = 0;
        while i < faces.len()
            invariant
                i <= faces@.len(),
                faces@.len() == texcoords_indices@.len(),
                faces@.len() == normal_indices@.len(),
                forall|i0: int, j: int|
                    0 <= i0 < i && 0 <= j < 3 ==> (#[trigger] faces@[i0][j]) < verts@.len(),
                forall|i0: int, j: int|
                    0 <= i0 < i && 0 <= j < 3 ==> 2 * (#[trigger] texcoords_indices@[i0][j]) + 1
                        < texcoords@.len(),
                forall|i0: int, j: int|
                    0 <= i0 < i && 0 <= j < 3 ==> (#[trigger] normal_indices@[i0][j])
                        < normals@.len(),
            decreases faces@.len() - i,
        {
            let f = faces[i];
            let t = texcoords_indices[i];
            let n = normal_indices[i];
            let mut j: usize = 0;
            while j < 3
                invariant
                    j <= 3,
                    f == faces@[i as int],
                    t == texcoords_indices@[i as int],
                    n == normal_indices@[i as int],
                    i < faces@.len(),
                    forall|j0: int| 0 <= j0 < j ==> (#[trigger] f[j0]) < verts@.len(),
                    forall|j0: int|
                        0 <= j0 < j ==> 2 * (#[trigger] t[j0]) + 1 < texcoords@.len(),
                    forall|j0: int| 0 <= j0 < j ==> (#[trigger] n[j0]) < normals@.len(),
                decreases 3 - j,
            {
                if f[j] >= verts.len() {
                    return None;
                }
                if t[j] >= texcoords.len() / 2 || 2 * t[j] + 1 >= texcoords.len() {
                    return None;
                }
                if n[j] >= normals.len() {
                    return None;
                }
                j += 1;
            }
            i += 1;
        }
        let mut k: usize = 0;
        while k < verts.len()
            invariant
                k <= verts@.len(),
                forall|k0: int| 0 <= k0 < k ==> attr_vec_ok(#[trigger] verts@[k0]),
            decreases verts@.len() - k,
        {
            let v = verts[k];
            if !(-0x1000_0000 <= v.x && v.x <= 0x1000_0000 && -0x1000_0000 <= v.y && v.y
                <= 0x1000_0000 && -0x1000_0000 <= v.z && v.z <= 0x1000_0000) {
                return None;
            }
            k += 1;
        }
        let mut k2: usize = 0;
        while k2 < texcoords.len()
            invariant
                k2 <= texcoords@.len(),
                forall|k0: int| 0 <= k0 < k2 ==> 0 <= (#[trigger] texcoords@[k0]) <= FX_ONE,
            decreases texcoords@.len() - k2,
        {
            let c = texcoords[k2];
            if !(0 <= c && c <= FX_ONE) {
                return None;
            }
            k2 += 1;
        }
        let mut k3: usize = 0;
        while k3 < normals.len()
            invariant
                k3 <= normals@.len(),
                forall|k0: int| 0 <= k0 < k3 ==> attr_vec_ok(#[trigger] normals@[k0]),
            decreases normals@.len() - k3,
        {
            let v = normals[k3];
            if !(-0x1000_0000 <= v.x && v.x <= 0x1000_0000 && -0x1000_0000 <= v.y && v.y
                <= 0x1000_0000 && -0x1000_0000 <= v.z && v.z <= 0x1000_0000) {
                return None;
            }
            k3 += 1;
        }
        Some(
            Model {
                verts,
                faces,
                texcoords,
                texcoords_indices,
                normals,
                normal_indices,
            },
        )
    }
}

} // verus!
