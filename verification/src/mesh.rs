//! The finished surface: a vertex buffer, a triangle buffer over it and,
//! where they were computed, one normal for each vertex.

use vstd::prelude::*;
use crate::error::MeshError;

verus! {

/// Whether `triangles` is a mesh over the vertex buffer `vertices`: the buffer
/// holds whole vertices, three of them or more, there is at least one
/// triangle, the indices come in triples, and each names a vertex of the
/// buffer and fits in 32 bits.
pub open spec fn is_surface(vertices: Seq<u64>, triangles: Seq<usize>) -> bool {
    &&& vertices.len() % 3 == 0
    &&& vertices.len() >= 9
    &&& triangles.len() > 0
    &&& triangles.len() % 3 == 0
    &&& forall|i: int|
        0 <= i < triangles.len() ==> 3 * (#[trigger] triangles[i]) + 2 < vertices.len()
            && triangles[i] <= u32::MAX
}

/// The three values of a flat buffer that make up its item `i`. An item that
/// the buffer does not hold in full is not to be asked for.
pub fn get_v3<T: Copy>(buffer: &Vec<T>, i: usize) -> (r: [T; 3])
    requires
        3 * i + 2 < buffer@.len(),
    ensures
        r@ == buffer@.subrange(3 * i, 3 * i + 3),
{
    assert(buffer@.len() == buffer.len());
    let j: usize = i * 3;
    let r = [buffer[j], buffer[j + 1], buffer[j + 2]];
    assert(r@ =~= buffer@.subrange(3 * i, 3 * i + 3));
    r
}

/// The buffers of a surface, ready to be handed to a renderer. Vertex `i`
/// lies at offsets `3 * i` to `3 * i + 2` of the coordinates, triangle `i` at
/// the same offsets of the triangle buffer, and a normal where its vertex does.
#[derive(Debug)]
pub struct MarshallGeometry {
    geo_3d: Vec<u64>,
    _triangles: Vec<u32>,
    normals: Option<Vec<u64>>,
}

impl MarshallGeometry {
    /// The vertex buffer.
    pub closed spec fn vertices(self) -> Seq<u64> {
        self.geo_3d@
    }

    /// The triangle buffer.
    pub closed spec fn indices(self) -> Seq<u32> {
        self._triangles@
    }

    /// The normal buffer, where normals were attached.
    pub closed spec fn normal_buffer(self) -> Option<Seq<u64>> {
        match self.normals {
            Some(normals) => Some(normals@),
            None => None,
        }
    }

    /// What holds of every surface: whole vertices, three of them or more,
    /// whole triangles and at least one of them, every index below the vertex
    /// count, and as many normal scalars as vertex scalars.
    pub open spec fn wf(self) -> bool {
        &&& self.vertices().len() % 3 == 0
        &&& self.vertices().len() >= 9
        &&& self.indices().len() > 0
        &&& self.indices().len() % 3 == 0
        &&& forall|i: int|
            0 <= i < self.indices().len() ==> 3 * (#[trigger] self.indices()[i]) + 2
                < self.vertices().len()
        &&& self.normal_buffer() matches Some(normals) ==> normals.len() == self.vertices().len()
    }

    #[verifier::type_invariant]
    spec fn inv(self) -> bool {
        self.wf()
    }

    /// The flat vertex buffer.
    pub fn coordinates(&self) -> (r: &Vec<u64>)
        ensures
            r@ == self.vertices(),
            self.wf(),
    {
        proof {
            use_type_invariant(self);
        }
        &self.geo_3d
    }

    /// The flat triangle buffer.
    pub fn triangles(&self) -> (r: &Vec<u32>)
        ensures
            r@ == self.indices(),
            self.wf(),
    {
        proof {
            use_type_invariant(self);
        }
        &self._triangles
    }

    /// The flat normal buffer, where normals were attached.
    pub fn normals(&self) -> (r: Option<&Vec<u64>>)
        ensures
            match r {
                Some(normals) => self.normal_buffer() == Some(normals@),
                None => self.normal_buffer() is None,
            },
            self.wf(),
    {
        proof {
            use_type_invariant(self);
        }
        self.normals.as_ref()
    }

    /// The number of vertices.
    pub fn vertex_count(&self) -> (n: usize)
        ensures
            n == self.vertices().len() / 3,
    {
        self.geo_3d.len() / 3
    }

    /// Attaches a normal buffer if it holds one scalar for each scalar of the
    /// vertex buffer, and says whether it did. A buffer of another length
    /// leaves the surface as it was.
    pub fn set_normals(&mut self, normals: Vec<u64>) -> (attached: bool)
        ensures
            attached == (normals@.len() == old(self).vertices().len()),
            final(self).vertices() == old(self).vertices(),
            final(self).indices() == old(self).indices(),
            final(self).normal_buffer() == if attached {
                Some(normals@)
            } else {
                old(self).normal_buffer()
            },
            final(self).wf(),
    {
        proof {
            use_type_invariant(&*self);
        }
        if normals.len() == self.geo_3d.len() {
            self.normals = Some(normals);
            true
        } else {
            false
        }
    }
}

/// Makes a surface of a vertex buffer and the triangles computed over its
/// points. The triangles are taken as they are, in their winding order, each
/// index narrowed to 32 bits. What is not a mesh over the vertices, an empty
/// triangle list too, is refused: no partial surface is made.
pub fn marshall_geometry(geo_3d: Vec<u64>, triangles: Vec<usize>) -> (r: Result<MarshallGeometry, MeshError>)
    ensures
        r is Ok <==> is_surface(geo_3d@, triangles@),
        r matches Err(e) ==> e == MeshError::TriangulationFailed,
        r matches Ok(surface) ==> surface.wf() && surface.vertices() == geo_3d@
            && surface.normal_buffer() is None && surface.indices().len() == triangles@.len(),
        r matches Ok(surface) ==> forall|i: int|
            0 <= i < triangles@.len() ==> #[trigger] surface.indices()[i] == triangles@[i],
{
    if geo_3d.len() % 3 != 0 || geo_3d.len() < 9 || triangles.len() == 0 || triangles.len() % 3
        != 0 {
        return Err(MeshError::TriangulationFailed);
    }
    let count: usize = geo_3d.len() / 3;
    let mut narrow: Vec<u32> = Vec::new();
    let mut i: usize = 0;
    while i < triangles.len()
        invariant
            i <= triangles.len(),
            count == geo_3d.len() / 3,
            geo_3d.len() % 3 == 0,
            narrow@.len() == i,
            forall|k: int| 0 <= k < i ==> #[trigger] narrow@[k] == triangles@[k],
            forall|k: int|
                0 <= k < i ==> 3 * (#[trigger] triangles@[k]) + 2 < geo_3d@.len() && triangles@[k]
                    <= u32::MAX,
        decreases triangles.len() - i,
    {
        let t: usize = triangles[i];
        if t >= count || t > u32::MAX as usize {
            assert(!(3 * triangles@[i as int] + 2 < geo_3d@.len() && triangles@[i as int]
                <= u32::MAX));
            return Err(MeshError::TriangulationFailed);
        }
        narrow.push(t as u32);
        i += 1;
    }
    Ok(MarshallGeometry { geo_3d, _triangles: narrow, normals: None })
}

/// Every index of a surface's triangle buffer names one of its vertices, and
/// the buffer holds whole triangles.
pub proof fn lemma_indices_name_vertices(surface: MarshallGeometry, i: int)
    requires
        surface.wf(),
        0 <= i < surface.indices().len(),
    ensures
        surface.indices()[i] < surface.vertices().len() / 3,
        surface.indices().len() % 3 == 0,
{
}

/// A surface is never empty: it has a triangle, and three vertices or more.
pub proof fn lemma_surface_not_empty(surface: MarshallGeometry)
    requires
        surface.wf(),
    ensures
        surface.indices().len() >= 3,
        surface.vertices().len() / 3 >= 3,
{
}

} // verus!
