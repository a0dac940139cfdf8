//! Static geometry and its one-shot upload: a mesh holds its vertex bytes
//! until they are copied into a host-visible device buffer, after which the
//! host copy is discarded and only the device-side resource remains.

use vstd::prelude::*;

use crate::errors::AllocatorError;

verus! {

/// Bytes per vertex: position, normal and color, three 32-bit components
/// each.
pub const VERTEX_STRIDE: usize = 36;

/// Vertex bytes that can be uploaded: nonempty, a whole number of vertices,
/// and few enough of them for the 32-bit count a draw call takes.
pub open spec fn valid_vertex_bytes(bytes: Seq<u8>) -> bool {
    &&& bytes.len() > 0
    &&& (bytes.len() as int) % (VERTEX_STRIDE as int) == 0
    &&& (bytes.len() as int) / (VERTEX_STRIDE as int) <= u32::MAX
}

/// Why a byte string cannot be uploaded, for an invalid one.
pub open spec fn vertex_bytes_error(bytes: Seq<u8>) -> AllocatorError {
    if bytes.len() == 0 {
        AllocatorError::ZeroSizeAllocation
    } else if (bytes.len() as int) % (VERTEX_STRIDE as int) != 0 {
        AllocatorError::MisalignedVertexData
    } else {
        AllocatorError::TooManyVertices
    }
}

/// The device-side half of an uploaded mesh: the buffer and its allocation
/// are addressed through the mesh's slot in the renderer's arena, so the
/// resource itself carries only the vertex count and, as ghost state, the
/// bytes the upload wrote into the mapped allocation.
pub struct GeometryResource {
    pub vertex_count: u32,
    /// What the mapped device memory holds right after the upload: exactly
    /// the source vertex bytes.
    pub device_contents: Ghost<Seq<u8>>,
}

/// A mesh: transient host-side vertex bytes, and after the upload the
/// device-side resource in their place.
pub struct Mesh {
    pub vertices: Vec<u8>,
    pub vertex_count: u32,
    pub vertex_buffer: Option<GeometryResource>,
}

impl Mesh {
    /// Host bytes and device resource are mutually exclusive stores of the
    /// same `vertex_count` vertices.
    pub open spec fn wf(self) -> bool {
        match self.vertex_buffer {
            Option::None => self.vertices@.len() == self.vertex_count * (VERTEX_STRIDE as int),
            Option::Some(buffer) => {
                &&& self.vertices@.len() == 0
                &&& buffer.vertex_count == self.vertex_count
                &&& buffer.device_contents@.len() == self.vertex_count * (VERTEX_STRIDE as int)
            },
        }
    }

    pub open spec fn is_uploaded(self) -> bool {
        self.vertex_buffer is Some
    }

    /// Wraps decoded vertex bytes as a mesh awaiting upload. Succeeds
    /// exactly on valid vertex data and otherwise names what is wrong with
    /// it.
    pub fn from_vertex_bytes(bytes: Vec<u8>) -> (r: Result<Mesh, AllocatorError>)
        ensures
            r is Ok <==> valid_vertex_bytes(bytes@),
            r matches Ok(mesh) ==> {
                &&& mesh.wf()
                &&& !mesh.is_uploaded()
                &&& mesh.vertices@ == bytes@
                &&& mesh.vertex_count == (bytes@.len() as int) / (VERTEX_STRIDE as int)
            },
            r matches Err(e) ==> e == vertex_bytes_error(bytes@),
    {
        if bytes.len() == 0 {
            return Err(AllocatorError::ZeroSizeAllocation);
        }
        if bytes.len() % VERTEX_STRIDE != 0 {
            return Err(AllocatorError::MisalignedVertexData);
        }
        let count: usize = bytes.len() / VERTEX_STRIDE;
        if count > u32::MAX as usize {
            return Err(AllocatorError::TooManyVertices);
        }
        let vertex_count: u32 = count as u32;
        proof {
            assert(bytes@.len() == vertex_count * (VERTEX_STRIDE as int)) by (nonlinear_arith)
                requires
                    (bytes@.len() as int) % (VERTEX_STRIDE as int) == 0,
                    vertex_count == (bytes@.len() as int) / (VERTEX_STRIDE as int),
                    VERTEX_STRIDE == 36,
                    bytes@.len() >= 0,
            ;
        }
        Ok(Mesh { vertices: bytes, vertex_count, vertex_buffer: Option::None })
    }
}

/// What the unverified shell must do to finish an upload: allocate a
/// host-visible vertex buffer of `size` bytes for the mesh in slot `mesh`,
/// map it, and copy `bytes` into the mapping.
#[derive(Debug)]
pub struct UploadRequest {
    pub mesh: usize,
    pub size: u64,
    pub bytes: Vec<u8>,
}

/// One-shot upload of a mesh in arena slot `mesh_index`: hands the host
/// vertex bytes over for the copy into the freshly allocated device buffer,
/// records the device-side resource, and discards the host copy so the data
/// is not retained twice. Synchronous for the host: the returned request's
/// bytes are exactly what the mapped memory holds afterwards.
pub fn upload_mesh(mesh: &mut Mesh, mesh_index: usize) -> (r: Result<UploadRequest, AllocatorError>)
    requires
        old(mesh).wf(),
        !old(mesh).is_uploaded(),
    ensures
        r is Ok <==> old(mesh).vertices@.len() > 0,
        r matches Ok(request) ==> {
            &&& request.mesh == mesh_index
            &&& request.size == old(mesh).vertices@.len()
            &&& request.bytes@ == old(mesh).vertices@
            &&& final(mesh).wf()
            &&& final(mesh).is_uploaded()
            &&& final(mesh).vertices@.len() == 0
            &&& final(mesh).vertex_count == old(mesh).vertex_count
            &&& final(mesh).vertex_buffer matches Some(buffer) && buffer.device_contents@ == old(
                mesh,
            ).vertices@
        },
        r is Err ==> r == Err::<UploadRequest, AllocatorError>(AllocatorError::ZeroSizeAllocation)
            && *final(mesh) == *old(mesh),
{
    if mesh.vertices.len() == 0 {
        return Err(AllocatorError::ZeroSizeAllocation);
    }
    let size: u64 = mesh.vertices.len() as u64;
    let ghost contents: Seq<u8> = mesh.vertices@;
    let mut bytes: Vec<u8> = Vec::new();
    core::mem::swap(&mut bytes, &mut mesh.vertices);
    mesh.vertex_buffer = Option::Some(
        GeometryResource { vertex_count: mesh.vertex_count, device_contents: Ghost(contents) },
    );
    Ok(UploadRequest { mesh: mesh_index, size, bytes })
}

} // verus!
