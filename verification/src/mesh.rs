//! Models and meshes: how vertices are put together from what a model file
//! holds, how much memory a mesh needs, and how it is drawn.

use vstd::prelude::*;
use crate::buffer::{Buffer, buffer_for};
use crate::commandpool::{Command, Drawable};
use crate::constants::{
    BUFFER_USAGE_INDEX_BUFFER, BUFFER_USAGE_TRANSFER_DST, BUFFER_USAGE_VERTEX_BUFFER,
    MEMORY_DEVICE_LOCAL,
};
use crate::error::RenderError;
use crate::pipeline::{
    VertexAttribute, VertexBinding, get_attribute_descriptions, get_binding_description,
    vertex_attributes, vertex_stride,
};

verus! {

/// The number of floats that hold a position in a model.
pub const POSITION_FLOATS: usize = 3;

/// The number of floats that hold a texture coordinate in a model.
pub const TEX_COORD_FLOATS: usize = 2;

/// The number of bytes of one index.
pub const INDEX_SIZE: u64 = 4;

/// The number of bytes of one vertex.
pub const VERTEX_SIZE: u64 = 32;

/// The bits of the 32-bit float one.
pub const ONE: u32 = 0x3F80_0000;

/// A vertex: a position, a colour and a texture coordinate. Each number is
/// held as the bits of a 32-bit float; vertices are put together and moved,
/// never computed with.
#[derive(Clone, Copy, Debug, PartialEq, Eq)]
pub struct Vertex {
    pub pos: [u32; 3],
    pub color: [u32; 3],
    pub tex_coord: [u32; 2],
}

impl Vertex {
    /// The one binding that vertices are read from.
    pub fn get_binding_descriptions() -> (bindings: [VertexBinding; 1])
        ensures
            bindings@ == seq![VertexBinding { binding: 0, stride: vertex_stride() as u32 }],
    {
        let bindings = [get_binding_description()];
        bindings
    }

    /// The three attributes of a vertex.
    pub fn get_attribute_descriptions() -> (attributes: [VertexAttribute; 3])
        ensures
            attributes@ == vertex_attributes(),
    {
        let listed = get_attribute_descriptions();
        let attributes = [listed[0], listed[1], listed[2]];
        attributes
    }
}

/// One mesh of a model file that was loaded with a single index for each
/// vertex: three floats of position and two of texture coordinate for each
/// vertex, and the indices of its triangles.
pub struct ObjMesh {
    pub positions: Vec<u32>,
    pub texcoords: Vec<u32>,
    pub indices: Vec<u32>,
}

/// The number of vertices that a mesh with so many position floats has.
pub open spec fn vertex_count_of(positions: nat) -> nat {
    positions / (POSITION_FLOATS as nat)
}

/// Vertex `i` of a mesh: its position and its texture coordinate as the
/// file has them, in white.
pub open spec fn vertex_at(positions: Seq<u32>, texcoords: Seq<u32>, i: int) -> Vertex {
    Vertex {
        pos: [positions[3 * i], positions[3 * i + 1], positions[3 * i + 2]],
        color: [ONE, ONE, ONE],
        tex_coord: [texcoords[2 * i], texcoords[2 * i + 1]],
    }
}

/// The vertices of a mesh, in the order of the file.
pub open spec fn vertices_of(positions: Seq<u32>, texcoords: Seq<u32>) -> Seq<Vertex> {
    Seq::new(
        vertex_count_of(positions.len()),
        |i: int| vertex_at(positions, texcoords, i),
    )
}

impl ObjMesh {
    /// Every vertex of the mesh has its texture coordinate.
    pub open spec fn textured(&self) -> bool {
        &&& self.texcoords@.len() > 0
        &&& self.texcoords@.len() >= TEX_COORD_FLOATS * vertex_count_of(self.positions@.len())
    }

    /// The vertices of the mesh, in the order of the file.
    ///
    /// Fails where a vertex has no texture coordinate.
    pub fn vertices(&self) -> (vertices: Result<Vec<Vertex>, RenderError>)
        ensures
            self.textured() ==> vertices is Ok && vertices->Ok_0@ == vertices_of(
                self.positions@,
                self.texcoords@,
            ),
            !self.textured() ==> vertices is Err && vertices->Err_0 == RenderError::BadModel,
    {
        let total_vertices_count: usize = self.positions.len() / POSITION_FLOATS;
        if self.texcoords.len() == 0 || self.texcoords.len() / TEX_COORD_FLOATS
            < total_vertices_count {
            return Err(RenderError::BadModel);
        }
        let mut vertices: Vec<Vertex> = Vec::new();
        let mut i: usize = 0;
        while i < total_vertices_count
            invariant
                total_vertices_count == vertex_count_of(self.positions@.len()),
                self.texcoords@.len() >= 2 * total_vertices_count,
                self.positions@.len() <= usize::MAX,
                i <= total_vertices_count,
                vertices@.len() == i,
                forall|j: int|
                    0 <= j < i ==> vertices@[j] == vertex_at(
                        self.positions@,
                        self.texcoords@,
                        j,
                    ),
            decreases total_vertices_count - i,
        {
            let vertex = Vertex {
                pos: [self.positions[i * 3], self.positions[i * 3 + 1], self.positions[i * 3 + 2]],
                color: [ONE, ONE, ONE],
                tex_coord: [self.texcoords[i * 2], self.texcoords[i * 2 + 1]],
            };
            vertices.push(vertex);
            i += 1;
        }
        Ok(vertices)
    }
}

/// The vertices of all meshes of a model, mesh after mesh.
pub open spec fn model_vertices(meshes: Seq<ObjMesh>) -> Seq<Vertex>
    decreases meshes.len(),
{
    if meshes.len() == 0 {
        Seq::empty()
    } else {
        model_vertices(meshes.drop_last()) + vertices_of(
            meshes.last().positions@,
            meshes.last().texcoords@,
        )
    }
}

/// The indices of a model: those of its last mesh.
pub open spec fn model_indices(meshes: Seq<ObjMesh>) -> Seq<u32> {
    if meshes.len() == 0 {
        Seq::empty()
    } else {
        meshes.last().indices@
    }
}

/// Every mesh among the first `end` has a texture coordinate for each of
/// its vertices.
pub open spec fn all_textured(meshes: Seq<ObjMesh>, end: int) -> bool {
    forall|k: int| 0 <= k < end ==> (#[trigger] meshes[k]).textured()
}

/// A model as it is drawn: its vertices and the indices of its triangles.
pub struct Model {
    pub vertices: Vec<Vertex>,
    pub indices: Vec<u32>,
}

impl Model {
    /// Puts a model together from the meshes of its file: the vertices of
    /// all meshes in turn, and the indices of the last mesh.
    ///
    /// Fails where a mesh has a vertex without texture coordinate.
    pub fn from_obj(meshes: &Vec<ObjMesh>) -> (model: Result<Model, RenderError>)
        ensures
            all_textured(meshes@, meshes@.len() as int) ==> model is Ok && model->Ok_0.vertices@
                == model_vertices(meshes@) && model->Ok_0.indices@ == model_indices(meshes@),
            !all_textured(meshes@, meshes@.len() as int) ==> model is Err && model->Err_0
                == RenderError::BadModel,
    {
        let mut vertices: Vec<Vertex> = Vec::new();
        let mut indices: Vec<u32> = Vec::new();
        let mut m: usize = 0;
        while m < meshes.len()
            invariant
                m <= meshes@.len(),
                all_textured(meshes@, m as int),
                vertices@ == model_vertices(meshes@.take(m as int)),
                indices@ == model_indices(meshes@.take(m as int)),
            decreases meshes@.len() - m,
        {
            let mesh = &meshes[m];
            match mesh.vertices() {
                Ok(mut more) => {
                    vertices.append(&mut more);
                    indices = mesh.indices.clone();
                    proof {
                        let taken = meshes@.take(m as int + 1);
                        assert(taken.drop_last() =~= meshes@.take(m as int));
                    }
                },
                Err(error) => {
                    return Err(error);
                },
            }
            m += 1;
        }
        assert(meshes@.take(m as int) =~= meshes@);
        Ok(Model { vertices, indices })
    }
}

/// Whether a model can be drawn: its indices can be counted by a draw, and
/// the bytes of its vertices can be counted.
pub open spec fn drawable_model(vertices: nat, indices: nat) -> bool {
    &&& indices <= u32::MAX
    &&& VERTEX_SIZE * vertices <= u64::MAX
    &&& INDEX_SIZE * indices <= u64::MAX
}

/// A mesh in device memory.
#[derive(Clone, Copy, Debug, PartialEq, Eq, Structural)]
pub struct Mesh {
    pub vertex_buffer: Buffer,
    pub index_buffer: Buffer,
    pub index_count: u32,
}

impl Mesh {
    /// Describes the mesh that holds a model: a vertex and an index buffer
    /// in device memory, each as large as what it holds. The buffers have no
    /// handles yet.
    ///
    /// Fails where the model has more indices than a draw can count.
    pub fn from_obj(model: &Model) -> (mesh: Result<Mesh, RenderError>)
        ensures
            drawable_model(model.vertices@.len(), model.indices@.len()) ==> mesh is Ok
                && mesh->Ok_0.index_count == model.indices@.len() && mesh->Ok_0.vertex_buffer
                == buffer_for(
                (VERTEX_SIZE * model.vertices@.len()) as u64,
                BUFFER_USAGE_TRANSFER_DST | BUFFER_USAGE_VERTEX_BUFFER,
                MEMORY_DEVICE_LOCAL,
            ) && mesh->Ok_0.index_buffer == buffer_for(
                (INDEX_SIZE * model.indices@.len()) as u64,
                BUFFER_USAGE_TRANSFER_DST | BUFFER_USAGE_INDEX_BUFFER,
                MEMORY_DEVICE_LOCAL,
            ),
            !drawable_model(model.vertices@.len(), model.indices@.len()) ==> mesh is Err
                && mesh->Err_0 == RenderError::BadModel,
    {
        let vertices = model.vertices.len();
        let indices = model.indices.len();
        if indices > u32::MAX as usize {
            return Err(RenderError::BadModel);
        }
        if vertices as u64 > u64::MAX / 32 {
            return Err(RenderError::BadModel);
        }
        let vertex_size: u64 = 32 * (vertices as u64);
        let index_size: u64 = 4 * (indices as u64);
        Ok(
            Mesh {
                vertex_buffer: Buffer::vertex(vertex_size),
                index_buffer: Buffer::index(index_size),
                index_count: indices as u32,
            },
        )
    }

    /// The commands that bind the mesh's buffers.
    pub fn bind(&self) -> (commands: (Command, Command))
        ensures
            commands.0 == (Command::BindVertexBuffer { buffer: self.vertex_buffer.buffer }),
            commands.1 == (Command::BindIndexBuffer { buffer: self.index_buffer.buffer }),
    {
        (
            Command::BindVertexBuffer { buffer: self.vertex_buffer.buffer },
            Command::BindIndexBuffer { buffer: self.index_buffer.buffer },
        )
    }

    /// The command that draws `count` instances of the mesh.
    pub fn draw(&self, count: u32) -> (command: Command)
        ensures
            command == (Command::DrawIndexed {
                index_count: self.index_count,
                instance_count: count,
            }),
    {
        Command::DrawIndexed { index_count: self.index_count, instance_count: count }
    }

    /// The mesh as a thing to draw once, with the resources of
    /// `descriptor_set` and placed by the model transform numbered
    /// `transform`.
    pub fn drawable(&self, descriptor_set: u64, transform: u32) -> (drawable: Drawable)
        ensures
            drawable == (Drawable {
                vertex_buffer: self.vertex_buffer.buffer,
                index_buffer: self.index_buffer.buffer,
                index_count: self.index_count,
                instance_count: 1,
                descriptor_set,
                transform,
            }),
    {
        Drawable {
            vertex_buffer: self.vertex_buffer.buffer,
            index_buffer: self.index_buffer.buffer,
            index_count: self.index_count,
            instance_count: 1,
            descriptor_set,
            transform,
        }
    }

    /// The buffers to destroy, in order: the vertex buffer, then the index
    /// buffer.
    pub fn destroy(&self) -> (doomed: (Buffer, Buffer))
        ensures
            doomed == (self.vertex_buffer, self.index_buffer),
    {
        (self.vertex_buffer, self.index_buffer)
    }
}

/// A vertex is as large as the pipeline takes it to be.
pub proof fn lemma_vertex_size_is_stride()
    ensures
        VERTEX_SIZE == vertex_stride(),
{
}

} // verus!
