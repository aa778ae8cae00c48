//! Meshes and materials from a glTF model.
//!
//! The model comes as plain data: the buffers it declares, and its scenes as
//! trees of nodes whose vertex data was already read. This module decides
//! which bytes each buffer and image consists of, which meshes and materials
//! the scenes give, and in which order.

use vstd::prelude::*;
use crate::io::{bytes_of, copy_range, without, Files, IOError, Loaded};
use crate::state::Color;

verus! {

/// Where the bytes of a buffer are.
pub enum BufferSource {
    /// In the file loaded under this path.
    Uri(String),
    /// In the binary part of the model file.
    Bin,
}

/// A buffer as the model declares it.
pub struct BufferDecl {
    pub source: BufferSource,
    /// The number of bytes that the model uses of the buffer.
    pub length: usize,
}

/// Where an encoded image is.
pub enum ImageSource {
    /// In the file loaded under this path.
    Uri(String),
    /// In `length` bytes of buffer `buffer`, starting at `offset`.
    View { buffer: usize, offset: usize, length: usize, stride: Option<usize> },
}

/// The indices of a primitive.
pub enum Indices {
    U8(Vec<u8>),
    U16(Vec<u16>),
    U32(Vec<u32>),
}

/// A material as the model declares it. Real numbers are carried as the bit
/// patterns of single-precision values.
pub struct MaterialDecl {
    pub name: Option<String>,
    pub index: Option<usize>,
    pub base_color: Color,
    pub base_color_texture: Option<ImageSource>,
    pub metallic: u32,
    pub roughness: u32,
    pub metallic_roughness_texture: Option<ImageSource>,
    /// The normal map and its scale.
    pub normal_texture: Option<(ImageSource, u32)>,
    /// The occlusion map and its strength.
    pub occlusion_texture: Option<(ImageSource, u32)>,
    pub emissive: Color,
    pub emissive_texture: Option<ImageSource>,
}

/// One primitive of a mesh with the vertex data that was read for it.
pub struct Primitive {
    pub positions: Option<Vec<[u32; 3]>>,
    pub normals: Option<Vec<[u32; 3]>>,
    pub tangents: Option<Vec<[u32; 4]>>,
    pub indices: Option<Indices>,
    pub colors: Option<Vec<Color>>,
    pub uvs: Option<Vec<[u32; 2]>>,
    pub material: MaterialDecl,
}

/// A mesh of the model.
pub struct Mesh {
    pub name: Option<String>,
    pub index: usize,
    pub primitives: Vec<Primitive>,
}

/// A node of a scene.
pub struct Node {
    pub mesh: Option<Mesh>,
    pub children: Vec<Node>,
}

/// A mesh for the renderer: one primitive with positions, under the name of
/// its mesh, with the name of its material.
pub struct CpuMesh<'a> {
    pub name: String,
    pub material_name: Option<String>,
    /// The primitive that holds the vertex data.
    pub primitive: &'a Primitive,
}

/// The mathematical content of a [`CpuMesh`].
pub struct MeshView {
    pub name: Seq<char>,
    pub material_name: Option<Seq<char>>,
    pub primitive: Primitive,
}

impl<'a> View for CpuMesh<'a> {
    type V = MeshView;

    open spec fn view(&self) -> MeshView {
        MeshView {
            name: self.name@,
            material_name: match self.material_name {
                Some(n) => Some(n@),
                None => None,
            },
            primitive: *self.primitive,
        }
    }
}

/// A material for the renderer, with its images still encoded.
pub struct CpuMaterial {
    pub name: String,
    pub albedo: Color,
    pub albedo_texture: Option<Vec<u8>>,
    pub metallic: u32,
    pub roughness: u32,
    pub metallic_roughness_texture: Option<Vec<u8>>,
    pub normal_texture: Option<Vec<u8>>,
    pub normal_scale: u32,
    pub occlusion_texture: Option<Vec<u8>>,
    pub occlusion_strength: u32,
    pub emissive: Color,
    pub emissive_texture: Option<Vec<u8>>,
}

/// The mathematical content of a [`CpuMaterial`].
pub struct MaterialView {
    pub name: Seq<char>,
    pub albedo: Color,
    pub albedo_texture: Option<Seq<u8>>,
    pub metallic: u32,
    pub roughness: u32,
    pub metallic_roughness_texture: Option<Seq<u8>>,
    pub normal_texture: Option<Seq<u8>>,
    pub normal_scale: u32,
    pub occlusion_texture: Option<Seq<u8>>,
    pub occlusion_strength: u32,
    pub emissive: Color,
    pub emissive_texture: Option<Seq<u8>>,
}

/// The content of optional bytes.
pub open spec fn optional_view(bytes: Option<Vec<u8>>) -> Option<Seq<u8>> {
    match bytes {
        Some(b) => Some(b@),
        None => None,
    }
}

impl View for CpuMaterial {
    type V = MaterialView;

    open spec fn view(&self) -> MaterialView {
        MaterialView {
            name: self.name@,
            albedo: self.albedo,
            albedo_texture: optional_view(self.albedo_texture),
            metallic: self.metallic,
            roughness: self.roughness,
            metallic_roughness_texture: optional_view(self.metallic_roughness_texture),
            normal_texture: optional_view(self.normal_texture),
            normal_scale: self.normal_scale,
            occlusion_texture: optional_view(self.occlusion_texture),
            occlusion_strength: self.occlusion_strength,
            emissive: self.emissive,
            emissive_texture: optional_view(self.emissive_texture),
        }
    }
}

/// The number one as a single-precision bit pattern: the scale of a normal
/// map and the strength of an occlusion map where the model gives none.
pub const ONE: u32 = 0x3F80_0000;

/// The contents of the buffers.
pub open spec fn contents(buffers: Seq<Vec<u8>>) -> Seq<Seq<u8>> {
    buffers.map_values(|b: Vec<u8>| b@)
}

/// The contents of the meshes.
pub open spec fn mesh_views<'a>(meshes: Seq<CpuMesh<'a>>) -> Seq<MeshView> {
    meshes.map_values(|m: CpuMesh<'a>| m@)
}

/// The contents of the materials.
pub open spec fn material_views(materials: Seq<CpuMaterial>) -> Seq<MaterialView> {
    materials.map_values(|m: CpuMaterial| m@)
}

/// `data` followed by as few zero bytes as make its length a multiple of 4.
pub open spec fn padded(data: Seq<u8>) -> Seq<u8> {
    data + Seq::new(((4 - data.len() % 4) % 4) as nat, |i: int| 0u8)
}

/// The state of resolving the declared buffers one after the other.
pub struct Resolution {
    /// The files that are still loaded.
    pub files: Files,
    /// The binary part of the model file, until a buffer has taken it.
    pub blob: Option<Seq<u8>>,
    /// The buffers resolved so far, or what went wrong.
    pub outcome: Result<Seq<Seq<u8>>, IOError>,
}

/// Resolves one declared buffer: its bytes are taken out of the loaded files
/// or are the binary part of the model file, must be at least as many as
/// declared, and are padded to a multiple of 4.
pub open spec fn resolve_one(files: Files, blob: Option<Seq<u8>>, declared: BufferDecl) -> (
    Files,
    Option<Seq<u8>>,
    Result<Seq<u8>, IOError>,
) {
    let (left, rest, data) = match declared.source {
        BufferSource::Uri(path) => (
            without(files, path@),
            blob,
            match bytes_of(files, path@) {
                Some(content) => Ok(content),
                None => Err(IOError::NotLoaded(path)),
            },
        ),
        BufferSource::Bin => (
            files,
            None,
            match blob {
                Some(content) => Ok(content),
                None => Err(IOError::GltfMissingData),
            },
        ),
    };
    match data {
        Ok(content) => if content.len() < declared.length {
            (left, rest, Err(IOError::GltfCorruptData))
        } else {
            (left, rest, Ok(padded(content)))
        },
        Err(e) => (left, rest, Err(e)),
    }
}

/// Resolves the declared buffers from the `k`-th on, after `done`. The first
/// buffer that cannot be resolved ends it.
pub open spec fn resolve_from(
    files: Files,
    blob: Option<Seq<u8>>,
    declared: Seq<BufferDecl>,
    k: nat,
    done: Seq<Seq<u8>>,
) -> Resolution
    decreases declared.len() - k,
{
    if k >= declared.len() {
        Resolution { files, blob, outcome: Ok(done) }
    } else {
        let (left, rest, data) = resolve_one(files, blob, declared[k as int]);
        match data {
            Ok(content) => resolve_from(left, rest, declared, k + 1, done.push(content)),
            Err(e) => Resolution { files: left, blob: rest, outcome: Err(e) },
        }
    }
}

/// Pads `data` with zero bytes to a multiple of 4.
pub fn pad_to_four(data: Vec<u8>) -> (out: Vec<u8>)
    ensures
        out@ == padded(data@),
{
    let mut out = data;
    let ghost start = out@;
    while out.len() % 4 != 0
        invariant
            out@.len() - start.len() <= (4 - start.len() % 4) % 4,
            out@ == start + Seq::new((out@.len() - start.len()) as nat, |i: int| 0u8),
        decreases (4 - out@.len() % 4) % 4,
    {
        out.push(0);
        proof {
            assert(out@ =~= start + Seq::new((out@.len() - start.len()) as nat, |i: int| 0u8));
        }
    }
    proof {
        assert(out@ =~= start + Seq::new((out@.len() - start.len()) as nat, |i: int| 0u8));
    }
    out
}

/// The decimal digit `d`.
pub open spec fn digit(d: nat) -> char {
    if d == 0 {
        '0'
    } else if d == 1 {
        '1'
    } else if d == 2 {
        '2'
    } else if d == 3 {
        '3'
    } else if d == 4 {
        '4'
    } else if d == 5 {
        '5'
    } else if d == 6 {
        '6'
    } else if d == 7 {
        '7'
    } else if d == 8 {
        '8'
    } else {
        '9'
    }
}

/// `n` in decimal, without leading zeros.
pub open spec fn decimal(n: nat) -> Seq<char>
    decreases n,
{
    if n < 10 {
        seq![digit(n)]
    } else {
        decimal(n / 10).push(digit(n % 10))
    }
}

/// The name of a mesh or material that has none: the word `index` and its
/// index in the model.
pub open spec fn index_label(index: nat) -> Seq<char> {
    "index "@ + decimal(index)
}

/// Formats the name of an unnamed mesh or material with `format!` of the
/// standard library. Trusted: that `{}` writes an unsigned integer in
/// decimal without leading zeros, after the literal text.
#[verifier::external_body]
fn index_name(index: usize) -> (name: String)
    ensures
        name@ == index_label(index as nat),
{
    format!("index {}", index)
}

/// The name of a mesh: its own, or its index.
pub open spec fn mesh_label(mesh: Mesh) -> Seq<char> {
    match mesh.name {
        Some(name) => name@,
        None => index_label(mesh.index as nat),
    }
}

/// The name of a material: its own, or its index, or `default` for the
/// material that the model does not declare.
pub open spec fn material_label(material: MaterialDecl) -> Seq<char> {
    match material.name {
        Some(name) => name@,
        None => match material.index {
            Some(i) => index_label(i as nat),
            None => "default"@,
        },
    }
}

/// Whether a material of that name is among `materials`.
pub open spec fn known(materials: Seq<MaterialView>, name: Seq<char>) -> bool {
    exists|i: int| 0 <= i < materials.len() && (#[trigger] materials[i]).name == name
}

/// The encoded bytes of an image: the file loaded under its path, or its
/// part of a buffer, which must lie inside the buffer and have no stride.
pub open spec fn image_bytes(files: Files, buffers: Seq<Seq<u8>>, source: ImageSource) -> Result<
    Seq<u8>,
    IOError,
> {
    match source {
        ImageSource::Uri(path) => match bytes_of(files, path@) {
            Some(content) => Ok(content),
            None => Err(IOError::NotLoaded(path)),
        },
        ImageSource::View { buffer, offset, length, stride } => {
            if buffer >= buffers.len() || offset + length > buffers[buffer as int].len() {
                Err(IOError::GltfCorruptData)
            } else if stride is Some {
                Err(IOError::GltfStridedImage)
            } else {
                Ok(buffers[buffer as int].subrange(offset as int, offset + length))
            }
        },
    }
}

/// The encoded bytes of an image that a material may have.
pub open spec fn optional_image(
    files: Files,
    buffers: Seq<Seq<u8>>,
    source: Option<ImageSource>,
) -> Result<Option<Seq<u8>>, IOError> {
    match source {
        Some(s) => match image_bytes(files, buffers, s) {
            Ok(bytes) => Ok(Some(bytes)),
            Err(e) => Err(e),
        },
        None => Ok(None),
    }
}

/// The image of a map that comes with a factor.
pub open spec fn map_source(map: Option<(ImageSource, u32)>) -> Option<ImageSource> {
    match map {
        Some(m) => Some(m.0),
        None => None,
    }
}

/// The factor of a map, and one where there is no map.
pub open spec fn map_factor(map: Option<(ImageSource, u32)>) -> u32 {
    match map {
        Some(m) => m.1,
        None => ONE,
    }
}

/// The material that a declaration gives. Its images are looked up in the
/// order albedo, metallic and roughness, normal, occlusion, emissive, and
/// the first that cannot be had is the error.
pub open spec fn material_of(files: Files, buffers: Seq<Seq<u8>>, declared: MaterialDecl) -> Result<
    MaterialView,
    IOError,
> {
    match optional_image(files, buffers, declared.base_color_texture) {
        Err(e) => Err(e),
        Ok(albedo_texture) => match optional_image(
            files,
            buffers,
            declared.metallic_roughness_texture,
        ) {
            Err(e) => Err(e),
            Ok(metallic_roughness_texture) => match optional_image(
                files,
                buffers,
                map_source(declared.normal_texture),
            ) {
                Err(e) => Err(e),
                Ok(normal_texture) => match optional_image(
                    files,
                    buffers,
                    map_source(declared.occlusion_texture),
                ) {
                    Err(e) => Err(e),
                    Ok(occlusion_texture) => match optional_image(
                        files,
                        buffers,
                        declared.emissive_texture,
                    ) {
                        Err(e) => Err(e),
                        Ok(emissive_texture) => Ok(
                            MaterialView {
                                name: material_label(declared),
                                albedo: declared.base_color,
                                albedo_texture,
                                metallic: declared.metallic,
                                roughness: declared.roughness,
                                metallic_roughness_texture,
                                normal_texture,
                                normal_scale: map_factor(declared.normal_texture),
                                occlusion_texture,
                                occlusion_strength: map_factor(declared.occlusion_texture),
                                emissive: declared.emissive,
                                emissive_texture,
                            },
                        ),
                    },
                },
            },
        },
    }
}

/// The meshes and materials collected so far.
pub struct Scene {
    pub meshes: Seq<MeshView>,
    pub materials: Seq<MaterialView>,
}

/// The scene after one primitive of `mesh`. A primitive without positions
/// gives nothing. Another gives a mesh, and before it its material, unless a
/// material of that name is there already.
pub open spec fn after_primitive(
    scene: Scene,
    files: Files,
    buffers: Seq<Seq<u8>>,
    mesh: Mesh,
    primitive: Primitive,
) -> Result<Scene, IOError> {
    if primitive.positions is None {
        Ok(scene)
    } else {
        let name = material_label(primitive.material);
        let made = MeshView { name: mesh_label(mesh), material_name: Some(name), primitive };
        if known(scene.materials, name) {
            Ok(Scene { meshes: scene.meshes.push(made), materials: scene.materials })
        } else {
            match material_of(files, buffers, primitive.material) {
                Ok(material) => Ok(
                    Scene {
                        meshes: scene.meshes.push(made),
                        materials: scene.materials.push(material),
                    },
                ),
                Err(e) => Err(e),
            }
        }
    }
}

/// The scene after the primitives of `mesh` from the `k`-th on.
pub open spec fn after_primitives(
    scene: Scene,
    files: Files,
    buffers: Seq<Seq<u8>>,
    mesh: Mesh,
    k: nat,
) -> Result<Scene, IOError>
    decreases mesh.primitives@.len() - k,
{
    if k >= mesh.primitives@.len() {
        Ok(scene)
    } else {
        match after_primitive(scene, files, buffers, mesh, mesh.primitives@[k as int]) {
            Ok(next) => after_primitives(next, files, buffers, mesh, k + 1),
            Err(e) => Err(e),
        }
    }
}

/// The scene after a node: after its own mesh, and then after its children
/// in order, each with all that is below it.
pub open spec fn after_node(scene: Scene, files: Files, buffers: Seq<Seq<u8>>, node: Node) -> Result<
    Scene,
    IOError,
>
    decreases node, 0nat, 0nat,
{
    let own = match node.mesh {
        Some(mesh) => after_primitives(scene, files, buffers, mesh, 0),
        None => Ok(scene),
    };
    match own {
        Ok(next) => after_nodes(next, files, buffers, node.children@, 0),
        Err(e) => Err(e),
    }
}

/// The scene after the nodes from the `k`-th on, each with all that is below
/// it.
pub open spec fn after_nodes(
    scene: Scene,
    files: Files,
    buffers: Seq<Seq<u8>>,
    nodes: Seq<Node>,
    k: nat,
) -> Result<Scene, IOError>
    decreases nodes, 1nat, nodes.len() - k,
{
    if k >= nodes.len() {
        Ok(scene)
    } else {
        match after_node(scene, files, buffers, nodes[k as int]) {
            Ok(next) => after_nodes(next, files, buffers, nodes, k + 1),
            Err(e) => Err(e),
        }
    }
}

/// The scene after the scenes of the model from the `k`-th on.
pub open spec fn after_scenes(
    scene: Scene,
    files: Files,
    buffers: Seq<Seq<u8>>,
    scenes: Seq<Vec<Node>>,
    k: nat,
) -> Result<Scene, IOError>
    decreases scenes.len() - k,
{
    if k >= scenes.len() {
        Ok(scene)
    } else {
        match after_nodes(scene, files, buffers, scenes[k as int]@, 0) {
            Ok(next) => after_scenes(next, files, buffers, scenes, k + 1),
            Err(e) => Err(e),
        }
    }
}

/// The content of an optional binary part.
pub open spec fn blob_view(blob: Option<Vec<u8>>) -> Option<Seq<u8>> {
    optional_view(blob)
}

/// Copies the encoded bytes of an image out of the loaded files or the
/// buffers.
pub fn parse_texture(loaded: &Loaded, buffers: &Vec<Vec<u8>>, source: &ImageSource) -> (bytes:
    Result<Vec<u8>, IOError>)
    ensures
        match image_bytes(loaded@, contents(buffers@), *source) {
            Ok(content) => bytes matches Ok(b) && b@ == content,
            Err(e) => bytes == Err::<Vec<u8>, IOError>(e),
        },
{
    match source {
        ImageSource::Uri(path) => match loaded.get_bytes(path) {
            Ok(content) => {
                let copy = copy_range(content, 0, content.len());
                proof {
                    assert(copy@ =~= content@);
                }
                Ok(copy)
            },
            Err(e) => Err(IOError::NotLoaded(path.clone())),
        },
        ImageSource::View { buffer, offset, length, stride } => {
            if *buffer >= buffers.len() {
                return Err(IOError::GltfCorruptData);
            }
            let data: &Vec<u8> = &buffers[*buffer];
            if *offset > data.len() || *length > data.len() - *offset {
                return Err(IOError::GltfCorruptData);
            }
            if stride.is_some() {
                return Err(IOError::GltfStridedImage);
            }
            Ok(copy_range(data, *offset, *length))
        },
    }
}

/// Copies the encoded bytes of an image that a material may have.
fn parse_optional_texture(loaded: &Loaded, buffers: &Vec<Vec<u8>>, source: &Option<ImageSource>) -> (bytes:
    Result<Option<Vec<u8>>, IOError>)
    ensures
        match optional_image(loaded@, contents(buffers@), *source) {
            Ok(content) => bytes matches Ok(b) && optional_view(b) == content,
            Err(e) => bytes == Err::<Option<Vec<u8>>, IOError>(e),
        },
{
    match source {
        Some(s) => match parse_texture(loaded, buffers, s) {
            Ok(bytes) => Ok(Some(bytes)),
            Err(e) => Err(e),
        },
        None => Ok(None),
    }
}

/// Copies the encoded bytes of a map that comes with a factor.
fn parse_map(loaded: &Loaded, buffers: &Vec<Vec<u8>>, map: &Option<(ImageSource, u32)>) -> (out:
    Result<(Option<Vec<u8>>, u32), IOError>)
    ensures
        match optional_image(loaded@, contents(buffers@), map_source(*map)) {
            Ok(content) => out matches Ok(m) && optional_view(m.0) == content && m.1 == map_factor(
                *map,
            ),
            Err(e) => out == Err::<(Option<Vec<u8>>, u32), IOError>(e),
        },
{
    match map {
        Some(m) => match parse_texture(loaded, buffers, &m.0) {
            Ok(bytes) => Ok((Some(bytes), m.1)),
            Err(e) => Err(e),
        },
        None => Ok((None, ONE)),
    }
}

/// The name of a mesh: its own, or its index.
pub fn mesh_name(mesh: &Mesh) -> (name: String)
    ensures
        name@ == mesh_label(*mesh),
{
    match &mesh.name {
        Some(name) => name.clone(),
        None => index_name(mesh.index),
    }
}

/// The name of a material: its own, or its index, or `default`.
pub fn material_name(material: &MaterialDecl) -> (name: String)
    ensures
        name@ == material_label(*material),
{
    match &material.name {
        Some(name) => name.clone(),
        None => match material.index {
            Some(i) => index_name(i),
            None => "default".to_owned(),
        },
    }
}

/// Builds the material that a declaration gives.
pub fn parse_material(loaded: &Loaded, buffers: &Vec<Vec<u8>>, declared: &MaterialDecl) -> (material:
    Result<CpuMaterial, IOError>)
    ensures
        match material_of(loaded@, contents(buffers@), *declared) {
            Ok(view) => material matches Ok(m) && m@ == view,
            Err(e) => material matches Err(x) && x == e,
        },
{
    let albedo_texture = match parse_optional_texture(
        loaded,
        buffers,
        &declared.base_color_texture,
    ) {
        Ok(t) => t,
        Err(e) => {
            return Err(e);
        },
    };
    let metallic_roughness_texture = match parse_optional_texture(
        loaded,
        buffers,
        &declared.metallic_roughness_texture,
    ) {
        Ok(t) => t,
        Err(e) => {
            return Err(e);
        },
    };
    let (normal_texture, normal_scale) = match parse_map(loaded, buffers, &declared.normal_texture) {
        Ok(t) => t,
        Err(e) => {
            return Err(e);
        },
    };
    let (occlusion_texture, occlusion_strength) = match parse_map(
        loaded,
        buffers,
        &declared.occlusion_texture,
    ) {
        Ok(t) => t,
        Err(e) => {
            return Err(e);
        },
    };
    let emissive_texture = match parse_optional_texture(
        loaded,
        buffers,
        &declared.emissive_texture,
    ) {
        Ok(t) => t,
        Err(e) => {
            return Err(e);
        },
    };
    Ok(
        CpuMaterial {
            name: material_name(declared),
            albedo: declared.base_color,
            albedo_texture,
            metallic: declared.metallic,
            roughness: declared.roughness,
            metallic_roughness_texture,
            normal_texture,
            normal_scale,
            occlusion_texture,
            occlusion_strength,
            emissive: declared.emissive,
            emissive_texture,
        },
    )
}

/// Whether a material of that name is among `materials`.
pub fn is_parsed(materials: &Vec<CpuMaterial>, name: &String) -> (parsed: bool)
    ensures
        parsed == known(material_views(materials@), name@),
{
    let mut i: usize = 0;
    while i < materials.len()
        invariant
            i <= materials@.len(),
            forall|j: int| 0 <= j < i ==> (#[trigger] material_views(materials@)[j]).name != name@,
        decreases materials@.len() - i,
    {
        if materials[i].name == *name {
            assert(material_views(materials@)[i as int].name == name@);
            return true;
        }
        i = i + 1;
    }
    false
}

/// Collects the meshes and materials of a node and of all that is below it,
/// after those in `cpu_meshes` and `cpu_materials`.
///
/// Every primitive with positions gives a mesh. A material is built once,
/// when the first primitive that names it is met. The first image that
/// cannot be had ends the walk with its error.
pub fn parse_tree<'a>(
    node: &'a Node,
    loaded: &Loaded,
    buffers: &Vec<Vec<u8>>,
    cpu_meshes: Vec<CpuMesh<'a>>,
    cpu_materials: Vec<CpuMaterial>,
) -> (out: Result<(Vec<CpuMesh<'a>>, Vec<CpuMaterial>), IOError>)
    ensures
        match after_node(
            Scene {
                meshes: mesh_views(cpu_meshes@),
                materials: material_views(cpu_materials@),
            },
            loaded@,
            contents(buffers@),
            *node,
        ) {
            Ok(scene) => out matches Ok(lists) && mesh_views(lists.0@) == scene.meshes
                && material_views(lists.1@) == scene.materials,
            Err(e) => out matches Err(x) && x == e,
        },
    decreases node,
{
    let mut meshes = cpu_meshes;
    let mut materials = cpu_materials;
    let ghost files = loaded@;
    let ghost bytes = contents(buffers@);
    let ghost goal = after_node(
        Scene { meshes: mesh_views(cpu_meshes@), materials: material_views(cpu_materials@) },
        files,
        bytes,
        *node,
    );
    match &node.mesh {
        Some(mesh) => {
            let mut k: usize = 0;
            while k < mesh.primitives.len()
                invariant
                    k <= mesh.primitives@.len(),
                    node.mesh == Some(*mesh),
                    files == loaded@,
                    bytes == contents(buffers@),
                    after_primitives(
                        Scene {
                            meshes: mesh_views(meshes@),
                            materials: material_views(materials@),
                        },
                        files,
                        bytes,
                        *mesh,
                        k as nat,
                    ) == after_primitives(
                        Scene {
                            meshes: mesh_views(cpu_meshes@),
                            materials: material_views(cpu_materials@),
                        },
                        files,
                        bytes,
                        *mesh,
                        0,
                    ),
                    goal == after_node(
                        Scene {
                            meshes: mesh_views(cpu_meshes@),
                            materials: material_views(cpu_materials@),
                        },
                        files,
                        bytes,
                        *node,
                    ),
                decreases mesh.primitives@.len() - k,
            {
                let primitive: &'a Primitive = &mesh.primitives[k];
                if primitive.positions.is_some() {
                    let name = material_name(&primitive.material);
                    if !is_parsed(&materials, &name) {
                        match parse_material(loaded, buffers, &primitive.material) {
                            Ok(material) => {
                                proof {
                                    assert(material_views(materials@.push(material))
                                        =~= material_views(materials@).push(material@));
                                }
                                materials.push(material);
                            },
                            Err(e) => {
                                return Err(e);
                            },
                        }
                    }
                    let made = CpuMesh { name: mesh_name(mesh), material_name: Some(name), primitive };
                    proof {
                        assert(mesh_views(meshes@.push(made)) =~= mesh_views(meshes@).push(made@));
                    }
                    meshes.push(made);
                }
                k = k + 1;
            }
        },
        None => {},
    }
    let mut c: usize = 0;
    while c < node.children.len()
        invariant
            c <= node.children@.len(),
            files == loaded@,
            bytes == contents(buffers@),
            after_nodes(
                Scene { meshes: mesh_views(meshes@), materials: material_views(materials@) },
                files,
                bytes,
                node.children@,
                c as nat,
            ) == goal,
            goal == after_node(
                Scene {
                    meshes: mesh_views(cpu_meshes@),
                    materials: material_views(cpu_materials@),
                },
                files,
                bytes,
                *node,
            ),
        decreases node.children@.len() - c,
    {
        match parse_tree(&node.children[c], loaded, buffers, meshes, materials) {
            Ok(lists) => {
                meshes = lists.0;
                materials = lists.1;
            },
            Err(e) => {
                return Err(e);
            },
        }
        c = c + 1;
    }
    Ok((meshes, materials))
}

impl Loaded {
    /// Resolves the buffers that a model declares, in order.
    ///
    /// A buffer with a path is taken out of the loaded files; a buffer
    /// without one is the binary part `blob` of the model file, which only
    /// one buffer can be. A buffer with fewer bytes than declared is corrupt.
    /// Each buffer is padded with zeros to a multiple of 4 bytes. The first
    /// failure ends the call; the files taken until then stay taken.
    pub fn gltf_buffers(&mut self, declared: &Vec<BufferDecl>, blob: Option<Vec<u8>>) -> (buffers:
        Result<Vec<Vec<u8>>, IOError>)
        ensures
            ({
                let resolution = resolve_from(
                    old(self)@,
                    blob_view(blob),
                    declared@,
                    0,
                    Seq::empty(),
                );
                &&& final(self)@ == resolution.files
                &&& match resolution.outcome {
                    Ok(content) => buffers matches Ok(b) && contents(b@) == content,
                    Err(e) => buffers matches Err(x) && x == e,
                }
            }),
    {
        let mut rest: Option<Vec<u8>> = blob;
        let mut done: Vec<Vec<u8>> = Vec::new();
        let ghost goal = resolve_from(old(self)@, blob_view(blob), declared@, 0, Seq::empty());
        proof {
            assert(contents(done@) =~= Seq::<Seq<u8>>::empty());
        }
        let mut k: usize = 0;
        while k < declared.len()
            invariant
                k <= declared@.len(),
                resolve_from(self@, blob_view(rest), declared@, k as nat, contents(done@)) == goal,
                goal == resolve_from(old(self)@, blob_view(blob), declared@, 0, Seq::empty()),
            decreases declared@.len() - k,
        {
            let data: Vec<u8> = match &declared[k].source {
                BufferSource::Uri(path) => match self.remove_bytes(path) {
                    Ok(content) => content,
                    Err(e) => {
                        return Err(IOError::NotLoaded(path.clone()));
                    },
                },
                BufferSource::Bin => {
                    let mut taken: Option<Vec<u8>> = None;
                    core::mem::swap(&mut rest, &mut taken);
                    match taken {
                        Some(content) => content,
                        None => {
                            return Err(IOError::GltfMissingData);
                        },
                    }
                },
            };
            if data.len() < declared[k].length {
                return Err(IOError::GltfCorruptData);
            }
            let data = pad_to_four(data);
            proof {
                assert(contents(done@.push(data)) =~= contents(done@).push(data@));
            }
            done.push(data);
            k = k + 1;
        }
        Ok(done)
    }

    /// Collects the meshes and materials of the scenes of a model, scene by
    /// scene and in each scene node by node, each node with all that is
    /// below it.
    pub fn gltf<'a>(&self, scenes: &'a Vec<Vec<Node>>, buffers: &Vec<Vec<u8>>) -> (out: Result<
        (Vec<CpuMesh<'a>>, Vec<CpuMaterial>),
        IOError,
    >)
        ensures
            match after_scenes(
                Scene { meshes: Seq::empty(), materials: Seq::empty() },
                self@,
                contents(buffers@),
                scenes@,
                0,
            ) {
                Ok(scene) => out matches Ok(lists) && mesh_views(lists.0@) == scene.meshes
                    && material_views(lists.1@) == scene.materials,
                Err(e) => out matches Err(x) && x == e,
            },
    {
        let mut cpu_meshes: Vec<CpuMesh<'a>> = Vec::new();
        let mut cpu_materials: Vec<CpuMaterial> = Vec::new();
        let ghost goal = after_scenes(
            Scene { meshes: Seq::empty(), materials: Seq::empty() },
            self@,
            contents(buffers@),
            scenes@,
            0,
        );
        proof {
            assert(mesh_views(cpu_meshes@) =~= Seq::<MeshView>::empty());
            assert(material_views(cpu_materials@) =~= Seq::<MaterialView>::empty());
        }
        let mut s: usize = 0;
        while s < scenes.len()
            invariant
                s <= scenes@.len(),
                after_scenes(
                    Scene {
                        meshes: mesh_views(cpu_meshes@),
                        materials: material_views(cpu_materials@),
                    },
                    self@,
                    contents(buffers@),
                    scenes@,
                    s as nat,
                ) == goal,
                goal == after_scenes(
                    Scene { meshes: Seq::empty(), materials: Seq::empty() },
                    self@,
                    contents(buffers@),
                    scenes@,
                    0,
                ),
            decreases scenes@.len() - s,
        {
            let nodes: &'a Vec<Node> = &scenes[s];
            let ghost entry = Scene {
                meshes: mesh_views(cpu_meshes@),
                materials: material_views(cpu_materials@),
            };
            let mut n: usize = 0;
            while n < nodes.len()
                invariant
                    n <= nodes@.len(),
                    s < scenes@.len(),
                    *nodes == scenes@[s as int],
                    after_scenes(entry, self@, contents(buffers@), scenes@, s as nat) == goal,
                    goal == after_scenes(
                        Scene { meshes: Seq::empty(), materials: Seq::empty() },
                        self@,
                        contents(buffers@),
                        scenes@,
                        0,
                    ),
                    after_nodes(
                        Scene {
                            meshes: mesh_views(cpu_meshes@),
                            materials: material_views(cpu_materials@),
                        },
                        self@,
                        contents(buffers@),
                        nodes@,
                        n as nat,
                    ) == after_nodes(entry, self@, contents(buffers@), nodes@, 0),
                decreases nodes@.len() - n,
            {
                match parse_tree(&nodes[n], self, buffers, cpu_meshes, cpu_materials) {
                    Ok(lists) => {
                        cpu_meshes = lists.0;
                        cpu_materials = lists.1;
                    },
                    Err(e) => {
                        return Err(e);
                    },
                }
                n = n + 1;
            }
            s = s + 1;
        }
        Ok((cpu_meshes, cpu_materials))
    }
}

} // verus!
