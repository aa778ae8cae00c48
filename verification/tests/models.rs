use three_d::gltf::{
    is_parsed, material_name, mesh_name, pad_to_four, parse_material, parse_texture, parse_tree,
    BufferDecl, BufferSource, CpuMaterial, ImageSource, Indices, MaterialDecl, Mesh, Node,
    Primitive, ONE,
};
use three_d::io::{copy_range, IOError, Loaded};
use three_d::state::Color;

fn path(text: &str) -> String {
    text.to_string()
}

fn white() -> Color {
    Color { r: 255, g: 255, b: 255, a: 255 }
}

fn material(name: Option<&str>, index: Option<usize>) -> MaterialDecl {
    MaterialDecl {
        name: name.map(|n| n.to_string()),
        index,
        base_color: white(),
        base_color_texture: None,
        metallic: ONE,
        roughness: ONE,
        metallic_roughness_texture: None,
        normal_texture: None,
        occlusion_texture: None,
        emissive: Color { r: 0, g: 0, b: 0, a: 255 },
        emissive_texture: None,
    }
}

fn primitive(with_positions: bool, material: MaterialDecl) -> Primitive {
    Primitive {
        positions: if with_positions { Some(vec![[0, 0, 0], [ONE, 0, 0], [0, ONE, 0]]) } else { None },
        normals: None,
        tangents: None,
        indices: Some(Indices::U8(vec![0, 1, 2])),
        colors: None,
        uvs: None,
        material,
    }
}

fn node(mesh: Option<Mesh>, children: Vec<Node>) -> Node {
    Node { mesh, children }
}

fn mesh(name: Option<&str>, index: usize, primitives: Vec<Primitive>) -> Mesh {
    Mesh { name: name.map(|n| n.to_string()), index, primitives }
}

#[test]
fn loaded_files_are_found_by_path() {
    let mut loaded = Loaded::new();
    assert_eq!(loaded.get_bytes(&path("a.bin")), Err(IOError::NotLoaded(path("a.bin"))));
    loaded.insert_bytes(path("a.bin"), vec![1, 2, 3]);
    loaded.insert_bytes(path("b.bin"), vec![4]);
    assert_eq!(loaded.get_bytes(&path("a.bin")), Ok(&vec![1, 2, 3]));
    loaded.insert_bytes(path("a.bin"), vec![9, 9]);
    assert_eq!(loaded.get_bytes(&path("a.bin")), Ok(&vec![9, 9]));
    assert_eq!(loaded.get_bytes(&path("b.bin")), Ok(&vec![4]));
    assert_eq!(loaded.remove_bytes(&path("a.bin")), Ok(vec![9, 9]));
    assert_eq!(loaded.remove_bytes(&path("a.bin")), Err(IOError::NotLoaded(path("a.bin"))));
    assert_eq!(loaded.get_bytes(&path("b.bin")), Ok(&vec![4]));
}

#[test]
fn copy_range_copies_the_middle() {
    let bytes: Vec<u8> = vec![10, 11, 12, 13, 14];
    assert_eq!(copy_range(&bytes, 1, 3), vec![11, 12, 13]);
    assert_eq!(copy_range(&bytes, 5, 0), Vec::<u8>::new());
    assert_eq!(copy_range(&bytes, 0, 5), bytes);
}

#[test]
fn padding_reaches_a_multiple_of_four() {
    assert_eq!(pad_to_four(vec![]), Vec::<u8>::new());
    assert_eq!(pad_to_four(vec![1]), vec![1, 0, 0, 0]);
    assert_eq!(pad_to_four(vec![1, 2]), vec![1, 2, 0, 0]);
    assert_eq!(pad_to_four(vec![1, 2, 3]), vec![1, 2, 3, 0]);
    assert_eq!(pad_to_four(vec![1, 2, 3, 4]), vec![1, 2, 3, 4]);
    assert_eq!(pad_to_four(vec![1, 2, 3, 4, 5]), vec![1, 2, 3, 4, 5, 0, 0, 0]);
}

#[test]
fn buffers_come_from_files_and_from_the_binary_part() {
    let mut loaded = Loaded::new();
    loaded.insert_bytes(path("model/a.bin"), vec![1, 2, 3, 4, 5]);
    loaded.insert_bytes(path("model/tex.png"), vec![7]);
    let declared = vec![
        BufferDecl { source: BufferSource::Uri(path("model/a.bin")), length: 5 },
        BufferDecl { source: BufferSource::Bin, length: 2 },
    ];
    let buffers = loaded.gltf_buffers(&declared, Some(vec![8, 9, 10])).unwrap();
    assert_eq!(buffers, vec![vec![1, 2, 3, 4, 5, 0, 0, 0], vec![8, 9, 10, 0]]);
    assert_eq!(loaded.get_bytes(&path("model/a.bin")), Err(IOError::NotLoaded(path("model/a.bin"))));
    assert_eq!(loaded.get_bytes(&path("model/tex.png")), Ok(&vec![7]));
}

#[test]
fn binary_part_serves_one_buffer() {
    let mut loaded = Loaded::new();
    let declared = vec![
        BufferDecl { source: BufferSource::Bin, length: 1 },
        BufferDecl { source: BufferSource::Bin, length: 1 },
    ];
    assert_eq!(loaded.gltf_buffers(&declared, Some(vec![1])), Err(IOError::GltfMissingData));
    let one = vec![BufferDecl { source: BufferSource::Bin, length: 0 }];
    assert_eq!(loaded.gltf_buffers(&one, None), Err(IOError::GltfMissingData));
}

#[test]
fn short_buffer_is_corrupt() {
    let mut loaded = Loaded::new();
    loaded.insert_bytes(path("a.bin"), vec![1, 2, 3]);
    let declared = vec![BufferDecl { source: BufferSource::Uri(path("a.bin")), length: 4 }];
    assert_eq!(loaded.gltf_buffers(&declared, None), Err(IOError::GltfCorruptData));
    assert_eq!(loaded.get_bytes(&path("a.bin")), Err(IOError::NotLoaded(path("a.bin"))));
    let missing = vec![BufferDecl { source: BufferSource::Uri(path("b.bin")), length: 0 }];
    assert_eq!(loaded.gltf_buffers(&missing, None), Err(IOError::NotLoaded(path("b.bin"))));
}

#[test]
fn names_fall_back_to_the_index() {
    assert_eq!(mesh_name(&mesh(Some("wheel"), 3, vec![])), "wheel");
    assert_eq!(mesh_name(&mesh(None, 0, vec![])), "index 0");
    assert_eq!(mesh_name(&mesh(None, 12, vec![])), "index 12");
    assert_eq!(mesh_name(&mesh(None, 1090, vec![])), "index 1090");
    assert_eq!(material_name(&material(Some("steel"), Some(2))), "steel");
    assert_eq!(material_name(&material(None, Some(7))), "index 7");
    assert_eq!(material_name(&material(None, None)), "default");
}

#[test]
fn image_bytes_come_from_a_file_or_a_buffer() {
    let mut loaded = Loaded::new();
    loaded.insert_bytes(path("tex.png"), vec![1, 2, 3]);
    let buffers = vec![vec![10, 11, 12, 13, 14, 15, 16, 17]];
    let file = ImageSource::Uri(path("tex.png"));
    assert_eq!(parse_texture(&loaded, &buffers, &file), Ok(vec![1, 2, 3]));
    let gone = ImageSource::Uri(path("none.png"));
    assert_eq!(parse_texture(&loaded, &buffers, &gone), Err(IOError::NotLoaded(path("none.png"))));
    let view = ImageSource::View { buffer: 0, offset: 2, length: 3, stride: None };
    assert_eq!(parse_texture(&loaded, &buffers, &view), Ok(vec![12, 13, 14]));
    let whole = ImageSource::View { buffer: 0, offset: 0, length: 8, stride: None };
    assert_eq!(parse_texture(&loaded, &buffers, &whole), Ok(buffers[0].clone()));
    let long = ImageSource::View { buffer: 0, offset: 6, length: 3, stride: None };
    assert_eq!(parse_texture(&loaded, &buffers, &long), Err(IOError::GltfCorruptData));
    let huge = ImageSource::View { buffer: 0, offset: usize::MAX, length: 2, stride: None };
    assert_eq!(parse_texture(&loaded, &buffers, &huge), Err(IOError::GltfCorruptData));
    let other = ImageSource::View { buffer: 1, offset: 0, length: 0, stride: None };
    assert_eq!(parse_texture(&loaded, &buffers, &other), Err(IOError::GltfCorruptData));
    let strided = ImageSource::View { buffer: 0, offset: 2, length: 3, stride: Some(4) };
    assert_eq!(parse_texture(&loaded, &buffers, &strided), Err(IOError::GltfStridedImage));
}

#[test]
fn material_takes_its_maps_and_factors() {
    let mut loaded = Loaded::new();
    loaded.insert_bytes(path("albedo.png"), vec![1]);
    loaded.insert_bytes(path("normal.png"), vec![2]);
    let buffers: Vec<Vec<u8>> = vec![vec![5, 6, 7, 8]];
    let mut declared = material(Some("steel"), Some(0));
    declared.base_color_texture = Some(ImageSource::Uri(path("albedo.png")));
    declared.normal_texture = Some((ImageSource::Uri(path("normal.png")), 77));
    declared.emissive_texture =
        Some(ImageSource::View { buffer: 0, offset: 1, length: 2, stride: None });
    let made: CpuMaterial = parse_material(&loaded, &buffers, &declared).ok().unwrap();
    assert_eq!(made.name, "steel");
    assert_eq!(made.albedo, white());
    assert_eq!(made.albedo_texture, Some(vec![1]));
    assert_eq!(made.metallic_roughness_texture, None);
    assert_eq!(made.normal_texture, Some(vec![2]));
    assert_eq!(made.normal_scale, 77);
    assert_eq!(made.occlusion_texture, None);
    assert_eq!(made.occlusion_strength, 1.0f32.to_bits());
    assert_eq!(made.emissive_texture, Some(vec![6, 7]));
    assert_eq!(made.metallic, ONE);
    declared.occlusion_texture = Some((ImageSource::Uri(path("missing.png")), 1));
    declared.emissive_texture =
        Some(ImageSource::View { buffer: 3, offset: 0, length: 0, stride: None });
    let failed = parse_material(&loaded, &buffers, &declared);
    assert_eq!(failed.err(), Some(IOError::NotLoaded(path("missing.png"))));
}

#[test]
fn tree_gives_meshes_in_depth_first_order() {
    let leaf_a = node(Some(mesh(Some("a"), 1, vec![primitive(true, material(Some("m"), Some(0)))])), vec![]);
    let leaf_b = node(Some(mesh(None, 2, vec![primitive(true, material(None, Some(1)))])), vec![]);
    let inner = node(Some(mesh(Some("inner"), 3, vec![primitive(true, material(Some("m"), Some(0)))])), vec![leaf_a]);
    let root = node(
        Some(mesh(
            Some("root"),
            0,
            vec![
                primitive(false, material(Some("skipped"), Some(5))),
                primitive(true, material(None, None)),
            ],
        )),
        vec![inner, leaf_b],
    );
    let loaded = Loaded::new();
    let buffers: Vec<Vec<u8>> = vec![];
    let (meshes, materials) =
        parse_tree(&root, &loaded, &buffers, Vec::new(), Vec::new()).ok().unwrap();
    let mesh_names: Vec<&str> = meshes.iter().map(|m| m.name.as_str()).collect();
    assert_eq!(mesh_names, vec!["root", "inner", "a", "index 2"]);
    let used: Vec<Option<&str>> = meshes.iter().map(|m| m.material_name.as_deref()).collect();
    assert_eq!(used, vec![Some("default"), Some("m"), Some("m"), Some("index 1")]);
    let material_names: Vec<&str> = materials.iter().map(|m| m.name.as_str()).collect();
    assert_eq!(material_names, vec!["default", "m", "index 1"]);
    assert!(is_parsed(&materials, &path("m")));
    assert!(!is_parsed(&materials, &path("skipped")));
    assert_eq!(meshes[0].primitive.positions.as_ref().unwrap().len(), 3);
}

#[test]
fn tree_stops_at_the_first_image_that_is_missing() {
    let mut broken = material(Some("broken"), Some(0));
    broken.base_color_texture = Some(ImageSource::Uri(path("gone.png")));
    let child = node(Some(mesh(Some("c"), 1, vec![primitive(true, broken)])), vec![]);
    let root = node(None, vec![node(None, vec![]), child]);
    let loaded = Loaded::new();
    let buffers: Vec<Vec<u8>> = vec![];
    let out = parse_tree(&root, &loaded, &buffers, Vec::new(), Vec::new());
    assert_eq!(out.err(), Some(IOError::NotLoaded(path("gone.png"))));
}

#[test]
fn model_gives_the_meshes_of_all_scenes() {
    let first = vec![
        node(Some(mesh(Some("one"), 0, vec![primitive(true, material(Some("m"), Some(0)))])), vec![]),
        node(Some(mesh(Some("two"), 1, vec![primitive(true, material(Some("n"), Some(1)))])), vec![]),
    ];
    let second = vec![node(
        Some(mesh(Some("three"), 2, vec![primitive(true, material(Some("m"), Some(0)))])),
        vec![],
    )];
    let scenes = vec![first, Vec::new(), second];
    let loaded = Loaded::new();
    let buffers: Vec<Vec<u8>> = vec![];
    let (meshes, materials) = loaded.gltf(&scenes, &buffers).ok().unwrap();
    let mesh_names: Vec<&str> = meshes.iter().map(|m| m.name.as_str()).collect();
    assert_eq!(mesh_names, vec!["one", "two", "three"]);
    let material_names: Vec<&str> = materials.iter().map(|m| m.name.as_str()).collect();
    assert_eq!(material_names, vec!["m", "n"]);
    let nothing: Vec<Vec<Node>> = Vec::new();
    let (meshes, materials) = loaded.gltf(&nothing, &buffers).ok().unwrap();
    assert!(meshes.is_empty() && materials.is_empty());
}
