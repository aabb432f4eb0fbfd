use metatopia_engine::manifold::metric::GeometryType;
use metatopia_engine::resources::{
    MeshResource, ResourceManager, ResourceStorage, ShaderResource, TextureFormat,
    TextureResource, WorldMetadata,
};

#[test]
fn world_metadata_has_its_defaults() {
    let metadata = WorldMetadata::default();
    assert_eq!(metadata.name, "Untitled World");
    assert_eq!(metadata.description, "");
    assert_eq!(metadata.author, "Unknown");
    assert_eq!(metadata.version, "1.0.0");
}

#[test]
fn storage_keeps_one_resource_per_name() {
    let mut storage: ResourceStorage<u32> = ResourceStorage::new();
    assert!(storage.get("a").is_none());
    assert!(!storage.contains("a"));
    storage.insert("a".to_string(), 1);
    storage.insert("b".to_string(), 2);
    storage.insert("ab".to_string(), 3);
    storage.insert("a".to_string(), 4);
    assert_eq!(storage.get("a"), Some(&4));
    assert_eq!(storage.get("b"), Some(&2));
    assert_eq!(storage.get("ab"), Some(&3));
    assert_eq!(storage.get(""), None);
    assert_eq!(storage.remove("b"), Some(2));
    assert_eq!(storage.remove("b"), None);
    assert_eq!(storage.get("a"), Some(&4));
    assert_eq!(storage.get("ab"), Some(&3));
    assert!(!storage.contains("b"));
    assert_eq!(storage.remove("a"), Some(4));
    assert_eq!(storage.remove("ab"), Some(3));
    assert!(!storage.contains("ab"));
}

#[test]
fn manager_adds_finds_and_removes_resources() {
    let mut textures: ResourceManager<TextureResource> = ResourceManager::new();
    assert_eq!(textures.asset_path(), "assets");
    textures.set_asset_path("data/textures");
    assert_eq!(textures.asset_path(), "data/textures");
    assert!(!textures.contains("white"));
    textures.add(
        "white",
        TextureResource { width: 1, height: 1, data: vec![255, 255, 255, 255], format: TextureFormat::Rgba8 },
    );
    textures.add(
        "grey",
        TextureResource { width: 2, height: 1, data: vec![128, 128], format: TextureFormat::R8 },
    );
    assert!(textures.contains("white"));
    assert_eq!(textures.get("grey").unwrap().width, 2);
    assert_eq!(textures.get("grey").unwrap().format, TextureFormat::R8);
    assert!(textures.get("black").is_none());
    let white = textures.remove("white").expect("it was added");
    assert_eq!(white.data, vec![255, 255, 255, 255]);
    assert!(!textures.contains("white"));
    assert!(textures.remove("white").is_none());
    assert!(textures.contains("grey"));
    assert_eq!(textures.asset_path(), "data/textures");
}

#[test]
fn resources_hold_what_they_are_given() {
    let mesh = MeshResource { vertices: vec![[0.0f32; 3], [1.0, 0.0, 0.0], [0.0, 1.0, 0.0]], indices: vec![0, 1, 2] };
    let copy = mesh.clone();
    assert_eq!(copy.vertices.len(), 3);
    assert_eq!(copy.indices, vec![0, 1, 2]);
    let shader = ShaderResource {
        vertex_source: "vs".to_string(),
        fragment_source: "fs".to_string(),
        geometry_type: GeometryType::Hyperbolic,
    };
    let mut shaders: ResourceManager<ShaderResource> = ResourceManager::new();
    shaders.add("disk", shader.clone());
    assert_eq!(shaders.get("disk").unwrap().geometry_type, GeometryType::Hyperbolic);
    assert_eq!(shaders.get("disk").unwrap().vertex_source, "vs");
    assert_ne!(TextureFormat::Rgb8, TextureFormat::Rgba16F);
}
