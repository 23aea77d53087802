use std::path::PathBuf;

use yamc::res::{
    check_resource_id, decode, LoadedResourceData, Lookup, ResourceError, ResourceLoadType,
    ResourceSystem,
};

#[test]
fn missing_resource_names_the_file_below_the_root() {
    let system = ResourceSystem::new(PathBuf::from("./res/"));
    match system.get_loaded_resource("shaders/voxel.wgsl", ResourceLoadType::PlainText) {
        Ok(Lookup::Missing { path, load_type }) => {
            assert_eq!(path, PathBuf::from("./res/").join("shaders/voxel.wgsl"));
            assert!(matches!(load_type, ResourceLoadType::PlainText));
        }
        _ => panic!("the resource is neither held nor invalid"),
    }
}

#[test]
fn rooted_resource_id_is_turned_down() {
    let system = ResourceSystem::new(PathBuf::from("./res/"));
    let id = format!("{}shaders{}voxel.wgsl", std::path::MAIN_SEPARATOR, std::path::MAIN_SEPARATOR);
    assert!(PathBuf::from(&id).has_root());
    match system.get_loaded_resource(&id, ResourceLoadType::PlainText) {
        Err(ResourceError::InvalidResourceId(refused)) => assert_eq!(refused, id),
        _ => panic!("a rooted id was accepted"),
    }
}

#[test]
fn resource_id_is_judged_by_root_and_relativity() {
    assert!(check_resource_id("a/b", false, true).is_ok());
    for (has_root, is_relative) in [(true, true), (true, false), (false, false)] {
        match check_resource_id("a/b", has_root, is_relative) {
            Err(ResourceError::InvalidResourceId(refused)) => assert_eq!(refused, "a/b"),
            _ => panic!("the id was accepted"),
        }
    }
}

#[test]
fn plain_text_is_kept_as_it_was_read() {
    let resource = decode(ResourceLoadType::PlainText, String::from("fn vs_main() {}\n"));
    match &resource.data {
        LoadedResourceData::Text(text) => assert_eq!(text, "fn vs_main() {}\n"),
    }
}
