use blub::shader::{
    binary_path, has_header, is_spirv_binary, observe, same_time, shader_root, ShaderDirectory,
    ShaderSourceFile, SourceStamp, SPIRV_MAGIC_NUMBER,
};

#[test]
fn binary_lies_beside_its_source() {
    assert_eq!(binary_path("sphere_particles.vert"), "sphere_particles.vert.spv");
    assert_eq!(binary_path("a/b.frag"), "a/b.frag.spv");
    assert_eq!(binary_path(""), ".spv");
}

fn spirv(words: &[u32]) -> Vec<u8> {
    let mut bytes = Vec::new();
    for word in words {
        bytes.extend_from_slice(&word.to_ne_bytes());
    }
    bytes
}

#[test]
fn shader_root_is_the_shader_directory() {
    assert_eq!(shader_root(), "shader");
    assert_eq!(ShaderDirectory::new(shader_root()).directory(), "shader");
}

#[test]
fn spirv_magic_number() {
    assert_eq!(SPIRV_MAGIC_NUMBER, 0x0723_0203);
}

#[test]
fn header_needs_whole_words_and_the_magic_bytes() {
    let magic = vec![1u8, 2, 3, 4];
    assert!(has_header(&vec![1, 2, 3, 4], &magic));
    assert!(has_header(&vec![1, 2, 3, 4, 9, 9, 9, 9], &magic));
    assert!(!has_header(&vec![], &magic));
    assert!(!has_header(&vec![1, 2, 3], &magic));
    assert!(!has_header(&vec![1, 2, 3, 4, 5], &magic));
    assert!(!has_header(&vec![1, 2, 3, 4, 5, 6, 7], &magic));
    assert!(!has_header(&vec![1, 2, 3, 5], &magic));
    assert!(!has_header(&vec![0, 2, 3, 4], &magic));
    assert!(!has_header(&vec![4, 3, 2, 1], &magic));
    // A magic of another length than one word fits nothing.
    assert!(!has_header(&vec![1, 2, 3, 4], &vec![1, 2, 3]));
    assert!(!has_header(&vec![1, 2, 3, 4, 5, 6, 7, 8], &vec![1, 2, 3, 4, 5, 6, 7, 8]));
    assert!(!has_header(&vec![], &vec![]));
}

#[test]
fn spirv_binary_begins_with_the_magic_number_in_this_machines_order() {
    assert!(is_spirv_binary(&spirv(&[0x0723_0203])));
    assert!(is_spirv_binary(&spirv(&[0x0723_0203, 0x0001_0000, 7, 8, 0])));
    assert!(!is_spirv_binary(&spirv(&[0x0723_0203u32.swap_bytes(), 0x0001_0000])));
    assert!(!is_spirv_binary(&spirv(&[0x0723_0204])));
    assert!(!is_spirv_binary(&spirv(&[0, 0x0723_0203])));
}

#[test]
fn spirv_binary_is_whole_words() {
    assert!(!is_spirv_binary(&vec![]));
    let mut bytes = spirv(&[0x0723_0203, 1]);
    bytes.push(0);
    assert!(!is_spirv_binary(&bytes));
    bytes.truncate(7);
    assert!(!is_spirv_binary(&bytes));
    bytes.truncate(3);
    assert!(!is_spirv_binary(&bytes));
}

#[test]
fn text_is_no_spirv_binary() {
    assert!(!is_spirv_binary(&b"#version 450\nvoid main() {}\n".to_vec()));
    assert!(!is_spirv_binary(&b"void".to_vec()));
}

fn stamp(path: &str, modified: Option<u64>) -> SourceStamp {
    SourceStamp { path: path.to_string(), modified }
}

fn file(path: &str, last_modified: Option<u64>) -> ShaderSourceFile {
    ShaderSourceFile { path: path.to_string(), last_modified }
}

#[test]
fn new_directory_is_empty() {
    let dir = ShaderDirectory::new("shader".to_string());
    assert_eq!(dir.directory(), "shader");
    assert!(dir.files().is_empty());
}

#[test]
fn empty_directory_detects_no_change() {
    let dir = ShaderDirectory::new("shader".to_string());
    assert!(!dir.detected_change(&vec![]));
    assert!(!dir.detected_change(&vec![stamp("a.vert", Some(3))]));
}

#[test]
fn load_hands_the_module_on() {
    let mut dir = ShaderDirectory::new("shader".to_string());
    assert_eq!(dir.load_shader_module("a.vert".to_string(), Some(10), Some("module")), Some("module"));
    assert_eq!(dir.load_shader_module::<&str>("a.frag".to_string(), Some(10), None), None);
}

#[test]
fn load_records_files_in_order_of_first_load() {
    let mut dir = ShaderDirectory::new("shader".to_string());
    dir.load_shader_module("a.vert".to_string(), Some(10), Some(1u32));
    dir.load_shader_module("a.frag".to_string(), Some(20), Some(2u32));
    assert_eq!(dir.files(), &vec![file("a.vert", Some(10)), file("a.frag", Some(20))]);
}

#[test]
fn load_replaces_a_known_file_in_place() {
    let mut dir = ShaderDirectory::new("shader".to_string());
    dir.load_shader_module("a.vert".to_string(), Some(10), Some(1u32));
    dir.load_shader_module("a.frag".to_string(), Some(20), Some(2u32));
    dir.load_shader_module("a.vert".to_string(), Some(30), Some(3u32));
    assert_eq!(dir.files(), &vec![file("a.vert", Some(30)), file("a.frag", Some(20))]);
    assert_eq!(dir.directory(), "shader");
}

#[test]
fn failed_load_still_records_the_time() {
    let mut dir = ShaderDirectory::new("shader".to_string());
    dir.load_shader_module("a.vert".to_string(), Some(10), Some(1u32));
    let module = dir.load_shader_module::<u32>("a.vert".to_string(), Some(11), None);
    assert_eq!(module, None);
    assert_eq!(dir.files(), &vec![file("a.vert", Some(11))]);
    assert!(!dir.detected_change(&vec![stamp("a.vert", Some(11))]));
}

#[test]
fn missing_file_is_recorded_without_a_time() {
    let mut dir = ShaderDirectory::new("shader".to_string());
    let module = dir.load_shader_module::<u32>("gone.vert".to_string(), None, None);
    assert_eq!(module, None);
    assert_eq!(dir.files(), &vec![file("gone.vert", None)]);
    assert!(!dir.detected_change(&vec![]));
    assert!(dir.detected_change(&vec![stamp("gone.vert", Some(1))]));
}

#[test]
fn no_change_right_after_loading() {
    let mut dir = ShaderDirectory::new("shader".to_string());
    dir.load_shader_module("a.vert".to_string(), Some(10), Some(1u32));
    dir.load_shader_module("a.frag".to_string(), Some(20), Some(2u32));
    let stamps = vec![stamp("a.vert", Some(10)), stamp("a.frag", Some(20))];
    assert!(!dir.detected_change(&stamps));
    // Asking records nothing: the answer stays the same.
    assert!(!dir.detected_change(&stamps));
}

#[test]
fn change_detected_when_a_time_advances() {
    let mut dir = ShaderDirectory::new("shader".to_string());
    dir.load_shader_module("a.vert".to_string(), Some(10), Some(1u32));
    dir.load_shader_module("a.frag".to_string(), Some(20), Some(2u32));
    assert!(dir.detected_change(&vec![stamp("a.vert", Some(10)), stamp("a.frag", Some(21))]));
    assert!(dir.detected_change(&vec![stamp("a.vert", Some(11)), stamp("a.frag", Some(20))]));
}

#[test]
fn change_detected_when_a_time_goes_back() {
    let mut dir = ShaderDirectory::new("shader".to_string());
    dir.load_shader_module("a.vert".to_string(), Some(10), Some(1u32));
    assert!(dir.detected_change(&vec![stamp("a.vert", Some(9))]));
}

#[test]
fn change_detected_when_a_file_disappears() {
    let mut dir = ShaderDirectory::new("shader".to_string());
    dir.load_shader_module("a.vert".to_string(), Some(10), Some(1u32));
    assert!(dir.detected_change(&vec![stamp("a.vert", None)]));
    assert!(dir.detected_change(&vec![]));
}

#[test]
fn reload_clears_the_change() {
    let mut dir = ShaderDirectory::new("shader".to_string());
    dir.load_shader_module("a.vert".to_string(), Some(10), Some(1u32));
    dir.load_shader_module("a.frag".to_string(), Some(20), Some(2u32));
    let stamps = vec![stamp("a.vert", Some(10)), stamp("a.frag", Some(25))];
    assert!(dir.detected_change(&stamps));
    dir.load_shader_module("a.vert".to_string(), Some(10), Some(3u32));
    dir.load_shader_module("a.frag".to_string(), Some(25), Some(4u32));
    assert!(!dir.detected_change(&stamps));
}

#[test]
fn files_that_were_never_loaded_do_not_count() {
    let mut dir = ShaderDirectory::new("shader".to_string());
    dir.load_shader_module("a.vert".to_string(), Some(10), Some(1u32));
    let stamps = vec![stamp("other.vert", Some(99)), stamp("a.vert", Some(10))];
    assert!(!dir.detected_change(&stamps));
}

#[test]
fn first_stamp_of_a_path_counts() {
    let stamps = vec![stamp("a", Some(1)), stamp("b", Some(2)), stamp("a", Some(3))];
    assert_eq!(observe(&stamps, &"a".to_string()), Some(1));
    assert_eq!(observe(&stamps, &"b".to_string()), Some(2));
    assert_eq!(observe(&stamps, &"c".to_string()), None);
    assert_eq!(observe(&vec![], &"a".to_string()), None);
    assert_eq!(observe(&vec![stamp("a", None)], &"a".to_string()), None);
}

#[test]
fn same_time_compares_both_presence_and_value() {
    assert!(same_time(None, None));
    assert!(same_time(Some(5), Some(5)));
    assert!(!same_time(Some(5), Some(6)));
    assert!(!same_time(Some(0), None));
    assert!(!same_time(None, Some(0)));
}
