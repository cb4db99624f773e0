use ocomp::workspace::{
    build_directory_path, get_upload_dir, new_build_directory_path, set_upload_dir,
    upload_root_path, UploadDir,
};

#[test]
fn upload_dir_is_set_once_and_read_back() {
    let mut state = UploadDir::new();
    assert!(!state.is_set());
    set_upload_dir(&mut state, "/home/u/.config/ocomp/uploads".to_string());
    assert!(state.is_set());
    assert_eq!(get_upload_dir(&state), "/home/u/.config/ocomp/uploads");
}

#[test]
fn upload_root_lies_in_config_dir() {
    assert_eq!(upload_root_path("/home/u/.config/ocomp"), "/home/u/.config/ocomp/uploads");
}

#[test]
fn build_directory_named_after_id() {
    assert_eq!(build_directory_path("/up", "1234"), "/up/build-1234");
}

#[test]
fn fresh_workspaces_are_hyphenated_and_distinct() {
    let mut state = UploadDir::new();
    set_upload_dir(&mut state, "/up".to_string());
    let mut seen: Vec<String> = Vec::new();
    for _ in 0..50 {
        let p = new_build_directory_path(&state);
        let id = p.strip_prefix("/up/build-").expect("workspace under the upload root");
        assert_eq!(id.len(), 36);
        for (i, c) in id.chars().enumerate() {
            if i == 8 || i == 13 || i == 18 || i == 23 {
                assert_eq!(c, '-');
            } else {
                assert!(c.is_ascii_hexdigit() && !c.is_ascii_uppercase());
            }
        }
        assert!(!seen.contains(&p));
        seen.push(p);
    }
}
