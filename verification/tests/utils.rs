use netmount::launch::Platform;
use netmount::utils::{
    find_first_available_drive_letter, resources_dir, ResourcesDir, DRIVE_LETTERS,
};

#[test]
fn the_last_free_drive_letter_is_taken() {
    assert_eq!(DRIVE_LETTERS, 26);
    let mut in_use = [false; 26];
    assert_eq!(find_first_available_drive_letter(&in_use), Some("Z:".to_string()));
    in_use[25] = true;
    assert_eq!(find_first_available_drive_letter(&in_use), Some("Y:".to_string()));
    in_use[24] = true;
    in_use[2] = true;
    assert_eq!(find_first_available_drive_letter(&in_use), Some("X:".to_string()));
    let mut only_a = [true; 26];
    only_a[0] = false;
    assert_eq!(find_first_available_drive_letter(&only_a), Some("A:".to_string()));
    only_a[12] = false;
    assert_eq!(find_first_available_drive_letter(&only_a), Some("M:".to_string()));
}

#[test]
fn without_a_free_drive_letter_there_is_none() {
    assert_eq!(find_first_available_drive_letter(&[true; 26]), None);
}

#[test]
fn a_release_build_works_in_its_resources() {
    assert_eq!(resources_dir(Platform::Linux, true), Some(ResourcesDir::LibOfParent));
    assert_eq!(resources_dir(Platform::Windows, true), Some(ResourcesDir::BesideExecutable));
    assert_eq!(resources_dir(Platform::MacOs, true), Some(ResourcesDir::ResourcesOfParent));
}

#[test]
fn a_development_build_stays_where_it_was_started() {
    for platform in [Platform::Linux, Platform::Windows, Platform::MacOs] {
        assert_eq!(resources_dir(platform, false), None);
    }
}
