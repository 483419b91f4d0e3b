use angry_hub::paths::support_dir_name;

#[test]
fn the_support_folder_name_follows_the_build() {
    assert_eq!(support_dir_name(true, Some("Custom")), "Angry Hub Dev");
    assert_eq!(support_dir_name(false, Some("Custom")), "Custom");
    assert_eq!(support_dir_name(false, None), "Angry Hub");
}
