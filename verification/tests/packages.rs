use kite_tools::packages::{package_manager_args, parse_package_catalog};

#[test]
fn parse_package_catalog_skips_blank_lines_and_comments() {
    assert_eq!(
        parse_package_catalog("# tools\nvim\n\n   \ngit\n#x\nhtop"),
        vec!["vim", "git", "htop"]
    );
    assert_eq!(parse_package_catalog("a\r\nb\r\n"), vec!["a", "b"]);
    assert_eq!(parse_package_catalog(" #kept\n\t\n"), vec![" #kept"]);
    assert!(parse_package_catalog("").is_empty());
    assert!(parse_package_catalog("#only\n#comments\n").is_empty());
}

#[test]
fn package_manager_args_begin_with_the_two_flags() {
    assert_eq!(
        package_manager_args(vec!["a".to_string(), "b".to_string()]),
        vec!["-S", "--noconfirm", "a", "b"]
    );
    assert_eq!(package_manager_args(Vec::new()), vec!["-S", "--noconfirm"]);
}
