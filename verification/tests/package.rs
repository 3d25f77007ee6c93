use leo_prove::package::{
    join, Package, INPUTS_DIRECTORY_NAME, INPUTS_FILE_NAME, OUTPUTS_DIRECTORY_NAME,
    PROOF_FILE_EXTENSION,
};

fn package(directory: &str, name: &str) -> Package {
    Package { directory: directory.to_string(), name: name.to_string() }
}

#[test]
fn names_of_the_package_layout() {
    assert_eq!(INPUTS_DIRECTORY_NAME, "inputs");
    assert_eq!(INPUTS_FILE_NAME, "inputs.leo");
    assert_eq!(OUTPUTS_DIRECTORY_NAME, "outputs");
    assert_eq!(PROOF_FILE_EXTENSION, ".proof");
}

#[test]
fn join_puts_one_separator_between() {
    assert_eq!(join("/home/user/foo", "inputs"), "/home/user/foo/inputs");
    assert_eq!(join("foo", "bar.txt"), "foo/bar.txt");
}

#[test]
fn join_keeps_a_separator_that_is_there() {
    assert_eq!(join("/home/user/foo/", "inputs"), "/home/user/foo/inputs");
    assert_eq!(join("/", "inputs"), "/inputs");
}

#[test]
fn join_below_nothing_is_the_segment() {
    assert_eq!(join("", "inputs"), "inputs");
    assert_eq!(join("", ""), "");
}

#[test]
fn join_with_an_empty_segment_ends_in_a_separator() {
    assert_eq!(join("foo", ""), "foo/");
    assert_eq!(join("foo/", ""), "foo/");
}

#[test]
fn join_counts_characters_not_bytes() {
    assert_eq!(join("/données/é", "inputs"), "/données/é/inputs");
    assert_eq!(join("/日本", "語"), "/日本/語");
}

#[test]
fn inputs_file_path_is_below_the_inputs_directory() {
    assert_eq!(package("/home/user/foo", "foo").inputs_file_path(), "/home/user/foo/inputs/inputs.leo");
}

#[test]
fn inputs_file_path_does_not_depend_on_the_name() {
    assert_eq!(
        package("/work", "one").inputs_file_path(),
        package("/work", "another").inputs_file_path()
    );
}

#[test]
fn inputs_file_path_of_a_directory_with_trailing_separator() {
    assert_eq!(package("/work/", "foo").inputs_file_path(), "/work/inputs/inputs.leo");
}

#[test]
fn inputs_file_path_of_the_empty_directory_is_relative() {
    assert_eq!(package("", "foo").inputs_file_path(), "inputs/inputs.leo");
}

#[test]
fn proof_file_path_is_named_from_the_package() {
    assert_eq!(package("/home/user/foo", "foo").proof_file_path(), "/home/user/foo/outputs/foo.proof");
    assert_eq!(package("/home/user/foo", "bar").proof_file_path(), "/home/user/foo/outputs/bar.proof");
}

#[test]
fn proof_file_path_of_a_directory_with_trailing_separator() {
    assert_eq!(package("/work/", "foo").proof_file_path(), "/work/outputs/foo.proof");
}

#[test]
fn proof_file_path_of_the_empty_directory_is_relative() {
    assert_eq!(package("", "foo").proof_file_path(), "outputs/foo.proof");
}

#[test]
fn proof_file_path_of_an_empty_name_is_the_extension() {
    assert_eq!(package("/work", "").proof_file_path(), "/work/outputs/.proof");
}

#[test]
fn proof_file_path_is_the_same_each_time() {
    let foo = package("/work", "foo");
    assert_eq!(foo.proof_file_path(), foo.proof_file_path());
    assert_ne!(foo.proof_file_path(), package("/work", "fo").proof_file_path());
}
