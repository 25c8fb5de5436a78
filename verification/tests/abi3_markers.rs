use wheel_tagger::abi3::{
    collect_abi3_versions, format_abi3_tag, minimum_abi3_version, parse_abi3, select_minimum,
    tag_from_features,
};
use wheel_tagger::error::ConfigurationError;

fn flags(names: &[&str]) -> Vec<String> {
    names.iter().map(|n| n.to_string()).collect()
}

fn non_numeric(token: &str) -> ConfigurationError {
    ConfigurationError::NonNumericVersion { token: token.to_string() }
}

#[test]
fn plain_marker_stands_for_version_three() {
    assert_eq!(parse_abi3("abi3"), Some(String::from("3")));
}

#[test]
fn versioned_marker_declares_what_follows_the_prefix() {
    assert_eq!(parse_abi3("abi3-py37"), Some(String::from("37")));
    assert_eq!(parse_abi3("abi3-py310"), Some(String::from("310")));
}

#[test]
fn marker_suffix_is_kept_as_written() {
    assert_eq!(parse_abi3("abi3-py"), Some(String::new()));
    assert_eq!(parse_abi3("abi3-pyxx"), Some(String::from("xx")));
    assert_eq!(parse_abi3("abi3-py 37"), Some(String::from(" 37")));
    assert_eq!(parse_abi3("abi3-py3\u{e9}7"), Some(String::from("3\u{e9}7")));
    assert_eq!(parse_abi3("abi3-pyabi3-py36"), Some(String::from("abi3-py36")));
}

#[test]
fn other_flags_are_no_markers() {
    assert_eq!(parse_abi3(""), None);
    assert_eq!(parse_abi3("foo"), None);
    assert_eq!(parse_abi3("abi"), None);
    assert_eq!(parse_abi3("abi3x"), None);
    assert_eq!(parse_abi3("abi3-p"), None);
    assert_eq!(parse_abi3("abi3_py37"), None);
    assert_eq!(parse_abi3("ABI3"), None);
    assert_eq!(parse_abi3(" abi3"), None);
    assert_eq!(parse_abi3("xabi3-py37"), None);
    assert_eq!(parse_abi3("extension-module"), None);
}

#[test]
fn markers_are_collected_in_flag_order() {
    assert_eq!(
        collect_abi3_versions(&flags(&["extension-module", "abi3-py38", "abi3", "macros", "abi3-py36"])),
        flags(&["38", "3", "36"])
    );
    assert_eq!(collect_abi3_versions(&flags(&["foo", "bar"])), Vec::<String>::new());
    assert_eq!(collect_abi3_versions(&Vec::new()), Vec::<String>::new());
}

#[test]
fn minimum_is_found_by_number_not_by_text() {
    assert_eq!(select_minimum(&flags(&["310", "39"])), Ok(1));
    assert_eq!(select_minimum(&flags(&["37", "36", "38"])), Ok(1));
    assert_eq!(select_minimum(&flags(&["36"])), Ok(0));
    assert_eq!(select_minimum(&flags(&["100", "20", "3"])), Ok(2));
}

#[test]
fn first_of_equal_numbers_is_chosen() {
    assert_eq!(select_minimum(&flags(&["037", "37"])), Ok(0));
    assert_eq!(select_minimum(&flags(&["38", "37", "+37", "037"])), Ok(1));
    assert_eq!(minimum_abi3_version(&flags(&["abi3-py037", "abi3-py37"])), Ok(String::from("037")));
    assert_eq!(minimum_abi3_version(&flags(&["abi3-py3", "abi3"])), Ok(String::from("3")));
}

#[test]
fn empty_version_list_is_an_error() {
    assert_eq!(select_minimum(&Vec::new()), Err(ConfigurationError::NoAbi3Features));
}

#[test]
fn first_non_numeric_version_is_reported() {
    assert_eq!(select_minimum(&flags(&["37", "xx", "yy"])), Err(non_numeric("xx")));
    assert_eq!(select_minimum(&flags(&["", "36"])), Err(non_numeric("")));
    assert_eq!(select_minimum(&flags(&["36", "3.7"])), Err(non_numeric("3.7")));
}

#[test]
fn tag_carries_version_abi_and_platform() {
    assert_eq!(format_abi3_tag("37"), "cp37-abi3-linux_x86_64");
    assert_eq!(format_abi3_tag("3"), "cp3-abi3-linux_x86_64");
    assert_eq!(format_abi3_tag(""), "cp-abi3-linux_x86_64");
}

#[test]
fn lowest_version_names_the_tag() {
    assert_eq!(
        tag_from_features(&flags(&["abi3-py37", "abi3-py38"])),
        Ok(String::from("cp37-abi3-linux_x86_64"))
    );
    assert_eq!(
        tag_from_features(&flags(&["abi3-py38", "abi3-py37"])),
        Ok(String::from("cp37-abi3-linux_x86_64"))
    );
    assert_eq!(
        tag_from_features(&flags(&["abi3-py39", "extension-module", "abi3-py310", "abi3-py36"])),
        Ok(String::from("cp36-abi3-linux_x86_64"))
    );
}

#[test]
fn plain_marker_alone_gives_version_three_tag() {
    assert_eq!(tag_from_features(&flags(&["abi3"])), Ok(String::from("cp3-abi3-linux_x86_64")));
}

#[test]
fn plain_marker_counts_as_three_among_others() {
    assert_eq!(
        tag_from_features(&flags(&["abi3-py36", "abi3"])),
        Ok(String::from("cp3-abi3-linux_x86_64"))
    );
    assert_eq!(
        tag_from_features(&flags(&["abi3", "abi3-py2"])),
        Ok(String::from("cp2-abi3-linux_x86_64"))
    );
}

#[test]
fn tag_keeps_the_version_as_written() {
    assert_eq!(
        tag_from_features(&flags(&["abi3-py037", "abi3-py38"])),
        Ok(String::from("cp037-abi3-linux_x86_64"))
    );
    assert_eq!(
        tag_from_features(&flags(&["abi3-py+36"])),
        Ok(String::from("cp+36-abi3-linux_x86_64"))
    );
}

#[test]
fn flags_without_marker_are_a_configuration_error() {
    assert_eq!(
        tag_from_features(&flags(&["foo", "bar"])),
        Err(ConfigurationError::NoAbi3Features)
    );
    assert_eq!(tag_from_features(&Vec::new()), Err(ConfigurationError::NoAbi3Features));
}

#[test]
fn non_numeric_marker_is_a_configuration_error() {
    assert_eq!(tag_from_features(&flags(&["abi3-pyxx"])), Err(non_numeric("xx")));
    assert_eq!(tag_from_features(&flags(&["abi3-py37", "abi3-pyxx"])), Err(non_numeric("xx")));
    assert_eq!(tag_from_features(&flags(&["abi3-py"])), Err(non_numeric("")));
    assert_eq!(
        tag_from_features(&flags(&["abi3-py36", "abi3-py4294967296"])),
        Err(non_numeric("4294967296"))
    );
}
