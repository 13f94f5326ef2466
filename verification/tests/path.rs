use gutters::path::name_to_path;

#[test]
fn name_maps_to_tmp_path() {
    assert_eq!(name_to_path("gutter0", false), "/tmp/gutter0");
    assert_eq!(name_to_path("", false), "/tmp/");
}

#[test]
fn name_maps_to_pipe_path() {
    assert_eq!(name_to_path("gutter0", true), r"\\.\pipe\gutter0");
    assert_eq!(name_to_path("", true), r"\\.\pipe\");
}

#[test]
fn both_peers_derive_the_same_path() {
    let from_connect = name_to_path("shared-name", false);
    let from_accept = name_to_path("shared-name", false);
    assert_eq!(from_connect, from_accept);
}
