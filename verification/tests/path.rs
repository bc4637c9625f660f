use std::path::Path;

use later::error::Error;
use later::path::{data_path_in, file_name, get_data_path, BuildMode};

#[test]
fn release_file_name() {
    assert_eq!(file_name(BuildMode::Release), "later.txt");
}

#[test]
fn debug_file_name_differs() {
    assert_eq!(file_name(BuildMode::Debug), "later.dbg.txt");
    assert_ne!(file_name(BuildMode::Debug), file_name(BuildMode::Release));
}

#[test]
fn no_data_directory_is_a_config_error() {
    assert_eq!(data_path_in(None, BuildMode::Release), Err(Error::Config));
    assert_eq!(data_path_in(None, BuildMode::Debug), Err(Error::Config));
}

#[test]
fn data_file_lies_in_the_data_directory() {
    let dir = Path::new("home").join("alice").join("share");
    let dir_text = dir.to_str().unwrap().to_string();
    let path = data_path_in(Some(dir_text.clone()), BuildMode::Release).unwrap();
    assert_ne!(path, dir_text);
    assert_eq!(Path::new(&path), dir.join("later.txt").as_path());
    assert_eq!(Path::new(&path).parent(), Some(dir.as_path()));
    assert_eq!(Path::new(&path).file_name().unwrap(), "later.txt");
}

#[test]
fn debug_data_file_lies_beside_the_release_one() {
    let dir = Path::new("home").join("alice");
    let dir_text = dir.to_str().unwrap().to_string();
    let path = data_path_in(Some(dir_text), BuildMode::Debug).unwrap();
    assert_eq!(Path::new(&path), dir.join("later.dbg.txt").as_path());
}

#[test]
fn data_file_path_with_separator() {
    let path = data_path_in(Some(String::from("data")), BuildMode::Release).unwrap();
    assert_eq!(path, format!("data{}later.txt", std::path::MAIN_SEPARATOR));
}

#[test]
fn data_path_of_this_user() {
    match get_data_path(BuildMode::Release) {
        Ok(path) => {
            assert_eq!(Path::new(&path).file_name().unwrap(), "later.txt");
            assert_eq!(get_data_path(BuildMode::Debug).map(|p| p.ends_with("later.dbg.txt")), Ok(true));
        }
        Err(error) => assert_eq!(error, Error::Config),
    }
}

#[test]
fn build_modes_keep_their_files_apart() {
    let release = data_path_in(Some(String::from("data")), BuildMode::Release);
    let debug = data_path_in(Some(String::from("data")), BuildMode::Debug);
    assert_ne!(release, debug);
}
