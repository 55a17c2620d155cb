use colophon::infra::storage::{LocalStorage, StorageError};

fn storage() -> LocalStorage {
    LocalStorage::new("/var/data/uploads".to_string(), "/uploads".to_string())
}

#[test]
fn rejects_path_traversal_with_dot_dot() {
    assert_eq!(storage().validate_path("../../../tmp/evil.txt"), Err(StorageError::Forbidden));
    assert_eq!(storage().validate_path("media/../../etc/hosts"), Err(StorageError::Forbidden));
    assert_eq!(storage().validate_path("media/a..b.jpg"), Err(StorageError::Forbidden));
}

#[test]
fn rejects_absolute_paths() {
    assert_eq!(storage().validate_path("/etc/cron.d/evil"), Err(StorageError::Forbidden));
    assert_eq!(storage().validate_path("\\windows\\evil"), Err(StorageError::Forbidden));
}

#[test]
fn valid_path_is_joined_under_base_dir() {
    assert_eq!(storage().validate_path("media/image.jpg"), Ok("/var/data/uploads/media/image.jpg".to_string()));
    let s = LocalStorage::new("/data/".to_string(), "/u".to_string());
    assert_eq!(s.validate_path("a.png"), Ok("/data/a.png".to_string()));
    let s = LocalStorage::new(String::new(), "/u".to_string());
    assert_eq!(s.validate_path("a.png"), Ok("a.png".to_string()));
}

#[test]
fn public_url_trims_trailing_slashes_of_base() {
    assert_eq!(storage().get_public_url("media/a.jpg"), "/uploads/media/a.jpg");
    let s = LocalStorage::new("/d".to_string(), "https://cdn.example.com///".to_string());
    assert_eq!(s.get_public_url("x.png"), "https://cdn.example.com/x.png");
}
