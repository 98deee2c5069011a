use bomstrip::{backup_differs, backup_path, staging_dir};

#[test]
fn backup_path_replaces_the_extension() {
    assert_eq!(backup_path("notes.txt"), "notes.bak");
    assert_eq!(backup_path("dir/notes.txt"), "dir/notes.bak");
    assert_eq!(backup_path("dir/archive.tar.gz"), "dir/archive.tar.bak");
}

#[test]
fn backup_path_adds_an_extension_where_there_is_none() {
    assert_eq!(backup_path("README"), "README.bak");
}

#[test]
fn staging_dir_is_the_parent() {
    assert_eq!(staging_dir("dir/sub/notes.txt"), "dir/sub");
    assert_eq!(staging_dir("/notes.txt"), "/");
    assert_eq!(staging_dir("notes.txt"), "");
}

#[test]
fn staging_dir_falls_back_to_the_current_directory() {
    assert_eq!(staging_dir("/"), ".");
    assert_eq!(staging_dir(""), ".");
}

#[test]
fn backup_differs_compares_the_paths() {
    assert!(backup_differs("notes.txt", "notes.bak"));
    assert!(backup_differs("a", "ab"));
    assert!(backup_differs("dir/é.txt", "dir/e.txt"));
    assert!(!backup_differs("notes.bak", "notes.bak"));
    assert!(!backup_differs("", ""));
}

#[test]
fn backup_path_of_a_backup_is_itself() {
    assert!(!backup_differs("dir/x.bak", &backup_path("dir/x.bak")));
}
