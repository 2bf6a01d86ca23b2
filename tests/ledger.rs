use upload_stick::ledger::{db_path, entry_path, FileEntry};
use upload_stick::names::{encoded_name, file_stem, is_wav};

#[test]
fn ledger_directory() {
    assert_eq!(db_path(), "/var/lib/upload-stick/uploaded");
}

#[test]
fn marker_path_holds_name_and_size() {
    let e = FileEntry::new("take1.wav".to_string(), 1234567);
    assert_eq!(entry_path(&e), "/var/lib/upload-stick/uploaded/take1.wav_1234567");
    let z = FileEntry::new("a".to_string(), 0);
    assert_eq!(entry_path(&z), "/var/lib/upload-stick/uploaded/a_0");
    let m = FileEntry::new("b".to_string(), u64::MAX);
    assert_eq!(entry_path(&m), "/var/lib/upload-stick/uploaded/b_18446744073709551615");
}

#[test]
fn same_name_two_sizes_two_markers() {
    let a = FileEntry::new("x.wav".to_string(), 10);
    let b = FileEntry::new("x.wav".to_string(), 11);
    assert_ne!(entry_path(&a), entry_path(&b));
    let c = FileEntry::new("x.wav".to_string(), 10);
    assert_eq!(entry_path(&a), entry_path(&c));
}

#[test]
fn entry_accessors() {
    let e = FileEntry::new("r.wav".to_string(), 9);
    assert_eq!(e.file_name(), "r.wav");
    assert_eq!(e.len(), 9);
}

#[test]
fn wav_files_by_extension() {
    assert!(is_wav("take1.wav"));
    assert!(is_wav("a.b.wav"));
    assert!(!is_wav("take1.WAV"));
    assert!(!is_wav("take1.wave"));
    assert!(!is_wav("wav"));
    assert!(!is_wav(".wav"));
    assert!(!is_wav("take1.wav.txt"));
    assert!(!is_wav(".."));
}

#[test]
fn stems_of_names() {
    assert_eq!(file_stem("take1.wav"), "take1");
    assert_eq!(file_stem("a.b.wav"), "a.b");
    assert_eq!(file_stem(".profile"), ".profile");
    assert_eq!(file_stem("plain"), "plain");
    assert_eq!(file_stem("end."), "end");
}

#[test]
fn encoded_names() {
    assert_eq!(encoded_name("take1.wav"), "take1.ogg");
    assert_eq!(encoded_name("a.b.wav"), "a.ogg");
    assert_eq!(encoded_name(".x.wav"), ".x.ogg");
}
