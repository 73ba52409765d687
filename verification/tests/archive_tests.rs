use std::io::{Cursor, Write};

use flashtool::archive::{
    enclosed_name, entry_contents, entry_count, entry_kind, entry_path, open_archive, EntryKind,
};
use flashtool::paths::base_dir;
use flashtool::error::Error;
use zip::write::SimpleFileOptions;
use zip::{CompressionMethod, ZipWriter};

fn sample_zip() -> Vec<u8> {
    let mut w = ZipWriter::new(Cursor::new(Vec::new()));
    let stored = SimpleFileOptions::default().compression_method(CompressionMethod::Stored);
    w.add_directory("python312/", stored).unwrap();
    w.start_file("python312/python.exe", stored).unwrap();
    w.write_all(b"MZ-stub").unwrap();
    let deflated = SimpleFileOptions::default().compression_method(CompressionMethod::Deflated);
    w.start_file("python312/Lib/site.py", deflated).unwrap();
    w.write_all(b"import sys\nimport sys\nimport sys\n").unwrap();
    w.finish().unwrap().into_inner()
}

#[test]
fn garbage_is_not_an_archive() {
    let r = open_archive(b"not a zip file at all");
    assert!(matches!(r, Err(Error::Zip(_))));
}

#[test]
fn entries_are_listed_in_order() {
    let bytes = sample_zip();
    let mut a = open_archive(&bytes).unwrap();
    assert_eq!(entry_count(&a), 3);
    assert!(matches!(entry_kind(&mut a, 0).unwrap(), EntryKind::Dir(n) if n == "python312/"));
    assert!(
        matches!(entry_kind(&mut a, 1).unwrap(), EntryKind::File(n) if n == "python312/python.exe")
    );
    assert!(
        matches!(entry_kind(&mut a, 2).unwrap(), EntryKind::File(n) if n == "python312/Lib/site.py")
    );
}

#[test]
fn entry_contents_are_decompressed() {
    let bytes = sample_zip();
    let mut a = open_archive(&bytes).unwrap();
    assert_eq!(entry_contents(&mut a, 1).unwrap(), b"MZ-stub".to_vec());
    assert_eq!(
        entry_contents(&mut a, 2).unwrap(),
        b"import sys\nimport sys\nimport sys\n".to_vec()
    );
    // reading again gives the same content
    assert_eq!(entry_contents(&mut a, 1).unwrap(), b"MZ-stub".to_vec());
}

#[test]
fn missing_entry_is_a_zip_error() {
    let bytes = sample_zip();
    let mut a = open_archive(&bytes).unwrap();
    assert!(matches!(entry_kind(&mut a, 3), Err(Error::Zip(_))));
    assert!(matches!(entry_contents(&mut a, 7), Err(Error::Zip(_))));
}

#[test]
fn entry_path_joins_an_enclosed_name() {
    let dest = base_dir("/tmp");
    let p = entry_path(&dest, "python312/python.exe").unwrap();
    assert_eq!(p.root, "/tmp");
    assert_eq!(p.parts, vec!["flashtool", "pyenv", "python312/python.exe"]);
    let q = entry_path(&dest, "python312/..x/a..b/.../f").unwrap();
    assert_eq!(q.parts.last().unwrap(), "python312/..x/a..b/.../f");
    // the destination itself is left as it was
    assert_eq!(dest.parts, vec!["flashtool", "pyenv"]);
}

#[test]
fn entry_path_refuses_names_that_leave_the_destination() {
    let dest = base_dir("/tmp");
    for name in [
        "../escape.txt",
        "python312/../../escape.txt",
        "python312/..",
        "..",
        "a\\..\\b",
        "/etc/passwd",
        "\\windows\\x",
        "C:evil",
        "C:\\evil",
    ] {
        match entry_path(&dest, name) {
            Err(e) => {
                assert!(matches!(&e, Error::Zip(_)));
                assert_eq!(
                    e.message(),
                    format!("Zip extraction error: entry name leads outside the destination: {name}")
                );
            }
            Ok(p) => panic!("{name} was accepted as {:?}", p),
        }
    }
}

#[test]
fn enclosed_names() {
    assert!(enclosed_name("python312/Lib/site.py"));
    assert!(enclosed_name("python312/"));
    assert!(enclosed_name(".hidden"));
    assert!(!enclosed_name("x/../y"));
    assert!(!enclosed_name("/abs"));
}
