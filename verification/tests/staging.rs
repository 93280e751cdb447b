use manta_signer::resources::{ends_with_bin, staged_resources, ResourceEntry};

fn entry(name: &[u8], is_file: bool, children: &[&[u8]]) -> ResourceEntry {
    ResourceEntry {
        name: name.to_vec(),
        is_file,
        children: children.iter().map(|child| child.to_vec()).collect(),
    }
}

#[test]
fn suffix_detection() {
    assert!(ends_with_bin(&b"proving.bin".to_vec()));
    assert!(ends_with_bin(&b".bin".to_vec()));
    assert!(!ends_with_bin(&b"bin".to_vec()));
    assert!(!ends_with_bin(&b"proving.dat".to_vec()));
    assert!(!ends_with_bin(&b"".to_vec()));
    assert!(!ends_with_bin(&b"binx".to_vec()));
}

#[test]
fn files_with_bin_extension_are_staged() {
    let entries = vec![
        entry(b"zkp.bin", true, &[]),
        entry(b"readme.txt", true, &[]),
        entry(b"other.bin.old", true, &[]),
    ];
    let staged = staged_resources(&entries);
    assert_eq!(staged, vec![b"zkp.bin".to_vec()]);
}

#[test]
fn bare_dot_bin_file_is_not_staged() {
    // The name `.bin` has no stem before the dot, so it carries no `bin`
    // extension.
    let entries = vec![entry(b".bin", true, &[])];
    assert!(staged_resources(&entries).is_empty());
}

#[test]
fn bin_directories_stage_their_contents() {
    let entries = vec![
        entry(b"keys.bin", false, &[b"a.dat", b"b.dat"]),
        entry(b"plain", false, &[b"c.bin"]),
    ];
    let staged = staged_resources(&entries);
    assert_eq!(staged, vec![b"a.dat".to_vec(), b"b.dat".to_vec()]);
}

#[test]
fn staging_keeps_listing_order() {
    let entries = vec![
        entry(b"one.bin", true, &[]),
        entry(b"pack.bin", false, &[b"two", b"three"]),
        entry(b"four.bin", true, &[]),
    ];
    let staged = staged_resources(&entries);
    assert_eq!(
        staged,
        vec![b"one.bin".to_vec(), b"two".to_vec(), b"three".to_vec(), b"four.bin".to_vec()]
    );
}

#[test]
fn empty_listing_stages_nothing() {
    assert!(staged_resources(&Vec::new()).is_empty());
}
