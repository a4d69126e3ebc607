//! The debug directory of an executable.
use borzoi_assembly::pdb::debug_directory::{
    CODEVIEW, EMBEDDED_PORTABLE_PDB, PdbReference, find_codeview_reference,
    find_embedded_pdb_payload,
};
use borzoi_assembly::pdb::error::PdbError;
use borzoi_assembly::reader::Section;

fn one_section() -> Vec<Section> {
    vec![Section {
        virtual_address: 0x2000,
        virtual_size: 0x200,
        raw_data_ptr: 0x200,
        raw_data_size: 0x200,
    }]
}

fn debug_entry(kind: u32, size_of_data: u32, addr_raw: u32, ptr_raw: u32) -> [u8; 28] {
    let mut e = [0u8; 28];
    e[12..16].copy_from_slice(&kind.to_le_bytes());
    e[16..20].copy_from_slice(&size_of_data.to_le_bytes());
    e[20..24].copy_from_slice(&addr_raw.to_le_bytes());
    e[24..28].copy_from_slice(&ptr_raw.to_le_bytes());
    e
}

fn image_with_directory(entry_bytes: &[u8]) -> Vec<u8> {
    let mut img = vec![0u8; 0x400];
    img[0x200..0x200 + entry_bytes.len()].copy_from_slice(entry_bytes);
    img
}

#[test]
fn size_not_a_multiple_of_entry_is_malformed() {
    let img = image_with_directory(&[0u8; 28]);
    let err = find_embedded_pdb_payload(&img, &one_section(), 0x2000, 30).unwrap_err();
    assert!(matches!(err, PdbError::MalformedDebugDirectory));
}

#[test]
fn directory_overrunning_its_section_is_malformed() {
    let img = image_with_directory(&[0u8; 28]);
    let err = find_embedded_pdb_payload(&img, &one_section(), 0x2000, 0x300).unwrap_err();
    assert!(matches!(err, PdbError::MalformedDebugDirectory));
}

#[test]
fn well_formed_directory_without_embedded_entry_is_none() {
    let entry = debug_entry(2, 0, 0, 0);
    let img = image_with_directory(&entry);
    let found = find_embedded_pdb_payload(&img, &one_section(), 0x2000, 28).unwrap();
    assert!(found.is_none());
}

#[test]
fn embedded_entry_payload_is_returned_by_file_offset() {
    let payload = [0xAB, 0xCD, 0xEF, 0x01, 0x02];
    let mut img = image_with_directory(&debug_entry(
        EMBEDDED_PORTABLE_PDB,
        payload.len() as u32,
        0,
        0x100,
    ));
    img[0x100..0x100 + payload.len()].copy_from_slice(&payload);
    let found = find_embedded_pdb_payload(&img, &one_section(), 0x2000, 28)
        .unwrap()
        .expect("embedded entry found");
    assert_eq!(found, &payload);
}

#[test]
fn embedded_entry_payload_overrunning_the_file_is_malformed() {
    let img = image_with_directory(&debug_entry(EMBEDDED_PORTABLE_PDB, 0x100, 0, 0x3FF));
    let err = find_embedded_pdb_payload(&img, &one_section(), 0x2000, 28).unwrap_err();
    assert!(matches!(err, PdbError::MalformedDebugDirectory));
}

fn codeview_entry(stamp: u32, size_of_data: u32, ptr_raw: u32) -> [u8; 28] {
    let mut e = [0u8; 28];
    e[4..8].copy_from_slice(&stamp.to_le_bytes());
    e[12..16].copy_from_slice(&CODEVIEW.to_le_bytes());
    e[16..20].copy_from_slice(&size_of_data.to_le_bytes());
    e[24..28].copy_from_slice(&ptr_raw.to_le_bytes());
    e
}

fn rsds_payload(guid: [u8; 16], age: u32, path: &str) -> Vec<u8> {
    let mut p = Vec::new();
    p.extend_from_slice(b"RSDS");
    p.extend_from_slice(&guid);
    p.extend_from_slice(&age.to_le_bytes());
    p.extend_from_slice(path.as_bytes());
    p.push(0);
    p
}

#[test]
fn codeview_rsds_reference_is_parsed() {
    let guid = [
        0x53, 0xd3, 0x48, 0x77, 0x89, 0x52, 0xc9, 0x45, 0xbf, 0x36, 0x29, 0x1a, 0x91, 0x57,
        0xe7, 0xfc,
    ];
    let stamp = 0x93c5_22ad;
    let payload = rsds_payload(guid, 1, r"D:\repo\obj\Release\net6.0\FsUnit.NUnit.pdb");
    let mut img = image_with_directory(&codeview_entry(stamp, payload.len() as u32, 0x100));
    img[0x100..0x100 + payload.len()].copy_from_slice(&payload);

    let reference = find_codeview_reference(&img, &one_section(), 0x2000, 28)
        .unwrap()
        .expect("CodeView reference found");
    assert_eq!(
        reference.path,
        r"D:\repo\obj\Release\net6.0\FsUnit.NUnit.pdb"
    );
    assert_eq!(reference.file_name(), Some("FsUnit.NUnit.pdb"));
    let mut expected = [0u8; 20];
    expected[..16].copy_from_slice(&guid);
    expected[16..].copy_from_slice(&stamp.to_le_bytes());
    assert_eq!(reference.id, expected);
}

#[test]
fn file_name_splits_on_either_separator() {
    let win = PdbReference {
        path: r"C:\a\b\Foo.pdb".to_string(),
        id: [0u8; 20],
    };
    assert_eq!(win.file_name(), Some("Foo.pdb"));
    let unix = PdbReference {
        path: "/x/y/Foo.pdb".to_string(),
        id: [0u8; 20],
    };
    assert_eq!(unix.file_name(), Some("Foo.pdb"));
    let bare = PdbReference {
        path: "Foo.pdb".to_string(),
        id: [0u8; 20],
    };
    assert_eq!(bare.file_name(), Some("Foo.pdb"));
    let trailing = PdbReference {
        path: r"C:\a\".to_string(),
        id: [0u8; 20],
    };
    assert_eq!(trailing.file_name(), None);
}

#[test]
fn non_rsds_codeview_entry_is_none() {
    let mut payload = b"NB10".to_vec();
    payload.extend_from_slice(&[0u8; 16]);
    let mut img = image_with_directory(&codeview_entry(1, payload.len() as u32, 0x100));
    img[0x100..0x100 + payload.len()].copy_from_slice(&payload);
    let found = find_codeview_reference(&img, &one_section(), 0x2000, 28).unwrap();
    assert!(found.is_none());
}

#[test]
fn directory_without_codeview_entry_is_none() {
    let entry = debug_entry(EMBEDDED_PORTABLE_PDB, 0, 0, 0);
    let img = image_with_directory(&entry);
    let found = find_codeview_reference(&img, &one_section(), 0x2000, 28).unwrap();
    assert!(found.is_none());
}
