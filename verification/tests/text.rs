//! Text helpers and byte readers.
use borzoi_assembly::name_set::{insert_name, less_text};
use borzoi_assembly::reader::{
    read_compressed_u32_at, read_u16_at, read_u32_at, read_u64_at, rva_to_slice, slice_at, Section,
};
use borzoi_assembly::text::{
    cut_before, join_text, push_decimal, push_hex_byte, push_hexadecimal, split_text, strip_arity,
    strip_suffix, text_of_bytes,
};

fn decimal(n: u64) -> String {
    let mut out = String::new();
    push_decimal(&mut out, n);
    out
}

fn hexadecimal(n: u64) -> String {
    let mut out = String::new();
    push_hexadecimal(&mut out, n);
    out
}

#[test]
fn numbers_are_written() {
    for n in [0, 7, 10, 99, 12_345, u64::MAX] {
        assert_eq!(decimal(n), format!("{n}"));
        assert_eq!(hexadecimal(n), format!("{n:x}"));
    }
    for b in [0u8, 9, 10, 255] {
        let mut out = String::new();
        push_hex_byte(&mut out, b);
        assert_eq!(out, format!("{b:#x}"));
    }
}

#[test]
fn pieces_joined_are_the_text() {
    for s in ["", ".", "a", "a.b", ".a..b."] {
        let parts = split_text(s, '.');
        let want: Vec<String> = s.split('.').map(String::from).collect();
        assert_eq!(parts, want);
        assert_eq!(join_text(&parts, "."), s);
    }
}

#[test]
fn names_are_cut() {
    assert_eq!(cut_before("a-b-c", '-'), "a");
    assert_eq!(cut_before("abc", '-'), "abc");
    assert_eq!(strip_arity("List`1"), "List");
    assert_eq!(strip_arity("List"), "List");
    assert_eq!(strip_suffix("ListModule", "Module"), Some("List".to_string()));
    assert_eq!(strip_suffix("Module", "Module"), None);
    assert_eq!(strip_suffix("List", "Module"), None);
}

#[test]
fn bytes_are_decoded_as_text() {
    assert_eq!(text_of_bytes("h\u{e9}\u{1F600}".as_bytes().to_vec()), Some("h\u{e9}\u{1F600}".to_string()));
    assert_eq!(text_of_bytes(vec![0xC0, 0x80]), None);
    assert_eq!(text_of_bytes(vec![0xED, 0xA0, 0x80]), None);
}

#[test]
fn a_set_of_names_is_sorted_without_repetition() {
    let mut names = Vec::new();
    for n in ["b", "a", "c", "a", "ab", "b", ""] {
        insert_name(&mut names, &n.to_string());
    }
    assert_eq!(names, ["", "a", "ab", "b", "c"]);
    let texts = ["", "a", "ab", "b", "\u{e9}", "\u{FFFF}", "\u{10000}"];
    for (i, a) in texts.iter().enumerate() {
        for (j, b) in texts.iter().enumerate() {
            assert_eq!(less_text(a, b), i < j);
            assert_eq!(less_text(a, b), a < b);
        }
    }
}

#[test]
fn numbers_are_read_at_a_place() {
    let data = [1u8, 2, 3, 4, 5, 6, 7, 8];
    assert_eq!(read_u16_at(&data, 6), Some(0x0807));
    assert_eq!(read_u16_at(&data, 7), None);
    assert_eq!(read_u32_at(&data, 1), Some(0x0504_0302));
    assert_eq!(read_u32_at(&data, 5), None);
    assert_eq!(read_u64_at(&data, 0), Some(0x0807_0605_0403_0201));
    assert_eq!(read_u64_at(&data, 1), None);
    assert_eq!(read_u32_at(&data, usize::MAX), None);
    assert_eq!(slice_at(&data, 2, 4), Some(&[3u8, 4][..]));
    assert_eq!(slice_at(&data, 4, 2), None);
    assert_eq!(slice_at(&data, 2, 9), None);
}

#[test]
fn compressed_numbers_are_read() {
    assert_eq!(read_compressed_u32_at(&[0x03], 0), Some((3, 1)));
    assert_eq!(read_compressed_u32_at(&[0x7F], 0), Some((0x7F, 1)));
    assert_eq!(read_compressed_u32_at(&[0x80, 0x80], 0), Some((0x80, 2)));
    assert_eq!(read_compressed_u32_at(&[0xBF, 0xFF], 0), Some((0x3FFF, 2)));
    assert_eq!(read_compressed_u32_at(&[0xC0, 0x00, 0x40, 0x00], 0), Some((0x4000, 4)));
    assert_eq!(read_compressed_u32_at(&[0xDF, 0xFF, 0xFF, 0xFF], 0), Some((0x1FFF_FFFF, 4)));
    assert_eq!(read_compressed_u32_at(&[0x80], 0), None);
    assert_eq!(read_compressed_u32_at(&[0xC0, 0, 0], 0), None);
    assert_eq!(read_compressed_u32_at(&[0xFF, 0, 0, 0], 0), None);
    assert_eq!(read_compressed_u32_at(&[], 0), None);
}

#[test]
fn addresses_are_mapped_to_the_file() {
    let image: Vec<u8> = (0..=255).collect();
    let sections = vec![
        Section { virtual_address: 0x1000, virtual_size: 8, raw_data_ptr: 16, raw_data_size: 16 },
        Section { virtual_address: 0x2000, virtual_size: 64, raw_data_ptr: 32, raw_data_size: 8 },
    ];
    assert_eq!(rva_to_slice(&image, &sections, 0x1000), Some(&image[16..32]));
    assert_eq!(rva_to_slice(&image, &sections, 0x100F), Some(&image[31..32]));
    assert_eq!(rva_to_slice(&image, &sections, 0x2004), Some(&image[36..40]));
    assert_eq!(rva_to_slice(&image, &sections, 0x0FFF), None);
    assert_eq!(rva_to_slice(&image, &sections, 0x3000), None);
}
