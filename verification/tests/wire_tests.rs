use probeengine::wire::{write_block, write_flag, write_length, write_text, LENGTH_WIDTH};

#[test]
fn a_length_is_eight_bytes_lowest_first() {
    let mut out: Vec<u8> = Vec::new();
    write_length(&mut out, 1);
    assert_eq!(out, vec![1, 0, 0, 0, 0, 0, 0, 0]);
    assert_eq!(out.len(), LENGTH_WIDTH);
}

#[test]
fn a_length_keeps_every_digit() {
    let mut out: Vec<u8> = Vec::new();
    write_length(&mut out, 0x0807_0605_0403_0201);
    assert_eq!(out, vec![1, 2, 3, 4, 5, 6, 7, 8]);
}

#[test]
fn the_extreme_lengths_are_written() {
    let mut out: Vec<u8> = Vec::new();
    write_length(&mut out, 0);
    write_length(&mut out, u64::MAX);
    assert_eq!(out, vec![0, 0, 0, 0, 0, 0, 0, 0, 255, 255, 255, 255, 255, 255, 255, 255]);
}

#[test]
fn a_length_is_appended_to_what_is_there() {
    let mut out: Vec<u8> = vec![9, 9];
    write_length(&mut out, 256);
    assert_eq!(out, vec![9, 9, 0, 1, 0, 0, 0, 0, 0, 0]);
}

#[test]
fn a_block_is_its_length_and_its_bytes() {
    let mut out: Vec<u8> = Vec::new();
    write_block(&mut out, &[0, 255, 0]);
    assert_eq!(out, vec![3, 0, 0, 0, 0, 0, 0, 0, 0, 255, 0]);
}

#[test]
fn an_empty_block_is_its_length_alone() {
    let mut out: Vec<u8> = Vec::new();
    write_block(&mut out, &[]);
    assert_eq!(out, vec![0, 0, 0, 0, 0, 0, 0, 0]);
}

#[test]
fn a_text_is_the_length_of_its_bytes_and_its_bytes() {
    let mut out: Vec<u8> = Vec::new();
    write_text(&mut out, "h\u{e9}");
    assert_eq!(out, vec![3, 0, 0, 0, 0, 0, 0, 0, 0x68, 0xc3, 0xa9]);
}

#[test]
fn a_flag_is_one_byte() {
    let mut out: Vec<u8> = Vec::new();
    write_flag(&mut out, true);
    write_flag(&mut out, false);
    assert_eq!(out, vec![1, 0]);
}
