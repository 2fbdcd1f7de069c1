use sha256::{digest, digest_line, display_label, pad, padded_length, sha256, to_hex, DigestError};

fn hex_digest(data: &[u8]) -> String {
    to_hex(&digest(data).unwrap())
}

#[test]
fn string_literal() {
    let result = sha256("abcdefghijklmnopqrstuvxz").unwrap();
    assert_eq!(
        result,
        "ddcfffa483832eeda1b7d1348686ac699d6b4df0dbf8c9dfbaa4c5e79f00fef3  abcdefghijklmnopqrstuvxz"
    );
}

#[test]
fn empty_message_known_answer() {
    assert_eq!(
        hex_digest(b""),
        "e3b0c44298fc1c149afbf4c8996fb92427ae41e4649b934ca495991b7852b855"
    );
}

#[test]
fn abc_known_answer() {
    assert_eq!(
        hex_digest(b"abc"),
        "ba7816bf8f01cfea414140de5dae2223b00361a396177a9cb410ff61f20015ad"
    );
}

#[test]
fn two_block_known_answer() {
    assert_eq!(
        hex_digest(b"abcdbcdecdefdefgefghfghighijhijkijkljklmklmnlmnomnopnopq"),
        "248d6a61d20638b8e5c026930c3e6039a33ce45964ff2167f6ecedd419db06c1"
    );
}

#[test]
fn long_message_known_answer() {
    let msg: &[u8] = b"abcdefghbcdefghicdefghijdefghijkefghijklfghijklmghijklmnhijklmnoijklmnopjklmnopqklmnopqrlmnopqrsmnopqrstnopqrstu";
    assert_eq!(
        hex_digest(msg),
        "cf5b16a778af8380036ce59e7b0492370b249b11e8f07a51afac45037afee9d1"
    );
}

#[test]
fn digest_bytes_are_big_endian_words() {
    let d = digest(b"abc").unwrap();
    assert_eq!(&d[0..4], &[0xba, 0x78, 0x16, 0xbf]);
    assert_eq!(&d[28..32], &[0xf2, 0x00, 0x15, 0xad]);
}

#[test]
fn repeated_calls_agree() {
    let msg = b"The quick brown fox jumps over the lazy dog";
    let first = digest(msg).unwrap();
    let second = digest(msg).unwrap();
    assert_eq!(first, second);
    assert_eq!(
        to_hex(&first),
        "d7a8fbb307d7809469ca9abcb0082e4f8d5651e46d3cdb762d02d0bf37c9e592"
    );
}

#[test]
fn single_bit_flips_change_the_digest() {
    let base = digest(b"abc").unwrap();
    let last_flipped = digest(b"abd").unwrap();
    let first_flipped = digest(b"`bc").unwrap();
    assert_ne!(base, last_flipped);
    assert_ne!(base, first_flipped);
    assert_ne!(last_flipped, first_flipped);
    assert_eq!(
        to_hex(&last_flipped),
        "a52d159f262b2c6ddb724a61840befc36eb30c88877a4030b65cbe86298449c9"
    );
    assert_eq!(
        to_hex(&first_flipped),
        "89f900390e14d37c405c75244fb086aa35b54c0fb6ec3638c1c21451d4743d11"
    );
}

#[test]
fn trailing_zero_byte_is_not_ignored() {
    assert_ne!(digest(b"abc").unwrap(), digest(b"abc\0").unwrap());
}

#[test]
fn block_boundary_block_counts() {
    let blocks = |n: usize| pad(&vec![b'a'; n]).unwrap().len() / 64;
    assert_eq!(blocks(0), 1);
    assert_eq!(blocks(55), 1);
    assert_eq!(blocks(56), 2);
    assert_eq!(blocks(63), 2);
    assert_eq!(blocks(64), 2);
    assert_eq!(blocks(119), 2);
    assert_eq!(blocks(120), 3);
}

#[test]
fn block_boundary_digests() {
    let cases: [(usize, &str); 5] = [
        (55, "9f4390f8d30c2dd92ec9f095b65e2b9ae9b0a925a5258e241c9f1e910f734318"),
        (56, "b35439a4ac6f0948b6d6f9e3c6af0f5f590ce20f1bde7090ef7970686ec6738a"),
        (63, "7d3e74a05d7db15bce4ad9ec0658ea98e3f06eeecf16b4c6fff2da457ddc2f34"),
        (64, "ffe054fe7ae0cb6dc65c3af9b61d5209f439851db43d0ba5997337df154668eb"),
        (119, "31eba51c313a5c08226adf18d4a359cfdfd8d2e816b13f4af952f7ea6584dcfb"),
    ];
    for (n, expected) in cases {
        assert_eq!(hex_digest(&vec![b'a'; n]), expected, "length {}", n);
    }
}

#[test]
fn padding_layout() {
    let p = pad(b"abc").unwrap();
    assert_eq!(p.len(), 64);
    assert_eq!(&p[0..3], b"abc");
    assert_eq!(p[3], 0x80);
    assert!(p[4..56].iter().all(|b| *b == 0));
    assert_eq!(&p[56..64], &[0, 0, 0, 0, 0, 0, 0, 24]);
}

#[test]
fn padding_length_field_of_two_block_message() {
    let p = pad(&vec![0xffu8; 300]).unwrap();
    assert_eq!(p.len(), 320);
    assert_eq!(p[300], 0x80);
    assert_eq!(&p[312..320], &[0, 0, 0, 0, 0, 0, 0x09, 0x60]);
}

#[test]
fn padded_length_values_and_overflow() {
    assert_eq!(padded_length(0), Some(64));
    assert_eq!(padded_length(55), Some(64));
    assert_eq!(padded_length(56), Some(128));
    assert_eq!(padded_length(usize::MAX), None);
    assert_eq!(padded_length(usize::MAX - 8), None);
}

#[test]
fn input_too_large_is_an_error_value() {
    let e = DigestError::InputTooLarge;
    assert_eq!(e, DigestError::InputTooLarge);
    assert_eq!(format!("{:?}", e), "InputTooLarge");
}

#[test]
fn million_a_large_input() {
    let msg = vec![b'a'; 1_000_000];
    assert_eq!(
        hex_digest(&msg),
        "cdc76e5c9914fb9281a1c7e284d73e67f1809a48a497200e046d39ccc7112cd0"
    );
    let p = pad(&msg).unwrap();
    assert_eq!(p.len(), 1_000_064);
    assert_eq!(&p[p.len() - 8..], &[0, 0, 0, 0, 0, 0x7a, 0x12, 0x00]);
}

#[test]
fn rehash_of_a_digest() {
    let first = digest(b"abc").unwrap();
    let second = digest(&first).unwrap();
    assert_eq!(
        to_hex(&second),
        "4f8b42c22dd3729b519ba6f68d2da7cc5b2d606d05daed5ad5128cc03e6c6358"
    );
}

#[test]
fn hex_rendering() {
    assert_eq!(to_hex(&[]), "");
    assert_eq!(to_hex(&[0x00, 0x0f, 0xa5, 0xff]), "000fa5ff");
}

#[test]
fn label_short_and_exact_length_names_are_whole() {
    assert_eq!(display_label(""), "");
    assert_eq!(display_label("test"), "test");
    let thirty = "abcdefghijklmnopqrstuvwxyz0123";
    assert_eq!(display_label(thirty), thirty);
}

#[test]
fn label_long_names_are_truncated() {
    assert_eq!(
        display_label("abcdefghijklmnopqrstuvwxyz01234"),
        "abcdefghijklmnopqrstuvwxyz0..."
    );
    assert_eq!(
        display_label("héllo wörld, héllo wörld, héllo wörld"),
        "héllo wörld, héllo wörl..."
    );
}

#[test]
fn label_is_measured_in_bytes() {
    let name = "😀😀😀😀😀😀€😀😀😀😀😀😀😀";
    assert_eq!(name.len(), 55);
    assert_eq!(display_label(name), "😀😀😀😀😀😀€...");
    let thirty_bytes = "ééééééééééééééé";
    assert_eq!(display_label(thirty_bytes), thirty_bytes);
}

#[test]
fn label_drops_a_character_split_by_the_cut() {
    assert_eq!(
        display_label("abcdefghijklmnopqrstuvwxyzéxyz"),
        "abcdefghijklmnopqrstuvwxyz..."
    );
}

#[test]
fn string_literal_at_block_boundary_lengths() {
    let name55 = "a".repeat(55);
    assert_eq!(
        sha256(&name55).unwrap(),
        "9f4390f8d30c2dd92ec9f095b65e2b9ae9b0a925a5258e241c9f1e910f734318  aaaaaaaaaaaaaaaaaaaaaaaaaaa..."
    );
    let name56 = "a".repeat(56);
    assert_eq!(
        sha256(&name56).unwrap(),
        "b35439a4ac6f0948b6d6f9e3c6af0f5f590ce20f1bde7090ef7970686ec6738a  aaaaaaaaaaaaaaaaaaaaaaaaaaa..."
    );
}

#[test]
fn string_literal_with_multibyte_label() {
    assert_eq!(
        sha256("😀😀😀😀😀😀€😀😀😀😀😀😀😀").unwrap(),
        "e33e8bda3d8c57eccb95d41856c1c86dd836aed32186bf19fb9fff832670ad70  😀😀😀😀😀😀€..."
    );
}

#[test]
fn digest_line_pairs_digest_and_label() {
    assert_eq!(
        digest_line(b"abc", "a-file-with-a-rather-long-name.txt").unwrap(),
        "ba7816bf8f01cfea414140de5dae2223b00361a396177a9cb410ff61f20015ad  a-file-with-a-rather-long-n..."
    );
}

#[test]
fn string_literal_uses_utf8_bytes() {
    assert_eq!(
        sha256("héllo wörld").unwrap(),
        "a1003f7d04a4115711d0b48a2eaf1359ce565d2d2a6fd65098dfcffadeeef59f  héllo wörld"
    );
}
