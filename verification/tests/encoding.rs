use driver_test_cli_v2::encoding::{base64_encode, encode_powershell_command, utf16_le};

#[test]
fn base64_known_vectors() {
    assert_eq!(base64_encode(b""), "");
    assert_eq!(base64_encode(b"f"), "Zg==");
    assert_eq!(base64_encode(b"fo"), "Zm8=");
    assert_eq!(base64_encode(b"foo"), "Zm9v");
    assert_eq!(base64_encode(b"foob"), "Zm9vYg==");
    assert_eq!(base64_encode(b"fooba"), "Zm9vYmE=");
    assert_eq!(base64_encode(b"foobar"), "Zm9vYmFy");
}

#[test]
fn encoded_command_is_nonempty_base64() {
    let encoded = encode_powershell_command("Write-Host 'hi'");
    assert!(!encoded.is_empty());
    assert!(encoded
        .chars()
        .all(|c| c.is_ascii_alphanumeric() || c == '+' || c == '/' || c == '='));
}

#[test]
fn base64_uses_the_whole_alphabet() {
    let all: Vec<u8> = (0..=255).collect();
    let text = base64_encode(&all);
    assert_eq!(text.len(), 344);
    assert!(text.starts_with("AAECAwQFBgcICQoLDA0ODxAREhMUFRYXGBkaGxwdHh8gISIj"));
    assert!(text.ends_with("+fr7/P3+/w=="));
}

#[test]
fn utf16_matches_the_standard_library() {
    for s in ["", "dir", "naïve — ✓", "🦀 on a 🖥", "\u{FFFF}\u{10000}\u{10FFFF}"] {
        let expected: Vec<u8> = s
            .encode_utf16()
            .flat_map(|u| u.to_le_bytes())
            .collect();
        assert_eq!(utf16_le(s), expected, "{s}");
    }
}

#[test]
fn encoded_command_known_value() {
    assert_eq!(encode_powershell_command("dir"), "ZABpAHIA");
}

#[test]
fn encoded_command_decodes_to_the_command() {
    let command = "Get-Item 'C:\\Drivers\\🦀'";
    let encoded = encode_powershell_command(command);
    let value = |c: u8| -> u32 {
        match c {
            b'A'..=b'Z' => u32::from(c - b'A'),
            b'a'..=b'z' => u32::from(c - b'a') + 26,
            b'0'..=b'9' => u32::from(c - b'0') + 52,
            b'+' => 62,
            _ => 63,
        }
    };
    let mut bits: Vec<u8> = Vec::new();
    for c in encoded.bytes().filter(|c| *c != b'=') {
        for k in (0..6).rev() {
            bits.push(((value(c) >> k) & 1) as u8);
        }
    }
    let bytes: Vec<u8> = bits
        .chunks_exact(8)
        .map(|b| b.iter().fold(0, |n, bit| n * 2 + bit))
        .collect();
    let units: Vec<u16> = bytes
        .chunks_exact(2)
        .map(|b| u16::from_le_bytes([b[0], b[1]]))
        .collect();
    assert_eq!(String::from_utf16(&units).unwrap(), command);
}
