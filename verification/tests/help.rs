use btcli::extract_help::{decrypt_message, get_help_info, get_secret_message, ENCRYPTED_MESSAGE, MASK};

#[test]
fn test_decrypt_message() {
    let decrypted = get_secret_message();
    assert!(!decrypted.is_empty());
}

#[test]
fn test_encrypt_decrypt_roundtrip() {
    let original = "我喜欢顾千寻";
    let encrypted = original.bytes().map(|b| b ^ 0x5A).collect::<Vec<u8>>();
    let decrypted = decrypt_message(&encrypted);
    assert_eq!(original, decrypted);
}

#[test]
fn secret_message_is_the_masked_text() {
    assert_eq!(get_secret_message(), "我喜欢顾千寻");
    assert_eq!(decrypt_message(&ENCRYPTED_MESSAGE), "我喜欢顾千寻");
}

#[test]
fn mask_is_the_documented_byte() {
    assert_eq!(MASK, 0x5A);
    assert_eq!(decrypt_message(&[b'A' ^ MASK, b'z' ^ MASK]), "Az");
}

#[test]
fn decrypt_message_of_nothing_is_empty() {
    assert_eq!(decrypt_message(&[]), "");
}

#[test]
fn decrypt_message_replaces_invalid_bytes() {
    // 0xFF is never valid in UTF-8; it is what 0xA5 becomes once unmasked.
    let text = decrypt_message(&[b'a' ^ MASK, 0xA5, b'b' ^ MASK]);
    assert_eq!(text, "a\u{FFFD}b");
}

#[test]
fn round_trip_holds_for_mixed_text() {
    for text in ["", "plain ascii", "混合 text ✓", "\u{10FFFF}\u{0}"] {
        let encrypted: Vec<u8> = text.bytes().map(|b| b ^ MASK).collect();
        assert_eq!(decrypt_message(&encrypted), text);
    }
}

#[test]
fn help_text_lists_languages_and_codes() {
    let help = get_help_info();
    assert!(help.starts_with("=== btcli - 百度翻译命令行工具帮助信息 ==="));
    assert!(help.contains("【常见语种列表】"));
    assert!(help.contains("【错误码列表】"));
    assert!(help.contains("52003    未授权用户"));
    assert!(help.ends_with("- S.A. 2026-1-20 与你同往\n"));
}
