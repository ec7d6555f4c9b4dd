use mesh_jawn::utils::bounded_message::{truncate_message, MAX_MESSAGE_BYTES, TRUNCATION_SUFFIX};

#[test]
fn short_message_unchanged() {
    let msg = "Hello, world!";
    assert_eq!(truncate_message(msg), msg);
}

#[test]
fn exactly_200_bytes_unchanged() {
    let msg = "a".repeat(200);
    assert_eq!(truncate_message(&msg), msg);
}

#[test]
fn long_message_truncated() {
    let msg = "a".repeat(250);
    let truncated = truncate_message(&msg);

    // Should be exactly 200 bytes
    assert_eq!(truncated.as_bytes().len(), MAX_MESSAGE_BYTES);

    // Should end with suffix
    assert!(truncated.ends_with(TRUNCATION_SUFFIX));
}

#[test]
fn utf8_safety_with_emoji() {
    // 🦀 is 4 bytes in UTF-8
    let msg = "🦀".repeat(60); // 240 bytes total

    let truncated = truncate_message(&msg);

    assert!(truncated.as_bytes().len() <= MAX_MESSAGE_BYTES);
    assert!(truncated.ends_with(TRUNCATION_SUFFIX));

    let _chars: Vec<char> = truncated.chars().collect();
}

#[test]
fn utf8_safety_with_multibyte_chars() {
    // Mix of 1-byte (a), 2-byte (é), 3-byte (€), and 4-byte (🦀) chars
    let msg = format!(
        "{}{}{}{}",
        "a".repeat(50),
        "é".repeat(30),
        "€".repeat(20),
        "🦀".repeat(15),
    );

    let truncated = truncate_message(&msg);

    assert!(truncated.as_bytes().len() <= MAX_MESSAGE_BYTES);

    assert!(std::str::from_utf8(truncated.as_bytes()).is_ok());
}

#[test]
fn empty_message() {
    let msg = "";
    assert_eq!(truncate_message(msg), "");
}

#[test]
fn exactly_at_boundary_after_suffix() {
    // Create message that's exactly 201 bytes
    let msg = "a".repeat(201);
    let truncated = truncate_message(&msg);

    assert_eq!(truncated.as_bytes().len(), MAX_MESSAGE_BYTES);
    assert!(truncated.ends_with(TRUNCATION_SUFFIX));
}

#[test]
fn emoji_cut_keeps_whole_characters() {
    // 185 bytes of room: 46 crabs (184 bytes) fit, the 47th would not
    let msg = "🦀".repeat(60);
    let truncated = truncate_message(&msg);
    assert_eq!(truncated, format!("{}{}", "🦀".repeat(46), TRUNCATION_SUFFIX));
    assert_eq!(truncated.len(), 199);
}

#[test]
fn truncation_is_idempotent() {
    let msg = format!("{}{}", "é".repeat(120), "tail");
    let once = truncate_message(&msg);
    let twice = truncate_message(&once);
    assert_eq!(once, twice);
}
