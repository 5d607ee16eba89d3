use tsk::error::{ErrorKind, StoreError};
use tsk::text::{
    decimal_string, is_blank, is_white_space, text_contains, text_eq, trim_text,
};

fn id() -> String {
    "a1b2c3".to_string()
}

#[test]
fn messages_name_the_row() {
    assert_eq!(
        StoreError::InvalidId { id: "nope".to_string() }.message(),
        "Invalid task ID 'nope'. Must be 6 characters [a-z0-9]."
    );
    assert_eq!(StoreError::TaskNotFound { id: id() }.message(), "Task 'a1b2c3' not found.");
    assert_eq!(
        StoreError::ParentNotFound { id: id() }.message(),
        "Parent task 'a1b2c3' not found."
    );
    assert_eq!(
        StoreError::MissingParent { id: id() }.message(),
        "Parent task 'a1b2c3' not found."
    );
    assert_eq!(
        StoreError::MissingDependency { id: id() }.message(),
        "Dependency task 'a1b2c3' not found."
    );
    assert_eq!(StoreError::MemoryNotFound { id: id() }.message(), "Memory 'a1b2c3' not found.");
    assert_eq!(
        StoreError::AlreadyInProgress { id: id() }.message(),
        "Task 'a1b2c3' is already in progress."
    );
    assert_eq!(StoreError::AlreadyDone { id: id() }.message(), "Task 'a1b2c3' is already done.");
    assert_eq!(
        StoreError::DependencyNotDone { id: id() }.message(),
        "Cannot complete: depends on 'a1b2c3' which is not done."
    );
    assert_eq!(
        StoreError::IdsExhausted.message(),
        "Failed to generate unique ID after 100 attempts"
    );
    assert_eq!(StoreError::Storage { message: "disk full".to_string() }.message(), "disk full");
}

#[test]
fn messages_count_what_blocks_removal() {
    assert_eq!(
        StoreError::ActiveDependents { id: id(), count: 2 }.message(),
        "Cannot remove: 2 active task(s) depend on 'a1b2c3'."
    );
    assert_eq!(
        StoreError::HasChildren { id: id(), count: 13 }.message(),
        "Cannot remove: 13 task(s) have 'a1b2c3' as parent."
    );
}

#[test]
fn kinds_follow_the_taxonomy() {
    assert_eq!(StoreError::InvalidId { id: id() }.kind(), ErrorKind::Validation);
    assert_eq!(StoreError::TaskNotFound { id: id() }.kind(), ErrorKind::NotFound);
    assert_eq!(StoreError::ParentNotFound { id: id() }.kind(), ErrorKind::NotFound);
    assert_eq!(StoreError::MemoryNotFound { id: id() }.kind(), ErrorKind::NotFound);
    assert_eq!(StoreError::MissingParent { id: id() }.kind(), ErrorKind::Constraint);
    assert_eq!(StoreError::MissingDependency { id: id() }.kind(), ErrorKind::Constraint);
    assert_eq!(StoreError::AlreadyInProgress { id: id() }.kind(), ErrorKind::Constraint);
    assert_eq!(StoreError::AlreadyDone { id: id() }.kind(), ErrorKind::Constraint);
    assert_eq!(StoreError::DependencyNotDone { id: id() }.kind(), ErrorKind::Constraint);
    assert_eq!(
        StoreError::ActiveDependents { id: id(), count: 1 }.kind(),
        ErrorKind::Constraint
    );
    assert_eq!(StoreError::HasChildren { id: id(), count: 1 }.kind(), ErrorKind::Constraint);
    assert_eq!(StoreError::IdsExhausted.kind(), ErrorKind::Exhaustion);
    assert_eq!(StoreError::Storage { message: String::new() }.kind(), ErrorKind::Storage);
}

#[test]
fn decimal_rendering() {
    assert_eq!(decimal_string(0), "0");
    assert_eq!(decimal_string(7), "7");
    assert_eq!(decimal_string(10), "10");
    assert_eq!(decimal_string(409), "409");
    assert_eq!(decimal_string(1234567890), "1234567890");
}

#[test]
fn text_equality_is_by_characters() {
    assert!(text_eq("", ""));
    assert!(text_eq("héllo", "héllo"));
    assert!(!text_eq("abc", "abd"));
    assert!(!text_eq("abc", "ab"));
    assert!(!text_eq("ab", "abc"));
}

#[test]
fn containment_is_substring_search() {
    assert!(text_contains("a,b", "a"));
    assert!(text_contains("a,b", ",b"));
    assert!(text_contains("a,b", ""));
    assert!(text_contains("", ""));
    assert!(!text_contains("a,b", "z"));
    assert!(!text_contains("ab", "abc"));
    assert!(!text_contains("", "a"));
    assert!(text_contains("déjà vu", "jà v"));
    assert!(!text_contains("JWT tokens", "jwt"));
    assert!(!text_contains("abc", "a_c"));
    assert!(!text_contains("abc", "a%"));
}

#[test]
fn blank_lines_and_trimming() {
    assert!(is_blank(""));
    assert!(is_blank(" \t\r\n"));
    assert!(is_blank("\u{2003}\u{a0}"));
    assert!(!is_blank("  x "));
    assert_eq!(trim_text("  all \t"), "all");
    assert_eq!(trim_text("x"), "x");
    assert_eq!(trim_text("a b"), "a b");
    assert_eq!(trim_text("   "), "");
    assert_eq!(trim_text(""), "");
    assert_eq!(trim_text("\u{2003}é \n"), "é");
}

#[test]
fn white_space_is_the_unicode_property() {
    let mut count = 0;
    for code in 0..=0x10ffffu32 {
        if let Some(c) = char::from_u32(code) {
            assert_eq!(is_white_space(c), c.is_whitespace());
            if is_white_space(c) {
                count += 1;
            }
        }
    }
    assert_eq!(count, 25);
    assert!(is_white_space(' '));
    assert!(is_white_space('\u{3000}'));
    assert!(!is_white_space('\u{200b}'));
    assert!(!is_white_space('\u{180e}'));
    assert!(!is_white_space('x'));
}
