use bedrock_orm::query_execution::is_valid_identifier;

#[test]
fn identifier_examples() {
    for name in ["a", "_", "A", "z9", "_9", "name", "user_id", "__x__", "Z", "aB3_"] {
        assert!(is_valid_identifier(name), "{name:?}");
    }
    for name in [
        "", "1abc", "a-b", "9", "a b", " a", "a ", ":a", "a:", "a.b", "a\n", "\na", "a\0",
        "ä", "aä", "äa", "a\u{7f}", "a\u{80}", "a@", "a[", "a`", "a{", "a/", "$a", "a\t",
        "ａ", "a１",
    ] {
        assert!(!is_valid_identifier(name), "{name:?}");
    }
}

#[test]
fn identifier_boundaries_of_the_character_ranges() {
    for (character, start, part) in [
        ('@', false, false),
        ('A', true, true),
        ('Z', true, true),
        ('[', false, false),
        ('^', false, false),
        ('_', true, true),
        ('`', false, false),
        ('a', true, true),
        ('z', true, true),
        ('{', false, false),
        ('/', false, false),
        ('0', false, true),
        ('9', false, true),
        (':', false, false),
    ] {
        assert_eq!(is_valid_identifier(&character.to_string()), start, "{character:?}");
        assert_eq!(is_valid_identifier(&format!("a{character}")), part, "{character:?}");
    }
}

#[test]
fn identifier_agrees_with_the_pattern() {
    let pattern = regex::Regex::new(r"^[A-Za-z_][A-Za-z0-9_]*$").expect("a pattern");
    let alphabet = [
        'a', 'z', 'A', 'Z', '_', '0', '9', '-', ' ', '\n', '$', '^', '.', '*', 'é', '\0', '@',
        '[', '`', '{', '/', ':',
    ];
    let mut names = vec![String::new()];
    for length in 1..=3 {
        let shorter: Vec<String> = names
            .iter()
            .filter(|name| name.chars().count() == length - 1)
            .cloned()
            .collect();
        for name in shorter {
            for character in alphabet {
                let mut longer = name.clone();
                longer.push(character);
                names.push(longer);
            }
        }
    }
    assert_eq!(names.len(), 1 + 22 + 22 * 22 + 22 * 22 * 22);
    for name in names {
        assert_eq!(is_valid_identifier(&name), pattern.is_match(&name), "{name:?}");
    }
}

#[test]
fn identifier_agrees_with_the_pattern_on_every_single_character() {
    let pattern = regex::Regex::new(r"^[A-Za-z_][A-Za-z0-9_]*$").expect("a pattern");
    for code in 0..0x3000u32 {
        if let Some(character) = char::from_u32(code) {
            let alone = character.to_string();
            let after = format!("x{character}");
            assert_eq!(is_valid_identifier(&alone), pattern.is_match(&alone), "{alone:?}");
            assert_eq!(is_valid_identifier(&after), pattern.is_match(&after), "{after:?}");
        }
    }
}
