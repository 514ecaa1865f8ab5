use llama_mgr::external_tools::version::{Version, VersionParsingError};

#[test]
fn test_parse_version_from_string() {
    let version: Version = "3.13.2".parse().unwrap();
    assert_eq!(
        version,
        Version {
            major: 3,
            minor: Some(13),
            patch: Some(2)
        }
    );
}

#[test]
fn test_parse_version_from_string_without_patch() {
    let version: Version = "123.45".parse().unwrap();
    assert_eq!(
        version,
        Version {
            major: 123,
            minor: Some(45),
            patch: None
        }
    );
}

#[test]
fn test_parse_version_from_string_without_patch_and_minor() {
    let version: Version = "123".parse().unwrap();
    assert_eq!(
        version,
        Version {
            major: 123,
            minor: None,
            patch: None
        }
    );
}

#[test]
fn test_parse_version_from_string_with_additional_version_fields() {
    let version: Version = "123.45.6.789".parse().unwrap();
    assert_eq!(
        version,
        Version {
            major: 123,
            minor: Some(45),
            patch: Some(6)
        }
    );
}

#[test]
fn test_parse_version_from_string_invalid() {
    let version = "invalid".parse::<Version>();
    assert!(version.is_err());
}

#[test]
fn test_version_to_string() {
    let version = Version {
        major: 3,
        minor: Some(13),
        patch: Some(2),
    };
    assert_eq!(version.to_string(), "3.13.2");
}

#[test]
fn test_version_to_string_without_patch() {
    let version = Version {
        major: 3,
        minor: Some(13),
        patch: None,
    };
    assert_eq!(version.to_string(), "3.13");
}

#[test]
fn test_version_to_string_without_patch_and_minor() {
    let version = Version {
        major: 3,
        minor: None,
        patch: None,
    };
    assert_eq!(version.to_string(), "3");
}

#[test]
fn test_version_matches_exactly() {
    let first = Version {
        major: 1,
        minor: Some(2),
        patch: Some(3),
    };

    let second = Version {
        major: 1,
        minor: Some(2),
        patch: Some(3),
    };

    assert!(first.matches(&second));
}

#[test]
fn test_version_does_not_match_exactly_on_different_patch() {
    let first = Version {
        major: 1,
        minor: Some(2),
        patch: Some(3),
    };

    let second = Version {
        major: 1,
        minor: Some(2),
        patch: Some(4),
    };

    assert!(!first.matches(&second));
}

#[test]
fn test_version_does_not_match_exactly_on_different_minor() {
    let first = Version {
        major: 1,
        minor: Some(2),
        patch: Some(3),
    };

    let second = Version {
        major: 1,
        minor: Some(4),
        patch: Some(3),
    };

    assert!(!first.matches(&second));
}

#[test]
fn test_version_does_not_match_exactly_on_different_major() {
    let first = Version {
        major: 2,
        minor: Some(2),
        patch: Some(3),
    };

    let second = Version {
        major: 1,
        minor: Some(2),
        patch: Some(3),
    };

    assert!(!first.matches(&second));
}

#[test]
fn test_version_matches_without_patch() {
    let first = Version {
        major: 1,
        minor: Some(2),
        patch: None,
    };

    let second = Version {
        major: 1,
        minor: Some(2),
        patch: Some(3),
    };

    assert!(first.matches(&second));
}

#[test]
fn test_version_matches_without_patch_when_both_none() {
    let first = Version {
        major: 1,
        minor: Some(2),
        patch: None,
    };

    let second = Version {
        major: 1,
        minor: Some(2),
        patch: None,
    };

    assert!(first.matches(&second));
}

#[test]
fn test_version_matches_without_minor() {
    let first = Version {
        major: 1,
        minor: Some(2),
        patch: None,
    };

    let second = Version {
        major: 1,
        minor: None,
        patch: None,
    };

    assert!(first.matches(&second));
}

#[test]
fn test_version_matches_without_minor_when_both_none() {
    let first = Version {
        major: 1,
        minor: None,
        patch: None,
    };

    let second = Version {
        major: 1,
        minor: None,
        patch: None,
    };

    assert!(first.matches(&second));
}

fn version(major: u8, minor: Option<u8>, patch: Option<u8>) -> Version {
    Version { major, minor, patch }
}

#[test]
fn parse_fails_with_not_found_without_a_digit() {
    assert_eq!(Version::from_str("invalid"), Err(VersionParsingError::VersionNotFound));
    assert_eq!(Version::from_str(""), Err(VersionParsingError::VersionNotFound));
    assert_eq!(Version::from_str("..."), Err(VersionParsingError::VersionNotFound));
    assert_eq!(Version::from_str("v.x"), Err(VersionParsingError::VersionNotFound));
}

#[test]
fn parse_fails_with_out_of_range_above_255() {
    assert_eq!(Version::from_str("256"), Err(VersionParsingError::OutOfRange));
    assert_eq!(Version::from_str("1.256"), Err(VersionParsingError::OutOfRange));
    assert_eq!(Version::from_str("1.2.300"), Err(VersionParsingError::OutOfRange));
    assert_eq!(Version::from_str("99999999999999999999999999"), Err(VersionParsingError::OutOfRange));
    assert_eq!(Version::from_str("1234.5"), Err(VersionParsingError::OutOfRange));
    assert_eq!(Version::from_str("255.255.255"), Ok(version(255, Some(255), Some(255))));
    assert_eq!(Version::from_str("0.0.0"), Ok(version(0, Some(0), Some(0))));
}

#[test]
fn parse_finds_the_version_inside_other_text() {
    assert_eq!(
        Version::from_str("cpython-3.13.2-linux-x86_64-gnu"),
        Ok(version(3, Some(13), Some(2)))
    );
    assert_eq!(Version::from_str("git version 2.43.0"), Ok(version(2, Some(43), Some(0))));
    assert_eq!(Version::from_str("Python 3.8"), Ok(version(3, Some(8), None)));
    assert_eq!(Version::from_str("pypy3"), Ok(version(3, None, None)));
    assert_eq!(Version::from_str("x1y2z3"), Ok(version(1, None, None)));
}

#[test]
fn parse_takes_each_dot_and_each_run_as_optional() {
    assert_eq!(Version::from_str("1..2"), Ok(version(1, None, None)));
    assert_eq!(Version::from_str("3..5"), Ok(version(3, None, None)));
    assert_eq!(Version::from_str("1..300"), Ok(version(1, None, None)));
    assert_eq!(Version::from_str("1.x.2"), Ok(version(1, None, None)));
    assert_eq!(Version::from_str("1.2x.3"), Ok(version(1, Some(2), None)));
    assert_eq!(Version::from_str("1."), Ok(version(1, None, None)));
    assert_eq!(Version::from_str("1.2."), Ok(version(1, Some(2), None)));
    assert_eq!(Version::from_str("1.a.2"), Ok(version(1, None, None)));
    assert_eq!(Version::from_str("1...3"), Ok(version(1, None, None)));
    assert_eq!(Version::from_str("007.08"), Ok(version(7, Some(8), None)));
    assert_eq!(Version::from_str("1.2.3.4"), Ok(version(1, Some(2), Some(3))));
    assert_eq!(Version::from_str("3.14.0a5"), Ok(version(3, Some(14), Some(0))));
}

#[test]
fn parse_through_the_trait_is_the_same() {
    for text in ["3.13.2", "256", "none", "1..2", "cpython-3.9.1"] {
        assert_eq!(text.parse::<Version>(), Version::from_str(text));
    }
}

#[test]
fn query_matches_candidates_that_agree_on_its_components() {
    let query = version(1, Some(2), None);
    assert!(query.matches(&version(1, Some(2), Some(3))));
    assert!(query.matches(&version(1, Some(2), None)));
    assert!(!query.matches(&version(1, Some(4), Some(3))));
    assert!(!query.matches(&version(2, Some(2), Some(3))));
    let major_only = version(3, None, None);
    assert!(major_only.matches(&version(3, Some(13), Some(2))));
    assert!(!major_only.matches(&version(2, Some(13), Some(2))));
}

#[test]
fn matching_is_symmetric_and_reflexive() {
    let samples = [
        version(1, None, None),
        version(1, Some(2), None),
        version(1, Some(2), Some(3)),
        version(1, None, Some(3)),
        version(1, Some(4), Some(3)),
        version(2, Some(2), Some(3)),
    ];
    for a in samples {
        assert!(a.matches(&a));
        for b in samples {
            assert_eq!(a.matches(&b), b.matches(&a));
        }
    }
}

#[test]
fn full_versions_match_only_when_equal() {
    let samples = [
        version(1, Some(2), Some(3)),
        version(1, Some(2), Some(4)),
        version(1, Some(3), Some(3)),
        version(2, Some(2), Some(3)),
    ];
    for a in samples {
        for b in samples {
            assert_eq!(a.matches(&b), a == b);
        }
    }
}

#[test]
fn absent_minor_leaves_the_patch_to_decide() {
    assert!(version(1, None, Some(3)).matches(&version(1, Some(2), Some(3))));
    assert!(!version(1, None, Some(3)).matches(&version(1, Some(2), Some(4))));
}

#[test]
fn formatting_then_parsing_gives_the_version_back() {
    let components = [None, Some(0u8), Some(1), Some(9), Some(10), Some(99), Some(100), Some(255)];
    for major in 0..=255u8 {
        for minor in components {
            for patch in components {
                if minor.is_none() && patch.is_some() {
                    continue;
                }
                let v = version(major, minor, patch);
                assert_eq!(Version::from_str(&v.to_string()), Ok(v));
            }
        }
    }
}

#[test]
fn formatting_a_patch_behind_an_absent_minor_reads_back_as_minor() {
    let v = version(3, None, Some(2));
    assert_eq!(v.to_string(), "3.2");
    assert_eq!(Version::from_str(&v.to_string()), Ok(version(3, Some(2), None)));
}

#[test]
fn formatting_writes_no_leading_zero() {
    assert_eq!(version(0, Some(0), Some(0)).to_string(), "0.0.0");
    assert_eq!(version(255, Some(100), Some(7)).to_string(), "255.100.7");
    assert_eq!(version(10, None, None).to_string(), "10");
}

/// `major[.minor[.patch]]`, each component a run of digits.
const GRAMMAR: &str = r"(\d+)(?:\.(\d+)(?:\.(\d+))?)?";

fn read_with_pattern(pattern: &regex::Regex, text: &str) -> Result<Version, VersionParsingError> {
    let found = match pattern.captures(text) {
        Some(found) => found,
        None => return Err(VersionParsingError::VersionNotFound),
    };
    let mut parts: [Option<u8>; 3] = [None, None, None];
    for group in 1..=3 {
        if let Some(digits) = found.get(group) {
            match digits.as_str().parse::<u8>() {
                Ok(n) => parts[group - 1] = Some(n),
                Err(_) => return Err(VersionParsingError::OutOfRange),
            }
        }
    }
    Ok(version(parts[0].unwrap_or(0), parts[1], parts[2]))
}

#[test]
fn parse_agrees_with_the_pattern_on_chosen_texts() {
    let pattern = regex::Regex::new(GRAMMAR).unwrap();
    let texts = [
        "", "3", "3.13", "3.13.2", "123.45.6.789", "invalid", "1..2", "1.", ".1", "..1.2", "a1b2c3",
        "1.2.3.4.5", "256", "0256", "1.256.3", "1.2.256", "00.00.00", "v2.43.0.windows.1",
        "cpython-3.13.2-linux-x86_64-gnu", "1 . 2", "1.\n2", "12a.3", "9.99.999", "255.255.255.255",
        "-1.5", "+7", "1e5", "3,14", "1.2-3", "\t8.1\r\n", "3..5", "1..300", "1.2..3", "1.x.2",
    ];
    for text in texts {
        assert_eq!(Version::from_str(text), read_with_pattern(&pattern, text), "text {:?}", text);
    }
}

#[test]
fn parse_agrees_with_the_pattern_on_generated_texts() {
    let pattern = regex::Regex::new(GRAMMAR).unwrap();
    let alphabet: Vec<char> = "0123456789..  a-v".chars().collect();
    let mut seed: u64 = 0x2545_F491_4F6C_DD1D;
    for _ in 0..20000 {
        let mut text = String::new();
        seed = seed.wrapping_mul(6364136223846793005).wrapping_add(1442695040888963407);
        let length = (seed >> 33) % 12;
        for _ in 0..length {
            seed = seed.wrapping_mul(6364136223846793005).wrapping_add(1442695040888963407);
            text.push(alphabet[((seed >> 33) % alphabet.len() as u64) as usize]);
        }
        assert_eq!(Version::from_str(&text), read_with_pattern(&pattern, &text), "text {:?}", text);
    }
}

#[test]
fn versions_are_ordered_component_by_component() {
    assert!(version(1, Some(2), Some(3)) < version(1, Some(2), Some(4)));
    assert!(version(1, Some(2), Some(3)) < version(1, Some(3), None));
    assert!(version(1, Some(9), Some(9)) < version(2, None, None));
    assert!(version(1, None, None) < version(1, Some(0), None));
    assert!(version(1, Some(2), None) < version(1, Some(2), Some(0)));
    assert!(version(3, None, Some(1)) < version(3, Some(0), None));
    assert!(version(1, Some(2), Some(3)) >= version(1, Some(2), Some(3)));
    assert!(version(3, Some(13), None) > version(3, Some(8), Some(20)));
}

#[test]
fn comparing_agrees_with_sorting() {
    let components = [None, Some(0u8), Some(1), Some(200)];
    let mut all = Vec::new();
    for major in [0u8, 1, 255] {
        for minor in components {
            for patch in components {
                all.push(version(major, minor, patch));
            }
        }
    }
    for a in &all {
        for b in &all {
            assert_eq!(a.partial_cmp(b), Some(a.cmp(b)));
            assert_eq!(a.partial_cmp(b) == Some(std::cmp::Ordering::Equal), a == b);
            assert_eq!(a.partial_cmp(b).map(|o| o.reverse()), b.partial_cmp(a));
        }
    }
    let mut sorted = all.clone();
    sorted.sort();
    for pair in sorted.windows(2) {
        assert!(pair[0] < pair[1]);
    }
}

fn every_text(alphabet: &[char], length: usize, text: &mut String, visit: &mut dyn FnMut(&str)) {
    visit(text);
    if length == 0 {
        return;
    }
    for c in alphabet {
        text.push(*c);
        every_text(alphabet, length - 1, text, visit);
        text.pop();
    }
}

#[test]
fn parse_agrees_with_the_pattern_on_every_short_text() {
    let pattern = regex::Regex::new(GRAMMAR).unwrap();
    let mut count = 0;
    every_text(&['0', '1', '9', '.', 'a', '-'], 6, &mut String::new(), &mut |text| {
        assert_eq!(Version::from_str(text), read_with_pattern(&pattern, text), "text {:?}", text);
        count += 1;
    });
    assert_eq!(count, 55987);
}

#[test]
fn parse_agrees_with_the_pattern_around_the_limit_of_a_component() {
    let pattern = regex::Regex::new(GRAMMAR).unwrap();
    let mut in_range = 0;
    let mut out_of_range = 0;
    every_text(&['2', '5', '6', '.'], 8, &mut String::new(), &mut |text| {
        let parsed = Version::from_str(text);
        assert_eq!(parsed, read_with_pattern(&pattern, text), "text {:?}", text);
        match parsed {
            Ok(_) => in_range += 1,
            Err(VersionParsingError::OutOfRange) => out_of_range += 1,
            Err(VersionParsingError::VersionNotFound) => {}
        }
    });
    assert!(in_range > 1000);
    assert!(out_of_range > 1000);
}

#[test]
fn a_component_in_digits_of_another_script_is_out_of_range() {
    assert_eq!(Version::from_str("\u{664}\u{662}"), Err(VersionParsingError::OutOfRange));
    assert_eq!(Version::from_str("\u{663}.13"), Err(VersionParsingError::OutOfRange));
    assert_eq!(Version::from_str("3.\u{661}3"), Err(VersionParsingError::OutOfRange));
    assert_eq!(Version::from_str("3.1.\u{ff13}"), Err(VersionParsingError::OutOfRange));
    assert_eq!(Version::from_str("1\u{663}"), Err(VersionParsingError::OutOfRange));
    assert_eq!(Version::from_str("3.1.4\u{663}"), Err(VersionParsingError::OutOfRange));
}

#[test]
fn other_characters_beyond_ascii_are_no_digits() {
    assert_eq!(Version::from_str("caf\u{e9}"), Err(VersionParsingError::VersionNotFound));
    assert_eq!(Version::from_str("\u{bd} \u{b2} \u{2167}"), Err(VersionParsingError::VersionNotFound));
    assert_eq!(Version::from_str("\u{e9}3.\u{e9}13"), Ok(version(3, None, None)));
    assert_eq!(Version::from_str("3.13\u{b2}.2"), Ok(version(3, Some(13), None)));
    assert_eq!(Version::from_str("3.13.2 \u{663}"), Ok(version(3, Some(13), Some(2))));
}

#[test]
fn parse_agrees_with_the_pattern_beyond_ascii() {
    let pattern = regex::Regex::new(GRAMMAR).unwrap();
    let mut out_of_range = 0;
    let alphabet = ['1', '\u{663}', '\u{ff19}', '\u{e9}', '\u{b2}', '.'];
    every_text(&alphabet, 3, &mut String::new(), &mut |text| {
        let parsed = Version::from_str(text);
        assert_eq!(parsed, read_with_pattern(&pattern, text), "text {:?}", text);
        if parsed == Err(VersionParsingError::OutOfRange) {
            out_of_range += 1;
        }
    });
    assert!(out_of_range > 100);
    for text in ["1.\u{663}.2", "v\u{e9}rsion 2.\u{ff11}0", "\u{0967}\u{0968}.5", "12.3\u{663}.4"] {
        assert_eq!(Version::from_str(text), read_with_pattern(&pattern, text), "text {:?}", text);
    }
}

#[test]
fn no_version_that_was_read_has_a_patch_without_a_minor() {
    let mut read = 0;
    every_text(&['0', '7', '.', 'x'], 8, &mut String::new(), &mut |text| {
        if let Ok(v) = Version::from_str(text) {
            assert!(v.minor.is_some() || v.patch.is_none(), "text {:?}", text);
            assert_eq!(Version::from_str(&v.to_string()), Ok(v), "text {:?}", text);
            read += 1;
        }
    });
    assert!(read > 50000);
}
