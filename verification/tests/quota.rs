use passwordgenerator::quota::{generate_quota_password, quota_chars, quota_password_from_draws};
use passwordgenerator::shuffle::shuffle_with;

fn check_quota_password(text: &str, groups: usize) {
    let chars: Vec<char> = text.chars().collect();
    assert_eq!(chars.len(), 6 * groups - 1);
    let mut upper = 0;
    let mut special = 0;
    let mut lower = 0;
    for (i, c) in chars.iter().enumerate() {
        if i % 6 == 5 {
            assert_eq!(*c, '-');
        } else if c.is_ascii_uppercase() {
            upper += 1;
        } else if "!@#$%^&*".contains(*c) {
            special += 1;
        } else {
            assert!(c.is_ascii_lowercase(), "{} at {}", c, i);
            lower += 1;
        }
    }
    assert_eq!(special, 1);
    assert!(upper == 1 || upper == 2);
    assert_eq!(lower, 5 * groups - 1 - upper);
}

#[test]
fn quota_password_keeps_its_quotas() {
    for groups in 1..=10 {
        for _ in 0..20 {
            check_quota_password(&generate_quota_password(groups), groups as usize);
        }
    }
}

#[test]
fn quota_password_has_at_least_one_group() {
    for groups in [0, -3, i32::MIN] {
        check_quota_password(&generate_quota_password(groups), 1);
    }
}

#[test]
fn quota_password_uses_both_uppercase_counts() {
    let mut one = false;
    let mut two = false;
    for _ in 0..200 {
        let text = generate_quota_password(2);
        match text.chars().filter(|c| c.is_ascii_uppercase()).count() {
            1 => one = true,
            2 => two = true,
            other => panic!("{} uppercase letters", other),
        }
    }
    assert!(one && two);
}

#[test]
fn quota_password_is_shuffled() {
    let mut special_moves = false;
    let first = generate_quota_password(3).chars().position(|c| "!@#$%^&*".contains(c));
    for _ in 0..50 {
        let at = generate_quota_password(3).chars().position(|c| "!@#$%^&*".contains(c));
        if at != first {
            special_moves = true;
        }
    }
    assert!(special_moves);
}

#[test]
fn quota_chars_come_in_quota_order() {
    assert_eq!(quota_chars(&vec![0, 25], 1, &vec![0, 1]), Some(b"AZ@ab".to_vec()));
    assert_eq!(quota_chars(&vec![2], 7, &vec![25, 24, 23]), Some(b"C*zyx".to_vec()));
    assert_eq!(quota_chars(&vec![2], 0, &Vec::new()), Some(b"C!".to_vec()));
}

#[test]
fn quota_chars_refuse_bad_draws() {
    assert_eq!(quota_chars(&Vec::new(), 0, &vec![0]), None);
    assert_eq!(quota_chars(&vec![0, 1, 2], 0, &vec![0]), None);
    assert_eq!(quota_chars(&vec![26], 0, &vec![0]), None);
    assert_eq!(quota_chars(&vec![0], 8, &vec![0]), None);
    assert_eq!(quota_chars(&vec![0], 0, &vec![26]), None);
}

#[test]
fn shuffle_follows_the_picks() {
    let mut chars = b"abcde".to_vec();
    assert!(shuffle_with(&mut chars, &vec![0, 1, 2, 3, 4]));
    assert_eq!(chars, b"abcde".to_vec());

    let mut chars = b"abcde".to_vec();
    assert!(shuffle_with(&mut chars, &vec![0, 0, 0, 0, 0]));
    // The first place takes part in every exchange.
    assert_eq!(chars, b"bcdea".to_vec());

    let mut chars = b"abcde".to_vec();
    assert!(shuffle_with(&mut chars, &vec![0, 0, 1, 2, 3]));
    assert_eq!(chars, b"eabcd".to_vec());

    let mut none: Vec<u8> = Vec::new();
    assert!(shuffle_with(&mut none, &Vec::new()));
    assert!(none.is_empty());

    let mut one = b"x".to_vec();
    assert!(shuffle_with(&mut one, &vec![0]));
    assert_eq!(one, b"x".to_vec());
}

#[test]
fn shuffle_refuses_picks_that_do_not_fit() {
    let mut chars = b"abc".to_vec();
    assert!(!shuffle_with(&mut chars, &vec![0, 1]));
    assert_eq!(chars, b"abc".to_vec());
    assert!(!shuffle_with(&mut chars, &vec![0, 2, 0]));
    assert_eq!(chars, b"abc".to_vec());
    assert!(!shuffle_with(&mut chars, &vec![0, 0, 0, 0]));
    assert_eq!(chars, b"abc".to_vec());
}

#[test]
fn shuffle_keeps_the_characters() {
    let mut chars = b"hello world".to_vec();
    assert!(shuffle_with(&mut chars, &vec![0, 0, 1, 0, 3, 2, 6, 1, 4, 9, 5]));
    let mut sorted = chars.clone();
    sorted.sort();
    let mut expected = b"hello world".to_vec();
    expected.sort();
    assert_eq!(sorted, expected);
}

#[test]
fn quota_password_from_draws_is_exact() {
    // Characters before the shuffle: "B#abc", picks keep every place.
    assert_eq!(
        quota_password_from_draws(&vec![1], 2, &vec![0, 1, 2], &vec![0, 1, 2, 3, 4]),
        Some("B#abc".to_string())
    );
    // "AB$abcdefg" with the last character moved to the front.
    assert_eq!(
        quota_password_from_draws(
            &vec![0, 1],
            3,
            &vec![0, 1, 2, 3, 4, 5, 6],
            &vec![0, 1, 2, 3, 4, 5, 6, 7, 8, 0]
        ),
        Some("gB$ab-cdefA".to_string())
    );
}

#[test]
fn quota_password_from_draws_refuses_bad_input() {
    assert_eq!(quota_password_from_draws(&vec![1], 2, &vec![0, 1, 2], &vec![0, 1, 2, 3]), None);
    assert_eq!(quota_password_from_draws(&vec![1], 2, &vec![0, 1, 2], &vec![1, 1, 2, 3, 4]), None);
    assert_eq!(quota_password_from_draws(&vec![1], 9, &vec![0, 1, 2], &vec![0, 1, 2, 3, 4]), None);
    assert_eq!(quota_password_from_draws(&Vec::new(), 2, &vec![0], &vec![0, 1]), None);
}
