use dreambreaker::auth::{check_credentials, hash_password, password_verdict, registration_problem_text};
use dreambreaker::model::{DbError, Id};

#[test]
fn registration_checks_in_order() {
    assert_eq!(registration_problem_text("", "pass", "pass"), Some("Заполни все поля".to_string()));
    assert_eq!(registration_problem_text("bob", "", ""), Some("Заполни все поля".to_string()));
    assert_eq!(registration_problem_text("ab", "pass", "pass"), Some("Имя: минимум 3 символа".to_string()));
    assert_eq!(registration_problem_text("bob", "abc", "abc"), Some("Пароль: минимум 4 символа".to_string()));
    assert_eq!(registration_problem_text("bob", "abcd", "abce"), Some("Пароли не совпадают".to_string()));
    assert_eq!(registration_problem_text("bob", "abcd", "abcd"), None);
}

#[test]
fn name_length_counts_bytes() {
    // Two Cyrillic letters take four bytes.
    assert_eq!(registration_problem_text("Ян", "abcd", "abcd"), None);
    assert_eq!(registration_problem_text("Я", "abcd", "abcd"), Some("Имя: минимум 3 символа".to_string()));
}

#[test]
fn hashed_password_logs_in() {
    let h = hash_password("secret1").expect("hashing works");
    assert_eq!(h.len(), 60);
    assert_ne!(h, "secret1");
    assert!(h.starts_with("$2b$12$"));
    let r = check_credentials(Some((Id(7), h.clone(), true)), "secret1");
    assert!(matches!(r, Ok(Id(7))));
    let wrong = check_credentials(Some((Id(7), h, true)), "secret2");
    assert_eq!(wrong.unwrap_err().0, "Неверный пароль");
}

#[test]
fn unknown_and_blocked_accounts() {
    assert_eq!(check_credentials(None, "x").unwrap_err().0, "Пользователь не найден");
    let h = "$2b$04$abcdefghijklmnopqrstuuNwR3SJDUCkxfpCnfyd.m6NhqbMNa1um".to_string();
    assert_eq!(check_credentials(Some((Id(1), h, false)), "x").unwrap_err().0, "Пользователь заблокирован");
}

#[test]
fn malformed_hash_is_a_bcrypt_error() {
    let e = check_credentials(Some((Id(1), "not-a-hash".to_string(), true)), "x").unwrap_err();
    assert!(e.0.starts_with("Bcrypt: "), "{}", e.0);
    assert!(e.0.len() > "Bcrypt: ".len());
}

#[test]
fn password_verdicts() {
    assert!(matches!(password_verdict(Id(3), Ok(true)), Ok(Id(3))));
    assert_eq!(password_verdict(Id(3), Ok(false)).unwrap_err().0, "Неверный пароль");
    assert_eq!(password_verdict(Id(3), Err(DbError("boom".to_string()))).unwrap_err().0, "boom");
}
