//! Accounts: the checks on a new account's name and password, password hashing, and the
//! decision whether stored credentials allow a login.
use vstd::prelude::*;
use vstd::utf8::encode_utf8;
use crate::model::{DbError, Id};
use crate::text::{digit_char, join2, string_of};

verus! {

/// The bcrypt cost used for new passwords (bcrypt's default).
pub const PASSWORD_COST: u32 = 12;

/// The length of `s` in UTF-8 bytes (what std's `str::len` counts).
pub open spec fn utf8_len(s: Seq<char>) -> nat {
    encode_utf8(s).len()
}

/// What is wrong with a registration form, checked in this order: a missing field, a name
/// shorter than 3 bytes, a password shorter than 4 bytes, a password confirmation that differs.
pub open spec fn registration_problem(name: Seq<char>, password: Seq<char>, password2: Seq<char>) -> Option<Seq<char>> {
    if name.len() == 0 || password.len() == 0 {
        Some("Заполни все поля"@)
    } else if utf8_len(name) < 3 {
        Some("Имя: минимум 3 символа"@)
    } else if utf8_len(password) < 4 {
        Some("Пароль: минимум 4 символа"@)
    } else if password != password2 {
        Some("Пароли не совпадают"@)
    } else {
        None
    }
}

/// Checks a registration form (the name already trimmed); the message to show, if any.
pub fn registration_problem_text(name: &str, password: &str, password2: &str) -> (r: Option<String>)
    ensures
        match r {
            Some(t) => registration_problem(name@, password@, password2@) == Some(t@),
            None => registration_problem(name@, password@, password2@) is None,
        },
{
    if name.is_empty() || password.is_empty() {
        Some(string_of("Заполни все поля"))
    } else if name.as_bytes().len() < 3 {
        Some(string_of("Имя: минимум 3 символа"))
    } else if password.as_bytes().len() < 4 {
        Some(string_of("Пароль: минимум 4 символа"))
    } else if !crate::text::str_equals(password, password2) {
        Some(string_of("Пароли не совпадают"))
    } else {
        None
    }
}

#[verifier::external_type_specification]
#[verifier::external_body]
pub struct ExBcryptError(bcrypt::BcryptError);

/// What bcrypt's `verify` answers for `password` against the stored `hash`: whether they
/// match, or `None` where it reports an error (a malformed hash).
pub uninterp spec fn bcrypt_verifies(password: Seq<char>, hash: Seq<char>) -> Option<bool>;

/// How a hash that bcrypt's `hash` makes at `cost` begins: `$2b$`, the cost in two digits, `$`.
pub open spec fn bcrypt_prefix(cost: nat) -> Seq<char> {
    "$2b$"@ + seq![digit_char(cost / 10), digit_char(cost % 10), '$']
}

/// bcrypt's `hash` at cost `cost`. Its salt is random, so the hash itself is not named; the
/// source shows that a hash it returns is 60 characters long, begins with
/// [`bcrypt_prefix`], and that `verify` accepts the same password against it.
#[verifier::external_body]
fn bcrypt_hash(password: &str, cost: u32) -> (r: Result<String, bcrypt::BcryptError>)
    requires
        4 <= cost <= 31,
    ensures
        r matches Ok(h) ==> h@.len() == 60 && h@.take(7) == bcrypt_prefix(cost as nat)
            && bcrypt_verifies(password@, h@) == Some(true),
{
    bcrypt::hash(password, cost)
}

/// bcrypt's `verify` of `password` against `hash`: its answer is [`bcrypt_verifies`].
#[verifier::external_body]
fn bcrypt_verify(password: &str, hash: &str) -> (r: Result<bool, bcrypt::BcryptError>)
    ensures
        match r {
            Ok(b) => bcrypt_verifies(password@, hash@) == Some(b),
            Err(_) => bcrypt_verifies(password@, hash@) is None,
        },
{
    bcrypt::verify(password, hash)
}

/// The text of a bcrypt error (its `Display`); nothing is stated of it.
#[verifier::external_body]
fn bcrypt_error_text(e: &bcrypt::BcryptError) -> (r: String)
{
    e.to_string()
}

/// A bcrypt error as the library's error: its text behind `Bcrypt: `.
fn bcrypt_db_error(e: &bcrypt::BcryptError) -> (r: DbError)
    ensures
        exists|t: Seq<char>| r.0@ == "Bcrypt: "@ + t,
{
    let text = bcrypt_error_text(e);
    let r = DbError(join2("Bcrypt: ", text.as_str()));
    assert(r.0@ == "Bcrypt: "@ + text@);
    r
}

/// Hashes the password of a new account, for storage, at bcrypt's default cost.
pub fn hash_password(password: &str) -> (r: Result<String, DbError>)
    ensures
        match r {
            Ok(h) => h@.len() == 60 && h@.take(7) == "$2b$12$"@ && bcrypt_verifies(password@, h@) == Some(true),
            Err(e) => exists|t: Seq<char>| e.0@ == "Bcrypt: "@ + t,
        },
{
    match bcrypt_hash(password, PASSWORD_COST) {
        Ok(h) => {
            proof {
                reveal_strlit("$2b$");
                reveal_strlit("$2b$12$");
                assert(bcrypt_prefix(12) =~= "$2b$12$"@);
            }
            Ok(h)
        },
        Err(e) => Err(bcrypt_db_error(&e)),
    }
}

/// `r` answers a login whose password check gave `checked`: the user when the password
/// matched, `Неверный пароль` when it did not, the check's own error otherwise.
pub open spec fn password_verdict_spec(r: Result<Id, DbError>, user: Id, checked: Result<bool, DbError>) -> bool {
    match checked {
        Ok(true) => r == Ok::<Id, DbError>(user),
        Ok(false) => r matches Err(e) && e.0@ == "Неверный пароль"@,
        Err(c) => r matches Err(e) && e.0@ == c.0@,
    }
}

/// The answer to a login once the password was checked.
pub fn password_verdict(user: Id, checked: Result<bool, DbError>) -> (r: Result<Id, DbError>)
    ensures
        password_verdict_spec(r, user, checked),
{
    match checked {
        Ok(true) => Ok(user),
        Ok(false) => Err(DbError(string_of("Неверный пароль"))),
        Err(e) => Err(e),
    }
}

/// `r` answers a login with `password` for the stored credentials `creds` (user, password
/// hash, whether the account is active): unknown user, blocked account, or the password verdict.
pub open spec fn credentials_spec(r: Result<Id, DbError>, creds: Option<(Id, String, bool)>, password: Seq<char>) -> bool {
    match creds {
        None => r matches Err(e) && e.0@ == "Пользователь не найден"@,
        Some((id, hash, active)) => if !active {
            r matches Err(e) && e.0@ == "Пользователь заблокирован"@
        } else {
            match bcrypt_verifies(password, hash@) {
                Some(true) => r == Ok::<Id, DbError>(id),
                Some(false) => r matches Err(e) && e.0@ == "Неверный пароль"@,
                None => r matches Err(e) && exists|t: Seq<char>| e.0@ == "Bcrypt: "@ + t,
            }
        },
    }
}

/// Decides a login from the stored credentials of the name entered and the password entered.
pub fn check_credentials(creds: Option<(Id, String, bool)>, password: &str) -> (r: Result<Id, DbError>)
    ensures
        credentials_spec(r, creds, password@),
{
    match creds {
        None => Err(DbError(string_of("Пользователь не найден"))),
        Some((id, hash, active)) => {
            if !active {
                return Err(DbError(string_of("Пользователь заблокирован")));
            }
            let checked = match bcrypt_verify(password, hash.as_str()) {
                Ok(b) => Ok(b),
                Err(e) => Err(bcrypt_db_error(&e)),
            };
            password_verdict(id, checked)
        },
    }
}

} // verus!
