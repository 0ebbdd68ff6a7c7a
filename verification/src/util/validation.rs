//! Rules that a new account's username and password must follow.
use vstd::prelude::*;

verus! {

/// Fewest characters a username may have.
pub const USERNAME_MIN_LEN: usize = 3;

/// Most characters a username may have.
pub const USERNAME_MAX_LEN: usize = 20;

/// Fewest characters a password may have.
pub const PASSWORD_MIN_LEN: usize = 8;

/// Most characters a password may have.
pub const PASSWORD_MAX_LEN: usize = 32;

pub open spec fn is_lower(c: char) -> bool {
    'a' <= c && c <= 'z'
}

pub open spec fn is_upper(c: char) -> bool {
    'A' <= c && c <= 'Z'
}

pub open spec fn is_digit(c: char) -> bool {
    '0' <= c && c <= '9'
}

/// ASCII punctuation: the printable ASCII characters that are neither
/// letters, digits nor the space.
pub open spec fn is_special(c: char) -> bool {
    ('!' <= c && c <= '/') || (':' <= c && c <= '@') || ('[' <= c && c <= '`') || ('{' <= c
        && c <= '~')
}

/// A character that may stand in a username.
pub open spec fn is_username_char(c: char) -> bool {
    is_lower(c) || is_upper(c) || is_digit(c) || c == '_' || c == '.' || c == '-'
}

pub open spec fn username_length_ok(s: Seq<char>) -> bool {
    USERNAME_MIN_LEN <= s.len() <= USERNAME_MAX_LEN
}

pub open spec fn username_chars_ok(s: Seq<char>) -> bool {
    forall|i: int| 0 <= i < s.len() ==> is_username_char(#[trigger] s[i])
}

/// A username is valid when its length is in bounds and every character is
/// an ASCII letter, an ASCII digit, `_`, `.` or `-`.
pub open spec fn username_is_valid(s: Seq<char>) -> bool {
    username_length_ok(s) && username_chars_ok(s)
}

pub open spec fn password_length_ok(s: Seq<char>) -> bool {
    PASSWORD_MIN_LEN <= s.len() <= PASSWORD_MAX_LEN
}

pub open spec fn has_lower(s: Seq<char>) -> bool {
    exists|i: int| 0 <= i < s.len() && is_lower(#[trigger] s[i])
}

pub open spec fn has_upper(s: Seq<char>) -> bool {
    exists|i: int| 0 <= i < s.len() && is_upper(#[trigger] s[i])
}

pub open spec fn has_digit(s: Seq<char>) -> bool {
    exists|i: int| 0 <= i < s.len() && is_digit(#[trigger] s[i])
}

pub open spec fn has_special(s: Seq<char>) -> bool {
    exists|i: int| 0 <= i < s.len() && is_special(#[trigger] s[i])
}

/// A password is valid when its length is in bounds and it holds at least
/// one lowercase letter, one uppercase letter, one digit and one special
/// character.
pub open spec fn password_is_valid(s: Seq<char>) -> bool {
    &&& password_length_ok(s)
    &&& has_lower(s)
    &&& has_upper(s)
    &&& has_digit(s)
    &&& has_special(s)
}

pub open spec fn username_message(s: Seq<char>) -> Seq<char> {
    if !username_length_ok(s) {
        "must be between 3 and 20 characters long"@
    } else if !username_chars_ok(s) {
        "may only contain letters, digits, '_', '.' and '-'"@
    } else {
        ""@
    }
}

pub open spec fn password_message(s: Seq<char>) -> Seq<char> {
    if !password_length_ok(s) {
        "must be between 8 and 32 characters long"@
    } else if !has_lower(s) {
        "must contain a lowercase letter"@
    } else if !has_upper(s) {
        "must contain an uppercase letter"@
    } else if !has_digit(s) {
        "must contain a digit"@
    } else if !has_special(s) {
        "must contain a special character"@
    } else {
        ""@
    }
}


/// A username of 3 to 20 characters, each an ASCII letter, an ASCII digit,
/// `_`, `.` or `-`, is valid, and nothing is said against it.
pub proof fn lemma_plain_usernames_valid(s: Seq<char>)
    requires
        3 <= s.len() <= 20,
        forall|i: int|
            0 <= i < s.len() ==> ('a' <= #[trigger] s[i] && s[i] <= 'z') || ('A' <= s[i] && s[i]
                <= 'Z') || ('0' <= s[i] && s[i] <= '9') || s[i] == '_' || s[i] == '.' || s[i]
                == '-',
    ensures
        username_is_valid(s),
        username_message(s) == ""@,
{
}

/// Every valid username has 3 to 20 characters, each an ASCII letter, an
/// ASCII digit, `_`, `.` or `-`.
pub proof fn lemma_valid_usernames_plain(s: Seq<char>)
    requires
        username_is_valid(s),
    ensures
        3 <= s.len() <= 20,
        forall|i: int|
            0 <= i < s.len() ==> ('a' <= #[trigger] s[i] && s[i] <= 'z') || ('A' <= s[i] && s[i]
                <= 'Z') || ('0' <= s[i] && s[i] <= '9') || s[i] == '_' || s[i] == '.' || s[i]
                == '-',
{
    assert forall|i: int| 0 <= i < s.len() implies ('a' <= #[trigger] s[i] && s[i] <= 'z') || (
    'A' <= s[i] && s[i] <= 'Z') || ('0' <= s[i] && s[i] <= '9') || s[i] == '_' || s[i] == '.'
        || s[i] == '-' by {
        assert(is_username_char(s[i]));
    }
}

/// A password of 8 to 32 characters that holds an ASCII lowercase letter,
/// an ASCII uppercase letter, an ASCII digit and a printable ASCII character
/// that is neither a letter, a digit nor a space, is valid, and nothing is
/// said against it.
pub proof fn lemma_strong_passwords_valid(s: Seq<char>, lo: int, up: int, dg: int, sp: int)
    requires
        8 <= s.len() <= 32,
        0 <= lo < s.len() && 'a' <= s[lo] && s[lo] <= 'z',
        0 <= up < s.len() && 'A' <= s[up] && s[up] <= 'Z',
        0 <= dg < s.len() && '0' <= s[dg] && s[dg] <= '9',
        0 <= sp < s.len() && '!' <= s[sp] && s[sp] <= '~' && !('a' <= s[sp] && s[sp] <= 'z') && !(
        'A' <= s[sp] && s[sp] <= 'Z') && !('0' <= s[sp] && s[sp] <= '9'),
    ensures
        password_is_valid(s),
        password_message(s) == ""@,
{
    assert(is_lower(s[lo]));
    assert(is_upper(s[up]));
    assert(is_digit(s[dg]));
    assert(is_special(s[sp]));
}

/// Every valid password has 8 to 32 characters and holds an ASCII lowercase
/// letter, an ASCII uppercase letter, an ASCII digit and a printable ASCII
/// character that is neither a letter, a digit nor a space.
pub proof fn lemma_valid_passwords_strong(s: Seq<char>)
    requires
        password_is_valid(s),
    ensures
        8 <= s.len() <= 32,
        exists|i: int| 0 <= i < s.len() && 'a' <= #[trigger] s[i] && s[i] <= 'z',
        exists|i: int| 0 <= i < s.len() && 'A' <= #[trigger] s[i] && s[i] <= 'Z',
        exists|i: int| 0 <= i < s.len() && '0' <= #[trigger] s[i] && s[i] <= '9',
        exists|i: int|
            0 <= i < s.len() && '!' <= #[trigger] s[i] && s[i] <= '~' && !('a' <= s[i] && s[i]
                <= 'z') && !('A' <= s[i] && s[i] <= 'Z') && !('0' <= s[i] && s[i] <= '9'),
{
    let lo = choose|i: int| 0 <= i < s.len() && is_lower(#[trigger] s[i]);
    let up = choose|i: int| 0 <= i < s.len() && is_upper(#[trigger] s[i]);
    let dg = choose|i: int| 0 <= i < s.len() && is_digit(#[trigger] s[i]);
    let sp = choose|i: int| 0 <= i < s.len() && is_special(#[trigger] s[i]);
    assert(0 <= lo < s.len() && 'a' <= s[lo] && s[lo] <= 'z');
    assert(0 <= up < s.len() && 'A' <= s[up] && s[up] <= 'Z');
    assert(0 <= dg < s.len() && '0' <= s[dg] && s[dg] <= '9');
    assert(0 <= sp < s.len() && '!' <= s[sp] && s[sp] <= '~');
}

fn is_username_char_exec(c: char) -> (r: bool)
    ensures
        r == is_username_char(c),
{
    ('a' <= c && c <= 'z') || ('A' <= c && c <= 'Z') || ('0' <= c && c <= '9') || c == '_' || c
        == '.' || c == '-'
}

/// Checks a username. The flag tells whether it is valid; the message says
/// what is wrong with it, and is empty when nothing is.
pub fn username(name: &String) -> (r: (bool, String))
    ensures
        r.0 == username_is_valid(name@),
        r.1@ == username_message(name@),
{
    let s = name.as_str();
    let n = s.unicode_len();
    if n < USERNAME_MIN_LEN || n > USERNAME_MAX_LEN {
        return (false, String::from_str("must be between 3 and 20 characters long"));
    }
    let mut i: usize = 0;
    while i < n
        invariant
            n == name@.len(),
            s@ == name@,
            USERNAME_MIN_LEN <= n <= USERNAME_MAX_LEN,
            i <= n,
            forall|j: int| 0 <= j < i ==> is_username_char(#[trigger] name@[j]),
        decreases n - i,
    {
        let c = s.get_char(i);
        if !is_username_char_exec(c) {
            assert(!is_username_char(name@[i as int]));
            return (false, String::from_str("may only contain letters, digits, '_', '.' and '-'"));
        }
        i = i + 1;
    }
    (true, String::from_str(""))
}

fn is_lower_exec(c: char) -> (r: bool)
    ensures
        r == is_lower(c),
{
    'a' <= c && c <= 'z'
}

fn is_upper_exec(c: char) -> (r: bool)
    ensures
        r == is_upper(c),
{
    'A' <= c && c <= 'Z'
}

fn is_digit_exec(c: char) -> (r: bool)
    ensures
        r == is_digit(c),
{
    '0' <= c && c <= '9'
}

fn is_special_exec(c: char) -> (r: bool)
    ensures
        r == is_special(c),
{
    ('!' <= c && c <= '/') || (':' <= c && c <= '@') || ('[' <= c && c <= '`') || ('{' <= c && c
        <= '~')
}

/// Checks a password. The flag tells whether it is valid; the message names
/// the first rule that it breaks, and is empty when it breaks none.
pub fn password(pass: &String) -> (r: (bool, String))
    ensures
        r.0 == password_is_valid(pass@),
        r.1@ == password_message(pass@),
{
    let s = pass.as_str();
    let n = s.unicode_len();
    if n < PASSWORD_MIN_LEN || n > PASSWORD_MAX_LEN {
        return (false, String::from_str("must be between 8 and 32 characters long"));
    }
    let mut lower = false;
    let mut upper = false;
    let mut digit = false;
    let mut special = false;
    let mut i: usize = 0;
    while i < n
        invariant
            n == pass@.len(),
            s@ == pass@,
            i <= n,
            lower <==> exists|j: int| 0 <= j < i && is_lower(#[trigger] pass@[j]),
            upper <==> exists|j: int| 0 <= j < i && is_upper(#[trigger] pass@[j]),
            digit <==> exists|j: int| 0 <= j < i && is_digit(#[trigger] pass@[j]),
            special <==> exists|j: int| 0 <= j < i && is_special(#[trigger] pass@[j]),
        decreases n - i,
    {
        let c = s.get_char(i);
        proof {
            assert(c == pass@[i as int]);
        }
        if is_lower_exec(c) {
            lower = true;
        }
        if is_upper_exec(c) {
            upper = true;
        }
        if is_digit_exec(c) {
            digit = true;
        }
        if is_special_exec(c) {
            special = true;
        }
        i = i + 1;
    }
    if !lower {
        (false, String::from_str("must contain a lowercase letter"))
    } else if !upper {
        (false, String::from_str("must contain an uppercase letter"))
    } else if !digit {
        (false, String::from_str("must contain a digit"))
    } else if !special {
        (false, String::from_str("must contain a special character"))
    } else {
        (true, String::from_str(""))
    }
}

} // verus!
