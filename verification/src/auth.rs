//! Accounts and characters: password hashing, request validation and the
//! answers sent to login, registration and character requests. The store
//! itself is reached outside the library.
use vstd::prelude::*;
use vstd::utf8::encode_utf8;
use argon2::password_hash::rand_core::OsRng;
use argon2::password_hash::{PasswordHash, SaltString};
use argon2::{Argon2, PasswordHasher, PasswordVerifier};
use crate::enums::MirDirection;
use crate::models::{Account, Character};
use crate::network::session::SessionState;

verus! {

/// Whether the Argon2 password hash string `hash` (PHC format) accepts the
/// password bytes `password`.
pub uninterp spec fn argon2_verifies(hash: Seq<char>, password: Seq<u8>) -> bool;

/// `PasswordHash::new(hash)` followed by `Argon2::default().verify_password`:
/// whether `hash` parses and accepts `password`. The answer depends on the
/// arguments alone and is named [`argon2_verifies`].
#[verifier::external_body]
fn argon2_verify(hash: &str, password: &[u8]) -> (r: bool)
    ensures
        r == argon2_verifies(hash@, password@),
{
    match PasswordHash::new(hash) {
        Ok(parsed) => Argon2::default().verify_password(password, &parsed).is_ok(),
        Err(_) => false,
    }
}

/// `Argon2::default().hash_password` with a salt from `SaltString::generate`
/// on the OS generator, as a PHC string. The salt is random, so the string
/// is not determined; what is claimed is what the crate's source shows of
/// every outcome: the string starts with `$` and the algorithm name
/// (`argon2id` by default), and verifying the same password against it
/// succeeds, since verification recomputes the hash with the salt and
/// parameters the string carries. With the default parameters and a
/// generated salt, the crate's source fails the hashing only for a password
/// longer than `MAX_PWD_LEN` (0xFFFF_FFFF bytes).
#[verifier::external_body]
fn argon2_hash(password: &[u8]) -> (r: Option<String>)
    ensures
        r matches Some(h) ==> argon2_verifies(h@, password@) && h@.len() >= 7 && h@.subrange(0, 7)
            == "$argon2"@,
        password@.len() <= 0xFFFF_FFFF ==> r is Some,
{
    let salt = SaltString::generate(&mut OsRng);
    match Argon2::default().hash_password(password, &salt) {
        Ok(h) => Some(h.to_string()),
        Err(_) => None,
    }
}

/// A salted Argon2 hash of `password`; `None` when hashing fails, which
/// happens only for a password of more than 0xFFFF_FFFF bytes. The hash
/// accepts the password it was made from.
pub fn hash_password(password: &str) -> (r: Option<String>)
    ensures
        r matches Some(h) ==> argon2_verifies(h@, encode_utf8(password@)) && h@.len() >= 7 && h@.subrange(0, 7)
            == "$argon2"@,
        encode_utf8(password@).len() <= 0xFFFF_FFFF ==> r is Some,
{
    argon2_hash(password.as_bytes())
}

/// Whether the stored hash `hash` accepts `password`.
pub fn verify_password(hash: &str, password: &str) -> (r: bool)
    ensures
        r == argon2_verifies(hash@, encode_utf8(password@)),
{
    argon2_verify(hash, password.as_bytes())
}

/// The reply code for a malformed request or a failure of the store.
pub const RESULT_FAILED: u8 = 1;

/// Login reply code: no account of that name.
pub const LOGIN_NO_ACCOUNT: u8 = 2;

/// Login reply code: wrong password.
pub const LOGIN_WRONG_PASSWORD: u8 = 3;

/// Character creation reply code: the account has its maximum of characters.
pub const NEW_CHARACTER_LIMIT: u8 = 4;

/// Character creation reply code: the store refused the character.
pub const NEW_CHARACTER_NOT_CREATED: u8 = 5;

/// Reply code for success.
pub const RESULT_OK: u8 = 0;

/// Most characters an account may have.
pub const MAX_CHARACTERS: i64 = 4;

/// What a login with an existing account leads to.
#[derive(Debug, Clone, Copy, PartialEq, Eq, Structural)]
pub enum LoginCheck {
    /// The account is banned.
    Banned,
    /// The password does not match; reply with this code.
    WrongPassword(u8),
    /// Logged in as account `account_id`.
    Success(i64),
}

/// Checks a login to `account` with `password`: a banned account is
/// refused first, then the password must match the stored hash.
pub fn check_login(account: &Account, password: &str) -> (r: LoginCheck)
    ensures
        account.banned != 0 ==> r == LoginCheck::Banned,
        account.banned == 0 ==> r == (if argon2_verifies(account.password@, encode_utf8(password@)) {
            LoginCheck::Success(account.id)
        } else {
            LoginCheck::WrongPassword(LOGIN_WRONG_PASSWORD)
        }),
{
    if account.banned != 0 {
        return LoginCheck::Banned;
    }
    if verify_password(account.password.as_str(), password) {
        LoginCheck::Success(account.id)
    } else {
        LoginCheck::WrongPassword(LOGIN_WRONG_PASSWORD)
    }
}

/// A new account needs a user name of 3 to 20 bytes and a password of 3 to
/// 64 bytes (UTF-8).
pub open spec fn spec_valid_new_account(username: Seq<char>, password: Seq<char>) -> bool {
    3 <= encode_utf8(username).len() <= 20 && 3 <= encode_utf8(password).len() <= 64
}

/// Whether a new account may be made with these credentials (see
/// [`spec_valid_new_account`]).
pub fn valid_new_account(username: &str, password: &str) -> (r: bool)
    ensures
        r == spec_valid_new_account(username@, password@),
{
    let u = username.as_bytes().len();
    let p = password.as_bytes().len();
    3 <= u && u <= 20 && 3 <= p && p <= 64
}

/// A character may be named with ASCII letters and digits and the CJK
/// ideographs U+4E00 to U+9FA5.
pub open spec fn name_char_ok(c: char) -> bool {
    ('0' <= c <= '9') || ('a' <= c <= 'z') || ('A' <= c <= 'Z') || ('\u{4e00}' <= c <= '\u{9fa5}')
}

/// A character name is 3 to 14 bytes (UTF-8) of allowed characters.
pub open spec fn spec_valid_character_name(name: Seq<char>) -> bool {
    &&& 3 <= encode_utf8(name).len() <= 14
    &&& forall|i: int| 0 <= i < name.len() ==> name_char_ok(#[trigger] name[i])
}

/// Whether `name` may name a new character (see [`spec_valid_character_name`]).
pub fn valid_character_name(name: &str) -> (r: bool)
    ensures
        r == spec_valid_character_name(name@),
{
    let n = name.as_bytes().len();
    if n < 3 || n > 14 {
        return false;
    }
    let count = name.unicode_len();
    let mut i: usize = 0;
    while i < count
        invariant
            i <= count,
            count == name@.len(),
            forall|j: int| 0 <= j < i ==> name_char_ok(#[trigger] name@[j]),
        decreases count - i,
    {
        let c = name.get_char(i);
        let ok = ('0' <= c && c <= '9') || ('a' <= c && c <= 'z') || ('A' <= c && c <= 'Z') || ('\u{4e00}' <= c
            && c <= '\u{9fa5}');
        if !ok {
            return false;
        }
        i = i + 1;
    }
    true
}

/// Whether an account holding `count` characters may make another.
pub fn may_create_character(count: i64) -> (r: bool)
    ensures
        r == (count < MAX_CHARACTERS),
{
    count < MAX_CHARACTERS
}

/// The facing stored as a number: 0 to 7 from up clockwise, anything else down.
pub open spec fn spec_direction_from_i32(v: i32) -> MirDirection {
    if v == 0 {
        MirDirection::Up
    } else if v == 1 {
        MirDirection::UpRight
    } else if v == 2 {
        MirDirection::Right
    } else if v == 3 {
        MirDirection::DownRight
    } else if v == 5 {
        MirDirection::DownLeft
    } else if v == 6 {
        MirDirection::Left
    } else if v == 7 {
        MirDirection::UpLeft
    } else {
        MirDirection::Down
    }
}

/// The facing stored as a number (see [`spec_direction_from_i32`]).
pub fn direction_from_i32(v: i32) -> (r: MirDirection)
    ensures
        r == spec_direction_from_i32(v),
{
    match v {
        0 => MirDirection::Up,
        1 => MirDirection::UpRight,
        2 => MirDirection::Right,
        3 => MirDirection::DownRight,
        4 => MirDirection::Down,
        5 => MirDirection::DownLeft,
        6 => MirDirection::Left,
        7 => MirDirection::UpLeft,
        _ => MirDirection::Down,
    }
}

/// Whether the logged-in account `account_id` may play `character`.
pub fn owns_character(character: &Character, account_id: i64) -> (r: bool)
    ensures
        r == (character.account_id == account_id),
{
    character.account_id == account_id
}

/// Enters the game with `character`, chosen by `char_index`: the session
/// takes the character's map, position, facing, name, level, HP and MP
/// (both also as maxima), experience and gold. Stored numbers are cut to
/// the session's field widths as the server does.
pub fn enter_game(state: &mut SessionState, character: &Character, char_index: u32)
    ensures
        final(state).character_id == Some(char_index as i64),
        final(state).map_id == character.map_id as u16,
        final(state).location == (character.location_x, character.location_y),
        final(state).direction == spec_direction_from_i32(character.direction),
        final(state).character_name@ == character.name@,
        final(state).level == character.level as u16,
        final(state).current_hp == character.hp as u32 && final(state).max_hp == character.hp as u32,
        final(state).current_mp == character.mp as u32 && final(state).max_mp == character.mp as u32,
        final(state).experience == character.experience as u64,
        final(state).gold == character.gold as u64,
        final(state).account_id == old(state).account_id,
        final(state).authenticated == old(state).authenticated,
        final(state).last_attack_time == old(state).last_attack_time,
        final(state).equipment@ == old(state).equipment@,
        final(state).skills.skills@ == old(state).skills.skills@,
{
    state.character_id = Some(char_index as i64);
    #[verifier::truncate]
    let map_id: u16 = character.map_id as u16;
    state.map_id = map_id;
    state.location = (character.location_x, character.location_y);
    state.direction = direction_from_i32(character.direction);
    state.character_name = character.name.clone();
    #[verifier::truncate]
    let level: u16 = character.level as u16;
    state.level = level;
    #[verifier::truncate]
    let hp: u32 = character.hp as u32;
    #[verifier::truncate]
    let mp: u32 = character.mp as u32;
    state.current_hp = hp;
    state.current_mp = mp;
    state.max_hp = hp;
    state.max_mp = mp;
    #[verifier::truncate]
    let exp: u64 = character.experience as u64;
    state.experience = exp;
    #[verifier::truncate]
    let gold: u64 = character.gold as u64;
    state.gold = gold;
}

} // verus!
