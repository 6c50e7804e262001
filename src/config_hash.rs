use vstd::prelude::*;

use std::collections::hash_map::DefaultHasher;
use std::hash::{Hash, Hasher};

use crate::config::Config;

verus! {

/// The fields of a configuration that two templates are compared by, in hashing order.
#[derive(Hash)]
pub struct ConfigHashKey {
    pub client_id: String,
    pub details: String,
    pub state: String,
    pub large_image: String,
    pub large_text: String,
    pub small_image: String,
    pub small_text: String,
    pub start_timestamp: Option<i64>,
    pub end_timestamp: Option<i64>,
    pub party_size: i32,
    pub party_max: Option<i32>,
    pub match_secret: Option<String>,
    pub join_secret: Option<String>,
    pub spectate_secret: Option<String>,
    pub instance: Option<bool>,
}

fn clone_text(s: &Option<String>) -> (r: Option<String>)
    ensures
        r == *s,
{
    match s {
        Some(t) => Some(t.clone()),
        None => None,
    }
}

impl ConfigHashKey {
    /// Copies the compared fields out of `c`.
    pub fn of(c: &Config) -> (r: Self)
        ensures
            r.client_id == c.client_id,
            r.details == c.details,
            r.state == c.state,
            r.large_image == c.large_image,
            r.large_text == c.large_text,
            r.small_image == c.small_image,
            r.small_text == c.small_text,
            r.start_timestamp == c.start_timestamp,
            r.end_timestamp == c.end_timestamp,
            r.party_size == c.party_size,
            r.party_max == c.party_max,
            r.match_secret == c.match_secret,
            r.join_secret == c.join_secret,
            r.spectate_secret == c.spectate_secret,
            r.instance == c.instance,
    {
        ConfigHashKey {
            client_id: c.client_id.clone(),
            details: c.details.clone(),
            state: c.state.clone(),
            large_image: c.large_image.clone(),
            large_text: c.large_text.clone(),
            small_image: c.small_image.clone(),
            small_text: c.small_text.clone(),
            start_timestamp: c.start_timestamp,
            end_timestamp: c.end_timestamp,
            party_size: c.party_size,
            party_max: c.party_max,
            match_secret: clone_text(&c.match_secret),
            join_secret: clone_text(&c.join_secret),
            spectate_secret: clone_text(&c.spectate_secret),
            instance: c.instance,
        }
    }
}

/// Relies on std's `DefaultHasher::new`, `Hash::hash` and `Hasher::finish`: the key's
/// fields are fed to a fresh hasher in order. Nothing is claimed of the number, which
/// std does not fix across releases or platforms.
#[verifier::external_body]
fn default_hash(key: &ConfigHashKey) -> (r: u64) {
    let mut hasher = DefaultHasher::new();
    key.hash(&mut hasher);
    hasher.finish()
}

/// Relies on std's `String::push`: the character is appended at the end.
#[verifier::external_body]
fn push_char(s: &mut String, c: char)
    ensures
        final(s)@ == old(s)@.push(c),
{
    s.push(c);
}

/// The lowercase hexadecimal digit for `d < 16`.
pub open spec fn hex_digit(d: nat) -> char {
    if d < 10 {
        (48 + d) as u8 as char
    } else {
        (87 + d) as u8 as char
    }
}

/// `n` in lowercase hexadecimal, without leading zeros (`0` for zero).
pub open spec fn lower_hex(n: nat) -> Seq<char>
    decreases n,
{
    if n < 16 {
        seq![hex_digit(n)]
    } else {
        lower_hex(n / 16).push(hex_digit(n % 16))
    }
}

fn hex_char(d: u64) -> (r: char)
    requires
        d < 16,
    ensures
        r == hex_digit(d as nat),
{
    if d < 10 {
        (48 + d as u8) as char
    } else {
        (87 + d as u8) as char
    }
}

/// Writes a hash value in lowercase hexadecimal without leading zeros.
pub fn format_hash(h: u64) -> (r: String)
    ensures
        r@ == lower_hex(h as nat),
{
    // Digits from the least significant one up.
    let mut digits: Vec<char> = Vec::new();
    let mut n: u64 = h;
    while n >= 16
        invariant
            lower_hex(h as nat) == lower_hex(n as nat) + digits@.reverse(),
        decreases n,
    {
        let ghost before = digits@;
        digits.push(hex_char(n % 16));
        assert(digits@.reverse() =~= seq![hex_digit((n % 16) as nat)] + before.reverse());
        assert(lower_hex(n as nat) == lower_hex((n / 16) as nat).push(hex_digit((n % 16) as nat)));
        n = n / 16;
    }
    let ghost before = digits@;
    digits.push(hex_char(n));
    assert(digits@.reverse() =~= seq![hex_digit(n as nat)] + before.reverse());
    let mut out = String::new();
    let mut i: usize = digits.len();
    while i > 0
        invariant
            i <= digits@.len(),
            lower_hex(h as nat) == digits@.reverse(),
            out@ == digits@.reverse().take(digits@.len() - i),
        decreases i,
    {
        i = i - 1;
        push_char(&mut out, digits[i]);
        assert(out@ =~= digits@.reverse().take(digits@.len() - i));
    }
    assert(out@ =~= digits@.reverse());
    out
}

/// A short text that identifies the compared fields of a configuration: the value of
/// std's default hasher over them, in lowercase hexadecimal.
pub fn calculate_config_hash(config: &Config) -> (r: String)
    ensures
        exists|h: u64| r@ == lower_hex(h as nat),
{
    let key = ConfigHashKey::of(config);
    let h = default_hash(&key);
    format_hash(h)
}

} // verus!
