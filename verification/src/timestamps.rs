//! Timestamps on the wire.
//!
//! The server reports instants as RFC 3339 texts; the model keeps them as
//! whole seconds since the Unix epoch.  The one trusted call into `chrono`
//! turns a text into its second count; the constructors here lift whole
//! wire records into model values and say exactly which texts they accept.

use vstd::prelude::*;

use crate::models::{Character, Cooldown, CooldownReason};

verus! {

/// The seconds since the Unix epoch that an RFC 3339 text denotes, if the
/// text is well-formed.  A function of the text alone.
pub uninterp spec fn rfc3339_seconds(s: Seq<char>) -> Option<i64>;

/// Relies on chrono's `DateTime::parse_from_rfc3339`, and on
/// `DateTime::timestamp` to read the parsed instant as seconds since the
/// Unix epoch.  Whether the text parses, and the count it denotes, depend
/// on the text alone.
#[verifier::external_body]
fn parse_rfc3339_seconds(s: &str) -> (r: Option<i64>)
    ensures
        r == rfc3339_seconds(s@),
{
    match chrono::DateTime::parse_from_rfc3339(s) {
        Ok(dt) => Some(dt.timestamp()),
        Err(_) => None,
    }
}

impl Cooldown {
    /// Builds a cooldown from its wire fields, parsing the two timestamp
    /// texts; accepts exactly the records whose two texts are well-formed
    /// RFC 3339.
    pub fn from_wire(
        total_seconds: u32,
        remaining_seconds: u32,
        started_at: &str,
        expiration: &str,
        reason: CooldownReason,
    ) -> (r: Option<Cooldown>)
        ensures
            r is Some <==> (rfc3339_seconds(started_at@) is Some && rfc3339_seconds(expiration@)
                is Some),
            r matches Some(c) ==> c == (Cooldown {
                total_seconds,
                remaining_seconds,
                started_at: rfc3339_seconds(started_at@)->0,
                expiration: rfc3339_seconds(expiration@)->0,
                reason,
            }),
    {
        let started = parse_rfc3339_seconds(started_at);
        let expires = parse_rfc3339_seconds(expiration);
        match (started, expires) {
            (Some(s), Some(e)) => Some(
                Cooldown {
                    total_seconds,
                    remaining_seconds,
                    started_at: s,
                    expiration: e,
                    reason,
                },
            ),
            _ => None,
        }
    }
}

impl Character {
    /// Builds a character snapshot from its wire fields, parsing the
    /// cooldown-expiration text; accepts exactly the records whose text is
    /// well-formed RFC 3339.
    pub fn from_wire(
        name: String,
        gold: u32,
        level: u32,
        hp: u32,
        max_hp: u32,
        xp: u32,
        max_xp: u32,
        x: i32,
        y: i32,
        cooldown: u32,
        cooldown_expiration: &str,
    ) -> (r: Option<Character>)
        ensures
            r is Some <==> rfc3339_seconds(cooldown_expiration@) is Some,
            r matches Some(c) ==> c == (Character {
                name,
                gold,
                level,
                hp,
                max_hp,
                xp,
                max_xp,
                x,
                y,
                cooldown,
                cooldown_expiration: rfc3339_seconds(cooldown_expiration@)->0,
            }),
    {
        match parse_rfc3339_seconds(cooldown_expiration) {
            Some(e) => Some(
                Character {
                    name,
                    gold,
                    level,
                    hp,
                    max_hp,
                    xp,
                    max_xp,
                    x,
                    y,
                    cooldown,
                    cooldown_expiration: e,
                },
            ),
            None => None,
        }
    }
}

} // verus!
