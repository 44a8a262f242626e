//! Building requests: endpoint paths, POST bodies and query strings.
//!
//! Every request the client makes is one of a fixed set of endpoints.  The
//! functions here produce the path, body and query texts exactly as the
//! contracts state them; path and query values are form-urlencoded through
//! the one trusted call into the `url` crate.

use vstd::prelude::*;
use vstd::string::{StrSliceExecFns, StringExecFns, StringSliceAdditionalSpecFns};

use crate::models::MapContentType;
use crate::wire::{push_char, push_escaped, push_i32, push_u32, spec_dec_int, spec_dec_nat,
    spec_escape, spec_hex_digit};

verus! {

/// A byte the form-urlencoded serializer keeps as itself: an ASCII
/// alphanumeric or one of `*`, `-`, `.`, `_`.
pub open spec fn spec_urlencode_unchanged(b: u8) -> bool {
    (0x30 <= b && b <= 0x39) || (0x41 <= b && b <= 0x5a) || (0x61 <= b && b <= 0x7a) || b == 0x2a
        || b == 0x2d || b == 0x2e || b == 0x5f
}

/// What the form-urlencoded serializer writes for one byte: the byte
/// itself if unchanged, `+` for a space, else `%` and two uppercase hex
/// digits.
pub open spec fn spec_urlencode_byte(b: u8) -> Seq<char> {
    if spec_urlencode_unchanged(b) {
        seq![b as char]
    } else if b == 0x20 {
        seq!['+']
    } else {
        seq!['%', spec_hex_digit(b as int / 16), spec_hex_digit(b as int % 16)]
    }
}

/// The form-urlencoded text of a byte string.
pub open spec fn spec_urlencode(bytes: Seq<u8>) -> Seq<char>
    decreases bytes.len(),
{
    if bytes.len() == 0 {
        Seq::empty()
    } else {
        spec_urlencode_byte(bytes[0]) + spec_urlencode(bytes.drop_first())
    }
}

/// Relies on `url::form_urlencoded::byte_serialize`: each input byte is
/// kept if ASCII alphanumeric or one of `*-._`, a space becomes `+`, and
/// any other byte becomes `%` followed by its two uppercase hex digits.
#[verifier::external_body]
pub fn urlencode(s: &str) -> (r: String)
    ensures
        r@ == spec_urlencode(s.spec_bytes()),
{
    url::form_urlencoded::byte_serialize(s.as_bytes()).collect()
}

/// The path of the list-my-characters read.
pub fn my_characters_path() -> (r: String)
    ensures
        r@ == "/my/characters"@,
{
    String::from_str("/my/characters")
}

/// The path of the delete-character operation.
pub fn delete_character_path() -> (r: String)
    ensures
        r@ == "/characters/delete"@,
{
    String::from_str("/characters/delete")
}

/// The path of the list-maps read.
pub fn maps_path() -> (r: String)
    ensures
        r@ == "/maps"@,
{
    String::from_str("/maps")
}

/// The path of the list-monsters read.
pub fn monsters_path() -> (r: String)
    ensures
        r@ == "/monsters"@,
{
    String::from_str("/monsters")
}

/// The path of the fetch-one-character read.
pub fn character_path(name: &str) -> (r: String)
    ensures
        r@ == "/characters/"@ + spec_urlencode(name.spec_bytes()),
{
    let mut out = String::from_str("/characters/");
    let enc = urlencode(name);
    out.append(enc.as_str());
    out
}

/// The path of the fetch-one-monster read.
pub fn monster_path(code: &str) -> (r: String)
    ensures
        r@ == "/monsters/"@ + spec_urlencode(code.spec_bytes()),
{
    let mut out = String::from_str("/monsters/");
    let enc = urlencode(code);
    out.append(enc.as_str());
    out
}

/// The path of the fetch-one-map read.
pub fn map_path(x: i32, y: i32) -> (r: String)
    ensures
        r@ == "/maps/"@ + spec_dec_int(x as int) + "/"@ + spec_dec_int(y as int),
{
    let mut out = String::from_str("/maps/");
    push_i32(&mut out, x);
    out.append("/");
    push_i32(&mut out, y);
    proof {
        assert(out@ =~= "/maps/"@ + spec_dec_int(x as int) + "/"@ + spec_dec_int(y as int));
    }
    out
}

/// The path of an action on one of the player's characters.
fn action_path(name: &str, suffix: &str) -> (r: String)
    ensures
        r@ == "/my/"@ + spec_urlencode(name.spec_bytes()) + suffix@,
{
    let mut out = String::from_str("/my/");
    let enc = urlencode(name);
    out.append(enc.as_str());
    out.append(suffix);
    proof {
        assert(out@ =~= "/my/"@ + spec_urlencode(name.spec_bytes()) + suffix@);
    }
    out
}

/// The path of the fight action.
pub fn fight_action_path(name: &str) -> (r: String)
    ensures
        r@ == "/my/"@ + spec_urlencode(name.spec_bytes()) + "/action/fight"@,
{
    action_path(name, "/action/fight")
}

/// The path of the rest action.
pub fn rest_action_path(name: &str) -> (r: String)
    ensures
        r@ == "/my/"@ + spec_urlencode(name.spec_bytes()) + "/action/rest"@,
{
    action_path(name, "/action/rest")
}

/// The path of the move action.
pub fn move_action_path(name: &str) -> (r: String)
    ensures
        r@ == "/my/"@ + spec_urlencode(name.spec_bytes()) + "/action/move"@,
{
    action_path(name, "/action/move")
}

/// The JSON body naming a character, as the fight, rest and delete
/// operations post it; the name is escaped for the JSON string literal.
pub fn name_body(name: &str) -> (r: String)
    ensures
        r@ == "{\"name\":\""@ + spec_escape(name@) + "\"}"@,
{
    let mut out = String::from_str("{\"name\":\"");
    push_escaped(&mut out, name);
    out.append("\"}");
    proof {
        assert(out@ =~= "{\"name\":\""@ + spec_escape(name@) + "\"}"@);
    }
    out
}

/// The JSON body of the move action: the target coordinates.
pub fn move_body(x: i32, y: i32) -> (r: String)
    ensures
        r@ == "{\"x\":"@ + spec_dec_int(x as int) + ",\"y\":"@ + spec_dec_int(y as int) + "}"@,
{
    let mut out = String::from_str("{\"x\":");
    push_i32(&mut out, x);
    out.append(",\"y\":");
    push_i32(&mut out, y);
    out.append("}");
    proof {
        assert(out@ =~= "{\"x\":"@ + spec_dec_int(x as int) + ",\"y\":"@ + spec_dec_int(y as int)
            + "}"@);
    }
    out
}

/// The query key-value text of a map content type.
pub open spec fn spec_content_type_code(t: MapContentType) -> Seq<char> {
    match t {
        MapContentType::Monster => "monster"@,
        MapContentType::Resource => "resource"@,
        MapContentType::Workshop => "workshop"@,
        MapContentType::Bank => "bank"@,
        MapContentType::GrandExchange => "grand_exchange"@,
        MapContentType::TasksMaster => "tasks_master"@,
        MapContentType::Npc => "npc"@,
    }
}

/// The wire name of a map content type.
pub fn content_type_code(t: MapContentType) -> (r: &'static str)
    ensures
        r@ == spec_content_type_code(t),
{
    match t {
        MapContentType::Monster => "monster",
        MapContentType::Resource => "resource",
        MapContentType::Workshop => "workshop",
        MapContentType::Bank => "bank",
        MapContentType::GrandExchange => "grand_exchange",
        MapContentType::TasksMaster => "tasks_master",
        MapContentType::Npc => "npc",
    }
}

/// Appends `key=value` to `acc`, after a `&` if `acc` is not empty.
pub open spec fn spec_pair(acc: Seq<char>, key: Seq<char>, value: Seq<char>) -> Seq<char> {
    (if acc.len() == 0 {
        acc
    } else {
        acc + seq!['&']
    }) + key + seq!['='] + value
}

/// Appends `key=value` to `acc` when `present`, else leaves `acc` as is.
pub open spec fn spec_opt_pair(acc: Seq<char>, present: bool, key: Seq<char>, value: Seq<char>)
    -> Seq<char> {
    if present {
        spec_pair(acc, key, value)
    } else {
        acc
    }
}

/// Appends `key=` to `out`, separated by `&` if `out` is not empty.
fn append_key(out: &mut String, key: &str)
    ensures
        final(out)@ == (if old(out)@.len() == 0 {
            old(out)@
        } else {
            old(out)@ + seq!['&']
        }) + key@ + seq!['='],
{
    if !out.as_str().is_empty() {
        push_char(out, '&');
    }
    out.append(key);
    push_char(out, '=');
}

/// A filter for the list-maps read; unset fields are not sent.
#[derive(Debug, Clone)]
pub struct MapQuery {
    pub content_type: Option<MapContentType>,
    pub content_code: Option<String>,
    pub page_number: Option<u32>,
    pub page_size: Option<u32>,
}

/// The query text of a map filter: the set fields in declaration order,
/// `key=value` pairs joined by `&`, the content code form-urlencoded.
pub open spec fn spec_map_query_string(q: MapQuery) -> Seq<char> {
    let s1 = spec_opt_pair(
        Seq::empty(),
        q.content_type is Some,
        "content_type"@,
        spec_content_type_code(q.content_type->0),
    );
    let s2 = spec_opt_pair(
        s1,
        q.content_code is Some,
        "content_code"@,
        spec_urlencode(vstd::utf8::encode_utf8(q.content_code->0@)),
    );
    let s3 = spec_opt_pair(
        s2,
        q.page_number is Some,
        "page_number"@,
        spec_dec_nat(q.page_number->0 as nat),
    );
    spec_opt_pair(s3, q.page_size is Some, "page_size"@, spec_dec_nat(q.page_size->0 as nat))
}

impl Default for MapQuery {
    /// An empty filter: no field set.
    fn default() -> (r: MapQuery)
        ensures
            r.content_type is None,
            r.content_code is None,
            r.page_number is None,
            r.page_size is None,
    {
        MapQuery { content_type: None, content_code: None, page_number: None, page_size: None }
    }
}

impl MapQuery {
    /// Sets the content-type filter.
    pub fn content_type(self, content_type: MapContentType) -> (r: MapQuery)
        ensures
            r == (MapQuery { content_type: Some(content_type), ..self }),
    {
        MapQuery { content_type: Some(content_type), ..self }
    }

    /// Sets the content-code filter.
    pub fn content_code(self, content_code: String) -> (r: MapQuery)
        ensures
            r == (MapQuery { content_code: Some(content_code), ..self }),
    {
        MapQuery { content_code: Some(content_code), ..self }
    }

    /// Sets the page number.
    pub fn page_number(self, page_number: u32) -> (r: MapQuery)
        ensures
            r == (MapQuery { page_number: Some(page_number), ..self }),
    {
        MapQuery { page_number: Some(page_number), ..self }
    }

    /// Sets the page size.
    pub fn page_size(self, page_size: u32) -> (r: MapQuery)
        ensures
            r == (MapQuery { page_size: Some(page_size), ..self }),
    {
        MapQuery { page_size: Some(page_size), ..self }
    }

    /// The query text of this filter.
    pub fn to_query_string(&self) -> (r: String)
        ensures
            r@ == spec_map_query_string(*self),
    {
        let mut out = String::new();
        if let Some(t) = &self.content_type {
            append_key(&mut out, "content_type");
            out.append(content_type_code(*t));
        }
        proof {
            assert(out@ =~= spec_opt_pair(
                Seq::empty(),
                self.content_type is Some,
                "content_type"@,
                spec_content_type_code(self.content_type->0),
            ));
        }
        if let Some(code) = &self.content_code {
            append_key(&mut out, "content_code");
            let enc = urlencode(code.as_str());
            out.append(enc.as_str());
        }
        if let Some(n) = &self.page_number {
            append_key(&mut out, "page_number");
            push_u32(&mut out, *n);
        }
        if let Some(n) = &self.page_size {
            append_key(&mut out, "page_size");
            push_u32(&mut out, *n);
        }
        proof {
            assert(out@ =~= spec_map_query_string(*self));
        }
        out
    }
}

/// A filter for the list-monsters read; unset fields are not sent.
#[derive(Debug, Clone)]
pub struct MonsterQuery {
    pub name: Option<String>,
    pub drop: Option<String>,
    pub min_level: Option<u32>,
    pub max_level: Option<u32>,
    pub page_number: Option<u32>,
    pub page_size: Option<u32>,
}

/// The query text of a monster filter: the set fields in declaration
/// order, `key=value` pairs joined by `&`, text values form-urlencoded.
pub open spec fn spec_monster_query_string(q: MonsterQuery) -> Seq<char> {
    let s1 = spec_opt_pair(
        Seq::empty(),
        q.name is Some,
        "name"@,
        spec_urlencode(vstd::utf8::encode_utf8(q.name->0@)),
    );
    let s2 = spec_opt_pair(s1, q.drop is Some, "drop"@, spec_urlencode(vstd::utf8::encode_utf8(q.drop->0@)));
    let s3 = spec_opt_pair(s2, q.min_level is Some, "min_level"@, spec_dec_nat(q.min_level->0 as nat));
    let s4 = spec_opt_pair(s3, q.max_level is Some, "max_level"@, spec_dec_nat(q.max_level->0 as nat));
    let s5 = spec_opt_pair(
        s4,
        q.page_number is Some,
        "page_number"@,
        spec_dec_nat(q.page_number->0 as nat),
    );
    spec_opt_pair(s5, q.page_size is Some, "page_size"@, spec_dec_nat(q.page_size->0 as nat))
}

impl Default for MonsterQuery {
    /// An empty filter: no field set.
    fn default() -> (r: MonsterQuery)
        ensures
            r.name is None,
            r.drop is None,
            r.min_level is None,
            r.max_level is None,
            r.page_number is None,
            r.page_size is None,
    {
        MonsterQuery {
            name: None,
            drop: None,
            min_level: None,
            max_level: None,
            page_number: None,
            page_size: None,
        }
    }
}

impl MonsterQuery {
    /// Sets the name filter.
    pub fn name(self, name: String) -> (r: MonsterQuery)
        ensures
            r == (MonsterQuery { name: Some(name), ..self }),
    {
        MonsterQuery { name: Some(name), ..self }
    }

    /// Sets the dropped-item filter.
    pub fn drop(self, drop: String) -> (r: MonsterQuery)
        ensures
            r == (MonsterQuery { drop: Some(drop), ..self }),
    {
        MonsterQuery { drop: Some(drop), ..self }
    }

    /// Sets the minimum level.
    pub fn min_level(self, min_level: u32) -> (r: MonsterQuery)
        ensures
            r == (MonsterQuery { min_level: Some(min_level), ..self }),
    {
        MonsterQuery { min_level: Some(min_level), ..self }
    }

    /// Sets the maximum level.
    pub fn max_level(self, max_level: u32) -> (r: MonsterQuery)
        ensures
            r == (MonsterQuery { max_level: Some(max_level), ..self }),
    {
        MonsterQuery { max_level: Some(max_level), ..self }
    }

    /// Sets the page number.
    pub fn page_number(self, page_number: u32) -> (r: MonsterQuery)
        ensures
            r == (MonsterQuery { page_number: Some(page_number), ..self }),
    {
        MonsterQuery { page_number: Some(page_number), ..self }
    }

    /// Sets the page size.
    pub fn page_size(self, page_size: u32) -> (r: MonsterQuery)
        ensures
            r == (MonsterQuery { page_size: Some(page_size), ..self }),
    {
        MonsterQuery { page_size: Some(page_size), ..self }
    }

    /// The query text of this filter.
    pub fn to_query_string(&self) -> (r: String)
        ensures
            r@ == spec_monster_query_string(*self),
    {
        let mut out = String::new();
        if let Some(name) = &self.name {
            append_key(&mut out, "name");
            let enc = urlencode(name.as_str());
            out.append(enc.as_str());
        }
        if let Some(d) = &self.drop {
            append_key(&mut out, "drop");
            let enc = urlencode(d.as_str());
            out.append(enc.as_str());
        }
        if let Some(n) = &self.min_level {
            append_key(&mut out, "min_level");
            push_u32(&mut out, *n);
        }
        if let Some(n) = &self.max_level {
            append_key(&mut out, "max_level");
            push_u32(&mut out, *n);
        }
        if let Some(n) = &self.page_number {
            append_key(&mut out, "page_number");
            push_u32(&mut out, *n);
        }
        if let Some(n) = &self.page_size {
            append_key(&mut out, "page_size");
            push_u32(&mut out, *n);
        }
        proof {
            assert(out@ =~= spec_monster_query_string(*self));
        }
        out
    }
}

} // verus!
