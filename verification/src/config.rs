//! Credential configuration: the persisted access-token record and the
//! optional flat API key, together with the text codec for the persisted
//! configuration format.
//!
//! Loading and saving the file itself is I/O and lives outside the crate;
//! this module defines the record types, how they are updated, and an
//! encoding to (and parsing from) the persisted text form, proved to
//! round-trip.

use vstd::prelude::*;
use vstd::string::StringExecFns;
use vstd::string::StrSliceExecFns;
use crate::encoding::escape_string;
use crate::encoding::append_escaped;
use crate::encoding::is_hex_char;
use crate::encoding::char_hex_value;
use crate::encoding::hex_char;
use crate::encoding::hex_char_value;
use crate::encoding::lemma_hex_char_round_trip;
use crate::encoding::push_char;

verus! {

/// The access-token record obtained from a successful token exchange.
/// Treated as a secret: callers must not log the token in full.
#[derive(Debug, Clone, PartialEq, Eq)]
pub struct OAuthToken {
    pub access_token: String,
    pub token_type: String,
    pub scope: String,
}

/// The persisted credential configuration: an optional flat API key and
/// an optional OAuth token record.
#[derive(Debug, Clone, PartialEq, Eq)]
pub struct Config {
    pub api_key: Option<String>,
    pub oauth_token: Option<OAuthToken>,
}

impl Config {
    /// Replaces the stored API key, leaving the OAuth token untouched.
    pub fn set_api_key(&mut self, api_key: String)
        ensures
            final(self).api_key == Some(api_key),
            final(self).oauth_token == old(self).oauth_token,
    {
        self.api_key = Some(api_key);
    }

    /// Replaces the stored OAuth token record, leaving the API key untouched.
    pub fn set_oauth_token(&mut self, token: OAuthToken)
        ensures
            final(self).oauth_token == Some(token),
            final(self).api_key == old(self).api_key,
    {
        self.oauth_token = Some(token);
    }
}

impl Default for Config {
    /// The default configuration holds no credential.
    fn default() -> (r: Config)
        ensures
            r.api_key is None,
            r.oauth_token is None,
    {
        Config { api_key: None, oauth_token: None }
    }
}

// ---------------------------------------------------------------------
// The persisted text format
// ---------------------------------------------------------------------
//
// One `key = "value"` line per field, values escaped as in
// `encoding::escape_string`, and the token record under an
// `[oauth_token]` header. Absent fields are simply absent. Reading and
// writing the file is I/O and lives outside the crate; it hands the
// whole text in and out.

/// The persisted text of a configuration.
pub open spec fn config_text_spec(c: Config) -> Seq<char> {
    (match c.api_key {
        Some(k) => "api_key = \""@ + escape_string(k@) + "\"\n"@,
        None => Seq::<char>::empty(),
    }) + (match c.oauth_token {
        Some(t) => "[oauth_token]\naccess_token = \""@ + escape_string(t.access_token@)
            + "\"\ntoken_type = \""@ + escape_string(t.token_type@) + "\"\nscope = \""@
            + escape_string(t.scope@) + "\"\n"@,
        None => Seq::<char>::empty(),
    })
}

/// Renders a configuration in the persisted text format.
pub fn encode_config(c: &Config) -> (r: String)
    ensures
        r@ == config_text_spec(*c),
{
    let mut out = String::new();
    match &c.api_key {
        Some(k) => {
            out.append("api_key = \"");
            append_escaped(&mut out, k.as_str());
            out.append("\"\n");
        },
        None => {},
    }
    match &c.oauth_token {
        Some(t) => {
            out.append("[oauth_token]\naccess_token = \"");
            append_escaped(&mut out, t.access_token.as_str());
            out.append("\"\ntoken_type = \"");
            append_escaped(&mut out, t.token_type.as_str());
            out.append("\"\nscope = \"");
            append_escaped(&mut out, t.scope.as_str());
            out.append("\"\n");
        },
        None => {},
    }
    proof {
        assert(out@ =~= config_text_spec(*c));
    }
    out
}

/// The unescaped character of a letter escape; the quote and the
/// backslash stand for themselves.
pub open spec fn unescaped_char(c: char) -> char {
    if c == 'n' {
        '\n'
    } else if c == 'r' {
        '\r'
    } else if c == 't' {
        '\t'
    } else {
        c
    }
}

/// Reads a quoted value from the front of `s` up to its closing quote:
/// the decoded value and what follows the quote. Understands the letter
/// escapes, the escaped quote and backslash, and the two-digit
/// `\u00..` form; anything else after a backslash fails.
pub open spec fn read_quoted(s: Seq<char>) -> Option<(Seq<char>, Seq<char>)>
    decreases s.len(),
{
    if s.len() == 0 {
        None
    } else if s[0] == '"' {
        Some((Seq::<char>::empty(), s.skip(1)))
    } else if s[0] == '\\' {
        if s.len() >= 2 && s[1] == 'u' {
            if s.len() >= 6 && s[2] == '0' && s[3] == '0' && is_hex_char(s[4]) && is_hex_char(
                s[5],
            ) {
                match read_quoted(s.skip(6)) {
                    Some(p) => Some(
                        (
                            seq![
                                (((char_hex_value(s[4]) * 16 + char_hex_value(s[5])) as u32)
                                    as char),
                            ] + p.0,
                            p.1,
                        ),
                    ),
                    None => None,
                }
            } else {
                None
            }
        } else if s.len() >= 2 && (s[1] == 'n' || s[1] == 'r' || s[1] == 't' || s[1] == '"'
            || s[1] == '\\') {
            match read_quoted(s.skip(2)) {
                Some(p) => Some((seq![unescaped_char(s[1])] + p.0, p.1)),
                None => None,
            }
        } else {
            None
        }
    } else {
        match read_quoted(s.skip(1)) {
            Some(p) => Some((seq![s[0]] + p.0, p.1)),
            None => None,
        }
    }
}

/// Whether `p` is a prefix of `s`.
pub open spec fn starts_with(s: Seq<char>, p: Seq<char>) -> bool {
    s.len() >= p.len() && s.take(p.len() as int) == p
}

/// A concatenation starts with its first part, and stripping it leaves
/// the second.
pub proof fn lemma_concat_prefix(p: Seq<char>, rest: Seq<char>)
    ensures
        starts_with(p + rest, p),
        (p + rest).skip(p.len() as int) == rest,
{
    assert((p + rest).take(p.len() as int) =~= p);
    assert((p + rest).skip(p.len() as int) =~= rest);
}

/// Reading a quoted value back from its escaped form recovers it
/// exactly, with the text after the closing quote untouched.
pub proof fn lemma_read_quoted_escape(v: Seq<char>, rest: Seq<char>)
    ensures
        read_quoted(escape_string(v) + seq!['"'] + rest) == Some((v, rest)),
    decreases v.len(),
{
    if v.len() == 0 {
        let s = escape_string(v) + seq!['"'] + rest;
        assert(s =~= seq!['"'] + rest);
        assert(s[0] == '"');
        assert(s.skip(1) =~= rest);
    } else {
        let c = v[0];
        lemma_read_quoted_escape(v.skip(1), rest);
        let s = escape_string(v) + seq!['"'] + rest;
        let s2 = escape_string(v.skip(1)) + seq!['"'] + rest;
        let chunk = crate::encoding::escape_char(c);
        assert(s =~= chunk + s2);
        if c == '"' || c == '\\' {
            assert(s[0] == '\\' && s[1] == c);
            assert(s.skip(2) =~= s2);
            assert(unescaped_char(c) == c);
            assert(seq![c] + v.skip(1) =~= v);
        } else if c == '\n' || c == '\r' || c == '\t' {
            assert(s[0] == '\\');
            assert(s.skip(2) =~= s2);
            assert(seq![unescaped_char(s[1])] + v.skip(1) =~= v);
        } else if (c as u32) < 32 || (c as u32) == 127 {
            let hi = (c as u32 / 16) as int;
            let lo = (c as u32 % 16) as int;
            lemma_hex_char_round_trip(hi);
            lemma_hex_char_round_trip(lo);
            assert(s[0] == '\\' && s[1] == 'u' && s[2] == '0' && s[3] == '0');
            assert(s[4] == crate::encoding::low_hex_char(hi));
            assert(s[5] == crate::encoding::low_hex_char(lo));
            assert(s.skip(6) =~= s2);
            assert(char_hex_value(s[4]) * 16 + char_hex_value(s[5]) == c as u32);
            vstd::utf8::char_u32_cast(
                c,
                (char_hex_value(s[4]) * 16 + char_hex_value(s[5])) as u32,
            );
            assert((((char_hex_value(s[4]) * 16 + char_hex_value(s[5])) as u32) as char) == c);
            assert(seq![c] + v.skip(1) =~= v);
        } else {
            assert(s[0] == c);
            assert(s.skip(1) =~= s2);
            assert(seq![c] + v.skip(1) =~= v);
        }
    }
}

/// The model of a configuration: the texts of its fields.
pub open spec fn config_model(c: Config) -> (
    Option<Seq<char>>,
    Option<(Seq<char>, Seq<char>, Seq<char>)>,
) {
    (
        match c.api_key {
            Some(k) => Some(k@),
            None => None,
        },
        match c.oauth_token {
            Some(t) => Some((t.access_token@, t.token_type@, t.scope@)),
            None => None,
        },
    )
}

/// Parses the optional API-key line; absence of its prefix means no key.
pub open spec fn parse_api_key_part(s: Seq<char>) -> Option<(Option<Seq<char>>, Seq<char>)> {
    if starts_with(s, "api_key = \""@) {
        match read_quoted(s.skip("api_key = \""@.len() as int)) {
            Some(p) => if starts_with(p.1, "\n"@) {
                Some((Some(p.0), p.1.skip("\n"@.len() as int)))
            } else {
                None
            },
            None => None,
        }
    } else {
        Some((None, s))
    }
}

/// Parses the optional token table; an empty remainder means no token.
pub open spec fn parse_oauth_part(s: Seq<char>) -> Option<
    Option<(Seq<char>, Seq<char>, Seq<char>)>,
> {
    if s.len() == 0 {
        Some(None)
    } else if starts_with(s, "[oauth_token]\naccess_token = \""@) {
        match read_quoted(s.skip("[oauth_token]\naccess_token = \""@.len() as int)) {
            Some(p1) => if starts_with(p1.1, "\ntoken_type = \""@) {
                match read_quoted(p1.1.skip("\ntoken_type = \""@.len() as int)) {
                    Some(p2) => if starts_with(p2.1, "\nscope = \""@) {
                        match read_quoted(p2.1.skip("\nscope = \""@.len() as int)) {
                            Some(p3) => if p3.1 == "\n"@ {
                                Some(Some((p1.0, p2.0, p3.0)))
                            } else {
                                None
                            },
                            None => None,
                        }
                    } else {
                        None
                    },
                    None => None,
                }
            } else {
                None
            },
            None => None,
        }
    } else {
        None
    }
}

/// Parses the persisted text into the configuration model.
pub open spec fn parse_config_model(s: Seq<char>) -> Option<
    (Option<Seq<char>>, Option<(Seq<char>, Seq<char>, Seq<char>)>),
> {
    match parse_api_key_part(s) {
        Some(p) => match parse_oauth_part(p.1) {
            Some(o) => Some((p.0, o)),
            None => None,
        },
        None => None,
    }
}

/// Relies on std's `char::from_u32`: every value below the surrogate
/// range is a valid scalar and converts to the character with exactly
/// that value.
#[verifier::external_body]
fn char_from_code(v: u32) -> (r: char)
    requires
        v < 0xD800,
    ensures
        r as u32 == v,
{
    char::from_u32(v).unwrap()
}

/// Strips a literal prefix from the front of a text, reporting exactly
/// whether the text starts with it.
fn strip_prefix_exec<'a>(s: &'a str, p: &str) -> (r: Option<&'a str>)
    ensures
        r matches Some(rest) ==> starts_with(s@, p@) && rest@ == s@.skip(p@.len() as int),
        r is None ==> !starts_with(s@, p@),
{
    let sn = s.unicode_len();
    let pn = p.unicode_len();
    if sn < pn {
        return None;
    }
    let mut i: usize = 0;
    while i < pn
        invariant
            i <= pn,
            pn == p@.len(),
            sn == s@.len(),
            pn <= sn,
            forall|j: int| 0 <= j < i ==> s@[j] == p@[j],
        decreases pn - i,
    {
        if s.get_char(i) != p.get_char(i) {
            proof {
                if starts_with(s@, p@) {
                    assert(s@.take(pn as int)[i as int] == p@[i as int]);
                    assert(false);
                }
            }
            return None;
        }
        i = i + 1;
    }
    proof {
        assert(s@.take(pn as int) =~= p@);
    }
    Some(s.substring_char(pn, sn))
}

/// Reads a quoted value from the front of a text, as `read_quoted`
/// describes.
fn read_quoted_exec<'a>(s: &'a str) -> (r: Option<(String, &'a str)>)
    ensures
        match r {
            Some(p) => read_quoted(s@) == Some((p.0@, p.1@)),
            None => read_quoted(s@) is None,
        },
    decreases s@.len(),
{
    let n = s.unicode_len();
    if n == 0 {
        return None;
    }
    let c0 = s.get_char(0);
    if c0 == '"' {
        let rest = s.substring_char(1, n);
        proof {
            assert(rest@ =~= s@.skip(1));
        }
        Some((String::new(), rest))
    } else if c0 == '\\' {
        if n < 2 {
            return None;
        }
        let c1 = s.get_char(1);
        if c1 == 'u' {
            if n < 6 {
                return None;
            }
            let c2 = s.get_char(2);
            let c3 = s.get_char(3);
            let c4 = s.get_char(4);
            let c5 = s.get_char(5);
            if !(c2 == '0' && c3 == '0' && hex_char(c4) && hex_char(c5)) {
                return None;
            }
            let v: u32 = hex_char_value(c4) * 16 + hex_char_value(c5);
            let ch = char_from_code(v);
            proof {
                vstd::utf8::char_u32_cast(ch, v);
            }
            let tail = s.substring_char(6, n);
            proof {
                assert(tail@ =~= s@.skip(6));
            }
            match read_quoted_exec(tail) {
                Some(p) => {
                    let mut out = String::new();
                    push_char(&mut out, ch);
                    out.append(p.0.as_str());
                    Some((out, p.1))
                },
                None => None,
            }
        } else if c1 == 'n' || c1 == 'r' || c1 == 't' || c1 == '"' || c1 == '\\' {
            let ch = if c1 == 'n' {
                '\n'
            } else if c1 == 'r' {
                '\r'
            } else if c1 == 't' {
                '\t'
            } else {
                c1
            };
            let tail = s.substring_char(2, n);
            proof {
                assert(tail@ =~= s@.skip(2));
            }
            match read_quoted_exec(tail) {
                Some(p) => {
                    let mut out = String::new();
                    push_char(&mut out, ch);
                    out.append(p.0.as_str());
                    Some((out, p.1))
                },
                None => None,
            }
        } else {
            None
        }
    } else {
        let tail = s.substring_char(1, n);
        proof {
            assert(tail@ =~= s@.skip(1));
        }
        match read_quoted_exec(tail) {
            Some(p) => {
                let mut out = String::new();
                push_char(&mut out, c0);
                out.append(p.0.as_str());
                Some((out, p.1))
            },
            None => None,
        }
    }
}

/// Parses the persisted text format back into a configuration, exactly
/// as `parse_config_model` describes.
pub fn parse_config(s: &str) -> (r: Option<Config>)
    ensures
        r matches Some(c) ==> parse_config_model(s@) == Some(config_model(c)),
        r is None ==> parse_config_model(s@) is None,
{
    let (api_key, rest): (Option<String>, &str) = match strip_prefix_exec(s, "api_key = \"") {
        Some(r1) => {
            match read_quoted_exec(r1) {
                Some(p) => {
                    match strip_prefix_exec(p.1, "\n") {
                        Some(r3) => (Some(p.0), r3),
                        None => {
                            return None;
                        },
                    }
                },
                None => {
                    return None;
                },
            }
        },
        None => (None, s),
    };
    if rest.unicode_len() == 0 {
        return Some(Config { api_key, oauth_token: None });
    }
    let r1 = match strip_prefix_exec(rest, "[oauth_token]\naccess_token = \"") {
        Some(x) => x,
        None => {
            return None;
        },
    };
    let (access_token, r2) = match read_quoted_exec(r1) {
        Some(p) => p,
        None => {
            return None;
        },
    };
    let r3 = match strip_prefix_exec(r2, "\ntoken_type = \"") {
        Some(x) => x,
        None => {
            return None;
        },
    };
    let (token_type, r4) = match read_quoted_exec(r3) {
        Some(p) => p,
        None => {
            return None;
        },
    };
    let r5 = match strip_prefix_exec(r4, "\nscope = \"") {
        Some(x) => x,
        None => {
            return None;
        },
    };
    let (scope, r6) = match read_quoted_exec(r5) {
        Some(p) => p,
        None => {
            return None;
        },
    };
    let r7 = match strip_prefix_exec(r6, "\n") {
        Some(x) => x,
        None => {
            proof {
                reveal_strlit("\n");
                if r6@ == "\n"@ {
                    assert(r6@.take("\n"@.len() as int) =~= "\n"@);
                    assert(false);
                }
            }
            return None;
        },
    };
    if r7.unicode_len() != 0 {
        proof {
            reveal_strlit("\n");
            assert(r6@ != "\n"@);
        }
        return None;
    }
    proof {
        reveal_strlit("\n");
        assert(r6@ =~= "\n"@);
    }
    Some(
        Config {
            api_key,
            oauth_token: Some(OAuthToken { access_token, token_type, scope }),
        },
    )
}

/// The token table of the persisted text, when a token is stored.
pub open spec fn oauth_text_spec(t: OAuthToken) -> Seq<char> {
    "[oauth_token]\naccess_token = \""@ + escape_string(t.access_token@)
        + "\"\ntoken_type = \""@ + escape_string(t.token_type@) + "\"\nscope = \""@
        + escape_string(t.scope@) + "\"\n"@
}

/// Parsing the token table back recovers the stored record's texts.
proof fn lemma_oauth_part_round_trip(t: OAuthToken)
    ensures
        parse_oauth_part(oauth_text_spec(t)) == Some(
            Some((t.access_token@, t.token_type@, t.scope@)),
        ),
{
    reveal_strlit("[oauth_token]\naccess_token = \"");
    reveal_strlit("\ntoken_type = \"");
    reveal_strlit("\nscope = \"");
    reveal_strlit("\"\ntoken_type = \"");
    reveal_strlit("\"\nscope = \"");
    reveal_strlit("\"\n");
    reveal_strlit("\n");
    let s = oauth_text_spec(t);
    let q3 = escape_string(t.scope@) + seq!['"'] + "\n"@;
    let q2 = escape_string(t.token_type@) + seq!['"'] + ("\nscope = \""@ + q3);
    let q1 = escape_string(t.access_token@) + seq!['"'] + ("\ntoken_type = \""@ + q2);
    assert(s =~= "[oauth_token]\naccess_token = \""@ + q1);
    lemma_concat_prefix("[oauth_token]\naccess_token = \""@, q1);
    lemma_read_quoted_escape(t.access_token@, "\ntoken_type = \""@ + q2);
    lemma_concat_prefix("\ntoken_type = \""@, q2);
    lemma_read_quoted_escape(t.token_type@, "\nscope = \""@ + q3);
    lemma_concat_prefix("\nscope = \""@, q3);
    lemma_read_quoted_escape(t.scope@, "\n"@);
    assert(s.len() != 0);
}

/// Law: parsing the persisted text of any configuration recovers exactly
/// that configuration's fields — the codec round-trips.
pub proof fn lemma_config_round_trip(c: Config)
    ensures
        parse_config_model(config_text_spec(c)) == Some(config_model(c)),
{
    reveal_strlit("api_key = \"");
    reveal_strlit("\"\n");
    reveal_strlit("\n");
    reveal_strlit("[oauth_token]\naccess_token = \"");
    let s = config_text_spec(c);
    let oauth_text = match c.oauth_token {
        Some(t) => oauth_text_spec(t),
        None => Seq::<char>::empty(),
    };
    match c.api_key {
        Some(k) => {
            let rest2 = "\n"@ + oauth_text;
            let body = escape_string(k@) + seq!['"'] + rest2;
            assert(s =~= "api_key = \""@ + body);
            lemma_concat_prefix("api_key = \""@, body);
            lemma_read_quoted_escape(k@, rest2);
            lemma_concat_prefix("\n"@, oauth_text);
            assert(parse_api_key_part(s) == Some((Some(k@), oauth_text)));
        },
        None => {
            assert(s =~= oauth_text);
            match c.oauth_token {
                Some(t) => {
                    assert(s[0] == '[');
                    if starts_with(s, "api_key = \""@) {
                        assert(s.take("api_key = \""@.len() as int)[0] == s[0]);
                        assert(false);
                    }
                },
                None => {
                    assert(s.len() < "api_key = \""@.len());
                },
            }
            assert(parse_api_key_part(s) == Some((
                None::<Seq<char>>,
                s,
            )));
            assert(oauth_text =~= s);
        },
    }
    match c.oauth_token {
        Some(t) => {
            lemma_oauth_part_round_trip(t);
        },
        None => {
            assert(parse_oauth_part(oauth_text) == Some(
                None::<(Seq<char>, Seq<char>, Seq<char>)>,
            ));
        },
    }
}

} // verus!

