use vstd::prelude::*;
use crate::text::digit_char;

verus! {

/// A lower-case hexadecimal digit.
pub open spec fn hex_digit_lower(d: int) -> char {
    if 0 <= d < 10 {
        digit_char(d)
    } else if d == 10 {
        'a'
    } else if d == 11 {
        'b'
    } else if d == 12 {
        'c'
    } else if d == 13 {
        'd'
    } else if d == 14 {
        'e'
    } else {
        'f'
    }
}

/// How `serde_json` writes one character inside a JSON string: `"` and `\` get a
/// backslash, backspace, tab, line feed, form feed and carriage return get their
/// short escapes, other characters below U+0020 become `\u00` and two lower-case
/// hexadecimal digits, and every other character stays as it is.
pub open spec fn json_escape_char(c: char) -> Seq<char> {
    if c == '"' {
        seq!['\\', '"']
    } else if c == '\\' {
        seq!['\\', '\\']
    } else if c == '\u{8}' {
        seq!['\\', 'b']
    } else if c == '\u{9}' {
        seq!['\\', 't']
    } else if c == '\u{a}' {
        seq!['\\', 'n']
    } else if c == '\u{c}' {
        seq!['\\', 'f']
    } else if c == '\u{d}' {
        seq!['\\', 'r']
    } else if (c as int) < 0x20 {
        seq!['\\', 'u', '0', '0', hex_digit_lower((c as int) / 16), hex_digit_lower((c as int) % 16)]
    } else {
        seq![c]
    }
}

/// The characters of `s`, each escaped as inside a JSON string.
pub open spec fn json_escape(s: Seq<char>) -> Seq<char>
    decreases s.len(),
{
    if s.len() == 0 {
        Seq::empty()
    } else {
        json_escape(s.drop_last()) + json_escape_char(s.last())
    }
}

/// The JSON text that `serde_json` writes for a string value: the escaped
/// characters between two double quotes.
pub open spec fn json_string(s: Seq<char>) -> Seq<char> {
    seq!['"'] + json_escape(s) + seq!['"']
}

/// No character of `s` is one that JSON string syntax escapes: no double quote, no
/// backslash, no control character below U+0020.
pub open spec fn needs_no_escape(s: Seq<char>) -> bool {
    forall|i: int| 0 <= i < s.len() ==> #[trigger] s[i] != '"' && s[i] != '\\' && (s[i] as int)
        >= 0x20
}

/// Escaping leaves a string without characters to escape unchanged.
proof fn lemma_plain_escape(s: Seq<char>)
    requires
        needs_no_escape(s),
    ensures
        json_escape(s) == s,
    decreases s.len(),
{
    if s.len() > 0 {
        let t = s.drop_last();
        assert(needs_no_escape(t)) by {
            assert forall|i: int| 0 <= i < t.len() implies #[trigger] t[i] != '"' && t[i] != '\\'
                && (t[i] as int) >= 0x20 by {
                assert(t[i] == s[i]);
            }
        }
        lemma_plain_escape(t);
        let c = s[s.len() - 1];
        assert(c != '"' && c != '\\' && (c as int) >= 0x20);
        assert(json_escape_char(c) == seq![c]);
        assert(json_escape(s) =~= s);
    } else {
        assert(json_escape(s) =~= s);
    }
}

/// A string without characters to escape is written unchanged between two double quotes.
pub proof fn lemma_plain_json_string(s: Seq<char>)
    requires
        needs_no_escape(s),
    ensures
        json_string(s) == seq!['"'] + s + seq!['"'],
{
    lemma_plain_escape(s);
}

/// `serde_json::to_string` on a `&str`: the string written as a JSON string, by the
/// crate's escape table and its `write_char_escape`. Serialising a `str` into a `Vec`
/// cannot fail in the crate's source, so the error arm is not reached.
#[verifier::external_body]
fn json_quote(s: &str) -> (r: String)
    ensures
        r@ == json_string(s@),
{
    serde_json::to_string(s).unwrap_or_default()
}

/// The texts joined with `,` between neighbours.
pub open spec fn join_commas(items: Seq<Seq<char>>) -> Seq<char>
    decreases items.len(),
{
    if items.len() == 0 {
        Seq::empty()
    } else if items.len() == 1 {
        items[0]
    } else {
        join_commas(items.drop_last()) + seq![','] + items.last()
    }
}

/// Total length of the texts.
pub open spec fn total_len(items: Seq<Seq<char>>) -> int
    decreases items.len(),
{
    if items.len() == 0 {
        0
    } else {
        total_len(items.drop_last()) + items.last().len()
    }
}

/// Joining keeps every character of every text and adds one comma between each two
/// neighbours.
pub proof fn lemma_join_commas_len(items: Seq<Seq<char>>)
    requires
        items.len() >= 1,
    ensures
        join_commas(items).len() == total_len(items) + items.len() - 1,
    decreases items.len(),
{
    if items.len() > 1 {
        lemma_join_commas_len(items.drop_last());
    } else {
        assert(items.drop_last().len() == 0);
        assert(total_len(items.drop_last()) == 0);
        assert(items.last() == items[0]);
    }
}

/// Joining two non-empty lists is joining each and putting a comma between them, so
/// every text of the list appears in the result, in order.
pub proof fn lemma_join_commas_append(a: Seq<Seq<char>>, b: Seq<Seq<char>>)
    requires
        a.len() >= 1,
        b.len() >= 1,
    ensures
        join_commas(a + b) == join_commas(a) + seq![','] + join_commas(b),
    decreases b.len(),
{
    if b.len() == 1 {
        assert((a + b).drop_last() =~= a);
        assert((a + b).last() == b[0]);
    } else {
        let b1 = b.drop_last();
        lemma_join_commas_append(a, b1);
        assert((a + b).drop_last() =~= a + b1);
        assert((a + b).last() == b.last());
        assert(join_commas(a + b) =~= join_commas(a) + seq![','] + join_commas(b));
    }
}

/// The ticker subscription request, given the JSON texts of the ticket and of
/// each market code. The keys of the middle object are in sorted order, as
/// `serde_json` writes an object.
pub open spec fn subscribe_text(quoted_ticket: Seq<char>, quoted_codes: Seq<Seq<char>>) -> Seq<
    char,
> {
    "[{\"ticket\":"@ + quoted_ticket + "},{\"codes\":["@ + join_commas(quoted_codes)
        + "],\"type\":\"ticker\"},{\"format\":\"DEFAULT\"}]"@
}

/// Builds the subscription request from already quoted JSON strings.
pub fn subscribe_message_from_quoted(quoted_ticket: &str, quoted_codes: &Vec<String>) -> (r:
    String)
    ensures
        r@ == subscribe_text(quoted_ticket@, quoted_codes@.map_values(|c: String| c@)),
{
    let ghost codes = quoted_codes@.map_values(|c: String| c@);
    let mut joined = String::new();
    let mut i: usize = 0;
    while i < quoted_codes.len()
        invariant
            i <= quoted_codes@.len(),
            codes == quoted_codes@.map_values(|c: String| c@),
            joined@ == join_commas(codes.take(i as int)),
        decreases quoted_codes@.len() - i,
    {
        proof {
            reveal_strlit(",");
            assert(codes.take(i + 1).drop_last() =~= codes.take(i as int));
        }
        if i > 0 {
            joined.append(",");
        }
        joined.append(quoted_codes[i].as_str());
        i = i + 1;
        proof {
            if i == 1 {
                assert(joined@ =~= join_commas(codes.take(i as int)));
            }
        }
    }
    assert(codes.take(i as int) =~= codes);
    let mut r = String::new();
    r.append("[{\"ticket\":");
    r.append(quoted_ticket);
    r.append("},{\"codes\":[");
    r.append(joined.as_str());
    r.append("],\"type\":\"ticker\"},{\"format\":\"DEFAULT\"}]");
    r
}

/// Each code written as a JSON string by `serde_json`.
fn quote_all(codes: &Vec<&str>) -> (r: Vec<String>)
    ensures
        r@.map_values(|c: String| c@) == codes@.map_values(|c: &str| json_string(c@)),
{
    let mut quoted: Vec<String> = Vec::new();
    let mut i: usize = 0;
    while i < codes.len()
        invariant
            i <= codes@.len(),
            quoted@.len() == i,
            forall|k: int| 0 <= k < i ==> #[trigger] quoted@[k]@ == json_string(codes@[k]@),
        decreases codes@.len() - i,
    {
        quoted.push(json_quote(codes[i]));
        i = i + 1;
    }
    assert(quoted@.map_values(|c: String| c@) =~= codes@.map_values(|c: &str| json_string(c@)));
    quoted
}

/// Builds the subscription request: `ticket` and each code are written as JSON
/// strings by `serde_json`.
pub fn subscribe_message(ticket: &str, codes: &Vec<&str>) -> (r: String)
    ensures
        r@ == subscribe_text(json_string(ticket@), codes@.map_values(|c: &str| json_string(c@))),
        needs_no_escape(ticket@) && (forall|k: int|
            0 <= k < codes@.len() ==> needs_no_escape(#[trigger] codes@[k]@)) ==> r@
            == subscribe_text(
            seq!['"'] + ticket@ + seq!['"'],
            codes@.map_values(|c: &str| seq!['"'] + c@ + seq!['"']),
        ),
{
    let quoted_ticket = json_quote(ticket);
    let quoted = quote_all(codes);
    let r = subscribe_message_from_quoted(quoted_ticket.as_str(), &quoted);
    proof {
        if needs_no_escape(ticket@) && (forall|k: int|
            0 <= k < codes@.len() ==> needs_no_escape(#[trigger] codes@[k]@)) {
            lemma_plain_json_string(ticket@);
            let a = codes@.map_values(|c: &str| json_string(c@));
            let b = codes@.map_values(|c: &str| seq!['"'] + c@ + seq!['"']);
            assert forall|k: int| 0 <= k < codes@.len() implies #[trigger] a[k] == b[k] by {
                lemma_plain_json_string(codes@[k]@);
            }
            assert(a =~= b);
        }
    }
    r
}

/// A lower-case hexadecimal digit character.
pub open spec fn is_lower_hex(c: char) -> bool {
    '0' <= c <= '9' || 'a' <= c <= 'f'
}

/// The text is a version-4 UUID in hyphenated lower-case form: 36 characters, with
/// `-` at positions 8, 13, 18 and 23, lower-case hexadecimal digits elsewhere, the
/// version digit `4` at position 14 and a variant digit of `8`, `9`, `a` or `b` at
/// position 19.
pub open spec fn is_uuid_text(t: Seq<char>) -> bool {
    &&& t.len() == 36
    &&& forall|i: int|
        0 <= i < t.len() ==> if i == 8 || i == 13 || i == 18 || i == 23 {
            #[trigger] t[i] == '-'
        } else {
            is_lower_hex(t[i])
        }
    &&& t[14] == '4'
    &&& (t[19] == '8' || t[19] == '9' || t[19] == 'a' || t[19] == 'b')
}

/// `uuid::Uuid::new_v4().to_string()`: a random version-4 UUID (the crate sets the
/// version and variant bits in `new_v4`), which `Display` writes in hyphenated
/// lower-case form. The value is random, so only its form is stated.
#[verifier::external_body]
fn new_uuid_text() -> (r: String)
    ensures
        is_uuid_text(r@),
{
    uuid::Uuid::new_v4().to_string()
}

/// The ticker subscription request with a fresh random ticket.
pub fn subscribe_request(codes: &Vec<&str>) -> (r: String)
    ensures
        exists|ticket: Seq<char>|
            is_uuid_text(ticket) && r@ == subscribe_text(
                seq!['"'] + ticket + seq!['"'],
                codes@.map_values(|c: &str| json_string(c@)),
            ),
{
    let ticket = new_uuid_text();
    proof {
        assert forall|i: int| 0 <= i < ticket@.len() implies #[trigger] ticket@[i] != '"'
            && ticket@[i] != '\\' && (ticket@[i] as int) >= 0x20 by {
            if i == 8 || i == 13 || i == 18 || i == 23 {
            } else {
                assert(is_lower_hex(ticket@[i]));
            }
        }
        lemma_plain_json_string(ticket@);
    }
    let quoted_ticket = json_quote(ticket.as_str());
    let quoted = quote_all(codes);
    let r = subscribe_message_from_quoted(quoted_ticket.as_str(), &quoted);
    assert(is_uuid_text(ticket@) && r@ == subscribe_text(
        seq!['"'] + ticket@ + seq!['"'],
        codes@.map_values(|c: &str| json_string(c@)),
    ));
    r
}

/// The greeting that the websocket server sends first.
pub struct WelcomeMessage {
    pub msg: String,
}

/// The server's greeting, `Hello, World!`.
pub fn welcome_message() -> (r: WelcomeMessage)
    ensures
        r.msg@ == "Hello, World!"@,
{
    WelcomeMessage { msg: "Hello, World!".to_string() }
}

impl WelcomeMessage {
    /// The JSON object `{"msg": ...}` as `serde_json` writes this struct.
    pub fn to_json(&self) -> (r: String)
        ensures
            r@ == "{\"msg\":"@ + json_string(self.msg@) + "}"@,
            needs_no_escape(self.msg@) ==> r@ == "{\"msg\":"@ + seq!['"'] + self.msg@ + seq!['"']
                + "}"@,
    {
        proof {
            if needs_no_escape(self.msg@) {
                lemma_plain_json_string(self.msg@);
            }
        }
        let quoted = json_quote(self.msg.as_str());
        let mut r = String::new();
        r.append("{\"msg\":");
        r.append(quoted.as_str());
        r.append("}");
        r
    }
}

} // verus!
