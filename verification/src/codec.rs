//! The wire format of a [`Message`]: a compact JSON object with the two
//! string fields, `{"username":"…","message":"…"}`.
//!
//! The grammar is fixed: the two keys in that order, no padding between
//! tokens, and the five escapes `\"`, `\\`, `\n`, `\r`, `\t` inside a field;
//! every other character stands for itself. [`json_of`] is the one canonical
//! text of a message, [`parse_spec`] the exact meaning of a received body,
//! and [`lemma_parse_of_encoded`] proves that decoding an encoded message
//! gives the message back.

use vstd::prelude::*;
use crate::message::{Message, MessageView};

verus! {

/// The wire text of one character inside a quoted field.
pub open spec fn escape_char(c: char) -> Seq<char> {
    if c == '"' {
        seq!['\\', '"']
    } else if c == '\\' {
        seq!['\\', '\\']
    } else if c == '\n' {
        seq!['\\', 'n']
    } else if c == '\r' {
        seq!['\\', 'r']
    } else if c == '\t' {
        seq!['\\', 't']
    } else {
        seq![c]
    }
}

/// The wire text of a whole field.
pub open spec fn escape(s: Seq<char>) -> Seq<char>
    decreases s.len(),
{
    if s.len() == 0 {
        Seq::empty()
    } else {
        escape_char(s[0]) + escape(s.skip(1))
    }
}

/// The character a backslash escape stands for, if the escape is known.
pub open spec fn unescape_char(c: char) -> Option<char> {
    if c == '"' {
        Some('"')
    } else if c == '\\' {
        Some('\\')
    } else if c == 'n' {
        Some('\n')
    } else if c == 'r' {
        Some('\r')
    } else if c == 't' {
        Some('\t')
    } else {
        None
    }
}

/// The opening of the object up to and including the first field's opening
/// quote: `{"username":"`.
pub open spec fn username_key() -> Seq<char> {
    seq!['{', '"', 'u', 's', 'e', 'r', 'n', 'a', 'm', 'e', '"', ':', '"']
}

/// What separates the two fields, from just after the first field's closing
/// quote up to and including the second field's opening quote:
/// `,"message":"`.
pub open spec fn message_key() -> Seq<char> {
    seq![',', '"', 'm', 'e', 's', 's', 'a', 'g', 'e', '"', ':', '"']
}

/// The canonical wire text of a message.
pub open spec fn json_of(m: MessageView) -> Seq<char> {
    username_key() + escape(m.username) + seq!['"'] + message_key() + escape(m.message) + seq![
        '"',
        '}',
    ]
}

/// Reads a quoted field's content from the front of `s`, decoding escapes,
/// up to and including the closing quote. Returns the decoded content and
/// how many characters were consumed, or `None` when the text ends before a
/// closing quote or holds an unknown escape.
pub open spec fn scan_string(s: Seq<char>) -> Option<(Seq<char>, int)>
    decreases s.len(),
{
    if s.len() == 0 {
        None
    } else if s[0] == '"' {
        Some((Seq::empty(), 1))
    } else if s[0] == '\\' {
        if s.len() < 2 {
            None
        } else {
            match unescape_char(s[1]) {
                Option::None => None,
                Option::Some(c) => match scan_string(s.skip(2)) {
                    Option::None => None,
                    Option::Some(r) => Some((seq![c] + r.0, r.1 + 2)),
                },
            }
        }
    } else {
        match scan_string(s.skip(1)) {
            Option::None => None,
            Option::Some(r) => Some((seq![s[0]] + r.0, r.1 + 1)),
        }
    }
}

/// The exact meaning of a received body: the message it denotes, or `None`
/// when it does not follow the grammar (a missing field, a missing quote, an
/// unknown escape, anything after the closing brace).
pub open spec fn parse_spec(s: Seq<char>) -> Option<MessageView> {
    if s.len() < 13 || s.take(13) != username_key() {
        None
    } else {
        match scan_string(s.skip(13)) {
            Option::None => None,
            Option::Some(u) => {
                let rest = s.skip(13).skip(u.1);
                if rest.len() < 12 || rest.take(12) != message_key() {
                    None
                } else {
                    match scan_string(rest.skip(12)) {
                        Option::None => None,
                        Option::Some(b) => {
                            if rest.skip(12).skip(b.1) == seq!['}'] {
                                Some(MessageView { username: u.0, message: b.0 })
                            } else {
                                None
                            }
                        },
                    }
                }
            },
        }
    }
}

/// Relies on `String::from_iter` over characters: the resulting string holds
/// exactly the given characters in order.
#[verifier::external_body]
fn string_from_chars(v: Vec<char>) -> (s: String)
    ensures
        s@ == v@,
{
    v.into_iter().collect()
}

/// The opening of the object as characters, for building and matching.
fn username_key_chars() -> (v: Vec<char>)
    ensures
        v@ == username_key(),
{
    let mut v: Vec<char> = Vec::new();
    v.push('{');
    v.push('"');
    v.push('u');
    v.push('s');
    v.push('e');
    v.push('r');
    v.push('n');
    v.push('a');
    v.push('m');
    v.push('e');
    v.push('"');
    v.push(':');
    v.push('"');
    proof {
        assert(v@ =~= username_key());
    }
    v
}

/// The separator between the fields as characters.
fn message_key_chars() -> (v: Vec<char>)
    ensures
        v@ == message_key(),
{
    let mut v: Vec<char> = Vec::new();
    v.push(',');
    v.push('"');
    v.push('m');
    v.push('e');
    v.push('s');
    v.push('s');
    v.push('a');
    v.push('g');
    v.push('e');
    v.push('"');
    v.push(':');
    v.push('"');
    proof {
        assert(v@ =~= message_key());
    }
    v
}

/// Appends the wire text of one character.
fn push_escaped(out: &mut Vec<char>, c: char)
    ensures
        final(out)@ == old(out)@ + escape_char(c),
{
    if c == '"' {
        out.push('\\');
        out.push('"');
    } else if c == '\\' {
        out.push('\\');
        out.push('\\');
    } else if c == '\n' {
        out.push('\\');
        out.push('n');
    } else if c == '\r' {
        out.push('\\');
        out.push('r');
    } else if c == '\t' {
        out.push('\\');
        out.push('t');
    } else {
        out.push(c);
    }
    proof {
        assert(out@ =~= old(out)@ + escape_char(c));
    }
}

/// Escaping one character alone is its escape text.
proof fn lemma_escape_singleton(c: char)
    ensures
        escape(seq![c]) == escape_char(c),
{
    assert(seq![c].len() == 1 && seq![c][0] == c);
    assert(seq![c].skip(1) =~= Seq::<char>::empty());
    assert(escape(seq![c].skip(1)) =~= Seq::<char>::empty());
    assert(escape(seq![c]) =~= escape_char(c) + escape(seq![c].skip(1)));
    assert(escape_char(c) + Seq::<char>::empty() =~= escape_char(c));
}

/// Escaping distributes over concatenation.
pub proof fn lemma_escape_concat(a: Seq<char>, b: Seq<char>)
    ensures
        escape(a + b) == escape(a) + escape(b),
    decreases a.len(),
{
    if a.len() == 0 {
        assert(a + b =~= b);
        assert(escape(a) + escape(b) =~= escape(b));
    } else {
        assert((a + b).skip(1) =~= a.skip(1) + b);
        assert((a + b).len() > 0 && (a + b)[0] == a[0]);
        lemma_escape_concat(a.skip(1), b);
        assert(escape(a + b) =~= escape(a) + escape(b));
    }
}

/// Appends the wire text of a whole field.
fn append_escaped(out: &mut Vec<char>, s: &str)
    ensures
        final(out)@ == old(out)@ + escape(s@),
{
    let n = s.unicode_len();
    let mut i: usize = 0;
    while i < n
        invariant
            i <= n,
            n == s@.len(),
            out@ == old(out)@ + escape(s@.take(i as int)),
        decreases n - i,
    {
        let c = s.get_char(i);
        push_escaped(out, c);
        i = i + 1;
        proof {
            assert(s@.take(i as int) =~= s@.take(i - 1) + seq![s@[i - 1]]);
            lemma_escape_concat(s@.take(i - 1), seq![s@[i - 1]]);
            lemma_escape_singleton(s@[i - 1]);
            assert(out@ =~= old(out)@ + escape(s@.take(i as int)));
        }
    }
    proof {
        assert(s@.take(n as int) =~= s@);
    }
}

/// Encodes a message into its canonical wire text.
pub fn encode_message(m: &Message) -> (s: String)
    ensures
        s@ == json_of(m@),
{
    let mut out: Vec<char> = Vec::new();
    let mut head = username_key_chars();
    out.append(&mut head);
    append_escaped(&mut out, m.username.as_str());
    out.push('"');
    let mut mid = message_key_chars();
    out.append(&mut mid);
    append_escaped(&mut out, m.message.as_str());
    out.push('"');
    out.push('}');
    proof {
        assert(out@ =~= json_of(m@));
    }
    string_from_chars(out)
}

/// Whether `pat` occurs in `s` exactly at `start`.
fn match_at(s: &str, start: usize, pat: &Vec<char>) -> (b: bool)
    requires
        start <= s@.len(),
    ensures
        b <==> (start + pat@.len() <= s@.len() && s@.subrange(
            start as int,
            start + pat@.len(),
        ) == pat@),
{
    let n = s.unicode_len();
    let m = pat.len();
    if n - start < m {
        return false;
    }
    let mut j: usize = 0;
    while j < m
        invariant
            j <= m,
            m == pat@.len(),
            n == s@.len(),
            start + m <= n,
            forall|k: int| 0 <= k < j ==> s@[start + k] == pat@[k],
        decreases m - j,
    {
        if s.get_char(start + j) != pat[j] {
            proof {
                assert(s@.subrange(start as int, start + pat@.len())[j as int] == s@[start + j]);
            }
            return false;
        }
        j = j + 1;
    }
    proof {
        assert(s@.subrange(start as int, start + pat@.len()) =~= pat@);
    }
    true
}

/// Reads one quoted field starting at `start`, decoding escapes, and returns
/// its content together with how many characters were consumed (closing
/// quote included); `None` exactly when [`scan_string`] says the text is not
/// a well-formed field.
fn scan_field(s: &str, start: usize) -> (r: Option<(Vec<char>, usize)>)
    requires
        start <= s@.len(),
    ensures
        match r {
            Option::Some(p) => {
                &&& scan_string(s@.skip(start as int)) == Some((p.0@, p.1 as int))
                &&& start + p.1 <= s@.len()
                &&& p.1 >= 1
            },
            Option::None => scan_string(s@.skip(start as int)) is None,
        },
{
    let n = s.unicode_len();
    let mut i: usize = start;
    let mut content: Vec<char> = Vec::new();
    while i < n
        invariant
            start <= i <= n,
            n == s@.len(),
            scan_string(s@.skip(start as int)) == (match scan_string(s@.skip(i as int)) {
                Option::Some(p) => Some((content@ + p.0, p.1 + i - start)),
                Option::None => None::<(Seq<char>, int)>,
            }),
        decreases n - i,
    {
        let c = s.get_char(i);
        if c == '"' {
            proof {
                assert(s@.skip(i as int)[0] == '"');
                assert(scan_string(s@.skip(i as int)) == Some((Seq::<char>::empty(), 1int)));
                assert(content@ + Seq::<char>::empty() =~= content@);
            }
            return Some((content, i + 1 - start));
        } else if c == '\\' {
            if i + 1 == n {
                proof {
                    assert(s@.skip(i as int).len() == 1);
                    assert(s@.skip(i as int)[0] == '\\');
                    assert(scan_string(s@.skip(i as int)) is None);
                }
                return None;
            }
            let c2 = s.get_char(i + 1);
            proof {
                assert(s@.skip(i as int).len() >= 2);
                assert(s@.skip(i as int)[0] == '\\');
                assert(s@.skip(i as int)[1] == c2);
                assert(s@.skip(i as int).skip(2) =~= s@.skip(i + 2));
            }
            let d: char = if c2 == '"' {
                '"'
            } else if c2 == '\\' {
                '\\'
            } else if c2 == 'n' {
                '\n'
            } else if c2 == 'r' {
                '\r'
            } else if c2 == 't' {
                '\t'
            } else {
                proof {
                    assert(unescape_char(c2) is None);
                    assert(scan_string(s@.skip(i as int)) is None);
                }
                return None;
            };
            proof {
                assert(unescape_char(c2) == Some(d));
            }
            let ghost before = content@;
            content.push(d);
            i = i + 2;
            proof {
                assert(content@ =~= before + seq![d]);
                if scan_string(s@.skip(i as int)) is Some {
                    let p = scan_string(s@.skip(i as int))->Some_0;
                    assert((before + seq![d]) + p.0 =~= before + (seq![d] + p.0));
                }
            }
        } else {
            proof {
                assert(s@.skip(i as int)[0] == c);
                assert(s@.skip(i as int).skip(1) =~= s@.skip(i + 1));
            }
            let ghost before = content@;
            content.push(c);
            i = i + 1;
            proof {
                assert(content@ =~= before + seq![c]);
                if scan_string(s@.skip(i as int)) is Some {
                    let p = scan_string(s@.skip(i as int))->Some_0;
                    assert((before + seq![c]) + p.0 =~= before + (seq![c] + p.0));
                }
            }
        }
    }
    proof {
        assert(s@.skip(i as int).len() == 0);
        assert(scan_string(s@.skip(i as int)) is None);
    }
    None
}

/// Decodes a received body. Returns the message exactly when the body
/// follows the grammar — [`parse_spec`] is the if-and-only-if statement of
/// that — and `None` for everything else, such as a payload whose `message`
/// field is missing.
pub fn parse_message(s: &str) -> (r: Option<Message>)
    ensures
        match r {
            Option::Some(m) => parse_spec(s@) == Some(m@),
            Option::None => parse_spec(s@) is None,
        },
{
    let n = s.unicode_len();
    let ukey = username_key_chars();
    if n < 13 {
        return None;
    }
    if !match_at(s, 0, &ukey) {
        proof {
            assert(s@.subrange(0, 13) =~= s@.take(13));
        }
        return None;
    }
    proof {
        assert(s@.subrange(0, 13) =~= s@.take(13));
    }
    let u = scan_field(s, 13);
    match u {
        Option::None => None,
        Option::Some((uname, n1)) => {
            let mkey = message_key_chars();
            let pos_mid = 13 + n1;
            proof {
                assert(s@.skip(13).skip(n1 as int) =~= s@.skip(pos_mid as int));
            }
            if !match_at(s, pos_mid, &mkey) {
                proof {
                    let rest = s@.skip(13).skip(n1 as int);
                    if rest.len() >= 12 {
                        assert(pos_mid + 12 <= s@.len());
                        assert(rest.take(12) =~= s@.subrange(pos_mid as int, pos_mid + 12));
                    }
                }
                return None;
            }
            proof {
                let rest = s@.skip(13).skip(n1 as int);
                assert(rest.take(12) =~= s@.subrange(pos_mid as int, pos_mid + 12));
            }
            let pos_body = pos_mid + 12;
            let b = scan_field(s, pos_body);
            proof {
                assert(s@.skip(13).skip(n1 as int).skip(12) =~= s@.skip(pos_body as int));
            }
            match b {
                Option::None => None,
                Option::Some((body, n2)) => {
                    let pos_end = pos_body + n2;
                    proof {
                        assert(s@.skip(13).skip(n1 as int).skip(12).skip(n2 as int) =~= s@.skip(
                            pos_end as int,
                        ));
                    }
                    if pos_end == n - 1 && s.get_char(pos_end) == '}' {
                        proof {
                            assert(s@.skip(pos_end as int) =~= seq!['}']);
                        }
                        Some(
                            Message {
                                username: string_from_chars(uname),
                                message: string_from_chars(body),
                            },
                        )
                    } else {
                        proof {
                            let rest2 = s@.skip(pos_end as int);
                            if pos_end + 1 != n {
                                assert(rest2.len() != 1);
                            } else {
                                assert(rest2[0] == s@[pos_end as int]);
                            }
                            assert(rest2 != seq!['}']);
                        }
                        None
                    }
                },
            }
        },
    }
}

/// Scanning the wire text of a field up to its closing quote decodes the
/// field exactly, whatever follows the quote.
pub proof fn lemma_scan_of_escaped(u: Seq<char>, rest: Seq<char>)
    ensures
        scan_string(escape(u) + seq!['"'] + rest) == Some((u, escape(u).len() + 1int)),
    decreases u.len(),
{
    if u.len() == 0 {
        assert(escape(u) + seq!['"'] + rest =~= seq!['"'] + rest);
        assert((seq!['"'] + rest)[0] == '"');
        assert(u =~= Seq::<char>::empty());
    } else {
        let c = u[0];
        lemma_scan_of_escaped(u.skip(1), rest);
        let s = escape(u) + seq!['"'] + rest;
        let s2 = escape(u.skip(1)) + seq!['"'] + rest;
        assert(escape(u) == escape_char(c) + escape(u.skip(1)));
        if c == '"' || c == '\\' || c == '\n' || c == '\r' || c == '\t' {
            let code: char = if c == '"' {
                '"'
            } else if c == '\\' {
                '\\'
            } else if c == '\n' {
                'n'
            } else if c == '\r' {
                'r'
            } else {
                't'
            };
            assert(escape_char(c) =~= seq!['\\', code]);
            assert(s.len() >= 2 && s[0] == '\\' && s[1] == code);
            assert(unescape_char(code) == Some(c));
            assert(s.skip(2) =~= s2);
            assert(seq![c] + u.skip(1) =~= u);
            assert(scan_string(s) == Some((u, escape(u.skip(1)).len() + 1 + 2int)));
            assert(escape(u).len() == 2 + escape(u.skip(1)).len());
        } else {
            assert(escape_char(c) =~= seq![c]);
            assert(s.len() >= 1 && s[0] == c);
            assert(c != '"' && c != '\\');
            assert(s.skip(1) =~= s2);
            assert(seq![c] + u.skip(1) =~= u);
            assert(scan_string(s) == Some((u, escape(u.skip(1)).len() + 1 + 1int)));
            assert(escape(u).len() == 1 + escape(u.skip(1)).len());
        }
    }
}

/// Round trip: parsing the canonical wire text of any message yields exactly
/// that message.
pub proof fn lemma_parse_of_encoded(m: MessageView)
    ensures
        parse_spec(json_of(m)) == Some(m),
{
    let s = json_of(m);
    let tail1 = message_key() + escape(m.message) + seq!['"', '}'];
    assert(s =~= username_key() + (escape(m.username) + seq!['"'] + tail1));
    assert(s.take(13) =~= username_key());
    assert(s.skip(13) =~= escape(m.username) + seq!['"'] + tail1);
    lemma_scan_of_escaped(m.username, tail1);
    let n1 = escape(m.username).len() + 1int;
    assert(scan_string(s.skip(13)) == Some((m.username, n1)));
    let rest = s.skip(13).skip(n1);
    assert(rest =~= tail1);
    assert(rest.take(12) =~= message_key());
    assert(rest.skip(12) =~= escape(m.message) + seq!['"'] + seq!['}']);
    lemma_scan_of_escaped(m.message, seq!['}']);
    let n2 = escape(m.message).len() + 1int;
    assert(scan_string(rest.skip(12)) == Some((m.message, n2)));
    assert(rest.skip(12).skip(n2) =~= seq!['}']);
    assert(parse_spec(s) == Some(MessageView { username: m.username, message: m.message }));
    assert(MessageView { username: m.username, message: m.message } == m);
}

} // verus!
