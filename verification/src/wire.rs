use vstd::prelude::*;

verus! {

/// The role tag of a chat message: instruction text (system) or the
/// content the instructions act on (user).
pub enum Role {
    System,
    User,
}

/// One role-tagged message of a chat-completion request.
pub struct ChatMessage {
    pub role: Role,
    pub content: String,
}

/// A chat-completion request: the model identifier and the ordered
/// messages. Constructed fresh per call, never reused.
pub struct ChatRequest {
    pub model: String,
    pub messages: Vec<ChatMessage>,
}

pub open spec fn spec_role_name(r: Role) -> Seq<char> {
    match r {
        Role::System => "system"@,
        Role::User => "user"@,
    }
}

pub open spec fn spec_hex_digit(n: int) -> char {
    if n == 0 {
        '0'
    } else if n == 1 {
        '1'
    } else if n == 2 {
        '2'
    } else if n == 3 {
        '3'
    } else if n == 4 {
        '4'
    } else if n == 5 {
        '5'
    } else if n == 6 {
        '6'
    } else if n == 7 {
        '7'
    } else if n == 8 {
        '8'
    } else if n == 9 {
        '9'
    } else if n == 10 {
        'a'
    } else if n == 11 {
        'b'
    } else if n == 12 {
        'c'
    } else if n == 13 {
        'd'
    } else if n == 14 {
        'e'
    } else {
        'f'
    }
}

/// How one character appears inside a JSON string literal: the quote,
/// the backslash and the common control characters get two-character
/// escapes, the remaining control characters a `\u00XX` escape, and
/// every other character stands for itself.
pub open spec fn spec_escape_char(c: char) -> Seq<char> {
    if c == '"' {
        seq!['\\', '"']
    } else if c == '\\' {
        seq!['\\', '\\']
    } else if c == '\n' {
        seq!['\\', 'n']
    } else if c == '\r' {
        seq!['\\', 'r']
    } else if c == '\t' {
        seq!['\\', 't']
    } else if (c as u32) < 32 {
        seq!['\\', 'u', '0', '0', spec_hex_digit((c as u32) as int / 16), spec_hex_digit(
            (c as u32) as int % 16,
        )]
    } else {
        seq![c]
    }
}

pub open spec fn spec_escape(s: Seq<char>) -> Seq<char>
    decreases s.len(),
{
    if s.len() == 0 {
        Seq::<char>::empty()
    } else {
        spec_escape_char(s[0]) + spec_escape(s.drop_first())
    }
}

/// A JSON string literal: the escaped characters between double quotes.
pub open spec fn spec_json_string(s: Seq<char>) -> Seq<char> {
    seq!['"'] + spec_escape(s) + seq!['"']
}

/// The wire form of one message object.
pub open spec fn spec_message_json(role: Role, content: Seq<char>) -> Seq<char> {
    "{\"role\":\""@ + spec_role_name(role) + "\",\"content\":"@ + spec_json_string(content) + "}"@
}

/// The wire form of a whole request: the model name and exactly two
/// messages, the system message first and the user message second.
pub open spec fn spec_request_body(model: Seq<char>, system: Seq<char>, user: Seq<char>) -> Seq<
    char,
> {
    "{\"model\":"@ + spec_json_string(model) + ",\"messages\":["@ + spec_message_json(
        Role::System,
        system,
    ) + ","@ + spec_message_json(Role::User, user) + "]}"@
}

/// The messages of a request built from a system prompt and user content:
/// exactly two, in that fixed order.
pub open spec fn spec_request_messages(system: Seq<char>, user: Seq<char>) -> Seq<(Role, Seq<
    char,
>)> {
    seq![(Role::System, system), (Role::User, user)]
}

/// The request `r` is exactly the one built from `model`, `system` and
/// `user`: that model name, and the two messages of
/// `spec_request_messages` in order.
pub open spec fn spec_request_built(
    r: ChatRequest,
    model: Seq<char>,
    system: Seq<char>,
    user: Seq<char>,
) -> bool {
    &&& r.model@ == model
    &&& r.messages@.len() == spec_request_messages(system, user).len()
    &&& forall|i: int|
        0 <= i < r.messages@.len() ==> (#[trigger] r.messages@[i]).role == spec_request_messages(
            system,
            user,
        )[i].0 && r.messages@[i].content@ == spec_request_messages(system, user)[i].1
}

/// Whatever the system prompt and the user content, a request holds
/// exactly two messages: the system message first, carrying the prompt
/// verbatim, and the user message second, carrying the content verbatim.
pub proof fn lemma_request_two_messages(system: Seq<char>, user: Seq<char>)
    ensures
        spec_request_messages(system, user).len() == 2,
        spec_request_messages(system, user)[0] == (Role::System, system),
        spec_request_messages(system, user)[1] == (Role::User, user),
{
}

proof fn lemma_escape_push(s: Seq<char>, c: char)
    ensures
        spec_escape(s.push(c)) == spec_escape(s) + spec_escape_char(c),
    decreases s.len(),
{
    if s.len() == 0 {
        assert(s.push(c).drop_first() =~= Seq::<char>::empty());
        assert(s.push(c)[0] == c);
        assert(spec_escape(s.push(c).drop_first()) == Seq::<char>::empty());
        assert(spec_escape(s.push(c)) =~= spec_escape(s) + spec_escape_char(c));
    } else {
        lemma_escape_push(s.drop_first(), c);
        assert(s.push(c).drop_first() =~= s.drop_first().push(c));
        assert(spec_escape(s.push(c)) =~= spec_escape(s) + spec_escape_char(c));
    }
}

fn hex_digit_str(n: u32) -> (r: &'static str)
    requires
        n < 16,
    ensures
        r@ == seq![spec_hex_digit(n as int)],
{
    proof {
        reveal_strlit("0");
        reveal_strlit("1");
        reveal_strlit("2");
        reveal_strlit("3");
        reveal_strlit("4");
        reveal_strlit("5");
        reveal_strlit("6");
        reveal_strlit("7");
        reveal_strlit("8");
        reveal_strlit("9");
        reveal_strlit("a");
        reveal_strlit("b");
        reveal_strlit("c");
        reveal_strlit("d");
        reveal_strlit("e");
        reveal_strlit("f");
    }
    if n == 0 {
        "0"
    } else if n == 1 {
        "1"
    } else if n == 2 {
        "2"
    } else if n == 3 {
        "3"
    } else if n == 4 {
        "4"
    } else if n == 5 {
        "5"
    } else if n == 6 {
        "6"
    } else if n == 7 {
        "7"
    } else if n == 8 {
        "8"
    } else if n == 9 {
        "9"
    } else if n == 10 {
        "a"
    } else if n == 11 {
        "b"
    } else if n == 12 {
        "c"
    } else if n == 13 {
        "d"
    } else if n == 14 {
        "e"
    } else {
        "f"
    }
}

/// Append the JSON escape of `s` to `out`, character by character.
fn append_escaped(out: &mut String, s: &str)
    ensures
        final(out)@ == old(out)@ + spec_escape(s@),
{
    let n = s.unicode_len();
    let mut i: usize = 0;
    while i < n
        invariant
            n == s@.len(),
            i <= n,
            out@ == old(out)@ + spec_escape(s@.subrange(0, i as int)),
        decreases n - i,
    {
        let c = s.get_char(i);
        proof {
            assert(s@.subrange(0, (i + 1) as int) =~= s@.subrange(0, i as int).push(
                s@[i as int],
            ));
            lemma_escape_push(s@.subrange(0, i as int), s@[i as int]);
        }
        if c == '"' {
            out.append("\\\"");
            proof {
                reveal_strlit("\\\"");
                assert(("\\\"")@ =~= seq!['\\', '"']);
            }
        } else if c == '\\' {
            out.append("\\\\");
            proof {
                reveal_strlit("\\\\");
                assert(("\\\\")@ =~= seq!['\\', '\\']);
            }
        } else if c == '\n' {
            out.append("\\n");
            proof {
                reveal_strlit("\\n");
                assert(("\\n")@ =~= seq!['\\', 'n']);
            }
        } else if c == '\r' {
            out.append("\\r");
            proof {
                reveal_strlit("\\r");
                assert(("\\r")@ =~= seq!['\\', 'r']);
            }
        } else if c == '\t' {
            out.append("\\t");
            proof {
                reveal_strlit("\\t");
                assert(("\\t")@ =~= seq!['\\', 't']);
            }
        } else if (c as u32) < 32 {
            let code = c as u32;
            out.append("\\u00");
            out.append(hex_digit_str(code / 16));
            out.append(hex_digit_str(code % 16));
            proof {
                reveal_strlit("\\u00");
                assert(("\\u00")@ =~= seq!['\\', 'u', '0', '0']);
                assert(out@ =~= old(out)@ + spec_escape(s@.subrange(0, i as int))
                    + spec_escape_char(c));
            }
        } else {
            let piece = s.substring_char(i, i + 1);
            proof {
                assert(piece@ =~= seq![s@[i as int]]);
            }
            out.append(piece);
        }
        proof {
            assert(out@ =~= old(out)@ + spec_escape(s@.subrange(0, (i + 1) as int)));
        }
        i = i + 1;
    }
    proof {
        assert(s@.subrange(0, n as int) =~= s@);
    }
}

/// Append `s` as a JSON string literal: quoted and escaped.
fn append_json_string(out: &mut String, s: &str)
    ensures
        final(out)@ == old(out)@ + spec_json_string(s@),
{
    out.append("\"");
    append_escaped(out, s);
    out.append("\"");
    proof {
        reveal_strlit("\"");
        assert(("\"")@ =~= seq!['"']);
        assert(out@ =~= old(out)@ + spec_json_string(s@));
    }
}

/// Append the wire form of one message object.
fn append_message(out: &mut String, role: Role, content: &str)
    ensures
        final(out)@ == old(out)@ + spec_message_json(role, content@),
{
    match role {
        Role::System => {
            out.append("{\"role\":\"system\",\"content\":");
            proof {
                reveal_strlit("{\"role\":\"system\",\"content\":");
                reveal_strlit("{\"role\":\"");
                reveal_strlit("system");
                reveal_strlit("\",\"content\":");
                assert(("{\"role\":\"system\",\"content\":")@ =~= ("{\"role\":\"")@
                    + spec_role_name(Role::System) + ("\",\"content\":")@);
            }
        },
        Role::User => {
            out.append("{\"role\":\"user\",\"content\":");
            proof {
                reveal_strlit("{\"role\":\"user\",\"content\":");
                reveal_strlit("{\"role\":\"");
                reveal_strlit("user");
                reveal_strlit("\",\"content\":");
                assert(("{\"role\":\"user\",\"content\":")@ =~= ("{\"role\":\"")@
                    + spec_role_name(Role::User) + ("\",\"content\":")@);
            }
        },
    }
    append_json_string(out, content);
    out.append("}");
    proof {
        reveal_strlit("}");
        assert(out@ =~= old(out)@ + spec_message_json(role, content@));
    }
}

/// Build the two messages of a request: the system message first, the
/// user message second, each carrying its text verbatim.
pub fn build_messages(system: &str, user: &str) -> (r: Vec<ChatMessage>)
    ensures
        r@.len() == 2,
        r@[0].role == Role::System,
        r@[0].content@ == system@,
        r@[1].role == Role::User,
        r@[1].content@ == user@,
{
    let mut messages: Vec<ChatMessage> = Vec::new();
    messages.push(ChatMessage { role: Role::System, content: String::from_str(system) });
    messages.push(ChatMessage { role: Role::User, content: String::from_str(user) });
    messages
}

/// Serialize a two-message request to its wire form.
pub fn request_body_of(req: &ChatRequest) -> (r: String)
    requires
        req.messages@.len() == 2,
        req.messages@[0].role == Role::System,
        req.messages@[1].role == Role::User,
    ensures
        r@ == spec_request_body(
            req.model@,
            req.messages@[0].content@,
            req.messages@[1].content@,
        ),
{
    let mut out = String::from_str("{\"model\":");
    append_json_string(&mut out, req.model.as_str());
    out.append(",\"messages\":[");
    append_message(&mut out, Role::System, req.messages[0].content.as_str());
    out.append(",");
    append_message(&mut out, Role::User, req.messages[1].content.as_str());
    out.append("]}");
    proof {
        assert(out@ =~= spec_request_body(
            req.model@,
            req.messages@[0].content@,
            req.messages@[1].content@,
        ));
    }
    out
}

} // verus!
