//! The Discord bot's handling of messages: when it answers, and how it
//! turns a channel's recent messages into the conversation a chat model is
//! sent, with user mentions (`<@id>` or `<@!id>`) replaced by names.
use vstd::prelude::*;
use crate::cognition::conversation::{ChatMessage, MessageRole};
use crate::text::{
    append_str, decimal, digits_value, from_chars, is_digit, lemma_digits_grow, push_decimal, to_chars,
};

verus! {

/// What the bot does with a message.
#[derive(Debug, Clone, Copy, PartialEq, Eq, Structural)]
pub enum DiscordAction {
    /// It is mentioned: answer with the chat model.
    Respond,
    /// `!ping`: answer `Pong!`.
    Pong,
    Ignore,
}

/// What the bot does with a message that mentions it or not.
pub fn message_action(mentions_bot: bool, content: &str) -> (a: DiscordAction)
    ensures
        mentions_bot ==> a == DiscordAction::Respond,
        !mentions_bot && content@ == "!ping"@ ==> a == DiscordAction::Pong,
        !mentions_bot && content@ != "!ping"@ ==> a == DiscordAction::Ignore,
{
    if mentions_bot {
        DiscordAction::Respond
    } else if crate::text::str_eq(content, "!ping") {
        DiscordAction::Pong
    } else {
        DiscordAction::Ignore
    }
}

/// The number of ASCII digits at `s[i..]`.
pub open spec fn digit_run(s: Seq<char>, i: int) -> nat
    decreases s.len() - i,
{
    if 0 <= i < s.len() && is_digit(s[i]) {
        1 + digit_run(s, i + 1)
    } else {
        0
    }
}

/// Where the digits of a mention starting at `i` begin, if one starts
/// there: after `<@` and an optional `!`.
pub open spec fn mention_digits_start(s: Seq<char>, i: int) -> int {
    if i + 2 < s.len() && s[i + 2] == '!' { i + 3 } else { i + 2 }
}

/// Whether a mention `<@!?digits>` starts at `i`.
pub open spec fn mention_at(s: Seq<char>, i: int) -> bool {
    let d = mention_digits_start(s, i);
    &&& 0 <= i
    &&& i + 1 < s.len()
    &&& s[i] == '<' && s[i + 1] == '@'
    &&& digit_run(s, d) > 0
    &&& d + digit_run(s, d) < s.len()
    &&& s[d + digit_run(s, d)] == '>'
}

/// Where a mention starting at `i` ends (just after its `>`).
pub open spec fn mention_end(s: Seq<char>, i: int) -> int {
    mention_digits_start(s, i) + digit_run(s, mention_digits_start(s, i)) + 1
}

/// The name known for a user, if any; the first entry for it counts.
pub open spec fn name_of(names: Seq<(u64, String)>, id: nat) -> Option<Seq<char>>
    decreases names.len(),
{
    if names.len() == 0 {
        None
    } else if names[0].0 == id {
        Some(names[0].1@)
    } else {
        name_of(names.drop_first(), id)
    }
}

/// What a mention is replaced by: the user's name when known, `<@id>` for
/// an unknown user, and the mention itself when its number does not fit
/// in 64 bits.
pub open spec fn mention_text(mention: Seq<char>, digits: Seq<char>, names: Seq<(u64, String)>) -> Seq<char> {
    let v = digits_value(digits);
    if v > u64::MAX {
        mention
    } else {
        match name_of(names, v) {
            Some(n) => n,
            None => "<@"@ + decimal(v) + ">"@,
        }
    }
}

/// `s[i..]` with its mentions replaced, scanning from the left.
pub open spec fn replaced_from(s: Seq<char>, i: int, names: Seq<(u64, String)>) -> Seq<char>
    decreases s.len() - i,
{
    if i < 0 || i >= s.len() {
        Seq::empty()
    } else if mention_at(s, i) {
        let d = mention_digits_start(s, i);
        let e = mention_end(s, i);
        mention_text(s.subrange(i, e), s.subrange(d, d + digit_run(s, d)), names)
            + replaced_from(s, e, names)
    } else {
        seq![s[i]] + replaced_from(s, i + 1, names)
    }
}

/// The length of the run of digits at `i`.
fn digit_run_exec(cs: &Vec<char>, i: usize) -> (n: usize)
    requires
        i <= cs.len(),
    ensures
        n == digit_run(cs@, i as int),
        i + n <= cs.len(),
{
    let mut j: usize = i;
    while j < cs.len() && '0' <= cs[j] && cs[j] <= '9'
        invariant
            i <= j <= cs.len(),
            digit_run(cs@, i as int) == (j - i) + digit_run(cs@, j as int),
        decreases cs.len() - j,
    {
        j = j + 1;
    }
    j - i
}

/// The value of the digits `cs[from..to]`, if it fits in 64 bits.
fn digits_u64(cs: &Vec<char>, from: usize, to: usize) -> (r: Option<u64>)
    requires
        from <= to <= cs.len(),
        forall|k: int| from <= k < to ==> is_digit(#[trigger] cs@[k]),
    ensures
        match r {
            Some(v) => v == digits_value(cs@.subrange(from as int, to as int)),
            None => digits_value(cs@.subrange(from as int, to as int)) > u64::MAX,
        },
{
    let mut v: u64 = 0;
    let mut k: usize = from;
    assert(cs@.subrange(from as int, from as int) =~= Seq::<char>::empty());
    while k < to
        invariant
            from <= k <= to,
            to <= cs.len(),
            forall|j: int| from <= j < to ==> is_digit(#[trigger] cs@[j]),
            v == digits_value(cs@.subrange(from as int, k as int)),
        decreases to - k,
    {
        let ghost pre = cs@.subrange(from as int, k as int);
        assert(cs@.subrange(from as int, k + 1).drop_last() =~= pre);
        assert(is_digit(cs@[k as int]));
        let d: u64 = (cs[k] as u32 - '0' as u32) as u64;
        assert(d == (cs@[k as int] as nat) - ('0' as nat));
        if v > (u64::MAX - d) / 10 {
            proof {
                lemma_digits_grow(cs@.subrange(from as int, to as int), (k - from) as int);
                assert(cs@.subrange(from as int, to as int).subrange(0, (k - from) as int) =~= pre);
                assert(cs@.subrange(from as int, to as int).subrange(0, (k - from) + 1)
                    =~= cs@.subrange(from as int, k + 1));
                assert(v * 10 + d > u64::MAX) by (nonlinear_arith)
                    requires
                        v > (u64::MAX - d) / 10,
                        d <= 9,
                ;
            }
            return None;
        }
        assert(v * 10 + d <= u64::MAX) by (nonlinear_arith)
            requires
                v <= (u64::MAX - d) / 10,
                d <= 9,
        ;
        v = v * 10 + d;
        k = k + 1;
    }
    Some(v)
}

/// The name known for a user.
fn lookup_name(names: &Vec<(u64, String)>, id: u64) -> (r: Option<String>)
    ensures
        match (r, name_of(names@, id as nat)) {
            (Some(n), Some(m)) => n@ == m,
            (None, None) => true,
            _ => false,
        },
{
    let mut i: usize = 0;
    assert(names@.subrange(0, names.len() as int) =~= names@);
    while i < names.len()
        invariant
            i <= names.len(),
            name_of(names@, id as nat) == name_of(names@.subrange(i as int, names.len() as int), id as nat),
        decreases names.len() - i,
    {
        let ghost rest = names@.subrange(i as int, names.len() as int);
        assert(rest.drop_first() =~= names@.subrange(i + 1, names.len() as int));
        if names[i].0 == id {
            return Some(names[i].1.clone());
        }
        i = i + 1;
    }
    None
}

/// Whether a mention starts at `cs[i]`; if so, where its digits start and
/// how many there are.
fn find_mention(cs: &Vec<char>, i: usize) -> (r: Option<(usize, usize)>)
    requires
        i < cs.len(),
    ensures
        r is Some <==> mention_at(cs@, i as int),
        r matches Some((d, n)) ==> {
            &&& d == mention_digits_start(cs@, i as int)
            &&& n == digit_run(cs@, d as int)
            &&& d + n < cs.len()
            &&& forall|k: int| d <= k < d + n ==> is_digit(#[trigger] cs@[k])
        },
{
    if i + 1 < cs.len() && cs[i] == '<' && cs[i + 1] == '@' {
        let d: usize = if i + 2 < cs.len() && cs[i + 2] == '!' { i + 3 } else { i + 2 };
        assert(d as int == mention_digits_start(cs@, i as int));
        if d <= cs.len() {
            let n = digit_run_exec(cs, d);
            if n > 0 && d + n < cs.len() && cs[d + n] == '>' {
                proof {
                    assert forall|k: int| d <= k < d + n implies is_digit(#[trigger] cs@[k]) by {
                        lemma_run_digits(cs@, d as int, k);
                    }
                }
                return Some((d, n));
            }
        }
    }
    proof {
        if mention_at(cs@, i as int) {
            let d = mention_digits_start(cs@, i as int);
            lemma_run_bound(cs@, d);
        }
    }
    None
}

/// Replaces the user mentions of a text by the users' names.
pub fn replace_mentions(text: &str, names: &Vec<(u64, String)>) -> (r: String)
    ensures
        r@ == replaced_from(text@, 0, names@),
{
    let cs = to_chars(text);
    let mut out: Vec<char> = Vec::new();
    let mut i: usize = 0;
    while i < cs.len()
        invariant
            i <= cs.len(),
            cs@ == text@,
            out@ + replaced_from(cs@, i as int, names@) == replaced_from(cs@, 0, names@),
        decreases cs.len() - i,
    {
        let ghost before = out@;
        match find_mention(&cs, i) {
            Some((d, n)) => {
                let e = d + n + 1;
                let ghost mention = cs@.subrange(i as int, e as int);
                let ghost digits = cs@.subrange(d as int, (d + n) as int);
                match digits_u64(&cs, d, d + n) {
                    None => {
                        crate::text::append_range(&mut out, &cs, i, e);
                    },
                    Some(v) => match lookup_name(names, v) {
                        Some(name) => {
                            append_str(&mut out, name.as_str());
                        },
                        None => {
                            out.push('<');
                            out.push('@');
                            push_decimal(&mut out, v);
                            out.push('>');
                            assert(out@ =~= before + ("<@"@ + decimal(v as nat) + ">"@)) by {
                                reveal_strlit("<@");
                                reveal_strlit(">");
                            }
                        },
                    },
                }
                assert(out@ == before + mention_text(mention, digits, names@));
                assert(out@ + replaced_from(cs@, e as int, names@) =~= before + replaced_from(cs@, i as int, names@));
                i = e;
            },
            None => {
                out.push(cs[i]);
                assert(out@ + replaced_from(cs@, i + 1, names@) =~= before + replaced_from(cs@, i as int, names@));
                i = i + 1;
            },
        }
    }
    assert(out@ + replaced_from(cs@, i as int, names@) =~= out@);
    from_chars(&out)
}

/// The users mentioned in `s[i..]`, in order, by the numbers that fit in
/// 64 bits.
pub open spec fn mention_ids_from(s: Seq<char>, i: int) -> Seq<u64>
    decreases s.len() - i,
{
    if i < 0 || i >= s.len() {
        Seq::empty()
    } else if mention_at(s, i) {
        let d = mention_digits_start(s, i);
        let v = digits_value(s.subrange(d, d + digit_run(s, d)));
        let rest = mention_ids_from(s, mention_end(s, i));
        if v <= u64::MAX { seq![v as u64] + rest } else { rest }
    } else {
        mention_ids_from(s, i + 1)
    }
}

/// The users a text mentions, in order of appearance: the users whose
/// names the bot looks up before it writes the conversation.
pub fn mention_ids(text: &str) -> (r: Vec<u64>)
    ensures
        r@ == mention_ids_from(text@, 0),
{
    let cs = to_chars(text);
    let mut out: Vec<u64> = Vec::new();
    let mut i: usize = 0;
    while i < cs.len()
        invariant
            i <= cs.len(),
            cs@ == text@,
            out@ + mention_ids_from(cs@, i as int) == mention_ids_from(cs@, 0),
        decreases cs.len() - i,
    {
        let ghost before = out@;
        match find_mention(&cs, i) {
            Some((d, n)) => {
                match digits_u64(&cs, d, d + n) {
                    Some(v) => {
                        out.push(v);
                    },
                    None => {},
                }
                assert(out@ + mention_ids_from(cs@, (d + n + 1) as int) =~= before + mention_ids_from(cs@, i as int));
                i = d + n + 1;
            },
            None => {
                i = i + 1;
            },
        }
    }
    assert(out@ + mention_ids_from(cs@, i as int) =~= out@);
    out
}

/// The characters of a run of digits are digits.
proof fn lemma_run_digits(s: Seq<char>, i: int, k: int)
    requires
        i <= k < i + digit_run(s, i),
    ensures
        0 <= k < s.len(),
        is_digit(s[k]),
    decreases k - i,
{
    if k > i {
        lemma_run_digits(s, i + 1, k);
    }
}

/// A run of digits stays inside the text.
proof fn lemma_run_bound(s: Seq<char>, i: int)
    requires
        i >= 0,
    ensures
        i + digit_run(s, i) <= s.len() || digit_run(s, i) == 0,
    decreases s.len() - i,
{
    if 0 <= i < s.len() && is_digit(s[i]) {
        lemma_run_bound(s, i + 1);
    }
}

/// A text in which no mention starts is left as it is.
pub proof fn lemma_text_without_mentions_unchanged(s: Seq<char>, names: Seq<(u64, String)>)
    requires
        forall|i: int| 0 <= i < s.len() ==> !#[trigger] mention_at(s, i),
    ensures
        replaced_from(s, 0, names) == s,
{
    lemma_unchanged_from(s, 0, names);
    assert(s.subrange(0, s.len() as int) =~= s);
}

proof fn lemma_unchanged_from(s: Seq<char>, i: int, names: Seq<(u64, String)>)
    requires
        0 <= i <= s.len(),
        forall|j: int| 0 <= j < s.len() ==> !#[trigger] mention_at(s, j),
    ensures
        replaced_from(s, i, names) == s.subrange(i, s.len() as int),
    decreases s.len() - i,
{
    if i < s.len() {
        assert(!mention_at(s, i));
        lemma_unchanged_from(s, i + 1, names);
        assert(s.subrange(i, s.len() as int) =~= seq![s[i]] + s.subrange(i + 1, s.len() as int));
    } else {
        assert(s.subrange(i, s.len() as int) =~= Seq::<char>::empty());
    }
}

/// An author's name as the bot writes it: without leading dots.
pub open spec fn display_name(name: Seq<char>) -> Seq<char>
    decreases name.len(),
{
    if name.len() > 0 && name[0] == '.' { display_name(name.drop_first()) } else { name }
}

/// An author's name without its leading dots.
pub fn author_display_name(name: &str) -> (r: String)
    ensures
        r@ == display_name(name@),
{
    let cs = to_chars(name);
    let mut i: usize = 0;
    assert(cs@.subrange(0, cs.len() as int) =~= cs@);
    while i < cs.len() && cs[i] == '.'
        invariant
            i <= cs.len(),
            display_name(cs@) == display_name(cs@.subrange(i as int, cs.len() as int)),
        decreases cs.len() - i,
    {
        assert(cs@.subrange(i as int, cs.len() as int).drop_first() =~= cs@.subrange(i + 1, cs.len() as int));
        i = i + 1;
    }
    let rest = crate::text::slice_chars(&cs, i, cs.len());
    from_chars(&rest)
}

/// A message of the channel's history: `<author>: <content>`, from the
/// assistant when the bot wrote it.
pub fn history_message(author: &str, content: &str, from_bot: bool) -> (m: ChatMessage)
    ensures
        m.role == (if from_bot { MessageRole::Assistant } else { MessageRole::User }),
        m.content@ == display_name(author@) + ": "@ + content@,
        m.images is None,
{
    let name = author_display_name(author);
    let mut out: Vec<char> = Vec::new();
    append_str(&mut out, name.as_str());
    append_str(&mut out, ": ");
    append_str(&mut out, content);
    ChatMessage {
        role: if from_bot { MessageRole::Assistant } else { MessageRole::User },
        content: from_chars(&out),
        images: None,
    }
}

/// The system prompt that tells the model where it is and who it is.
pub open spec fn system_prompt_text(channel_name: Seq<char>, bot_name: Seq<char>, bot_id: Seq<char>) -> Seq<char> {
    "\n            ---\n            Context:\n            You are in a Discord server, in the group channel #"@
        + channel_name + ". \n            This is a multi-user conversation where different people are participating.\n            You are the bot named \""@
        + bot_name + "\" (ID: "@ + bot_id
        + "), and your role is to assist users by answering questions and helping with tasks.\n\n            Below is the recent message history leading up to the current user's message.\n            Each message is prefixed with the username of the person who sent it.\n            Respond naturally as \""@
        + bot_name + "\" and address users by their usernames when relevant.\n            ---\n            "@
}

/// The system prompt for a channel, a bot's name and its id.
pub fn system_prompt(channel_name: &str, bot_name: &str, bot_id: &str) -> (s: String)
    ensures
        s@ == system_prompt_text(channel_name@, bot_name@, bot_id@),
{
    let mut out: Vec<char> = Vec::new();
    append_str(&mut out, "\n            ---\n            Context:\n            You are in a Discord server, in the group channel #");
    append_str(&mut out, channel_name);
    append_str(&mut out, ". \n            This is a multi-user conversation where different people are participating.\n            You are the bot named \"");
    append_str(&mut out, bot_name);
    append_str(&mut out, "\" (ID: ");
    append_str(&mut out, bot_id);
    append_str(&mut out, "), and your role is to assist users by answering questions and helping with tasks.\n\n            Below is the recent message history leading up to the current user's message.\n            Each message is prefixed with the username of the person who sent it.\n            Respond naturally as \"");
    append_str(&mut out, bot_name);
    append_str(&mut out, "\" and address users by their usernames when relevant.\n            ---\n            ");
    from_chars(&out)
}

/// A message of the channel, as the bot reads it.
pub struct ChannelMessage {
    pub author_id: u64,
    pub author_name: String,
    pub content: String,
}

/// The channel's name, or `unknown-channel` where it has none (a direct
/// message).
pub open spec fn channel_label(name: Option<String>) -> Seq<char> {
    match name {
        Some(n) => n@,
        None => "unknown-channel"@,
    }
}

/// The names the bot knows: its own first, then those found for the
/// mentioned users other than itself.
pub fn known_names(bot_id: u64, bot_name: &str, found: &Vec<(u64, String)>) -> (r: Vec<(u64, String)>)
    ensures
        forall|id: nat| #[trigger] name_of(r@, id) == (if id == bot_id {
            Some(bot_name@)
        } else {
            name_of(found@, id)
        }),
{
    let mut r: Vec<(u64, String)> = Vec::new();
    r.push((bot_id, from_chars(&to_chars(bot_name))));
    let mut i: usize = 0;
    assert(r@.drop_first() =~= Seq::<(u64, String)>::empty());
    assert(found@.subrange(0, 0) =~= Seq::<(u64, String)>::empty());
    while i < found.len()
        invariant
            i <= found.len(),
            r@.len() >= 1,
            r@[0].0 == bot_id,
            r@[0].1@ == bot_name@,
            forall|id: nat| #[trigger] name_of(r@, id) == (if id == bot_id {
                Some(bot_name@)
            } else {
                name_of(found@.subrange(0, i as int), id)
            }),
        decreases found.len() - i,
    {
        let ghost old_r = r@;
        if found[i].0 != bot_id {
            r.push((found[i].0, found[i].1.clone()));
        }
        proof {
            assert forall|id: nat| #[trigger] name_of(r@, id) == (if id == bot_id {
                Some(bot_name@)
            } else {
                name_of(found@.subrange(0, i + 1), id)
            }) by {
                lemma_name_of_push(found@.subrange(0, i as int), found@[i as int], id);
                assert(found@.subrange(0, i + 1) =~= found@.subrange(0, i as int).push(found@[i as int]));
                if found@[i as int].0 != bot_id {
                    lemma_name_of_push(old_r, r@.last(), id);
                    assert(r@ =~= old_r.push(r@.last()));
                }
            }
        }
        i = i + 1;
    }
    assert(found@.subrange(0, found.len() as int) =~= found@);
    r
}

/// A name looked up in a list with one more entry at its end.
proof fn lemma_name_of_push(names: Seq<(u64, String)>, last: (u64, String), id: nat)
    ensures
        name_of(names.push(last), id) == (match name_of(names, id) {
            Some(n) => Some(n),
            None => if last.0 == id { Some(last.1@) } else { None },
        }),
    decreases names.len(),
{
    if names.len() > 0 {
        assert(names.push(last)[0] == names[0]);
        assert(names.push(last).drop_first() =~= names.drop_first().push(last));
        lemma_name_of_push(names.drop_first(), last, id);
    } else {
        assert(names.push(last)[0] == last);
        assert(names.push(last).drop_first() =~= Seq::<(u64, String)>::empty());
        assert(name_of(names.push(last).drop_first(), id) is None);
    }
}

/// The message of the conversation that a message of the channel becomes.
pub open spec fn history_entry(m: ChannelMessage, bot_id: u64, names: Seq<(u64, String)>) -> (MessageRole, Seq<char>) {
    (
        if m.author_id == bot_id { MessageRole::Assistant } else { MessageRole::User },
        display_name(m.author_name@) + ": "@ + replaced_from(m.content@, 0, names),
    )
}

/// The conversation the chat model is sent: the system prompt, then the
/// channel's recent messages (given newest first) from the oldest on.
pub fn build_conversation(
    channel_name: Option<String>,
    bot_name: &str,
    bot_id: u64,
    messages: &Vec<ChannelMessage>,
    names: &Vec<(u64, String)>,
) -> (c: Vec<ChatMessage>)
    ensures
        c.len() == messages.len() + 1,
        c[0].role == MessageRole::System,
        c[0].content@ == system_prompt_text(channel_label(channel_name), bot_name@, decimal(bot_id as nat)),
        forall|k: int| 0 <= k < c.len() ==> (#[trigger] c[k]).images is None,
        forall|k: int| 0 <= k < messages.len() ==> {
            let e = history_entry(messages[messages.len() - 1 - k], bot_id, names@);
            &&& (#[trigger] c[k + 1]).role == e.0
            &&& c[k + 1].content@ == e.1
        },
{
    let label = match channel_name {
        Some(n) => n,
        None => from_chars(&to_chars("unknown-channel")),
    };
    let mut id_chars: Vec<char> = Vec::new();
    push_decimal(&mut id_chars, bot_id);
    let id_text = from_chars(&id_chars);
    let prompt = system_prompt(label.as_str(), bot_name, id_text.as_str());
    let mut c: Vec<ChatMessage> = Vec::new();
    c.push(ChatMessage { role: MessageRole::System, content: prompt, images: None });
    let n = messages.len();
    let mut k: usize = 0;
    while k < n
        invariant
            n == messages.len(),
            k <= n,
            c.len() == k + 1,
            c[0].role == MessageRole::System,
            c[0].content@ == system_prompt_text(channel_label(channel_name), bot_name@, decimal(bot_id as nat)),
            forall|j: int| 0 <= j < c.len() ==> (#[trigger] c[j]).images is None,
            forall|j: int| 0 <= j < k ==> {
                let e = history_entry(messages[n - 1 - j], bot_id, names@);
                &&& (#[trigger] c[j + 1]).role == e.0
                &&& c[j + 1].content@ == e.1
            },
        decreases n - k,
    {
        let m = &messages[n - 1 - k];
        let content = replace_mentions(m.content.as_str(), names);
        let entry = history_message(m.author_name.as_str(), content.as_str(), m.author_id == bot_id);
        c.push(entry);
        k = k + 1;
    }
    c
}

} // verus!
