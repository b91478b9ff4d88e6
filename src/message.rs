//! Messages received while live-tailing a topic, how their bodies are shown,
//! and the collection that holds them.

use vstd::prelude::*;
use vstd::utf8::{decode_utf8, valid_utf8};

use crate::resources::{clamp_cursor, cursor_ok, Search};
use crate::text::{contains_seq, push_char, remove_spaces, str_contains, without_spaces};

verus! {

/// A message: its raw body and its properties, each written `key:value`.
#[derive(Clone, Debug)]
pub struct SubMessage {
    pub body: Vec<u8>,
    pub properties: Vec<String>,
}

/// The characters of each string, in order.
pub open spec fn strings_view(s: Seq<String>) -> Seq<Seq<char>> {
    s.map_values(|p: String| p@)
}

impl View for SubMessage {
    type V = (Seq<u8>, Seq<Seq<char>>);

    open spec fn view(&self) -> (Seq<u8>, Seq<Seq<char>>) {
        (self.body@, strings_view(self.properties@))
    }
}

/// The model of each message, in order.
pub open spec fn messages_view(s: Seq<SubMessage>) -> Seq<(Seq<u8>, Seq<Seq<char>>)> {
    s.map_values(|m: SubMessage| m@)
}

/// A name for what serde_json makes of `body` when it parses it as JSON and
/// writes it back indented; `None` when `body` is not JSON.
pub uninterp spec fn json_pretty_of(body: Seq<u8>) -> Option<Seq<char>>;

/// A name for what serde_json makes of `body` when it parses it as JSON and
/// writes it back on one line; `None` when `body` is not JSON.
pub uninterp spec fn json_compact_of(body: Seq<u8>) -> Option<Seq<char>>;

/// Relies on `serde_json::from_slice` into a `Value` and
/// `serde_json::to_string_pretty` of it: the indented JSON text, or `None`
/// when parsing fails.
#[verifier::external_body]
fn json_pretty(body: &[u8]) -> (r: Option<String>)
    ensures
        match r {
            Some(s) => json_pretty_of(body@) == Some(s@),
            None => json_pretty_of(body@) is None,
        },
{
    serde_json::from_slice::<serde_json::Value>(body).and_then(
        |v| serde_json::to_string_pretty(&v),
    ).ok()
}

/// Relies on `serde_json::from_slice` into a `Value` and `serde_json::to_string`
/// of it: the one-line JSON text, or `None` when parsing fails.
#[verifier::external_body]
fn json_compact(body: &[u8]) -> (r: Option<String>)
    ensures
        match r {
            Some(s) => json_compact_of(body@) == Some(s@),
            None => json_compact_of(body@) is None,
        },
{
    serde_json::from_slice::<serde_json::Value>(body).and_then(|v| serde_json::to_string(&v)).ok()
}

/// Relies on `std::str::from_utf8`: succeeds exactly on valid UTF-8, and
/// then yields the decoded characters.
#[verifier::external_body]
fn utf8_text(body: &[u8]) -> (r: Option<&str>)
    ensures
        r is Some <==> valid_utf8(body@),
        r matches Some(s) ==> s@ == decode_utf8(body@),
{
    std::str::from_utf8(body).ok()
}

/// Text shown for a body that is neither JSON nor UTF-8.
pub open spec fn undecodable_text() -> Seq<char> {
    seq![
        'c', 'a', 'n', '\'', 't', ' ', 'd', 'e', 'c', 'o', 'd', 'e', ' ', 't', 'h', 'e', ' ', 'b',
        'o', 'd', 'y',
    ]
}

/// How a body is shown: its JSON rendering when it has one, else its text
/// when it is UTF-8, else a fixed notice.
pub open spec fn body_display(json: Option<Seq<char>>, body: Seq<u8>) -> Seq<char> {
    match json {
        Some(t) => t,
        None => if valid_utf8(body) {
            decode_utf8(body)
        } else {
            undecodable_text()
        },
    }
}

/// Property lines joined by line breaks.
pub open spec fn joined_lines(p: Seq<Seq<char>>) -> Seq<char>
    decreases p.len(),
{
    if p.len() == 0 {
        Seq::empty()
    } else if p.len() == 1 {
        p[0]
    } else {
        joined_lines(p.drop_last()).push('\n') + p.last()
    }
}

/// The text copied out for a message: its properties, a blank line, its body.
pub open spec fn message_display(props: Seq<Seq<char>>, body: Seq<char>) -> Seq<char> {
    joined_lines(props).push('\n').push('\n') + body
}

fn notice() -> (r: String)
    ensures
        r@ == undecodable_text(),
{
    let mut r = String::new();
    let s = "can't decode the body";
    for c in it: s.chars()
        invariant
            it.seq() == s@,
            r@ == s@.subrange(0, it.index() as int),
    {
        push_char(&mut r, c);
        proof {
            assert(s@.subrange(0, it.index() as int + 1) == s@.subrange(0, it.index() as int).push(c));
        }
    }
    proof {
        reveal_strlit("can't decode the body");
        assert(s@.subrange(0, s@.len() as int) == s@);
    }
    r
}

/// Shows a body given what the JSON rendering made of it.
pub fn render_body(json: Option<String>, body: &[u8]) -> (r: String)
    ensures
        r@ == body_display(
            match json {
                Some(s) => Some(s@),
                None => None,
            },
            body@,
        ),
{
    match json {
        Some(s) => s,
        None => match utf8_text(body) {
            Some(t) => t.to_owned(),
            None => notice(),
        },
    }
}

/// A property as shown with a message: `key:value`.
pub fn format_property(key: &str, value: &str) -> (r: String)
    ensures
        r@ == key@.push(':') + value@,
{
    let mut r = key.to_owned();
    push_char(&mut r, ':');
    r.append(value);
    r
}

impl SubMessage {
    /// Properties, one per line, then a blank line, then the indented body.
    pub fn as_pretty_str(&self) -> (r: String)
        ensures
            r@ == message_display(
                strings_view(self.properties@),
                body_display(json_pretty_of(self.body@), self.body@),
            ),
    {
        let body = self.body_as_pretty_str();
        let mut r = String::new();
        let mut i: usize = 0;
        while i < self.properties.len()
            invariant
                i <= self.properties@.len(),
                r@ == joined_lines(strings_view(self.properties@).subrange(0, i as int)),
            decreases self.properties@.len() - i,
        {
            proof {
                let p = strings_view(self.properties@);
                assert(p.subrange(0, i + 1).drop_last() == p.subrange(0, i as int));
            }
            if i > 0 {
                push_char(&mut r, '\n');
            }
            r.append(self.properties[i].as_str());
            i = i + 1;
        }
        proof {
            let p = strings_view(self.properties@);
            assert(p.subrange(0, p.len() as int) == p);
        }
        push_char(&mut r, '\n');
        push_char(&mut r, '\n');
        r.append(body.as_str());
        r
    }

    /// The body as indented JSON, else as text, else a notice.
    pub fn body_as_pretty_str(&self) -> (r: String)
        ensures
            r@ == body_display(json_pretty_of(self.body@), self.body@),
    {
        render_body(json_pretty(self.body.as_slice()), self.body.as_slice())
    }

    /// The body as one-line JSON, else as text, else a notice.
    pub fn body_as_str(&self) -> (r: String)
        ensures
            r@ == body_display(json_compact_of(self.body@), self.body@),
    {
        render_body(json_compact(self.body.as_slice()), self.body.as_slice())
    }

    /// A copy with the same body and properties.
    pub fn copied(&self) -> (r: SubMessage)
        ensures
            r@ == self@,
    {
        let mut body: Vec<u8> = Vec::new();
        let mut i: usize = 0;
        while i < self.body.len()
            invariant
                i <= self.body@.len(),
                body@ == self.body@.subrange(0, i as int),
            decreases self.body@.len() - i,
        {
            body.push(self.body[i]);
            i = i + 1;
        }
        let mut properties: Vec<String> = Vec::new();
        let mut j: usize = 0;
        while j < self.properties.len()
            invariant
                j <= self.properties@.len(),
                strings_view(properties@) == strings_view(self.properties@).subrange(0, j as int),
            decreases self.properties@.len() - j,
        {
            let p = self.properties[j].clone();
            assert(p@ == self.properties@[j as int]@);
            let ghost before = properties@;
            properties.push(p);
            proof {
                assert(properties@ == before.push(p));
                assert(strings_view(before) == strings_view(self.properties@).subrange(0, j as int));
                assert(strings_view(before.push(p)) =~= strings_view(before).push(p@));
                assert(strings_view(properties@) =~= strings_view(self.properties@).subrange(
                    0,
                    j + 1,
                ));
            }
            j = j + 1;
        }
        proof {
            assert(body@ =~= self.body@);
            assert(strings_view(properties@) =~= strings_view(self.properties@));
        }
        SubMessage { body, properties }
    }
}


/// Which panel of the live-tail view has the focus; the preview panel
/// carries how far it is scrolled.
#[derive(Clone, Copy, Debug, PartialEq, Eq, Structural)]
pub enum SelectedPanel {
    Left,
    Right { scroll_offset: u16 },
}

/// A message is kept by a search text when the text occurs in its body,
/// decoded as UTF-8, or in one of its properties. A body that does not
/// decode matches nothing, but its properties still do.
pub open spec fn message_matches(m: (Seq<u8>, Seq<Seq<char>>), q: Seq<char>) -> bool {
    ||| (valid_utf8(m.0) && contains_seq(decode_utf8(m.0), q))
    ||| exists|i: int| 0 <= i < m.1.len() && contains_seq(#[trigger] m.1[i], q)
}

/// The messages of `s` that a search text keeps, in order.
pub open spec fn keep_messages(s: Seq<(Seq<u8>, Seq<Seq<char>>)>, q: Seq<char>) -> Seq<
    (Seq<u8>, Seq<Seq<char>>),
>
    decreases s.len(),
{
    if s.len() == 0 {
        Seq::empty()
    } else if message_matches(s.last(), q) {
        keep_messages(s.drop_last(), q).push(s.last())
    } else {
        keep_messages(s.drop_last(), q)
    }
}

/// The text messages are searched for: the search value without spaces.
pub open spec fn message_query(search: Option<Search>) -> Option<Seq<char>> {
    match search {
        Some(s) => Some(without_spaces(s.value@)),
        None => None,
    }
}

/// The messages shown under an optional search text.
pub open spec fn messages_shown(
    all: Seq<(Seq<u8>, Seq<Seq<char>>)>,
    q: Option<Seq<char>>,
) -> Seq<(Seq<u8>, Seq<Seq<char>>)> {
    match q {
        Some(q) => keep_messages(all, q),
        None => all,
    }
}

/// Whether a search text keeps a message.
pub fn message_is_kept(m: &SubMessage, q: &str) -> (r: bool)
    ensures
        r == message_matches(m@, q@),
{
    let body_hit = match utf8_text(m.body.as_slice()) {
        Some(text) => str_contains(text, q),
        None => false,
    };
    if body_hit {
        return true;
    }
    let mut i: usize = 0;
    while i < m.properties.len()
        invariant
            i <= m.properties@.len(),
            !(valid_utf8(m@.0) && contains_seq(decode_utf8(m@.0), q@)),
            forall|j: int| 0 <= j < i ==> !contains_seq(#[trigger] m@.1[j], q@),
        decreases m.properties@.len() - i,
    {
        if str_contains(m.properties[i].as_str(), q) {
            assert(m@.1[i as int] == m.properties@[i as int]@);
            assert(contains_seq(m@.1[i as int], q@));
            assert(i < m@.1.len());
            return true;
        }
        i = i + 1;
    }
    false
}

/// The live-tail collection: every message received so far, those that the
/// search keeps, the cursor over those, and the panel focus.
#[derive(Clone)]
pub struct Listening {
    pub messages: Vec<SubMessage>,
    pub filtered_messages: Vec<SubMessage>,
    pub panel: SelectedPanel,
    pub cursor: Option<usize>,
    pub search: Option<Search>,
}

impl Listening {
    /// No messages, no search, focus on the message list.
    pub fn new() -> (r: Listening)
        ensures
            r.messages@.len() == 0,
            r.filtered_messages@.len() == 0,
            r.panel == SelectedPanel::Left,
            r.cursor is None,
            r.search is None,
    {
        Listening {
            messages: Vec::new(),
            filtered_messages: Vec::new(),
            panel: SelectedPanel::Left,
            cursor: None,
            search: None,
        }
    }

    /// Re-derives the shown messages from all messages and the search. With
    /// `reset_cursor` the cursor goes to the first shown message; without it
    /// the cursor stays wherever it still fits.
    pub fn filter(&mut self, reset_cursor: bool)
        ensures
            messages_view(final(self).filtered_messages@) == messages_shown(
                messages_view(old(self).messages@),
                message_query(old(self).search),
            ),
            final(self).messages == old(self).messages,
            final(self).search == old(self).search,
            final(self).panel == old(self).panel,
            final(self).cursor == (if reset_cursor {
                clamp_cursor(None, final(self).filtered_messages@.len())
            } else {
                clamp_cursor(old(self).cursor, final(self).filtered_messages@.len())
            }),
            cursor_ok(final(self).cursor, final(self).filtered_messages@.len()),
    {
        let q: Option<String> = match &self.search {
            Some(s) => Some(remove_spaces(s.value.as_str())),
            None => None,
        };
        let mut shown: Vec<SubMessage> = Vec::new();
        let mut i: usize = 0;
        while i < self.messages.len()
            invariant
                i <= self.messages@.len(),
                match q {
                    Some(q) => messages_view(shown@) == keep_messages(
                        messages_view(self.messages@).subrange(0, i as int),
                        q@,
                    ),
                    None => messages_view(shown@) == messages_view(self.messages@).subrange(
                        0,
                        i as int,
                    ),
                },
                q matches Some(t) ==> self.search matches Some(s) && t@ == without_spaces(s.value@),
                q is None ==> self.search is None,
            decreases self.messages@.len() - i,
        {
            let ghost all = messages_view(self.messages@);
            proof {
                assert(all.subrange(0, i + 1).drop_last() == all.subrange(0, i as int));
                assert(all.subrange(0, i + 1).last() == self.messages@[i as int]@);
            }
            let keep = match &q {
                Some(t) => message_is_kept(&self.messages[i], t.as_str()),
                None => true,
            };
            let ghost before = shown@;
            if keep {
                let m = self.messages[i].copied();
                shown.push(m);
                proof {
                    assert(messages_view(before.push(m)) =~= messages_view(before).push(m@));
                }
            }
            proof {
                assert(all.subrange(0, i + 1) =~= all.subrange(0, i as int).push(all[i as int]));
                if q is None {
                    assert(messages_view(shown@) =~= all.subrange(0, i + 1));
                }
            }
            i = i + 1;
        }
        proof {
            assert(messages_view(self.messages@).subrange(0, self.messages@.len() as int)
                == messages_view(self.messages@));
        }
        let mut cursor = if reset_cursor {
            None
        } else {
            self.cursor
        };
        crate::resources::reset_cursor(shown.as_slice(), &mut cursor);
        self.filtered_messages = shown;
        self.cursor = cursor;
    }

    /// Drops the search and shows every message again.
    pub fn reset_search(&mut self)
        ensures
            final(self).search is None,
            final(self).messages == old(self).messages,
            messages_view(final(self).filtered_messages@) == messages_view(old(self).messages@),
            final(self).panel == old(self).panel,
            final(self).cursor == clamp_cursor(old(self).cursor, final(self).filtered_messages@.len()),
            cursor_ok(final(self).cursor, final(self).filtered_messages@.len()),
    {
        self.search = None;
        self.filter(false);
    }

    /// Starts an empty search that takes typed characters.
    pub fn init_search(&mut self)
        ensures
            final(self).search matches Some(s) && s.value@.len() == 0 && s.expecting_input,
            final(self).messages == old(self).messages,
            final(self).filtered_messages == old(self).filtered_messages,
            final(self).panel == old(self).panel,
            final(self).cursor == old(self).cursor,
    {
        self.search = Some(Search::new());
    }

    /// Appends a newly received message and re-derives the shown messages
    /// without moving the cursor, which is set to the first shown message
    /// only when there was none.
    pub fn push_message(&mut self, m: SubMessage)
        ensures
            messages_view(final(self).messages@) == messages_view(old(self).messages@).push(m@),
            messages_view(final(self).filtered_messages@) == messages_shown(
                messages_view(final(self).messages@),
                message_query(old(self).search),
            ),
            final(self).search == old(self).search,
            final(self).panel == old(self).panel,
            final(self).cursor == clamp_cursor(
                old(self).cursor,
                final(self).filtered_messages@.len(),
            ),
            cursor_ok(final(self).cursor, final(self).filtered_messages@.len()),
    {
        let ghost before = self.messages@;
        self.messages.push(m);
        proof {
            assert(messages_view(before.push(m)) =~= messages_view(before).push(m@));
        }
        self.filter(false);
    }
}

} // verus!
