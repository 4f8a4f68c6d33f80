//! Finding the recognised text in the answer of a recogniser.
//!
//! An answer is a tree of values. Objects hold their members in the order in
//! which the answer is walked; every key occurs once.

use crate::text::{str_eq, texts, trim, trimmed};
use vstd::prelude::*;
use vstd::string::StringExecFns;

verus! {

/// A value of an answer. What a number holds is never read.
#[derive(Debug)]
pub enum JsonValue {
    Null,
    Bool(bool),
    Number,
    Text(String),
    Array(Vec<JsonValue>),
    Object(Vec<(String, JsonValue)>),
}

/// The parts from index `from` on, each two separated by `separator`.
pub open spec fn joined_from(parts: Seq<Seq<char>>, separator: Seq<char>, from: int) -> Seq<char>
    decreases parts.len() - from,
{
    if from < 0 || from >= parts.len() {
        seq![]
    } else if from == parts.len() - 1 {
        parts[from]
    } else {
        parts[from] + separator + joined_from(parts, separator, from + 1)
    }
}

/// The parts, each two separated by a line break.
pub open spec fn joined_lines(parts: Seq<Seq<char>>) -> Seq<char> {
    joined_from(parts, "\n"@, 0)
}

/// The member of an object under `key`, looked for from index `from` on.
pub open spec fn member_from(members: Seq<(String, JsonValue)>, key: Seq<char>, from: int) -> Option<
    JsonValue,
>
    decreases members.len() - from,
{
    if from < 0 || from >= members.len() {
        None
    } else if members[from].0@ == key {
        Some(members[from].1)
    } else {
        member_from(members, key, from + 1)
    }
}

impl JsonValue {
    /// The member under `key`, if the value is an object that has one.
    pub open spec fn member(self, key: Seq<char>) -> Option<JsonValue> {
        match self {
            JsonValue::Object(members) => member_from(members@, key, 0),
            _ => None,
        }
    }

    /// The characters of the value, if it is a text.
    pub open spec fn text(self) -> Option<Seq<char>> {
        match self {
            JsonValue::Text(t) => Some(t@),
            _ => None,
        }
    }

    /// The text under `key` without surrounding white space, if the value is
    /// an object with a text there of which something is left.
    pub open spec fn text_piece(self, key: Seq<char>) -> Option<Seq<char>> {
        match self.member(key) {
            Some(JsonValue::Text(t)) => if trimmed(t@).len() > 0 {
                Some(trimmed(t@))
            } else {
                None
            },
            _ => None,
        }
    }

    /// Looks up the member under `key`.
    pub fn get(&self, key: &str) -> (found: Option<&JsonValue>)
        ensures
            match found {
                Some(v) => self.member(key@) == Some(*v),
                None => self.member(key@) is None,
            },
    {
        match self {
            JsonValue::Object(members) => {
                let mut i: usize = 0;
                while i < members.len()
                    invariant
                        i <= members@.len(),
                        self.member(key@) == member_from(members@, key@, 0),
                        member_from(members@, key@, 0) == member_from(members@, key@, i as int),
                    decreases members@.len() - i,
                {
                    if str_eq(members[i].0.as_str(), key) {
                        return Some(&members[i].1);
                    }
                    i += 1;
                }
                None
            },
            _ => None,
        }
    }

    /// The text that the value is, if it is one.
    pub fn as_str(&self) -> (found: Option<&str>)
        ensures
            match found {
                Some(t) => self.text() == Some(t@),
                None => self.text() is None,
            },
    {
        match self {
            JsonValue::Text(t) => Some(t.as_str()),
            _ => None,
        }
    }
}

/// Joins the parts, each two separated by a line break.
pub fn join_lines(parts: &Vec<String>) -> (joined: String)
    ensures
        joined@ == joined_lines(texts(parts@)),
{
    let mut joined = String::new();
    let mut i: usize = parts.len();
    while i > 0
        invariant
            i <= parts@.len(),
            joined@ == joined_from(texts(parts@), "\n"@, i as int),
        decreases i,
    {
        i -= 1;
        let mut head = parts[i].clone();
        if i + 1 < parts.len() {
            head.append("\n");
            head.append(joined.as_str());
        }
        joined = head;
    }
    joined
}

/// The texts of the items of a content list: of each item that is an object
/// with a text under `text`, that text without surrounding white space,
/// unless nothing is left of it.
pub open spec fn content_pieces(items: Seq<JsonValue>, from: int) -> Seq<Seq<char>>
    decreases items.len() - from,
{
    if from < 0 || from >= items.len() {
        seq![]
    } else {
        (match items[from].text_piece("text"@) {
            Some(piece) => seq![piece],
            None => seq![],
        }) + content_pieces(items, from + 1)
    }
}

/// The content of the first choice of a chat answer, if the answer has the
/// shape of one.
pub open spec fn first_choice_content(payload: JsonValue) -> Option<JsonValue> {
    match payload.member("choices"@) {
        Some(JsonValue::Array(choices)) => if choices@.len() > 0 {
            match choices@[0].member("message"@) {
                Some(message) => message.member("content"@),
                None => None,
            }
        } else {
            None
        },
        _ => None,
    }
}

/// The text of a chat answer: the content of the first choice where that is
/// a text; where it is a list, the texts of its items, one to a line, unless
/// they come to nothing but white space.
pub open spec fn openai_text(payload: JsonValue) -> Option<Seq<char>> {
    match first_choice_content(payload) {
        Some(JsonValue::Text(t)) => Some(t@),
        Some(JsonValue::Array(items)) => {
            let lines = joined_lines(content_pieces(items@, 0));
            if trimmed(lines).len() > 0 {
                Some(lines)
            } else {
                None
            }
        },
        _ => None,
    }
}

fn first_choice(payload: &JsonValue) -> (content: Option<&JsonValue>)
    ensures
        match content {
            Some(c) => first_choice_content(*payload) == Some(*c),
            None => first_choice_content(*payload) is None,
        },
{
    match payload.get("choices") {
        Some(JsonValue::Array(choices)) => {
            if choices.len() == 0 {
                return None;
            }
            match choices[0].get("message") {
                Some(message) => message.get("content"),
                None => None,
            }
        },
        _ => None,
    }
}

fn text_piece_of(value: &JsonValue, key: &str) -> (piece: Option<String>)
    ensures
        match piece {
            Some(p) => value.text_piece(key@) == Some(p@),
            None => value.text_piece(key@) is None,
        },
{
    match value.get(key) {
        Some(JsonValue::Text(t)) => {
            let piece = trim(t.as_str());
            if piece.is_empty() {
                None
            } else {
                Some(piece.to_owned())
            }
        },
        _ => None,
    }
}

/// Finds the text in the answer to a chat request.
pub fn extract_ocr_text_from_openai_response(payload: &JsonValue) -> (found: Option<String>)
    ensures
        match found {
            Some(t) => openai_text(*payload) == Some(t@),
            None => openai_text(*payload) is None,
        },
{
    match first_choice(payload) {
        Some(JsonValue::Text(t)) => Some(t.clone()),
        Some(JsonValue::Array(items)) => {
            let mut pieces: Vec<String> = Vec::new();
            let mut i: usize = 0;
            while i < items.len()
                invariant
                    i <= items@.len(),
                    texts(pieces@) + content_pieces(items@, i as int) == content_pieces(items@, 0),
                decreases items@.len() - i,
            {
                match text_piece_of(&items[i], "text") {
                    Some(piece) => {
                        pieces.push(piece);
                    },
                    None => {},
                }
                i += 1;
            }
            let lines = join_lines(&pieces);
            if trim(lines.as_str()).is_empty() {
                None
            } else {
                Some(lines)
            }
        },
        _ => None,
    }
}

/// Whether texts are gathered from under this key.
pub open spec fn is_text_key(key: Seq<char>) -> bool {
    ||| key == "text"@
    ||| key == "content"@
    ||| key == "ocr_text"@
    ||| key == "result_text"@
    ||| key == "line_text"@
    ||| key == "word"@
}

fn key_holds_text(key: &str) -> (holds: bool)
    ensures
        holds == is_text_key(key@),
{
    str_eq(key, "text") || str_eq(key, "content") || str_eq(key, "ocr_text") || str_eq(
        key,
        "result_text",
    ) || str_eq(key, "line_text") || str_eq(key, "word")
}

/// The texts in a value, in the order in which the value is walked: where a
/// member of an object has a key from which texts are gathered and is a text
/// of which something is left without white space, that is taken; any other
/// member, and every item of a list, is walked in turn.
pub open spec fn fragments_of(value: JsonValue) -> Seq<Seq<char>>
    decreases value,
{
    match value {
        JsonValue::Object(members) => fragments_of_members(members@, 0),
        JsonValue::Array(items) => fragments_of_items(items@, 0),
        _ => seq![],
    }
}

/// The texts in the members of an object from index `from` on.
pub open spec fn fragments_of_members(members: Seq<(String, JsonValue)>, from: int) -> Seq<Seq<char>>
    decreases members, members.len() - from,
{
    if from < 0 || from >= members.len() {
        seq![]
    } else {
        fragments_of_member(members[from]) + fragments_of_members(members, from + 1)
    }
}

/// The texts in one member of an object.
pub open spec fn fragments_of_member(member: (String, JsonValue)) -> Seq<Seq<char>>
    decreases member,
{
    if is_text_key(member.0@) && (member.1.text() matches Some(t) && trimmed(t).len() > 0) {
        seq![trimmed(member.1.text()->0)]
    } else {
        fragments_of(member.1)
    }
}

/// The texts in the items of a list from index `from` on.
pub open spec fn fragments_of_items(items: Seq<JsonValue>, from: int) -> Seq<Seq<char>>
    decreases items, items.len() - from,
{
    if from < 0 || from >= items.len() {
        seq![]
    } else {
        fragments_of(items[from]) + fragments_of_items(items, from + 1)
    }
}

/// Gathers the texts in a value behind those already gathered.
#[verifier::loop_isolation(false)]
pub fn collect_text_fragments(value: &JsonValue, fragments: &mut Vec<String>)
    ensures
        texts(final(fragments)@) == texts(old(fragments)@) + fragments_of(*value),
    decreases value,
{
    let ghost start = texts(fragments@);
    match value {
        JsonValue::Object(members) => {
            let mut i: usize = 0;
            while i < members.len()
                invariant
                    i <= members@.len(),
                    texts(fragments@) + fragments_of_members(members@, i as int) == start
                        + fragments_of(*value),
                decreases members@.len() - i,
            {
                let ghost before = texts(fragments@);
                let member = &members[i];
                let mut taken = false;
                if key_holds_text(member.0.as_str()) {
                    match &member.1 {
                        JsonValue::Text(t) => {
                            let piece = trim(t.as_str());
                            if !piece.is_empty() {
                                fragments.push(piece.to_owned());
                                taken = true;
                            }
                        },
                        _ => {},
                    }
                }
                if !taken {
                    collect_text_fragments(&member.1, fragments);
                }
                assert(texts(fragments@) == before + fragments_of_member(members@[i as int]));
                i += 1;
            }
        },
        JsonValue::Array(items) => {
            let mut i: usize = 0;
            while i < items.len()
                invariant
                    i <= items@.len(),
                    texts(fragments@) + fragments_of_items(items@, i as int) == start
                        + fragments_of(*value),
                decreases items@.len() - i,
            {
                collect_text_fragments(&items[i], fragments);
                i += 1;
            }
        },
        _ => {},
    }
}

/// The text of a layout answer: the text under `text` where something is
/// left of it without white space; else the texts gathered from the whole
/// answer, one to a line, where something is left of them; else what the
/// answer holds as a chat answer. The first two come without surrounding
/// white space.
pub open spec fn glm_layout_text(payload: JsonValue) -> Option<Seq<char>> {
    match payload.text_piece("text"@) {
        Some(piece) => Some(piece),
        None => {
            let merged = joined_lines(fragments_of(payload));
            if fragments_of(payload).len() > 0 && trimmed(merged).len() > 0 {
                Some(trimmed(merged))
            } else {
                openai_text(payload)
            }
        },
    }
}

/// Finds the text in the answer to a layout request.
pub fn extract_text_from_glm_layout_response(payload: &JsonValue) -> (found: Option<String>)
    ensures
        match found {
            Some(t) => glm_layout_text(*payload) == Some(t@),
            None => glm_layout_text(*payload) is None,
        },
{
    match text_piece_of(payload, "text") {
        Some(piece) => {
            return Some(piece);
        },
        None => {},
    }
    let mut fragments: Vec<String> = Vec::new();
    collect_text_fragments(payload, &mut fragments);
    if fragments.len() > 0 {
        let merged = join_lines(&fragments);
        let kept = trim(merged.as_str());
        if !kept.is_empty() {
            return Some(kept.to_owned());
        }
    }
    extract_ocr_text_from_openai_response(payload)
}

} // verus!
