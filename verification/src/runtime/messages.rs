//! Texts the login and push flow shows: push summaries, formatted user codes,
//! error labels.

use vstd::prelude::*;

use crate::runtime::types::{
    opt_string_view, Channel9LoginBlock, DeviceMessage, PayloadField, PayloadFieldView, PushPayload,
    PushPayloadView,
};
use crate::text::{
    ascii_upper, char_is_ascii_alnum, char_to_ascii_upper, is_ascii_alnum, push_char, push_prefix,
    push_str, str_eq, substring, take_chars, trim, trim_str,
};

verus! {

/// Text of the first field named `key` at or after index `i`, when that
/// field's value is a string.
pub open spec fn field_text_from(fields: Seq<PayloadFieldView>, key: Seq<char>, i: int) -> Option<
    Seq<char>,
>
    decreases fields.len() - i,
{
    if i < 0 || i >= fields.len() {
        None
    } else if fields[i].key == key {
        fields[i].text
    } else {
        field_text_from(fields, key, i + 1)
    }
}

/// A string value worth showing: trimmed, non-empty, cut to 64 characters.
pub open spec fn usable_text(t: Option<Seq<char>>) -> Option<Seq<char>> {
    match t {
        Some(v) => if trim(v).len() > 0 {
            Some(take_chars(trim(v), 64))
        } else {
            None
        },
        None => None,
    }
}

pub open spec fn key_text(fields: Seq<PayloadFieldView>, key: Seq<char>) -> Option<Seq<char>> {
    usable_text(field_text_from(fields, key, 0))
}

pub open spec fn or_else(a: Option<Seq<char>>, b: Option<Seq<char>>) -> Option<Seq<char>> {
    match a {
        Some(v) => Some(v),
        None => b,
    }
}

/// Shown text of an object payload: the first usable value among the keys
/// "suggestion", "title", "message", "text", "body", "content".
pub open spec fn object_display_text(fields: Seq<PayloadFieldView>) -> Option<Seq<char>> {
    or_else(
        key_text(fields, "suggestion"@),
        or_else(
            key_text(fields, "title"@),
            or_else(
                key_text(fields, "message"@),
                or_else(
                    key_text(fields, "text"@),
                    or_else(key_text(fields, "body"@), key_text(fields, "content"@)),
                ),
            ),
        ),
    )
}

/// The headline of a push message.
pub open spec fn display_text_of(p: PushPayloadView) -> Seq<char> {
    let found = match p {
        PushPayloadView::Object(fields) => object_display_text(fields),
        PushPayloadView::Text(s) => usable_text(Some(s)),
        PushPayloadView::Other => None,
    };
    match found {
        Some(t) => t,
        None => "New push"@,
    }
}

/// The second line of a push message.
pub open spec fn detail_text_of(target: Option<Seq<char>>) -> Seq<char> {
    match target {
        Some(i) => if i.len() > 0 {
            i + " push received"@
        } else {
            "Push received"@
        },
        None => "Push received"@,
    }
}

fn field_text<'a>(fields: &'a Vec<PayloadField>, key: &str) -> (r: Option<&'a String>)
    ensures
        match r {
            Some(s) => Some(s@),
            None => None::<Seq<char>>,
        } == field_text_from(fields@.map_values(|f: PayloadField| f@), key@, 0),
{
    let ghost view = fields@.map_values(|f: PayloadField| f@);
    let mut i: usize = 0;
    while i < fields.len()
        invariant
            i <= fields.len(),
            view == fields@.map_values(|f: PayloadField| f@),
            field_text_from(view, key@, 0) == field_text_from(view, key@, i as int),
        decreases fields.len() - i,
    {
        let field = &fields[i];
        assert(view[i as int] == field@);
        if str_eq(field.key.as_str(), key) {
            return match &field.text {
                Some(t) => Some(t),
                None => None,
            };
        }
        i += 1;
    }
    None
}

fn usable(t: Option<&String>) -> (r: Option<String>)
    ensures
        match r {
            Some(s) => Some(s@),
            None => None::<Seq<char>>,
        } == usable_text(
            match t {
                Some(s) => Some(s@),
                None => None,
            },
        ),
{
    match t {
        Some(v) => {
            let trimmed = trim_str(v.as_str());
            if trimmed.as_str().unicode_len() > 0 {
                let mut out = String::new();
                push_prefix(&mut out, trimmed.as_str(), 64);
                proof {
                    assert(Seq::<char>::empty() + take_chars(trimmed@, 64) =~= take_chars(
                        trimmed@,
                        64,
                    ));
                }
                Some(out)
            } else {
                None
            }
        },
        None => None,
    }
}

fn key_usable(fields: &Vec<PayloadField>, key: &str) -> (r: Option<String>)
    ensures
        match r {
            Some(s) => Some(s@),
            None => None::<Seq<char>>,
        } == key_text(fields@.map_values(|f: PayloadField| f@), key@),
{
    usable(field_text(fields, key))
}

impl DeviceMessage {
    /// The headline of this push: the first non-blank string among the
    /// payload's "suggestion", "title", "message", "text", "body" and
    /// "content" fields, or the payload itself when it is a string, trimmed
    /// and cut to 64 characters; "New push" when none applies.
    pub fn display_text(&self) -> (r: String)
        ensures
            r@ == display_text_of(self.payload@),
    {
        let found = match &self.payload {
            PushPayload::Object(fields) => {
                let ghost view = fields@.map_values(|f: PayloadField| f@);
                let a = key_usable(fields, "suggestion");
                if a.is_some() {
                    a
                } else {
                    let b = key_usable(fields, "title");
                    if b.is_some() {
                        b
                    } else {
                        let c = key_usable(fields, "message");
                        if c.is_some() {
                            c
                        } else {
                            let d = key_usable(fields, "text");
                            if d.is_some() {
                                d
                            } else {
                                let e = key_usable(fields, "body");
                                if e.is_some() {
                                    e
                                } else {
                                    key_usable(fields, "content")
                                }
                            }
                        }
                    }
                }
            },
            PushPayload::Text(s) => usable(Some(s)),
            PushPayload::Other => None,
        };
        match found {
            Some(t) => t,
            None => "New push".to_owned(),
        }
    }

    /// "<interface> push received" for a non-empty target interface,
    /// "Push received" otherwise.
    pub fn detail_text(&self) -> (r: String)
        ensures
            r@ == detail_text_of(opt_string_view(&self.target_interface)),
    {
        match &self.target_interface {
            Some(interface) => {
                if interface.as_str().unicode_len() > 0 {
                    let mut out = interface.clone();
                    push_str(&mut out, " push received");
                    out
                } else {
                    "Push received".to_owned()
                }
            },
            None => "Push received".to_owned(),
        }
    }
}

/// The ASCII letters and digits of `s`, upper-cased, in order.
pub open spec fn normalized_code(s: Seq<char>) -> Seq<char>
    decreases s.len(),
{
    if s.len() == 0 {
        Seq::empty()
    } else {
        let rest = normalized_code(s.drop_last());
        if is_ascii_alnum(s.last()) {
            rest.push(ascii_upper(s.last()))
        } else {
            rest
        }
    }
}

/// A user code as shown: its first twelve letters and digits, upper-cased,
/// with a '-' after the fourth.
pub open spec fn user_code_label(s: Seq<char>) -> Seq<char> {
    let t = take_chars(normalized_code(s), 12);
    if t.len() > 4 {
        t.take(4) + seq!['-'] + t.skip(4)
    } else {
        t
    }
}

/// Normalizes a user code for display, e.g. "abcd1234" to "ABCD-1234".
pub fn format_user_code(value: &str) -> (r: String)
    ensures
        r@ == user_code_label(value@),
{
    let n = value.unicode_len();
    let mut norm = String::new();
    let mut i: usize = 0;
    while i < n
        invariant
            n == value@.len(),
            i <= n,
            norm@ == normalized_code(value@.take(i as int)),
        decreases n - i,
    {
        let c = value.get_char(i);
        assert(value@.take(i + 1).drop_last() =~= value@.take(i as int));
        assert(value@.take(i + 1).last() == c);
        if char_is_ascii_alnum(c) {
            push_char(&mut norm, char_to_ascii_upper(c));
        }
        i += 1;
    }
    assert(value@.take(n as int) =~= value@);
    let len = norm.as_str().unicode_len();
    let stop = if len < 12 { len } else { 12 };
    let t = substring(norm.as_str(), 0, stop);
    proof {
        assert(norm@.subrange(0, len as int) =~= norm@);
        assert(t@ == take_chars(normalized_code(value@), 12));
    }
    if stop > 4 {
        let mut out = substring(t.as_str(), 0, 4);
        push_char(&mut out, '-');
        let rest = substring(t.as_str(), 4, stop);
        push_str(&mut out, rest.as_str());
        proof {
            assert(t@.subrange(0, 4) =~= t@.take(4));
            assert(t@.subrange(4, stop as int) =~= t@.skip(4));
            assert(t@.take(4).push('-') + t@.skip(4) =~= t@.take(4) + seq!['-'] + t@.skip(4));
        }
        out
    } else {
        t
    }
}

/// "<prefix>: <first 32 characters of error>", or the prefix alone for an
/// empty error.
pub open spec fn error_label(prefix: Seq<char>, error: Seq<char>) -> Seq<char> {
    if error.len() == 0 {
        prefix
    } else {
        prefix + ": "@ + take_chars(error, 32)
    }
}

/// Builds an error label shown on the login screen.
pub fn error_label_from_string(prefix: &str, error: &str) -> (r: String)
    ensures
        r@ == error_label(prefix@, error@),
{
    if error.unicode_len() == 0 {
        return prefix.to_owned();
    }
    let mut message = prefix.to_owned();
    push_str(&mut message, ": ");
    push_prefix(&mut message, error, 32);
    message
}

pub open spec fn login_block_label(block: Channel9LoginBlock) -> Seq<char> {
    match block {
        Channel9LoginBlock::DeviceMissing => "Set Device first"@,
        Channel9LoginBlock::WifiOffline => "WiFi offline"@,
    }
}

impl Channel9LoginBlock {
    /// The text shown for a blocked login.
    pub fn label(self) -> (r: &'static str)
        ensures
            r@ == login_block_label(self),
    {
        match self {
            Channel9LoginBlock::DeviceMissing => "Set Device first",
            Channel9LoginBlock::WifiOffline => "WiFi offline",
        }
    }
}

} // verus!
