//! Message translation.
//!
//! The library looks nothing up in the message catalogs of the system: a
//! [`Catalog`] holds the translations of its messages as plain text, so that
//! everything built from them is a function of the catalog alone. What is
//! here says which text is asked for a message, what the answer means, and
//! how the arguments of a message are put into it.
use vstd::prelude::*;
use vstd::string::*;
use crate::catalog::{Catalog, Domain, Translation};
use crate::messages::{message, message_at, Message, MESSAGES_LEN};
use crate::text::{each_chars, fill, replace_marker};

verus! {

/// The text domain under which the storage service ships its translations.
pub const GETTEXT_PACKAGE: &'static str = "udisks2";

/// True when `s` holds no NUL character.
pub open spec fn no_nul(s: Seq<char>) -> bool {
    forall|i: int| 0 <= i < s.len() ==> s[i] != '\0'
}

/// Tells whether `s` is free of NUL characters.
pub fn is_nul_free(s: &str) -> (r: bool)
    ensures
        r == no_nul(s@),
{
    let n = s.unicode_len();
    let mut i: usize = 0;
    while i < n
        invariant
            n == s@.len(),
            i <= n,
            forall|j: int| 0 <= j < i ==> s@[j] != '\0',
        decreases n - i,
    {
        if s.get_char(i) == '\0' {
            return false;
        }
        i += 1;
    }
    true
}

/// The key under which a catalog files a message that has a context.
pub open spec fn context_key(msgctxt: Seq<char>, msgid: Seq<char>) -> Seq<char> {
    msgctxt.push('\u{4}') + msgid
}

/// What a lookup by context key yields: a catalog that has no entry hands the
/// key back, and then the message stands for itself.
pub open spec fn context_text(key: Seq<char>, msgid: Seq<char>, found: Seq<char>) -> Seq<char> {
    if found == key {
        msgid
    } else {
        found
    }
}

/// Picks the text to show after a lookup by context key.
pub fn resolve_context(key: &str, msgid: &str, found: String) -> (r: String)
    ensures
        r@ == context_text(key@, msgid@, found@),
{
    if found.as_str().eq(key) {
        msgid.to_owned()
    } else {
        found
    }
}

/// Builds the key of a message with a context.
pub fn build_context_key(msgctxt: &str, msgid: &str) -> (r: String)
    ensures
        r@ == context_key(msgctxt@, msgid@),
{
    proof {
        reveal_strlit("\u{4}");
    }
    let mut key = msgctxt.to_owned();
    key.append("\u{4}");
    key.append(msgid);
    key
}

/// `format` from position `from` on, with every `{}` turned into `%s`.
pub open spec fn c_style_from(format: Seq<char>, from: int) -> Seq<char>
    decreases format.len() - from,
{
    if from < 0 || from >= format.len() {
        Seq::empty()
    } else if from + 1 < format.len() && format[from] == '{' && format[from + 1] == '}' {
        seq!['%', 's'] + c_style_from(format, from + 2)
    } else {
        seq![format[from]] + c_style_from(format, from + 1)
    }
}

/// `format` with every `{}` turned into `%s`: the form in which catalogs
/// hold a message that takes arguments.
pub open spec fn c_style(format: Seq<char>) -> Seq<char> {
    c_style_from(format, 0)
}

/// Turns every `{}` of `format` into `%s`.
pub fn to_c_style(format: &str) -> (r: String)
    ensures
        r@ == c_style(format@),
        no_nul(format@) ==> no_nul(r@),
{
    proof {
        if no_nul(format@) {
            lemma_c_style_keeps_nul_free(format@, 0);
        }
    }
    let n = format.unicode_len();
    let mut out = String::new();
    let mut i: usize = 0;
    while i < n
        invariant
            n == format@.len(),
            i <= n,
            out@ + c_style_from(format@, i as int) == c_style(format@),
        decreases n - i,
    {
        if i + 1 < n && format.get_char(i) == '{' && format.get_char(i + 1) == '}' {
            proof {
                reveal_strlit("%s");
            }
            out.append("%s");
            i += 2;
        } else {
            out.append(format.substring_char(i, i + 1));
            i += 1;
        }
    }
    out
}

/// Puts the arguments into a message: the first takes the place of the
/// first `%s`, the second that of the first `%s` of the result, and so on.
pub fn arg_replace(s: String, args: &[&str]) -> (r: String)
    ensures
        r@ == fill(s@, each_chars(args@)),
{
    let ghost all = each_chars(args@);
    let ghost start = s@;
    let mut text = s;
    let mut i: usize = 0;
    assert(all.skip(0) =~= all);
    while i < args.len()
        invariant
            i <= args@.len(),
            all == each_chars(args@),
            fill(text@, all.skip(i as int)) == fill(start, all),
        decreases args@.len() - i,
    {
        assert(all.skip(i as int).drop_first() =~= all.skip(i as int + 1));
        text = replace_marker(text.as_str(), 's', args[i]);
        i += 1;
    }
    text
}

/// Turning `{}` into `%s` brings no NUL character into a message.
pub proof fn lemma_c_style_keeps_nul_free(format: Seq<char>, from: int)
    requires
        no_nul(format),
        0 <= from,
    ensures
        no_nul(c_style_from(format, from)),
    decreases format.len() - from,
{
    if from >= format.len() {
    } else if from + 1 < format.len() && format[from] == '{' && format[from + 1] == '}' {
        lemma_c_style_keeps_nul_free(format, from + 2);
    } else {
        lemma_c_style_keeps_nul_free(format, from + 1);
    }
}

/// True when the entry is about the message.
pub open spec fn translates(entry: Translation, message: Message) -> bool {
    &&& entry.domain == message.domain
    &&& entry.msgid@ == message.msgid@
    &&& match (entry.context, message.context) {
        (Some(a), Some(b)) => a@ == b@,
        (None, None) => true,
        _ => false,
    }
}

/// The text that is asked of the catalogs for a message: for a message of
/// the package's own domain that has a context, the key that holds both;
/// else the message as written.
pub open spec fn asked_text(message: Message) -> Seq<char> {
    match (message.domain, message.context) {
        (Domain::Package, Some(context)) => context_key(context@, message.msgid@),
        _ => message.msgid@,
    }
}

/// What a message is shown as, given what the catalogs answered: the answer
/// itself, but the message as written where the answer to a key is the key.
pub open spec fn shown_as(message: Message, found: Seq<char>) -> Seq<char> {
    match (message.domain, message.context) {
        (Domain::Package, Some(context)) => context_text(
            context_key(context@, message.msgid@),
            message.msgid@,
            found,
        ),
        _ => found,
    }
}

/// Returns the text that is asked of the catalogs for a message.
pub fn lookup_text(message: &Message) -> (r: String)
    ensures
        r@ == asked_text(*message),
{
    match (message.domain, message.context) {
        (Domain::Package, Some(context)) => build_context_key(context, message.msgid),
        _ => message.msgid.to_owned(),
    }
}

/// Returns what a message is shown as, given what the catalogs answered.
pub fn shown_text(message: &Message, found: String) -> (r: String)
    ensures
        r@ == shown_as(*message, found@),
{
    match (message.domain, message.context) {
        (Domain::Package, Some(context)) => {
            let key = build_context_key(context, message.msgid);
            resolve_context(key.as_str(), message.msgid, found)
        },
        _ => found,
    }
}

/// The text of message `i` among the texts given: the text at its place, or
/// the message as written where the texts end before it.
pub open spec fn text_given(texts: Seq<String>, i: int) -> Seq<char> {
    if 0 <= i < texts.len() {
        texts[i]@
    } else {
        message(i).msgid@
    }
}

impl Catalog {
    /// The catalog that shows each message of the library as the text given
    /// for it: one entry for each message, in the order of the list of
    /// messages, with `texts[i]` as the text of message `i`. A message for
    /// which no text is given is shown as written; texts beyond the last
    /// message are left out.
    pub fn from_texts(texts: &Vec<String>) -> (r: Catalog)
        ensures
            r.entries@.len() == MESSAGES_LEN,
            forall|i: int|
                0 <= i < MESSAGES_LEN ==> translates(#[trigger] r.entries@[i], message(i))
                    && r.entries@[i].text@ == text_given(texts@, i),
    {
        let mut entries: Vec<Translation> = Vec::new();
        let mut i: usize = 0;
        while i < MESSAGES_LEN
            invariant
                i <= MESSAGES_LEN,
                entries@.len() == i,
                forall|j: int|
                    0 <= j < i ==> translates(#[trigger] entries@[j], message(j))
                        && entries@[j].text@ == text_given(texts@, j),
            decreases MESSAGES_LEN - i,
        {
            let m = message_at(i);
            let text = if i < texts.len() {
                texts[i].clone()
            } else {
                m.msgid.to_owned()
            };
            let context = match m.context {
                Some(c) => Some(c.to_owned()),
                None => None,
            };
            entries.push(Translation { domain: m.domain, context, msgid: m.msgid.to_owned(), text });
            i += 1;
        }
        Catalog { entries }
    }
}

} // verus!
