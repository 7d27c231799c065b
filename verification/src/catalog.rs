//! Translations held as plain data.
use vstd::prelude::*;
use vstd::string::*;
use crate::text::{fill, replace_first, replace_marker};

verus! {

/// Where a message is looked up.
#[derive(Clone, Copy, Debug, PartialEq, Eq, Structural)]
pub enum Domain {
    /// The text domain that the program has selected.
    Default,
    /// The text domain of the storage service's own catalogs.
    Package,
}

/// One translated message.
#[derive(Clone, Debug, PartialEq, Eq)]
pub struct Translation {
    /// The domain that gave the translation.
    pub domain: Domain,
    /// The context that tells this message from others of the same wording.
    pub context: Option<String>,
    /// The message as the source writes it.
    pub msgid: String,
    /// The message as it is shown.
    pub text: String,
}

/// The translations a [`crate::Client`] draws on. A message that has no
/// entry is shown as the source writes it.
#[derive(Clone, Debug)]
pub struct Catalog {
    /// The entries, the first matching one being used.
    pub entries: Vec<Translation>,
}

/// The characters of an optional string slice.
pub open spec fn context_view(context: Option<&str>) -> Option<Seq<char>> {
    match context {
        Some(c) => Some(c@),
        None => None,
    }
}

/// True when `entry` translates the message with this domain, context and wording.
pub open spec fn entry_matches(
    entry: Translation,
    domain: Domain,
    context: Option<Seq<char>>,
    msgid: Seq<char>,
) -> bool {
    &&& entry.domain == domain
    &&& entry.msgid@ == msgid
    &&& match (entry.context, context) {
        (Some(a), Some(b)) => a@ == b,
        (None, None) => true,
        _ => false,
    }
}

/// The text of the first entry at or after `from` that matches; `msgid`
/// when none does.
pub open spec fn lookup_from(
    entries: Seq<Translation>,
    domain: Domain,
    context: Option<Seq<char>>,
    msgid: Seq<char>,
    from: int,
) -> Seq<char>
    decreases entries.len() - from,
{
    if from < 0 || from >= entries.len() {
        msgid
    } else if entry_matches(entries[from], domain, context, msgid) {
        entries[from].text@
    } else {
        lookup_from(entries, domain, context, msgid, from + 1)
    }
}

impl Catalog {
    /// The text under which a message is shown.
    pub open spec fn text(
        &self,
        domain: Domain,
        context: Option<Seq<char>>,
        msgid: Seq<char>,
    ) -> Seq<char> {
        lookup_from(self.entries@, domain, context, msgid, 0)
    }

    /// A message of the default domain, its `%s` markers filled in turn.
    pub open spec fn filled(
        &self,
        context: Option<Seq<char>>,
        msgid: Seq<char>,
        args: Seq<Seq<char>>,
    ) -> Seq<char> {
        fill(self.text(Domain::Default, context, msgid), args)
    }

    /// True when no entry of this catalog matches the message, so that it is
    /// shown as written.
    pub open spec fn leaves(
        &self,
        domain: Domain,
        context: Option<Seq<char>>,
        msgid: Seq<char>,
    ) -> bool {
        forall|i: int|
            0 <= i < self.entries@.len() ==> !entry_matches(
                #[trigger] self.entries@[i],
                domain,
                context,
                msgid,
            )
    }

    /// A catalog without entries: every message is shown as written.
    pub fn untranslated() -> (r: Catalog)
        ensures
            r.entries@.len() == 0,
    {
        Catalog { entries: Vec::new() }
    }

    /// Looks a message up.
    pub fn lookup<'a>(&'a self, domain: Domain, context: Option<&str>, msgid: &'a str) -> (r:
        &'a str)
        ensures
            r@ == self.text(domain, context_view(context), msgid@),
    {
        let mut i: usize = 0;
        while i < self.entries.len()
            invariant
                i <= self.entries@.len(),
                self.text(domain, context_view(context), msgid@) == lookup_from(
                    self.entries@,
                    domain,
                    context_view(context),
                    msgid@,
                    i as int,
                ),
            decreases self.entries@.len() - i,
        {
            let entry = &self.entries[i];
            let same_context = match (&entry.context, context) {
                (Some(a), Some(b)) => a.as_str().eq(b),
                (None, None) => true,
                _ => false,
            };
            if entry.domain == domain && same_context && entry.msgid.as_str().eq(msgid) {
                return entry.text.as_str();
            }
            i += 1;
        }
        msgid
    }

    /// A message under a context, with one argument.
    pub fn format1(&self, context: &str, msgid: &str, a: &str) -> (r: String)
        ensures
            r@ == self.filled(Some(context@), msgid@, seq![a@]),
    {
        let text = self.lookup(Domain::Default, Some(context), msgid);
        let r = replace_marker(text, 's', a);
        proof {
            lemma_fill_1(text@, a@);
        }
        r
    }

    /// A message under a context, with two arguments.
    pub fn format2(&self, context: &str, msgid: &str, a: &str, b: &str) -> (r: String)
        ensures
            r@ == self.filled(Some(context@), msgid@, seq![a@, b@]),
    {
        let text = self.lookup(Domain::Default, Some(context), msgid);
        let first = replace_marker(text, 's', a);
        let r = replace_marker(first.as_str(), 's', b);
        proof {
            lemma_fill_2(text@, a@, b@);
        }
        r
    }

    /// A message under a context, with three arguments.
    pub fn format3(&self, context: &str, msgid: &str, a: &str, b: &str, c: &str) -> (r: String)
        ensures
            r@ == self.filled(Some(context@), msgid@, seq![a@, b@, c@]),
    {
        let text = self.lookup(Domain::Default, Some(context), msgid);
        let first = replace_marker(text, 's', a);
        let second = replace_marker(first.as_str(), 's', b);
        let r = replace_marker(second.as_str(), 's', c);
        proof {
            lemma_fill_3(text@, a@, b@, c@);
        }
        r
    }

    /// A message under a context, with four arguments.
    pub fn format4(&self, context: &str, msgid: &str, a: &str, b: &str, c: &str, d: &str) -> (r:
        String)
        ensures
            r@ == self.filled(Some(context@), msgid@, seq![a@, b@, c@, d@]),
    {
        let text = self.lookup(Domain::Default, Some(context), msgid);
        let first = replace_marker(text, 's', a);
        let second = replace_marker(first.as_str(), 's', b);
        let third = replace_marker(second.as_str(), 's', c);
        let r = replace_marker(third.as_str(), 's', d);
        proof {
            lemma_fill_4(text@, a@, b@, c@, d@);
        }
        r
    }
}

/// Filling one argument is one replacement.
pub proof fn lemma_fill_1(s: Seq<char>, a: Seq<char>)
    ensures
        fill(s, seq![a]) == replace_first(s, 's', a),
{
    reveal_with_fuel(fill, 2);
}

/// Filling two arguments is two replacements in turn.
pub proof fn lemma_fill_2(s: Seq<char>, a: Seq<char>, b: Seq<char>)
    ensures
        fill(s, seq![a, b]) == replace_first(replace_first(s, 's', a), 's', b),
{
    assert(seq![a, b].drop_first() =~= seq![b]);
    lemma_fill_1(replace_first(s, 's', a), b);
}

/// Filling three arguments is three replacements in turn.
pub proof fn lemma_fill_3(s: Seq<char>, a: Seq<char>, b: Seq<char>, c: Seq<char>)
    ensures
        fill(s, seq![a, b, c]) == replace_first(
            replace_first(replace_first(s, 's', a), 's', b),
            's',
            c,
        ),
{
    assert(seq![a, b, c].drop_first() =~= seq![b, c]);
    lemma_fill_2(replace_first(s, 's', a), b, c);
}

/// Filling four arguments is four replacements in turn.
pub proof fn lemma_fill_4(s: Seq<char>, a: Seq<char>, b: Seq<char>, c: Seq<char>, d: Seq<char>)
    ensures
        fill(s, seq![a, b, c, d]) == replace_first(
            replace_first(replace_first(replace_first(s, 's', a), 's', b), 's', c),
            's',
            d,
        ),
{
    assert(seq![a, b, c, d].drop_first() =~= seq![b, c, d]);
    lemma_fill_3(replace_first(s, 's', a), b, c, d);
}

/// A catalog shows a message as written when no entry matches it.
pub proof fn lemma_leaves(
    catalog: Catalog,
    domain: Domain,
    context: Option<Seq<char>>,
    msgid: Seq<char>,
)
    requires
        catalog.leaves(domain, context, msgid),
    ensures
        catalog.text(domain, context, msgid) == msgid,
{
    lemma_leaves_from(catalog.entries@, domain, context, msgid, 0);
}

proof fn lemma_leaves_from(
    entries: Seq<Translation>,
    domain: Domain,
    context: Option<Seq<char>>,
    msgid: Seq<char>,
    from: int,
)
    requires
        0 <= from,
        forall|i: int|
            0 <= i < entries.len() ==> !entry_matches(#[trigger] entries[i], domain, context, msgid),
    ensures
        lookup_from(entries, domain, context, msgid, from) == msgid,
    decreases entries.len() - from,
{
    if from < entries.len() {
        lemma_leaves_from(entries, domain, context, msgid, from + 1);
    }
}

} // verus!
