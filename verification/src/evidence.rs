//! The evidence collection: typed key/value pairs (or a bare user-agent
//! shortcut) accumulated in insertion order, with no foreign resource
//! attached.  Every field and value is kept representable as a
//! null-terminated byte string, so the boundary layer can hand the items to
//! the foreign engine verbatim.

use vstd::prelude::*;

use crate::fiftyone_degrees::{
    EVIDENCE_PREFIX_COOKIE, EVIDENCE_PREFIX_HEADER_IP_ADDRESSES, EVIDENCE_PREFIX_HEADER_STRING,
    EVIDENCE_PREFIX_QUERY, EVIDENCE_PREFIX_SERVER,
};

verus! {

/// The source a piece of evidence was observed from.  The foreign engine
/// uses the source to disambiguate evidence entries of the same name (a
/// header and a query parameter may share one).
#[derive(Clone, Copy, Debug, PartialEq, Eq, Structural)]
pub enum EvidenceKind {
    HeaderString,
    HeaderIPAddresses,
    Server,
    Query,
    Cookie,
}

/// The prefix tag the foreign engine expects for evidence of this kind.
pub open spec fn prefix_value(kind: EvidenceKind) -> u32 {
    match kind {
        EvidenceKind::HeaderString => EVIDENCE_PREFIX_HEADER_STRING,
        EvidenceKind::HeaderIPAddresses => EVIDENCE_PREFIX_HEADER_IP_ADDRESSES,
        EvidenceKind::Server => EVIDENCE_PREFIX_SERVER,
        EvidenceKind::Query => EVIDENCE_PREFIX_QUERY,
        EvidenceKind::Cookie => EVIDENCE_PREFIX_COOKIE,
    }
}

impl EvidenceKind {
    /// The prefix tag the foreign engine uses to classify this evidence
    /// source.
    pub fn to_prefix(&self) -> (p: u32)
        ensures
            p == prefix_value(*self),
    {
        match self {
            EvidenceKind::HeaderString => EVIDENCE_PREFIX_HEADER_STRING,
            EvidenceKind::HeaderIPAddresses => EVIDENCE_PREFIX_HEADER_IP_ADDRESSES,
            EvidenceKind::Server => EVIDENCE_PREFIX_SERVER,
            EvidenceKind::Query => EVIDENCE_PREFIX_QUERY,
            EvidenceKind::Cookie => EVIDENCE_PREFIX_COOKIE,
        }
    }
}

/// True when the character sequence holds an embedded NUL.  Such a sequence
/// cannot be rendered as a null-terminated byte string for the foreign
/// engine.
pub open spec fn has_nul(s: Seq<char>) -> bool {
    exists|i: int| 0 <= i < s.len() && s[i] == '\0'
}

/// Scans a string for an embedded NUL character.
pub fn contains_nul(s: &str) -> (b: bool)
    ensures
        b == has_nul(s@),
{
    let len = s.unicode_len();
    let mut i: usize = 0;
    while i < len
        invariant
            len == s@.len(),
            i <= len,
            forall|j: int| 0 <= j < i ==> s@[j] != '\0',
        decreases len - i,
    {
        if s.get_char(i) == '\0' {
            return true;
        }
        i = i + 1;
    }
    false
}

/// What an evidence item is to the contracts: its kind and the character
/// sequences of its field name and value.
pub type EvidenceItemView = (EvidenceKind, Seq<char>, Seq<char>);

/// An evidence item is clean when both its field and its value are free of
/// embedded NULs, so each can be rendered as a null-terminated byte string.
pub open spec fn item_clean(item: EvidenceItemView) -> bool {
    !has_nul(item.1) && !has_nul(item.2)
}

/// The field name under which a bare user agent is handed to the foreign
/// engine.
pub open spec fn user_agent_field() -> Seq<char> {
    "user-agent"@
}

/// The single item a user-agent-only evidence stands for: the user agent
/// expressed as a header named "user-agent".
pub open spec fn user_agent_only_view(ua: Seq<char>) -> Seq<EvidenceItemView> {
    seq![(EvidenceKind::HeaderString, user_agent_field(), ua)]
}

/// The name "user-agent" itself holds no NUL.
pub proof fn lemma_user_agent_field_clean()
    ensures
        !has_nul(user_agent_field()),
{
    reveal_strlit("user-agent");
    assert forall|i: int| 0 <= i < user_agent_field().len() implies user_agent_field()[i]
        != '\0' by {
        assert(user_agent_field().len() == 10);
    }
}

struct EvidenceItem {
    kind: EvidenceKind,
    field: String,
    value: String,
}

/// The item as the contracts see it.
spec fn item_view(item: EvidenceItem) -> EvidenceItemView {
    (item.kind, item.field@, item.value@)
}

enum EvidenceCollection {
    Empty,
    UserAgentOnly(String),
    EvidenceKeyValues(Vec<EvidenceItem>),
}

/// An ordered collection of evidence items, or the single-item shorthand
/// holding just a user agent.  Once a typed item is added to the shorthand
/// form, it is promoted to the general collection with the user agent
/// re-expressed as a `HeaderString` item named "user-agent", placed first;
/// insertion order is preserved from then on.
pub struct Evidence {
    data: EvidenceCollection,
}

impl View for Evidence {
    type V = Seq<EvidenceItemView>;

    closed spec fn view(&self) -> Seq<EvidenceItemView> {
        match self.data {
            EvidenceCollection::Empty => Seq::empty(),
            EvidenceCollection::UserAgentOnly(ua) => user_agent_only_view(ua@),
            EvidenceCollection::EvidenceKeyValues(items) => items@.map(
                |i: int, item: EvidenceItem| item_view(item),
            ),
        }
    }
}

/// An evidence field or value cannot be represented as a null-terminated
/// byte string: it holds an embedded NUL.  Fatal to that `add` alone, never
/// to the collection.
#[derive(Clone, Copy, Debug, PartialEq, Eq, Structural)]
pub struct EncodingError;

impl Evidence {
    /// Every item of the collection can be rendered as null-terminated byte
    /// strings.
    pub open spec fn wf(&self) -> bool {
        forall|i: int| 0 <= i < self@.len() ==> item_clean(#[trigger] self@[i])
    }

    /// Creates the user-agent-only shorthand: a collection standing for the
    /// single item `HeaderString("user-agent", ua)`.
    pub fn new_with_user_agent(ua: &str) -> (r: Self)
        requires
            !has_nul(ua@),
        ensures
            r@ == user_agent_only_view(ua@),
            r.wf(),
    {
        let r = Evidence { data: EvidenceCollection::UserAgentOnly(ua.to_owned()) };
        proof {
            lemma_user_agent_field_clean();
            assert forall|i: int| 0 <= i < r@.len() implies item_clean(r@[i]) by {
                assert(r@[i] == r@[0]);
            }
        }
        r
    }

    /// The number of items the collection stands for.
    pub fn len(&self) -> (n: usize)
        ensures
            n == self@.len(),
    {
        match &self.data {
            EvidenceCollection::Empty => 0,
            EvidenceCollection::UserAgentOnly(_) => 1,
            EvidenceCollection::EvidenceKeyValues(items) => items.len(),
        }
    }

    /// Appends one typed item.  A field or value holding an embedded NUL is
    /// rejected with an [`EncodingError`] and the collection is left exactly
    /// as it was.
    pub fn add(&mut self, kind: EvidenceKind, field: &str, value: &str) -> (r: Result<
        (),
        EncodingError,
    >)
        ensures
            r is Ok <==> (!has_nul(field@) && !has_nul(value@)),
            r is Ok ==> final(self)@ == old(self)@.push((kind, field@, value@)),
            r is Err ==> final(self)@ == old(self)@,
            (r is Ok && old(self).wf()) ==> final(self).wf(),
    {
        if contains_nul(field) || contains_nul(value) {
            return Err(EncodingError);
        }
        let item = EvidenceItem { kind, field: field.to_owned(), value: value.to_owned() };
        self.add_item(item);
        proof {
            if old(self).wf() {
                assert forall|i: int| 0 <= i < self@.len() implies item_clean(self@[i]) by {
                    if i < old(self)@.len() {
                        assert(item_clean(old(self)@[i]));
                    }
                }
            }
        }
        Ok(())
    }

    /// Appends an already-encoded item, promoting the user-agent shorthand
    /// to the general collection when needed.
    fn add_item(&mut self, item: EvidenceItem)
        ensures
            final(self)@ == old(self)@.push(item_view(item)),
    {
        let mut data = EvidenceCollection::Empty;
        core::mem::swap(&mut data, &mut self.data);
        let new_data = match data {
            EvidenceCollection::Empty => {
                let mut items: Vec<EvidenceItem> = Vec::new();
                items.push(item);
                EvidenceCollection::EvidenceKeyValues(items)
            },
            EvidenceCollection::UserAgentOnly(ua) => {
                let mut items: Vec<EvidenceItem> = Vec::new();
                items.push(
                    EvidenceItem {
                        kind: EvidenceKind::HeaderString,
                        field: "user-agent".to_owned(),
                        value: ua,
                    },
                );
                items.push(item);
                EvidenceCollection::EvidenceKeyValues(items)
            },
            EvidenceCollection::EvidenceKeyValues(mut items) => {
                items.push(item);
                EvidenceCollection::EvidenceKeyValues(items)
            },
        };
        self.data = new_data;
        proof {
            assert(final(self)@ =~= old(self)@.push(item_view(item)));
        }
    }

    /// The item at position `i`, rendered for the foreign engine: the kind's
    /// prefix tag and copies of the field name and value.
    pub fn prefixed_item(&self, i: usize) -> (r: (u32, String, String))
        requires
            i < self@.len(),
        ensures
            r.0 == prefix_value(self@[i as int].0),
            r.1@ == self@[i as int].1,
            r.2@ == self@[i as int].2,
    {
        match &self.data {
            EvidenceCollection::Empty => vstd::pervasive::unreached(),
            EvidenceCollection::UserAgentOnly(ua) => {
                (EVIDENCE_PREFIX_HEADER_STRING, "user-agent".to_owned(), ua.clone())
            },
            EvidenceCollection::EvidenceKeyValues(items) => {
                let item = &items[i];
                (item.kind.to_prefix(), item.field.clone(), item.value.clone())
            },
        }
    }
}

impl Default for Evidence {
    /// The empty collection.
    fn default() -> (r: Self)
        ensures
            r@ == Seq::<EvidenceItemView>::empty(),
            r.wf(),
    {
        Evidence { data: EvidenceCollection::Empty }
    }
}

/// Law: building evidence from a user agent and then adding one typed item
/// yields a two-item collection whose first item is the user agent
/// re-expressed as `HeaderString("user-agent", ua)` and whose second is the
/// added item.
pub proof fn lemma_user_agent_promotion(
    ua: Seq<char>,
    kind: EvidenceKind,
    field: Seq<char>,
    value: Seq<char>,
)
    ensures
        user_agent_only_view(ua).push((kind, field, value)).len() == 2,
        user_agent_only_view(ua).push((kind, field, value))[0] == (
            EvidenceKind::HeaderString,
            user_agent_field(),
            ua,
        ),
        user_agent_only_view(ua).push((kind, field, value))[1] == (kind, field, value),
{
}

} // verus!
