//! Reading and writing the persisted form of the store: a JSON object
//! whose keys are alias names and whose values are command strings.

use crate::store::{entry_map, has_name, pairs_view, unique_names, AliasStore, EntryView};
use vstd::prelude::*;

verus! {

/// What serde_json makes of a text read as a JSON object of strings:
/// the entries of that object, each name once, or nothing when the
/// text is not such an object.
pub uninterp spec fn parsed_aliases(s: Seq<char>) -> Option<Seq<EntryView>>;

/// The pretty-printed JSON object that serde_json writes for these
/// entries.
pub uninterp spec fn pretty_json(entries: Seq<EntryView>) -> Seq<char>;

/// The text of an empty JSON object.
pub open spec fn empty_object_text() -> Seq<char> {
    "{}"@
}

/// Reading this text back as an object of strings succeeds and yields
/// exactly the mapping of these entries.
pub open spec fn reads_back_to(text: Seq<char>, entries: Seq<EntryView>) -> bool {
    match parsed_aliases(text) {
        Some(e) => unique_names(e) && entry_map(e) == entry_map(entries),
        None => false,
    }
}

/// Relies on serde_json::from_str at `BTreeMap<String, String>`: it
/// succeeds exactly on texts that are one JSON object with string
/// values, the map holds those entries with each key once, and the
/// result depends on the text alone.
#[verifier::external_body]
fn parse_alias_pairs(s: &str) -> (r: Option<Vec<(String, String)>>)
    ensures
        match r {
            Some(v) => parsed_aliases(s@) == Some(pairs_view(v@)) && unique_names(pairs_view(v@)),
            None => parsed_aliases(s@) is None,
        },
{
    match serde_json::from_str::<std::collections::BTreeMap<String, String>>(s) {
        Ok(m) => Some(m.into_iter().collect()),
        Err(_) => None,
    }
}

/// Relies on serde_json::to_string_pretty at `BTreeMap<&str, &str>`:
/// on string keys and values it cannot fail, it writes `{}` for an
/// empty map, the output depends on the entries alone, and reading the
/// output back as an object of strings yields the same mapping.
#[verifier::external_body]
fn pairs_to_pretty_json(v: &Vec<(String, String)>) -> (r: String)
    requires
        unique_names(pairs_view(v@)),
    ensures
        r@ == pretty_json(pairs_view(v@)),
        r@ == empty_object_text() <== v@.len() == 0,
        reads_back_to(r@, pairs_view(v@)),
{
    let m: std::collections::BTreeMap<&str, &str> =
        v.iter().map(|p| (p.0.as_str(), p.1.as_str())).collect();
    serde_json::to_string_pretty(&m).unwrap()
}

/// The store described by the persisted text, and whether that text
/// was corrupt: anything but a JSON object of strings yields an empty
/// store that must be written back.
pub fn load_aliases(content: &str) -> (r: (AliasStore, bool))
    ensures
        r.0.wf(),
        match parsed_aliases(content@) {
            Some(e) => r.0@ == e && r.1 == false,
            None => r.0@ == Seq::<EntryView>::empty() && r.1 == true,
        },
{
    match parse_alias_pairs(content) {
        Some(v) => (AliasStore::from_pairs(v), false),
        None => (AliasStore::new(), true),
    }
}

/// The persisted text of a store: a pretty-printed JSON object that
/// reads back to the same mapping, and is `{}` when the store is
/// empty.
pub fn to_json(store: &AliasStore) -> (r: String)
    requires
        store.wf(),
    ensures
        r@ == pretty_json(store@),
        r@ == empty_object_text() <== store@.len() == 0,
        reads_back_to(r@, store@),
{
    pairs_to_pretty_json(store.pairs())
}

/// Law: adding an absent name and persisting the store yields a text
/// whose loaded mapping contains the new pair. The hypotheses are what
/// `AliasStore::add` and `to_json` ensure of their results.
pub proof fn lemma_add_persist_contains(
    pre: Seq<EntryView>,
    post: Seq<EntryView>,
    text: Seq<char>,
    name: Seq<char>,
    command: Seq<char>,
)
    requires
        unique_names(pre),
        !has_name(pre, name),
        post == pre.push((name, command)),
        reads_back_to(text, post),
    ensures
        parsed_aliases(text) is Some,
        entry_map(parsed_aliases(text)->Some_0).contains_pair(name, command),
{
    crate::store::lemma_entry_map_push(pre, name, command);
}

/// Law: removing a name and persisting the store yields a text whose
/// loaded mapping no longer holds that name. The hypotheses are what
/// `AliasStore::remove` and `to_json` ensure of their results.
pub proof fn lemma_remove_persist_absent(
    pre: Seq<EntryView>,
    post: Seq<EntryView>,
    text: Seq<char>,
    name: Seq<char>,
)
    requires
        entry_map(post) == entry_map(pre).remove(name),
        reads_back_to(text, post),
    ensures
        parsed_aliases(text) is Some,
        !entry_map(parsed_aliases(text)->Some_0).dom().contains(name),
{
}

/// Law: the persisted text of an emptied store loads back as an empty
/// mapping; that the text itself is `{}` is ensured by `to_json`. The
/// hypotheses are what `AliasStore::remove_all` and `to_json` ensure.
pub proof fn lemma_empty_persists_empty(post: Seq<EntryView>, text: Seq<char>)
    requires
        post.len() == 0,
        reads_back_to(text, post),
    ensures
        parsed_aliases(text) is Some,
        entry_map(parsed_aliases(text)->Some_0) == Map::<Seq<char>, Seq<char>>::empty(),
{
    assert(post =~= Seq::<EntryView>::empty());
    assert(entry_map(post) =~= Map::<Seq<char>, Seq<char>>::empty());
}

} // verus!
