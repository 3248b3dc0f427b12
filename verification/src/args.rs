//! Parsed tool arguments: the library's own model of the JSON object a
//! tool call carries, holding exactly what dispatch reads — for each key,
//! its string value, or the fact that its value is not a string.

use vstd::prelude::*;

verus! {

/// One key of the argument object. `value` is the string value of the
/// key, or `None` where the JSON value under the key is not a string.
#[derive(Debug)]
pub struct ArgEntry {
    pub key: String,
    pub value: Option<String>,
}

impl ArgEntry {
    /// The model of this entry's value.
    pub open spec fn value_view(&self) -> Option<Seq<char>> {
        match self.value {
            Some(v) => Some(v@),
            None => None,
        }
    }
}

/// The key-value entries of one parsed JSON argument object.
#[derive(Debug)]
pub struct ToolArgs {
    pub entries: Vec<ArgEntry>,
}

/// The map an entry sequence denotes: later entries override earlier ones
/// with the same key, as JSON-object deserialization does.
pub open spec fn entries_map(s: Seq<ArgEntry>) -> Map<Seq<char>, Option<Seq<char>>>
    decreases s.len(),
{
    if s.len() == 0 {
        Map::empty()
    } else {
        entries_map(s.drop_last()).insert(s.last().key@, s.last().value_view())
    }
}

impl View for ToolArgs {
    type V = Map<Seq<char>, Option<Seq<char>>>;

    open spec fn view(&self) -> Map<Seq<char>, Option<Seq<char>>> {
        entries_map(self.entries@)
    }
}

/// What parsing a raw argument text as a JSON object yields: `None` where
/// the text is not a JSON object, otherwise the map from each key to its
/// string value (or to `None` where the value is not a string).
pub uninterp spec fn parsed_args(raw: Seq<char>) -> Option<
    Map<Seq<char>, Option<Seq<char>>>,
>;

/// Relies on serde_json::from_str for serde_json::Map: it succeeds exactly
/// on text that is one JSON object (later duplicate keys overriding
/// earlier ones), and on serde_json::Value::as_str, which is `Some` exactly
/// for JSON strings. Both depend on the text alone.
#[verifier::external_body]
pub(crate) fn parse_tool_args(raw: &str) -> (r: Option<ToolArgs>)
    ensures
        (match r {
            Some(args) => parsed_args(raw@) == Some(args@),
            None => parsed_args(raw@) is None,
        }),
{
    let object = serde_json::from_str::<serde_json::Map<String, serde_json::Value>>(raw).ok()?;
    let entries: Vec<ArgEntry> = object
        .into_iter()
        .map(|(key, value)| ArgEntry { key, value: value.as_str().map(|s| s.to_string()) })
        .collect();
    Some(ToolArgs { entries })
}

/// `entries_map` looks up a key by the last entry that bears it.
proof fn lemma_entries_map_lookup(s: Seq<ArgEntry>, key: Seq<char>)
    requires
        s.len() > 0,
    ensures
        s.last().key@ == key ==> entries_map(s).contains_key(key) && entries_map(s)[key]
            == s.last().value_view(),
        s.last().key@ != key ==> entries_map(s).contains_key(key) == entries_map(
            s.drop_last(),
        ).contains_key(key) && (entries_map(s.drop_last()).contains_key(key) ==> entries_map(
            s,
        )[key] == entries_map(s.drop_last())[key]),
{
}

impl ToolArgs {
    /// The string value of `key`: `Some` exactly where the object holds
    /// `key` with a string value.
    pub fn string_arg(&self, key: &str) -> (r: Option<String>)
        ensures
            (match r {
                Some(v) => self@.contains_key(key@) && self@[key@] == Some(v@),
                None => !self@.contains_key(key@) || self@[key@] is None,
            }),
    {
        let key_string = String::from_str(key);
        let mut i: usize = self.entries.len();
        proof {
            assert(self.entries@.take(i as int) =~= self.entries@);
        }
        while i > 0
            invariant
                i <= self.entries@.len(),
                key_string@ == key@,
                entries_map(self.entries@.take(i as int)).contains_key(key@) == self@.contains_key(
                    key@,
                ),
                self@.contains_key(key@) ==> entries_map(self.entries@.take(i as int))[key@]
                    == self@[key@],
            decreases i,
        {
            proof {
                assert(self.entries@.take(i as int).drop_last() =~= self.entries@.take(i - 1));
                assert(self.entries@.take(i as int).last() == self.entries@[i - 1]);
                lemma_entries_map_lookup(self.entries@.take(i as int), key@);
            }
            i = i - 1;
            if self.entries[i].key.eq(&key_string) {
                return match &self.entries[i].value {
                    Some(v) => Some(v.clone()),
                    None => None,
                };
            }
        }
        proof {
            assert(self.entries@.take(0) =~= Seq::<ArgEntry>::empty());
        }
        None
    }
}

} // verus!
