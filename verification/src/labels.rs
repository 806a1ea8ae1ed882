//! The labels of an image, as the inspect tool prints them: a JSON object
//! whose members are all strings.

use vstd::prelude::*;
use crate::error::{Failure, ImageError};
use crate::json::{json_of_text, json_of_value, member, member_names, parse_json, Json};
use crate::text::str_eq;

verus! {

/// The labels that a JSON value gives: it must be an object, and each of its
/// members a string.
pub open spec fn labels_of(j: Json) -> Option<Map<Seq<char>, Seq<char>>> {
    match j {
        Json::Object(m) => if forall|k: Seq<char>| m.dom().contains(k) ==> #[trigger] m[k] is Text {
            Some(m.map_values(|v: Json| v->Text_0))
        } else {
            None
        },
        _ => None,
    }
}

/// The map that a sequence of pairs stands for, where no key occurs twice.
pub open spec fn pairs_map(p: Seq<(Seq<char>, Seq<char>)>) -> Map<Seq<char>, Seq<char>> {
    Map::new(
        |k: Seq<char>| exists|i: int| 0 <= i < p.len() && #[trigger] p[i].0 == k,
        |k: Seq<char>| p[choose|i: int| 0 <= i < p.len() && #[trigger] p[i].0 == k].1,
    )
}

/// The keys of a sequence of pairs.
pub open spec fn keys_of(p: Seq<(Seq<char>, Seq<char>)>) -> Seq<Seq<char>> {
    p.map_values(|e: (Seq<char>, Seq<char>)| e.0)
}

/// A map from label keys to label values.
#[derive(Debug, PartialEq, Eq)]
pub struct LabelMap {
    entries: Vec<(String, String)>,
}

impl View for LabelMap {
    type V = Map<Seq<char>, Seq<char>>;

    closed spec fn view(&self) -> Map<Seq<char>, Seq<char>> {
        pairs_map(self.pairs())
    }
}

impl LabelMap {
    /// The entries as pairs of texts, in the order in which they are held.
    pub closed spec fn pairs(&self) -> Seq<(Seq<char>, Seq<char>)> {
        self.entries@.map_values(|e: (String, String)| (e.0@, e.1@))
    }

    #[verifier::type_invariant]
    spec fn inv(&self) -> bool {
        keys_of(self.pairs()).no_duplicates()
    }

    /// The number of labels.
    pub fn len(&self) -> (r: usize)
        ensures
            self@.dom().finite(),
            r == self@.dom().len(),
    {
        proof {
            use_type_invariant(self);
            let keys = keys_of(self.pairs());
            keys.unique_seq_to_set();
            assert(self@.dom() =~= keys.to_set()) by {
                assert forall|k: Seq<char>| self@.dom().contains(k) implies keys.to_set().contains(
                    k,
                ) by {
                    let i = choose|i: int|
                        0 <= i < self.pairs().len() && #[trigger] self.pairs()[i].0 == k;
                    assert(keys[i] == k);
                }
                assert forall|k: Seq<char>| keys.to_set().contains(k) implies self@.dom().contains(
                    k,
                ) by {
                    let i = choose|i: int| 0 <= i < keys.len() && keys[i] == k;
                    assert(self.pairs()[i].0 == k);
                }
            }
        }
        self.entries.len()
    }

    /// The value of a label, if the label is there.
    pub fn get(&self, key: &str) -> (r: Option<&str>)
        ensures
            r is Some <==> self@.dom().contains(key@),
            r matches Some(v) ==> v@ == self@[key@],
    {
        proof {
            use_type_invariant(self);
        }
        let ghost p = self.pairs();
        let mut i: usize = 0;
        while i < self.entries.len()
            invariant
                i <= self.entries.len(),
                p == self.pairs(),
                p.len() == self.entries.len(),
                keys_of(p).no_duplicates(),
                forall|k: int| 0 <= k < i ==> (#[trigger] p[k]).0 != key@,
            decreases self.entries.len() - i,
        {
            if str_eq(self.entries[i].0.as_str(), key) {
                proof {
                    assert(p[i as int].0 == key@);
                    let j = choose|j: int| 0 <= j < p.len() && #[trigger] p[j].0 == key@;
                    assert(keys_of(p)[j] == keys_of(p)[i as int]);
                }
                return Some(self.entries[i].1.as_str());
            }
            i += 1;
        }
        None
    }

    /// Whether a label is there.
    pub fn contains_key(&self, key: &str) -> (r: bool)
        ensures
            r == self@.dom().contains(key@),
    {
        self.get(key).is_some()
    }

    /// The labels as pairs of key and value, each key once.
    pub fn entries(&self) -> (r: &Vec<(String, String)>)
        ensures
            r@.map_values(|e: (String, String)| (e.0@, e.1@)) == self.pairs(),
            keys_of(self.pairs()).no_duplicates(),
            self@ == pairs_map(self.pairs()),
    {
        proof {
            use_type_invariant(self);
        }
        &self.entries
    }

    /// The labels that a JSON value gives, if it is an object whose members
    /// are all strings.
    pub fn from_json(v: &serde_json::Value) -> (r: Option<LabelMap>)
        ensures
            r is Some <==> labels_of(json_of_value(*v)) is Some,
            r matches Some(l) ==> Some(l@) == labels_of(json_of_value(*v)),
    {
        let names = match member_names(v) {
            Some(names) => names,
            None => {
                return None;
            },
        };
        let ghost m = json_of_value(*v).members();
        let ghost keys = names@.map_values(|s: String| s@);
        let mut entries: Vec<(String, String)> = Vec::new();
        let mut i: usize = 0;
        while i < names.len()
            invariant
                i <= names.len(),
                json_of_value(*v) == Json::Object(m),
                keys == names@.map_values(|s: String| s@),
                keys.no_duplicates(),
                keys.to_set() == m.dom(),
                entries@.len() == i,
                forall|k: int|
                    0 <= k < i ==> {
                        let e = #[trigger] entries@[k];
                        e.0@ == keys[k] && m[keys[k]] == Json::Text(e.1@)
                    },
            decreases names.len() - i,
        {
            let name = names[i].as_str();
            assert(keys[i as int] == name@);
            assert(keys.to_set().contains(name@));
            let value = match member(v, name) {
                Some(x) => x.as_str(),
                None => None,
            };
            match value {
                Some(s) => {
                    entries.push((name.to_owned(), s.to_owned()));
                },
                None => {
                    assert(!(m[name@] is Text));
                    return None;
                },
            }
            i += 1;
        }
        let ghost p = entries@.map_values(|e: (String, String)| (e.0@, e.1@));
        proof {
            assert(keys_of(p) =~= keys);
            assert forall|k: Seq<char>| m.dom().contains(k) implies #[trigger] m[k] is Text by {
                let j = choose|j: int| 0 <= j < keys.len() && keys[j] == k;
                assert(m[keys[j]] == Json::Text(entries@[j].1@));
            }
            let want = labels_of(json_of_value(*v)).unwrap();
            assert forall|k: Seq<char>| pairs_map(p).dom().contains(k) implies want.dom().contains(
                k,
            ) by {
                let j = choose|j: int| 0 <= j < p.len() && #[trigger] p[j].0 == k;
                assert(keys[j] == k);
                assert(keys.to_set().contains(k));
            }
            assert forall|k: Seq<char>| want.dom().contains(k) implies pairs_map(p).dom().contains(
                k,
            ) && pairs_map(p)[k] == want[k] by {
                let j = choose|j: int| 0 <= j < keys.len() && keys[j] == k;
                assert(p[j].0 == k);
                let c = choose|c: int| 0 <= c < p.len() && #[trigger] p[c].0 == k;
                assert(keys[c] == keys[j]);
                assert(m[keys[j]] == Json::Text(entries@[j].1@));
            }
            assert(pairs_map(p) =~= want);
        }
        Some(LabelMap { entries })
    }

    /// Reads the labels from the text that the inspect tool printed.
    pub fn parse(text: &str) -> (r: Result<LabelMap, ImageError>)
        ensures
            r is Ok <==> labels_in_text(text@) is Some,
            r matches Ok(l) ==> Some(l@) == labels_in_text(text@),
            r matches Err(e) ==> e@ == Failure::LabelParse(text@),
    {
        let parsed = match parse_json(text) {
            Ok(v) => LabelMap::from_json(&v),
            Err(_) => None,
        };
        match parsed {
            Some(l) => Ok(l),
            None => Err(ImageError::LabelParse(text.to_owned())),
        }
    }
}

/// The labels that a text gives: it must be JSON, and that an object whose
/// members are all strings.
pub open spec fn labels_in_text(text: Seq<char>) -> Option<Map<Seq<char>, Seq<char>>> {
    match json_of_text(text) {
        Some(j) => labels_of(j),
        None => None,
    }
}

} // verus!
