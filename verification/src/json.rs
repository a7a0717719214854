use vstd::prelude::*;

verus! {

#[verifier::external_type_specification]
#[verifier::external_body]
pub struct ExJsonValue(serde_json::Value);

/// Relies on serde_json::Value's derived Clone: the copy is equal to the
/// original value.
pub assume_specification[ <serde_json::Value as Clone>::clone ](
    v: &serde_json::Value,
) -> (r: serde_json::Value)
    ensures
        r == *v,
;

/// A value of a normalized result field. The client only ever inspects string
/// fields, so a string is carried as plain text and every other JSON value is
/// carried through opaquely.
#[derive(Debug, PartialEq)]
pub enum JsonValue {
    Str(String),
    Other(serde_json::Value),
}

impl Clone for JsonValue {
    fn clone(&self) -> (r: Self)
        ensures
            r == *self,
    {
        match self {
            JsonValue::Str(s) => JsonValue::Str(s.clone()),
            JsonValue::Other(v) => JsonValue::Other(v.clone()),
        }
    }
}

/// The JSON object that a string denotes, if it denotes one: the map from
/// member name to member value, strings unwrapped and all other values opaque.
/// `None` when the string is not a JSON text whose top level is an object.
pub uninterp spec fn json_obj_of(s: Seq<char>) -> Option<Map<Seq<char>, JsonValue>>;

/// The map denoted by an association list, a later entry overriding an
/// earlier one with the same key.
spec fn entry_map(s: Seq<(String, JsonValue)>) -> Map<Seq<char>, JsonValue>
    decreases s.len(),
{
    if s.len() == 0 {
        Map::empty()
    } else {
        entry_map(s.drop_last()).insert(s.last().0@, s.last().1)
    }
}

/// The value an association list assigns to a key, the last entry winning.
spec fn assoc_lookup(s: Seq<(String, JsonValue)>, k: Seq<char>) -> Option<JsonValue>
    decreases s.len(),
{
    if s.len() == 0 {
        None
    } else if s.last().0@ == k {
        Some(s.last().1)
    } else {
        assoc_lookup(s.drop_last(), k)
    }
}

proof fn lemma_entry_map_get(s: Seq<(String, JsonValue)>, k: Seq<char>)
    ensures
        entry_map(s).contains_key(k) <==> assoc_lookup(s, k) is Some,
        entry_map(s).contains_key(k) ==> Some(entry_map(s)[k]) == assoc_lookup(s, k),
    decreases s.len(),
{
    if s.len() > 0 {
        lemma_entry_map_get(s.drop_last(), k);
    }
}

proof fn lemma_entry_map_key_index(s: Seq<(String, JsonValue)>, k: Seq<char>)
    ensures
        entry_map(s).contains_key(k) <==> exists|i: int| 0 <= i < s.len() && s[i].0@ == k,
    decreases s.len(),
{
    if s.len() > 0 {
        lemma_entry_map_key_index(s.drop_last(), k);
        if s.last().0@ != k {
            if entry_map(s).contains_key(k) {
                let i = choose|i: int| 0 <= i < s.drop_last().len() && s.drop_last()[i].0@ == k;
                assert(s[i].0@ == k);
            }
            if exists|i: int| 0 <= i < s.len() && s[i].0@ == k {
                let i = choose|i: int| 0 <= i < s.len() && s[i].0@ == k;
                assert(s.drop_last()[i].0@ == k);
            }
        } else {
            assert(s[s.len() - 1].0@ == k);
        }
    }
}

/// No two entries share a key.
spec fn distinct_keys(s: Seq<(String, JsonValue)>) -> bool {
    forall|i: int, j: int| 0 <= i < j < s.len() ==> s[i].0@ != s[j].0@
}

proof fn lemma_entry_map_len(s: Seq<(String, JsonValue)>)
    requires
        distinct_keys(s),
    ensures
        entry_map(s).dom().finite(),
        entry_map(s).dom().len() == s.len(),
    decreases s.len(),
{
    if s.len() > 0 {
        assert(distinct_keys(s.drop_last()));
        lemma_entry_map_len(s.drop_last());
        lemma_entry_map_key_index(s.drop_last(), s.last().0@);
        assert(forall|i: int| 0 <= i < s.drop_last().len() ==> s[i].0@ != s.last().0@);
        assert(!entry_map(s.drop_last()).contains_key(s.last().0@));
    }
}

/// The normalized key-value structure both backends produce: a fresh map from
/// string field name to field value, built once per request.
#[derive(Debug, PartialEq)]
pub struct ResultMap {
    entries: Vec<(String, JsonValue)>,
}

impl View for ResultMap {
    type V = Map<Seq<char>, JsonValue>;

    closed spec fn view(&self) -> Map<Seq<char>, JsonValue> {
        entry_map(self.entries@)
    }
}

impl ResultMap {
    #[verifier::type_invariant]
    closed spec fn inv(&self) -> bool {
        distinct_keys(self.entries@)
    }

    /// A map holding the one given field.
    pub fn single_entry(key: &str, value: JsonValue) -> (r: ResultMap)
        ensures
            r@ == Map::<Seq<char>, JsonValue>::empty().insert(key@, value),
    {
        let mut entries: Vec<(String, JsonValue)> = Vec::new();
        entries.push((key.to_owned(), value));
        proof {
            assert(entries@.drop_last() =~= Seq::<(String, JsonValue)>::empty());
            assert(entry_map(Seq::<(String, JsonValue)>::empty()) =~= Map::<
                Seq<char>,
                JsonValue,
            >::empty());
            assert(entry_map(entries@) =~= Map::<Seq<char>, JsonValue>::empty().insert(
                key@,
                value,
            ));
        }
        ResultMap { entries }
    }

    /// The value of the given field, if the map holds one.
    pub fn get(&self, key: &str) -> (r: Option<&JsonValue>)
        ensures
            match self@.get(key@) {
                Some(v) => r matches Some(rv) && *rv == v,
                None => r is None,
            },
    {
        let k: String = key.to_owned();
        proof {
            lemma_entry_map_get(self.entries@, key@);
            assert(self.entries@.subrange(0, self.entries@.len() as int) =~= self.entries@);
        }
        let mut i: usize = self.entries.len();
        while i > 0
            invariant
                i <= self.entries@.len(),
                k@ == key@,
                assoc_lookup(self.entries@.subrange(0, i as int), key@) == assoc_lookup(
                    self.entries@,
                    key@,
                ),
            decreases i,
        {
            i = i - 1;
            proof {
                lemma_entry_map_get(self.entries@, key@);
                assert(self.entries@.subrange(0, i + 1).drop_last() =~= self.entries@.subrange(
                    0,
                    i as int,
                ));
                assert(self.entries@.subrange(0, i + 1).last() == self.entries@[i as int]);
            }
            if self.entries[i].0 == k {
                proof {
                    assert(assoc_lookup(self.entries@.subrange(0, i + 1), key@) == Some(
                        self.entries@[i as int].1,
                    ));
                    assert(assoc_lookup(self.entries@, key@) == Some(self.entries@[i as int].1));
                    assert(self@.get(key@) == Some(self.entries@[i as int].1));
                }
                return Some(&self.entries[i].1);
            }
        }
        proof {
            assert(self.entries@.subrange(0, 0) =~= Seq::<(String, JsonValue)>::empty());
        }
        None
    }

    /// How many fields the map holds.
    pub fn len(&self) -> (n: usize)
        ensures
            n == self@.dom().len(),
    {
        proof {
            use_type_invariant(self);
            lemma_entry_map_len(self.entries@);
        }
        self.entries.len()
    }

    /// The map narrowed to the one given field: every other field is dropped.
    pub fn retain_key(&self, key: &str) -> (r: ResultMap)
        ensures
            r@ == self@.restrict(set![key@]),
            r@.dom().subset_of(set![key@]),
    {
        proof {
            use_type_invariant(self);
        }
        let k: String = key.to_owned();
        let mut out: Vec<(String, JsonValue)> = Vec::new();
        let mut i: usize = 0;
        while i < self.entries.len()
            invariant
                i <= self.entries@.len(),
                k@ == key@,
                distinct_keys(self.entries@),
                entry_map(out@) == entry_map(self.entries@.subrange(0, i as int)).restrict(
                    set![key@],
                ),
                forall|t: int| 0 <= t < out@.len() ==> out@[t].0@ == key@,
                out@.len() == 1 ==> exists|j: int|
                    0 <= j < i && self.entries@[j].0@ == key@ && out@[0] == self.entries@[j],
                out@.len() <= 1,
            decreases self.entries@.len() - i,
        {
            proof {
                assert(self.entries@.subrange(0, i + 1).drop_last() =~= self.entries@.subrange(
                    0,
                    i as int,
                ));
                assert(self.entries@.subrange(0, i + 1).last() == self.entries@[i as int]);
                lemma_restrict_insert(
                    entry_map(self.entries@.subrange(0, i as int)),
                    set![key@],
                    self.entries@[i as int].0@,
                    self.entries@[i as int].1,
                );
            }
            if self.entries[i].0 == k {
                proof {
                    if out@.len() == 1 {
                        let j = choose|j: int|
                            0 <= j < i && self.entries@[j].0@ == key@ && out@[0]
                                == self.entries@[j];
                        assert(self.entries@[j].0@ == self.entries@[i as int].0@);
                        assert(false);
                    }
                }
                let entry: (String, JsonValue) = (
                    self.entries[i].0.clone(),
                    self.entries[i].1.clone(),
                );
                let ghost old_out = out@;
                out.push(entry);
                proof {
                    assert(out@.drop_last() =~= old_out);
                    assert(out@.last() == (entry.0, entry.1));
                    assert(entry_map(out@) == entry_map(old_out).insert(entry.0@, entry.1));
                    assert(entry.0@ == self.entries@[i as int].0@);
                    assert(entry.1 == self.entries@[i as int].1);
                }
            }
            i = i + 1;
        }
        proof {
            assert(self.entries@.subrange(0, self.entries@.len() as int) =~= self.entries@);
            assert(forall|x: Seq<char>|
                entry_map(self.entries@).restrict(set![key@]).dom().contains(x) ==> set![
                    key@,
                ].contains(x));
        }
        ResultMap { entries: out }
    }
}

proof fn lemma_restrict_insert(
    m: Map<Seq<char>, JsonValue>,
    s: Set<Seq<char>>,
    k: Seq<char>,
    v: JsonValue,
)
    ensures
        s.contains(k) ==> m.insert(k, v).restrict(s) == m.restrict(s).insert(k, v),
        !s.contains(k) ==> m.insert(k, v).restrict(s) == m.restrict(s),
{
    if s.contains(k) {
        assert(m.insert(k, v).restrict(s) =~= m.restrict(s).insert(k, v));
    } else {
        assert(m.insert(k, v).restrict(s) =~= m.restrict(s));
    }
}

/// Relies on serde_json::from_str deserializing into serde_json::Map: the
/// result is `Some` exactly when the input is a JSON text whose top level is
/// an object, and then holds that object's members, each member name bound
/// once, string values unwrapped and all others carried through opaquely.
#[verifier::external_body]
pub(crate) fn parse_json_object(s: &str) -> (r: Option<ResultMap>)
    ensures
        r is Some <==> json_obj_of(s@) is Some,
        r matches Some(m) ==> Some(m@) == json_obj_of(s@),
{
    match serde_json::from_str::<serde_json::Map<String, serde_json::Value>>(s) {
        Ok(parsed) => {
            let mut entries: Vec<(String, JsonValue)> = Vec::new();
            for (k, v) in parsed {
                let value = match v {
                    serde_json::Value::String(t) => JsonValue::Str(t),
                    other => JsonValue::Other(other),
                };
                entries.push((k, value));
            }
            Some(ResultMap { entries })
        },
        Err(_) => None,
    }
}

} // verus!
