//! Saving what can be saved of a preferences file that no longer reads as a whole.
//!
//! A file is taken as a JSON object. Fields under an outdated name move to their present one, fields
//! whose value no longer fits are dropped, and the rest is read again.

use vstd::prelude::*;

use crate::text::{self, same};

verus! {

/// A field of a JSON object: its key, and its value as JSON text.
#[derive(Debug, Clone, PartialEq, Eq)]
pub struct PreferenceField {
    pub key: String,
    pub json: String,
}

/// The fields of a preferences file. No key occurs twice.
#[derive(Debug, PartialEq, Eq)]
pub struct PreferenceRecord {
    fields: Vec<PreferenceField>,
}

/// Key and JSON text of each field.
pub open spec fn pairs(fields: Seq<PreferenceField>) -> Seq<(Seq<char>, Seq<char>)> {
    fields.map_values(|f: PreferenceField| (f.key@, f.json@))
}

/// No key occurs twice.
pub open spec fn distinct_keys(fields: Seq<PreferenceField>) -> bool {
    forall|i: int, j: int|
        0 <= i < j < fields.len() ==> (#[trigger] fields[i]).key@ != (#[trigger] fields[j]).key@
}

/// `key` is the key of the field at `i`.
pub open spec fn keyed(fields: Seq<PreferenceField>, i: int, key: Seq<char>) -> bool {
    0 <= i < fields.len() && fields[i].key@ == key
}

/// The fields as a map from keys to JSON text.
pub open spec fn entries(fields: Seq<PreferenceField>) -> Map<Seq<char>, Seq<char>> {
    Map::new(
        |key: Seq<char>| exists|i: int| keyed(fields, i, key),
        |key: Seq<char>| fields[choose|i: int| keyed(fields, i, key)].json@,
    )
}

/// The pairs as a map from keys to JSON text, the last pair of a key winning.
pub open spec fn pair_map(pairs: Seq<(Seq<char>, Seq<char>)>) -> Map<Seq<char>, Seq<char>>
    decreases pairs.len(),
{
    if pairs.len() == 0 {
        Map::empty()
    } else {
        pair_map(pairs.drop_last()).insert(pairs.last().0, pairs.last().1)
    }
}

/// The members of the JSON object that the bytes hold, each value as JSON text; `None` where the
/// bytes are not the JSON text of an object.
pub uninterp spec fn json_object(bytes: Seq<u8>) -> Option<Seq<(Seq<char>, Seq<char>)>>;

/// The member of a JSON object where it is a string; `None` where the text is no object, or holds
/// no such member, or one that is not a string.
pub uninterp spec fn string_member(json: Seq<char>, member: Seq<char>) -> Option<Seq<char>>;

/// `serde_json::from_slice` into a `Value`, each member of an object turned into text by the
/// `Display` of its value. Believed: what comes back depends on the bytes alone, and no key comes
/// back twice, as a `serde_json::Map` holds each key once.
#[verifier::external_body]
fn json_object_fields(bytes: &[u8]) -> (r: Option<Vec<PreferenceField>>)
    ensures
        match r {
            Some(fields) => json_object(bytes@) == Some(pairs(fields@)) && distinct_keys(fields@),
            None => json_object(bytes@) is None,
        },
{
    match serde_json::from_slice::<serde_json::Value>(bytes) {
        Ok(serde_json::Value::Object(map)) => Some(
            map.into_iter()
                .map(|(key, value)| PreferenceField { key, json: value.to_string() })
                .collect(),
        ),
        _ => None,
    }
}

/// `serde_json::from_str` into a `Value`, then `Value::get` and `Value::as_str`. Believed: what
/// comes back depends on the two texts alone.
#[verifier::external_body]
fn json_string_member(json: &str, member: &str) -> (r: Option<String>)
    ensures
        text::optional_text(r) == string_member(json@, member@),
{
    let value: serde_json::Value = serde_json::from_str(json).ok()?;
    value.get(member)?.as_str().map(str::to_string)
}

/// Whether the values of a field that occurs under two names fit the field.
#[derive(Debug, Clone, Copy, PartialEq, Eq)]
pub struct AliasValidity {
    /// The value under the present name fits.
    pub canonical_valid: bool,
    /// The value under the outdated name fits.
    pub alias_valid: bool,
}

/// The fields once the outdated name `alias` is gone. Its value moves to the present name where
/// nothing stands there, or where only the moved value fits.
pub open spec fn without_alias(
    fields: Map<Seq<char>, Seq<char>>,
    canonical: Seq<char>,
    alias: Seq<char>,
    validity: AliasValidity,
) -> Map<Seq<char>, Seq<char>> {
    if !fields.contains_key(alias) {
        fields
    } else if !fields.contains_key(canonical) || (!validity.canonical_valid
        && validity.alias_valid) {
        fields.remove(alias).insert(canonical, fields[alias])
    } else {
        fields.remove(alias)
    }
}

/// A custom trigger with no combination to go with it.
pub open spec fn is_incomplete_hotkey(
    trigger: Option<Seq<char>>,
    has_dictation_hotkey: bool,
    has_custom_combo_hotkey: bool,
) -> bool {
    trigger == Some("custom"@) && !has_dictation_hotkey && !has_custom_combo_hotkey
}

proof fn lemma_entry(fields: Seq<PreferenceField>, i: int)
    requires
        distinct_keys(fields),
        0 <= i < fields.len(),
    ensures
        entries(fields).contains_key(fields[i].key@),
        entries(fields)[fields[i].key@] == fields[i].json@,
{
    assert(keyed(fields, i, fields[i].key@));
    let j = choose|j: int| keyed(fields, j, fields[i].key@);
    assert(j == i);
}

proof fn lemma_no_entry(fields: Seq<PreferenceField>, key: Seq<char>)
    requires
        forall|i: int| 0 <= i < fields.len() ==> (#[trigger] fields[i]).key@ != key,
    ensures
        !entries(fields).contains_key(key),
{
}

/// Two lists with the same fields, up to their order, make the same map.
proof fn lemma_same_entries(a: Seq<PreferenceField>, b: Map<Seq<char>, Seq<char>>)
    requires
        distinct_keys(a),
        forall|i: int|
            0 <= i < a.len() ==> b.contains_key((#[trigger] a[i]).key@) && b[a[i].key@] == a[i].json@,
        forall|key: Seq<char>| #[trigger]
            b.contains_key(key) ==> exists|i: int| keyed(a, i, key),
    ensures
        entries(a) == b,
{
    assert forall|key: Seq<char>| entries(a).contains_key(key) implies b.contains_key(key) && b[key]
        == entries(a)[key] by {
        let i = choose|i: int| keyed(a, i, key);
        lemma_entry(a, i);
    }
    assert(entries(a) =~= b);
}

proof fn lemma_pair_map(fields: Seq<PreferenceField>)
    requires
        distinct_keys(fields),
    ensures
        entries(fields) == pair_map(pairs(fields)),
    decreases fields.len(),
{
    if fields.len() == 0 {
        assert(entries(fields) =~= Map::empty());
    } else {
        let rest = fields.drop_last();
        let last = fields.last();
        lemma_pair_map(rest);
        assert(pairs(fields).drop_last() =~= pairs(rest));
        let b = entries(rest).insert(last.key@, last.json@);
        assert forall|i: int| 0 <= i < fields.len() implies b.contains_key(
            (#[trigger] fields[i]).key@,
        ) && b[fields[i].key@] == fields[i].json@ by {
            if i < rest.len() {
                assert(rest[i] == fields[i]);
                lemma_entry(rest, i);
            }
        }
        assert forall|key: Seq<char>| #[trigger] b.contains_key(key) implies exists|i: int|
            keyed(fields, i, key) by {
            if key == last.key@ {
                assert(keyed(fields, fields.len() - 1, key));
            } else {
                let i = choose|i: int| keyed(rest, i, key);
                assert(keyed(fields, i, key));
            }
        }
        lemma_same_entries(fields, b);
    }
}

impl PreferenceRecord {
    #[verifier::type_invariant]
    spec fn inv(self) -> bool {
        distinct_keys(self.fields@)
    }

    /// The fields in their order.
    pub closed spec fn list(self) -> Seq<PreferenceField> {
        self.fields@
    }
}

impl View for PreferenceRecord {
    type V = Map<Seq<char>, Seq<char>>;

    open spec fn view(&self) -> Map<Seq<char>, Seq<char>> {
        entries(self.list())
    }
}

impl PreferenceRecord {
    /// A record without fields.
    pub fn new() -> (r: PreferenceRecord)
        ensures
            r@ == Map::<Seq<char>, Seq<char>>::empty(),
    {
        let r: PreferenceRecord = PreferenceRecord { fields: Vec::new() };
        assert(r@ =~= Map::<Seq<char>, Seq<char>>::empty());
        r
    }

    /// The members of the JSON object that `bytes` hold; `None` where they hold no object.
    pub fn from_json(bytes: &[u8]) -> (r: Option<PreferenceRecord>)
        ensures
            match r {
                Some(record) => json_object(bytes@) is Some && record@ == pair_map(
                    json_object(bytes@)->0,
                ),
                None => json_object(bytes@) is None,
            },
    {
        match json_object_fields(bytes) {
            Some(fields) => {
                proof {
                    lemma_pair_map(fields@);
                }
                Some(PreferenceRecord { fields })
            },
            None => None,
        }
    }

    /// The fields in their order.
    pub fn fields(&self) -> (r: &Vec<PreferenceField>)
        ensures
            r@ == self.list(),
            distinct_keys(r@),
    {
        proof {
            use_type_invariant(self);
        }
        &self.fields
    }

    fn position(&self, key: &str) -> (r: Option<usize>)
        ensures
            match r {
                Some(i) => keyed(self.list(), i as int, key@) && self@.contains_key(key@)
                    && self@[key@] == self.list()[i as int].json@,
                None => !self@.contains_key(key@) && forall|i: int|
                    0 <= i < self.list().len() ==> (#[trigger] self.list()[i]).key@ != key@,
            },
    {
        proof {
            use_type_invariant(self);
        }
        let mut i: usize = 0;
        while i < self.fields.len()
            invariant
                i <= self.fields.len(),
                distinct_keys(self.fields@),
                forall|j: int| 0 <= j < i ==> (#[trigger] self.fields@[j]).key@ != key@,
            decreases self.fields.len() - i,
        {
            if same(self.fields[i].key.as_str(), key) {
                proof {
                    lemma_entry(self.fields@, i as int);
                }
                return Some(i);
            }
            i += 1;
        }
        proof {
            lemma_no_entry(self.fields@, key@);
        }
        None
    }

    /// The JSON text of a field.
    pub fn get(&self, key: &str) -> (r: Option<&str>)
        ensures
            match r {
                Some(json) => self@.contains_key(key@) && json@ == self@[key@],
                None => !self@.contains_key(key@),
            },
    {
        match self.position(key) {
            Some(i) => Some(self.fields[i].json.as_str()),
            None => None,
        }
    }

    /// Takes a field out.
    pub fn remove(&mut self, key: &str) -> (r: Option<String>)
        ensures
            text::optional_text(r) == (if old(self)@.contains_key(key@) {
                Some(old(self)@[key@])
            } else {
                None
            }),
            final(self)@ == old(self)@.remove(key@),
    {
        proof {
            use_type_invariant(&*self);
        }
        match self.position(key) {
            Some(i) => {
                let ghost before = self.fields@;
                let ghost was = self@;
                let mut fields: Vec<PreferenceField> = Vec::new();
                std::mem::swap(&mut fields, &mut self.fields);
                let field: PreferenceField = fields.remove(i);
                proof {
                    let now = fields@;
                    assert(now =~= before.remove(i as int));
                    assert forall|x: int| 0 <= x < now.len() implies (#[trigger] now[x]) == before[if x
                        < i {
                        x
                    } else {
                        x + 1
                    }] by {}
                    assert(distinct_keys(now));
                    let goal = was.remove(key@);
                    assert forall|x: int| 0 <= x < now.len() implies goal.contains_key(
                        (#[trigger] now[x]).key@,
                    ) && goal[now[x].key@] == now[x].json@ by {
                        let y = if x < i {
                            x
                        } else {
                            x + 1
                        };
                        assert(now[x] == before[y]);
                        lemma_entry(before, y);
                        assert(before[y].key@ != before[i as int].key@);
                    }
                    assert forall|k: Seq<char>| #[trigger] goal.contains_key(k) implies exists|x: int|
                        keyed(now, x, k) by {
                        let y = choose|y: int| keyed(before, y, k);
                        let x = if y < i {
                            y
                        } else {
                            y - 1
                        };
                        assert(y != i);
                        assert(now[x] == before[y]);
                        assert(keyed(now, x, k));
                    }
                    lemma_same_entries(now, goal);
                }
                self.fields = fields;
                Some(field.json)
            },
            None => {
                assert(self@.remove(key@) =~= self@);
                None
            },
        }
    }

    /// Sets a field, in place of the value that it had.
    pub fn insert(&mut self, key: &str, json: String)
        ensures
            final(self)@ == old(self)@.insert(key@, json@),
    {
        let ghost was = self@;
        let dropped: Option<String> = self.remove(key);
        proof {
            use_type_invariant(&*self);
        }
        let ghost before = self.fields@;
        let ghost middle = self@;
        let mut fields: Vec<PreferenceField> = Vec::new();
        std::mem::swap(&mut fields, &mut self.fields);
        fields.push(PreferenceField { key: key.to_owned(), json });
        proof {
            let now = fields@;
            let goal = was.insert(key@, json@);
            assert forall|x: int| 0 <= x < before.len() implies (#[trigger] before[x]).key@
                != key@ by {
                lemma_entry(before, x);
                assert(middle.contains_key(before[x].key@));
            }
            assert forall|x: int, y: int| 0 <= x < y < now.len() implies (#[trigger] now[x]).key@ != (
            #[trigger] now[y]).key@ by {
                assert(now[x] == before[x]);
                if y < before.len() {
                    assert(now[y] == before[y]);
                }
            }
            assert forall|x: int| 0 <= x < now.len() implies goal.contains_key(
                (#[trigger] now[x]).key@,
            ) && goal[now[x].key@] == now[x].json@ by {
                if x < before.len() {
                    assert(now[x] == before[x]);
                    lemma_entry(before, x);
                    assert(middle.contains_key(before[x].key@));
                }
            }
            assert forall|k: Seq<char>| #[trigger] goal.contains_key(k) implies exists|x: int|
                keyed(now, x, k) by {
                if k == key@ {
                    assert(keyed(now, before.len() as int, k));
                } else {
                    assert(middle.contains_key(k));
                    let y = choose|y: int| keyed(before, y, k);
                    assert(now[y] == before[y]);
                    assert(keyed(now, y, k));
                }
            }
            lemma_same_entries(now, goal);
        }
        self.fields = fields;
    }

    /// Moves the value of a field that older releases stored under the name `alias` to its present
    /// name `canonical`, unless a value stands there that fits, or the moved one does not.
    pub fn normalize_alias(&mut self, canonical: &str, alias: &str, validity: AliasValidity)
        requires
            canonical@ != alias@,
        ensures
            final(self)@ == without_alias(old(self)@, canonical@, alias@, validity),
    {
        match self.remove(alias) {
            None => {
                assert(self@ =~= old(self)@);
            },
            Some(json) => {
                if self.get(canonical).is_none() || (!validity.canonical_valid
                    && validity.alias_valid) {
                    self.insert(canonical, json);
                }
            },
        }
    }

    /// Drops the fields whose value does not fit; `valid` tells of each field, in the order of
    /// `fields`, whether it does.
    pub fn retain_valid(&self, valid: &Vec<bool>) -> (r: PreferenceRecord)
        requires
            valid@.len() == self.list().len(),
        ensures
            r@.submap_of(self@),
            forall|i: int|
                0 <= i < valid@.len() ==> (valid@[i] <==> r@.contains_key(
                    (#[trigger] self.list()[i]).key@,
                )),
    {
        proof {
            use_type_invariant(self);
        }
        let ghost all = self.fields@;
        let mut kept: PreferenceRecord = PreferenceRecord::new();
        let mut n: usize = 0;
        while n < self.fields.len()
            invariant
                n <= self.fields.len(),
                all == self.fields@,
                valid@.len() == all.len(),
                distinct_keys(all),
                kept@.submap_of(self@),
                forall|i: int|
                    0 <= i < n ==> (valid@[i] <==> kept@.contains_key((#[trigger] all[i]).key@)),
                forall|i: int|
                    n <= i < all.len() ==> !kept@.contains_key((#[trigger] all[i]).key@),
            decreases self.fields.len() - n,
        {
            proof {
                lemma_entry(all, n as int);
            }
            if valid[n] {
                kept.insert(self.fields[n].key.as_str(), self.fields[n].json.clone());
            }
            n += 1;
        }
        kept
    }

    /// The trigger of the older shortcut field, where there is one.
    pub fn legacy_trigger(&self) -> (r: Option<String>)
        ensures
            text::optional_text(r) == (if self@.contains_key("hotkey"@) {
                string_member(self@["hotkey"@], "trigger"@)
            } else {
                None
            }),
    {
        match self.get("hotkey") {
            Some(json) => json_string_member(json, "trigger"),
            None => None,
        }
    }

    /// Drops the older shortcut field where its trigger is a custom one and no combination goes
    /// with it. `None` where the field is not at fault, so that dropping it would lose a choice.
    pub fn without_incomplete_legacy_hotkey(
        self,
        trigger: Option<&str>,
        has_dictation_hotkey: bool,
        has_custom_combo_hotkey: bool,
    ) -> (r: Option<PreferenceRecord>)
        ensures
            match r {
                Some(record) => {
                    &&& trigger is Some
                    &&& is_incomplete_hotkey(
                        Some(trigger->0@),
                        has_dictation_hotkey,
                        has_custom_combo_hotkey,
                    )
                    &&& record@ == self@.remove("hotkey"@)
                },
                None => trigger is None || !is_incomplete_hotkey(
                    Some(trigger->0@),
                    has_dictation_hotkey,
                    has_custom_combo_hotkey,
                ),
            },
    {
        let custom: bool = match trigger {
            Some(t) => same(t, "custom"),
            None => false,
        };
        if !custom || has_dictation_hotkey || has_custom_combo_hotkey {
            return None;
        }
        let mut record: PreferenceRecord = self;
        let dropped: Option<String> = record.remove("hotkey");
        Some(record)
    }
}

/// Removing the outdated names leaves every other field as it was.
pub proof fn aliases_touch_no_other_field(
    fields: Map<Seq<char>, Seq<char>>,
    canonical: Seq<char>,
    alias: Seq<char>,
    validity: AliasValidity,
    key: Seq<char>,
)
    requires
        key != canonical,
        key != alias,
    ensures
        without_alias(fields, canonical, alias, validity).contains_key(key) == fields.contains_key(
            key,
        ),
        fields.contains_key(key) ==> without_alias(fields, canonical, alias, validity)[key]
            == fields[key],
{
}

/// A value that fits is never given up for one under the outdated name.
pub proof fn valid_canonical_values_win(
    fields: Map<Seq<char>, Seq<char>>,
    canonical: Seq<char>,
    alias: Seq<char>,
    validity: AliasValidity,
)
    requires
        canonical != alias,
        fields.contains_key(canonical),
        validity.canonical_valid,
    ensures
        without_alias(fields, canonical, alias, validity).contains_key(canonical),
        without_alias(fields, canonical, alias, validity)[canonical] == fields[canonical],
{
}

/// A record gives back what was put in last under a key, nothing for a key that was taken out, and is
/// otherwise as before.
pub proof fn records_give_back_what_was_put_in(
    fresh: PreferenceRecord,
    in_fresh: Option<&str>,
    record: &mut PreferenceRecord,
    key: &str,
    json: String,
    asked: &str,
    before: Option<&str>,
    after: Option<&str>,
    shorter: &mut PreferenceRecord,
    removed: Option<String>,
    left: Option<&str>,
)
    requires
        call_ensures(PreferenceRecord::new, (), fresh),
        call_ensures(PreferenceRecord::get, (&fresh, asked), in_fresh),
        call_ensures(PreferenceRecord::get, (&*old(record), asked), before),
        call_ensures(PreferenceRecord::insert, (record, key, json), ()),
        call_ensures(PreferenceRecord::get, (&*final(record), asked), after),
        *old(shorter) == *old(record),
        call_ensures(PreferenceRecord::remove, (shorter, key), removed),
        call_ensures(PreferenceRecord::get, (&*final(shorter), asked), left),
    ensures
        in_fresh is None,
        asked@ == key@ ==> after is Some && after->0@ == json@,
        asked@ == key@ ==> left is None,
        asked@ == key@ ==> (removed is Some <==> before is Some),
        asked@ == key@ && before is Some ==> removed->0@ == before->0@,
        asked@ != key@ ==> (after is Some <==> before is Some) && (left is Some <==> before is Some),
        asked@ != key@ && before is Some ==> after->0@ == before->0@ && left->0@ == before->0@,
{
}

/// The fields of a record are what it gives back, each key once.
pub proof fn records_list_what_they_give_back(
    record: &PreferenceRecord,
    fields: &Vec<PreferenceField>,
    i: int,
    key: &str,
    json: Option<&str>,
)
    requires
        call_ensures(PreferenceRecord::fields, (record,), fields),
        0 <= i < fields@.len(),
        key@ == fields@[i].key@,
        call_ensures(PreferenceRecord::get, (record, key), json),
    ensures
        json is Some && json->0@ == fields@[i].json@,
        forall|j: int| 0 <= j < fields@.len() && j != i ==> (#[trigger] fields@[j]).key@ != key@,
{
    lemma_entry(fields@, i);
    assert forall|j: int| 0 <= j < fields@.len() && j != i implies (#[trigger] fields@[j]).key@
        != key@ by {
        let a = fields@[i];
        let b = fields@[j];
    }
}

/// An older name gives way to the present one: it is gone afterwards, its value is taken over where
/// there is no present value, or where that one is not valid and the older one is, and no other field
/// changes.
pub proof fn older_names_give_way(
    record: &mut PreferenceRecord,
    canonical: &str,
    alias: &str,
    validity: AliasValidity,
    present: Option<&str>,
    older: Option<&str>,
    after: Option<&str>,
    older_after: Option<&str>,
    other: &str,
    other_before: Option<&str>,
    other_after: Option<&str>,
)
    requires
        canonical@ != alias@,
        other@ != canonical@ && other@ != alias@,
        call_ensures(PreferenceRecord::get, (&*old(record), canonical), present),
        call_ensures(PreferenceRecord::get, (&*old(record), alias), older),
        call_ensures(PreferenceRecord::get, (&*old(record), other), other_before),
        call_ensures(PreferenceRecord::normalize_alias, (record, canonical, alias, validity), ()),
        call_ensures(PreferenceRecord::get, (&*final(record), canonical), after),
        call_ensures(PreferenceRecord::get, (&*final(record), alias), older_after),
        call_ensures(PreferenceRecord::get, (&*final(record), other), other_after),
    ensures
        older_after is None,
        older is Some && (present is None || !validity.canonical_valid && validity.alias_valid)
            ==> after is Some && after->0@ == older->0@,
        present is Some && (older is None || validity.canonical_valid || !validity.alias_valid)
            ==> after is Some && after->0@ == present->0@,
        present is None && older is None ==> after is None,
        other_after is Some <==> other_before is Some,
        other_before is Some ==> other_after->0@ == other_before->0@,
{
}

/// Of a record the fields that were found valid are kept, as they are.
pub proof fn valid_fields_are_kept(
    record: &PreferenceRecord,
    fields: &Vec<PreferenceField>,
    valid: &Vec<bool>,
    kept: PreferenceRecord,
    i: int,
    key: &str,
    json: Option<&str>,
)
    requires
        call_ensures(PreferenceRecord::fields, (record,), fields),
        valid@.len() == fields@.len(),
        call_ensures(PreferenceRecord::retain_valid, (record, valid), kept),
        0 <= i < fields@.len(),
        key@ == fields@[i].key@,
        call_ensures(PreferenceRecord::get, (&kept, key), json),
    ensures
        json is Some <==> valid@[i],
        json is Some ==> json->0@ == fields@[i].json@,
{
    lemma_entry(fields@, i);
    assert(record.list()[i].key@ == key@);
}

proof fn lemma_later_pairs_win(pairs: Seq<(Seq<char>, Seq<char>)>, i: int)
    requires
        0 <= i < pairs.len(),
        forall|j: int| i < j < pairs.len() ==> (#[trigger] pairs[j]).0 != pairs[i].0,
    ensures
        pair_map(pairs).contains_key(pairs[i].0),
        pair_map(pairs)[pairs[i].0] == pairs[i].1,
    decreases pairs.len(),
{
    if i < pairs.len() - 1 {
        assert(pairs.drop_last()[i] == pairs[i]);
        assert forall|j: int| i < j < pairs.drop_last().len() implies (
        #[trigger] pairs.drop_last()[j]).0 != pairs[i].0 by {
            assert(pairs[j].0 != pairs[i].0);
        }
        lemma_later_pairs_win(pairs.drop_last(), i);
        assert(pairs[pairs.len() - 1].0 != pairs[i].0);
    }
}

/// A file that holds an object is read as a record of its members, and any other file as none.
pub proof fn objects_are_read_member_by_member(
    bytes: &[u8],
    r: Option<PreferenceRecord>,
    i: int,
    key: &str,
    json: Option<&str>,
)
    requires
        call_ensures(PreferenceRecord::from_json, (bytes,), r),
        json_object(bytes@) matches Some(members) ==> 0 <= i < members.len() && members[i].0 == key@
            && forall|j: int| i < j < members.len() ==> (#[trigger] members[j]).0 != key@,
        r matches Some(record) ==> call_ensures(PreferenceRecord::get, (&record, key), json),
    ensures
        r is Some <==> json_object(bytes@) is Some,
        r is Some ==> json is Some && json->0@ == json_object(bytes@)->0[i].1,
{
    if r is Some {
        lemma_later_pairs_win(json_object(bytes@)->0, i);
    }
}

/// An older trigger that is a custom one without any combination is taken out, and only then.
pub proof fn incomplete_triggers_are_taken_out(
    record: PreferenceRecord,
    trigger: Option<&str>,
    has_dictation: bool,
    has_combo: bool,
    r: Option<PreferenceRecord>,
    asked: &str,
    before: Option<&str>,
    after: Option<&str>,
)
    requires
        call_ensures(
            PreferenceRecord::without_incomplete_legacy_hotkey,
            (record, trigger, has_dictation, has_combo),
            r,
        ),
        call_ensures(PreferenceRecord::get, (&record, asked), before),
        r matches Some(rest) ==> call_ensures(PreferenceRecord::get, (&rest, asked), after),
    ensures
        r is Some <==> trigger is Some && trigger->0@ == "custom"@ && !has_dictation && !has_combo,
        r is Some && asked@ == "hotkey"@ ==> after is None,
        r is Some && asked@ != "hotkey"@ ==> (after is Some <==> before is Some),
        r is Some && asked@ != "hotkey"@ && before is Some ==> after->0@ == before->0@,
{
}

/// The older trigger of a record is the member of that name in its hotkey.
pub proof fn older_triggers_are_read_from_the_hotkey(
    record: &PreferenceRecord,
    hotkey: Option<&str>,
    key: &str,
    r: Option<String>,
)
    requires
        key@ == "hotkey"@,
        call_ensures(PreferenceRecord::get, (record, key), hotkey),
        call_ensures(PreferenceRecord::legacy_trigger, (record,), r),
    ensures
        hotkey is None ==> r is None,
        hotkey is Some ==> (r is Some <==> string_member(hotkey->0@, "trigger"@) is Some),
        r is Some ==> string_member(hotkey->0@, "trigger"@) == Some(r->0@),
{
}

} // verus!
