//! Reading preferences from a file that no longer reads as a whole, with as little lost as possible.

use vstd::prelude::*;

use crate::platform::TargetOs;
use crate::preference_record::{self, AliasValidity, PreferenceField, PreferenceRecord};
use crate::preferences::{self, CatalogAnswers, UserPreferences, UserPreferencesWire};
use crate::text::same;

verus! {

/// `ask` can answer `said` about a field.
pub open spec fn says<F: Fn(&str, &str) -> bool>(
    ask: F,
    key: Seq<char>,
    json: Seq<char>,
    said: bool,
) -> bool {
    exists|k: &str, j: &str| k@ == key && j@ == json && #[trigger] call_ensures(ask, (k, j), said)
}

/// What `fits` says of the values of a field that is stored under an outdated name too.
pub open spec fn judges<F: Fn(&str, &str) -> bool>(
    fits: F,
    fields: Map<Seq<char>, Seq<char>>,
    canonical: Seq<char>,
    alias: Seq<char>,
    validity: AliasValidity,
) -> bool {
    fields.contains_key(alias) ==> {
        &&& fields.contains_key(canonical) ==> says(
            fits,
            canonical,
            fields[canonical],
            validity.canonical_valid,
        )
        &&& says(fits, canonical, fields[alias], validity.alias_valid)
    }
}

/// `renamed` holds the value of `fields` under the present name alone.
pub open spec fn drops_alias<F: Fn(&str, &str) -> bool>(
    fits: F,
    fields: Map<Seq<char>, Seq<char>>,
    canonical: Seq<char>,
    alias: Seq<char>,
    renamed: Map<Seq<char>, Seq<char>>,
) -> bool {
    exists|validity: AliasValidity|
        judges(fits, fields, canonical, alias, validity) && renamed
            == #[trigger] preference_record::without_alias(fields, canonical, alias, validity)
}

/// `kept` holds the fields whose value fits.
pub open spec fn keeps_what_fits<F: Fn(&str, &str) -> bool>(
    fits: F,
    fields: Map<Seq<char>, Seq<char>>,
    kept: Map<Seq<char>, Seq<char>>,
) -> bool {
    &&& kept.submap_of(fields)
    &&& forall|key: Seq<char>| #[trigger]
        fields.contains_key(key) ==> says(fits, key, fields[key], kept.contains_key(key))
}

/// `renamed` is `fields` without the outdated name of the newline setting.
pub open spec fn drops_newline_alias<F: Fn(&str, &str) -> bool>(
    fits: F,
    fields: Map<Seq<char>, Seq<char>>,
    renamed: Map<Seq<char>, Seq<char>>,
) -> bool {
    drops_alias(
        fits,
        fields,
        "windowsSendInputNewlineMode"@,
        "windowsSendinputNewlineMode"@,
        renamed,
    )
}

/// `renamed` is `fields` without the outdated name of the insertion setting.
pub open spec fn drops_insertion_alias<F: Fn(&str, &str) -> bool>(
    fits: F,
    fields: Map<Seq<char>, Seq<char>>,
    renamed: Map<Seq<char>, Seq<char>>,
) -> bool {
    drops_alias(
        fits,
        fields,
        "windowsSendInputInsertionOnly"@,
        "windowsSendinputInsertionOnly"@,
        renamed,
    )
}

/// `renamed` is `fields` with every outdated name gone.
pub open spec fn drops_aliases<F: Fn(&str, &str) -> bool>(
    fits: F,
    fields: Map<Seq<char>, Seq<char>>,
    renamed: Map<Seq<char>, Seq<char>>,
) -> bool {
    exists|first: Map<Seq<char>, Seq<char>>|
        #[trigger] drops_newline_alias(fits, fields, first) && drops_insertion_alias(
            fits,
            first,
            renamed,
        )
}

/// `clean` is `fields` with the outdated names gone and the values that do not fit dropped.
pub open spec fn cleans<F: Fn(&str, &str) -> bool>(
    fits: F,
    fields: Map<Seq<char>, Seq<char>>,
    clean: Map<Seq<char>, Seq<char>>,
) -> bool {
    exists|renamed: Map<Seq<char>, Seq<char>>|
        #[trigger] drops_aliases(fits, fields, renamed) && keeps_what_fits(fits, renamed, clean)
}

/// The preferences that a record amounts to, `None` where it does not read as a whole.
pub open spec fn reads_as<R: Fn(&PreferenceRecord) -> Option<(UserPreferencesWire, CatalogAnswers)>>(
    reads: R,
    record: PreferenceRecord,
    target: TargetOs,
    p: Option<UserPreferences>,
) -> bool {
    exists|answer: Option<(UserPreferencesWire, CatalogAnswers)>|
        #![trigger call_ensures(reads, (&record,), answer)]
        call_ensures(reads, (&record,), answer) && match answer {
            Some((wire, answers)) => if preferences::lacks_combination(wire) {
                p is None
            } else {
                p is Some && preferences::migrates(wire, answers, target, p->0)
            },
            None => p is None,
        }
}

/// Whether the field `key` holds a combination of keys.
pub open spec fn holds_binding<B: Fn(&str, &str) -> bool>(
    binds: B,
    fields: Map<Seq<char>, Seq<char>>,
    key: Seq<char>,
    said: bool,
) -> bool {
    if fields.contains_key(key) {
        says(binds, key, fields[key], said)
    } else {
        !said
    }
}

/// The trigger of the older shortcut field is a custom one.
pub open spec fn has_custom_trigger(fields: Map<Seq<char>, Seq<char>>) -> bool {
    fields.contains_key("hotkey"@) && preference_record::string_member(
        fields["hotkey"@],
        "trigger"@,
    ) == Some("custom"@)
}

/// The preferences that a record amounts to without an older shortcut field that lacks its
/// combination; `None` where that field is not at fault or the rest does not read either.
pub open spec fn reads_without_hotkey<
    B: Fn(&str, &str) -> bool,
    R: Fn(&PreferenceRecord) -> Option<(UserPreferencesWire, CatalogAnswers)>,
>(
    binds: B,
    reads: R,
    record: PreferenceRecord,
    target: TargetOs,
    p: Option<UserPreferences>,
) -> bool {
    if !has_custom_trigger(record@) {
        p is None
    } else {
        exists|dictation: bool, combo: bool|
            {
                &&& #[trigger] holds_binding(binds, record@, "dictationHotkey"@, dictation)
                &&& #[trigger] holds_binding(binds, record@, "customComboHotkey"@, combo)
                &&& if dictation || combo {
                    p is None
                } else {
                    exists|rest: PreferenceRecord|
                        rest@ == record@.remove("hotkey"@) && #[trigger] reads_as(
                            reads,
                            rest,
                            target,
                            p,
                        )
                }
            }
    }
}

/// `p` is what can be saved of a record: what it amounts to, or else what it amounts to without an
/// incomplete shortcut, or else `defaults`.
pub open spec fn saves<
    B: Fn(&str, &str) -> bool,
    R: Fn(&PreferenceRecord) -> Option<(UserPreferencesWire, CatalogAnswers)>,
>(
    binds: B,
    reads: R,
    record: PreferenceRecord,
    defaults: UserPreferences,
    target: TargetOs,
    p: UserPreferences,
) -> bool {
    ||| reads_as(reads, record, target, Some(p))
    ||| reads_as(reads, record, target, None) && reads_without_hotkey(
        binds,
        reads,
        record,
        target,
        Some(p),
    )
    ||| reads_as(reads, record, target, None) && reads_without_hotkey(
        binds,
        reads,
        record,
        target,
        None,
    ) && p == defaults
}

/// `p` is what is salvaged of a file with these fields.
pub open spec fn salvages<
    F: Fn(&str, &str) -> bool,
    B: Fn(&str, &str) -> bool,
    R: Fn(&PreferenceRecord) -> Option<(UserPreferencesWire, CatalogAnswers)>,
>(
    fits: F,
    binds: B,
    reads: R,
    fields: Map<Seq<char>, Seq<char>>,
    defaults: UserPreferences,
    target: TargetOs,
    p: UserPreferences,
) -> bool {
    exists|clean: PreferenceRecord|
        cleans(fits, fields, clean@) && #[trigger] saves(binds, reads, clean, defaults, target, p)
}

impl PreferenceRecord {
    fn judged<F: Fn(&str, &str) -> bool>(&self, fits: &F, canonical: &str, alias: &str) -> (r:
        AliasValidity)
        requires
            forall|k: &str, j: &str| call_requires(*fits, (k, j)),
        ensures
            judges(*fits, self@, canonical@, alias@, r),
    {
        match self.get(alias) {
            None => AliasValidity { canonical_valid: false, alias_valid: false },
            Some(outdated) => {
                let canonical_valid: bool = match self.get(canonical) {
                    Some(json) => (*fits)(canonical, json),
                    None => false,
                };
                AliasValidity { canonical_valid, alias_valid: (*fits)(canonical, outdated) }
            },
        }
    }

    /// Moves the fields that older releases stored under another name to their present names.
    pub fn normalize_preference_aliases<F: Fn(&str, &str) -> bool>(&mut self, fits: &F)
        requires
            forall|k: &str, j: &str| call_requires(*fits, (k, j)),
        ensures
            drops_aliases(*fits, old(self)@, final(self)@),
    {
        proof {
            lemma_names();
        }
        let newline: AliasValidity = self.judged(
            fits,
            "windowsSendInputNewlineMode",
            "windowsSendinputNewlineMode",
        );
        self.normalize_alias("windowsSendInputNewlineMode", "windowsSendinputNewlineMode", newline);
        let ghost first = self@;
        let insertion_only: AliasValidity = self.judged(
            fits,
            "windowsSendInputInsertionOnly",
            "windowsSendinputInsertionOnly",
        );
        self.normalize_alias(
            "windowsSendInputInsertionOnly",
            "windowsSendinputInsertionOnly",
            insertion_only,
        );
        assert(drops_newline_alias(*fits, old(self)@, first));
        assert(drops_insertion_alias(*fits, first, self@));
    }

    /// Drops the fields whose value does not fit.
    pub fn retain_fitting<F: Fn(&str, &str) -> bool>(&self, fits: &F) -> (r: PreferenceRecord)
        requires
            forall|k: &str, j: &str| call_requires(*fits, (k, j)),
        ensures
            keeps_what_fits(*fits, self@, r@),
    {
        let fields: &Vec<PreferenceField> = self.fields();
        let mut valid: Vec<bool> = Vec::new();
        let mut n: usize = 0;
        while n < fields.len()
            invariant
                n <= fields.len(),
                valid@.len() == n,
                forall|k: &str, j: &str| call_requires(*fits, (k, j)),
                forall|i: int|
                    0 <= i < n ==> says(
                        *fits,
                        (#[trigger] fields@[i]).key@,
                        fields@[i].json@,
                        valid@[i],
                    ),
            decreases fields.len() - n,
        {
            let said: bool = (*fits)(fields[n].key.as_str(), fields[n].json.as_str());
            valid.push(said);
            n += 1;
        }
        let kept: PreferenceRecord = self.retain_valid(&valid);
        proof {
            assert forall|key: Seq<char>| #[trigger] self@.contains_key(key) implies says(
                *fits,
                key,
                self@[key],
                kept@.contains_key(key),
            ) by {
                let i = choose|i: int| preference_record::keyed(self.list(), i, key);
                assert(fields@[i].key@ == key);
            }
        }
        kept
    }
}

impl UserPreferences {
    fn read_record<R: Fn(&PreferenceRecord) -> Option<(UserPreferencesWire, CatalogAnswers)>>(
        reads: &R,
        record: &PreferenceRecord,
        target: TargetOs,
    ) -> (r: Option<UserPreferences>)
        requires
            call_requires(*reads, (record,)),
        ensures
            reads_as(*reads, *record, target, r),
    {
        let answer: Option<(UserPreferencesWire, CatalogAnswers)> = (*reads)(record);
        let ghost said = answer;
        assert(call_ensures(*reads, (record,), said));
        match answer {
            Some((wire, answers)) => match UserPreferences::from_wire(wire, answers, target) {
                Ok(p) => Some(p),
                Err(_) => None,
            },
            None => None,
        }
    }

    /// Reads `record` without an older shortcut field whose trigger is a custom one and that no
    /// combination goes with. `None` where that field is not at fault, and where the rest does not
    /// read either.
    pub fn salvage_without_incomplete_legacy_hotkey<
        B: Fn(&str, &str) -> bool,
        R: Fn(&PreferenceRecord) -> Option<(UserPreferencesWire, CatalogAnswers)>,
    >(record: PreferenceRecord, binds: &B, reads: &R, target: TargetOs) -> (r: Option<
        UserPreferences,
    >)
        requires
            forall|k: &str, j: &str| call_requires(*binds, (k, j)),
            forall|rest: &PreferenceRecord| call_requires(*reads, (rest,)),
        ensures
            reads_without_hotkey(*binds, *reads, record, target, r),
    {
        let trigger: Option<String> = record.legacy_trigger();
        let custom: bool = match &trigger {
            Some(name) => same(name.as_str(), "custom"),
            None => false,
        };
        if !custom {
            return None;
        }
        let dictation: bool = match record.get("dictationHotkey") {
            Some(json) => (*binds)("dictationHotkey", json),
            None => false,
        };
        let combo: bool = match record.get("customComboHotkey") {
            Some(json) => (*binds)("customComboHotkey", json),
            None => false,
        };
        assert(holds_binding(*binds, record@, "dictationHotkey"@, dictation));
        assert(holds_binding(*binds, record@, "customComboHotkey"@, combo));
        match record.without_incomplete_legacy_hotkey(Some("custom"), dictation, combo) {
            Some(rest) => UserPreferences::read_record(reads, &rest, target),
            None => None,
        }
    }

    /// Reads a file that does not read as a whole. Fields under an outdated name move to their
    /// present one, fields whose value does not fit are dropped, and the rest is read again, at
    /// need without an older shortcut that lacks its combination. Where nothing helps, or `bytes`
    /// hold no JSON object, the user has `defaults`.
    ///
    /// `fits` says whether the value of one field is of the field's type, `binds` whether it is a
    /// combination of keys, and `reads` gives the whole record as it is stored, where it can.
    pub fn salvage_from_json_bytes<
        F: Fn(&str, &str) -> bool,
        B: Fn(&str, &str) -> bool,
        R: Fn(&PreferenceRecord) -> Option<(UserPreferencesWire, CatalogAnswers)>,
    >(
        bytes: &[u8],
        fits: F,
        binds: B,
        reads: R,
        defaults: UserPreferences,
        target: TargetOs,
    ) -> (r: UserPreferences)
        requires
            forall|k: &str, j: &str| call_requires(fits, (k, j)),
            forall|k: &str, j: &str| call_requires(binds, (k, j)),
            forall|record: &PreferenceRecord| call_requires(reads, (record,)),
        ensures
            match preference_record::json_object(bytes@) {
                Some(members) => salvages(
                    fits,
                    binds,
                    reads,
                    preference_record::pair_map(members),
                    defaults,
                    target,
                    r,
                ),
                None => r == defaults,
            },
    {
        let mut record: PreferenceRecord = match PreferenceRecord::from_json(bytes) {
            Some(record) => record,
            None => {
                return defaults;
            },
        };
        record.normalize_preference_aliases(&fits);
        let clean: PreferenceRecord = record.retain_fitting(&fits);
        let ghost kept = clean;
        assert(cleans(
            fits,
            preference_record::pair_map(preference_record::json_object(bytes@)->0),
            kept@,
        ));
        match UserPreferences::read_record(&reads, &clean, target) {
            Some(p) => {
                assert(saves(binds, reads, kept, defaults, target, p));
                p
            },
            None => match UserPreferences::salvage_without_incomplete_legacy_hotkey(
                clean,
                &binds,
                &reads,
                target,
            ) {
                Some(p) => {
                    assert(saves(binds, reads, kept, defaults, target, p));
                    p
                },
                None => {
                    assert(saves(binds, reads, kept, defaults, target, defaults));
                    defaults
                },
            },
        }
    }
}

/// A field whose value fits survives, whatever else in the file does not.
pub proof fn fields_that_fit_survive<F: Fn(&str, &str) -> bool>(
    fits: F,
    fields: Map<Seq<char>, Seq<char>>,
    clean: Map<Seq<char>, Seq<char>>,
    key: Seq<char>,
)
    requires
        cleans(fits, fields, clean),
        fields.contains_key(key),
        key != "windowsSendInputNewlineMode"@,
        key != "windowsSendinputNewlineMode"@,
        key != "windowsSendInputInsertionOnly"@,
        key != "windowsSendinputInsertionOnly"@,
        !says(fits, key, fields[key], false),
    ensures
        clean.contains_key(key),
        clean[key] == fields[key],
{
    let second = choose|second: Map<Seq<char>, Seq<char>>|
        #[trigger] drops_aliases(fits, fields, second) && keeps_what_fits(fits, second, clean);
    let first = choose|first: Map<Seq<char>, Seq<char>>|
        #[trigger] drops_newline_alias(fits, fields, first) && drops_insertion_alias(
            fits,
            first,
            second,
        );
    assert(first.contains_key(key) && first[key] == fields[key]);
    assert(second.contains_key(key) && second[key] == fields[key]);
}

/// A field whose value does not fit is gone.
pub proof fn fields_that_do_not_fit_are_dropped<F: Fn(&str, &str) -> bool>(
    fits: F,
    fields: Map<Seq<char>, Seq<char>>,
    clean: Map<Seq<char>, Seq<char>>,
    key: Seq<char>,
)
    requires
        cleans(fits, fields, clean),
        clean.contains_key(key),
    ensures
        says(fits, key, clean[key], true),
{
    let second = choose|second: Map<Seq<char>, Seq<char>>|
        #[trigger] drops_aliases(fits, fields, second) && keeps_what_fits(fits, second, clean);
    assert(second.contains_key(key));
}

/// The present name of a field.
pub open spec fn present_name(key: Seq<char>) -> Seq<char> {
    if key == "windowsSendinputNewlineMode"@ {
        "windowsSendInputNewlineMode"@
    } else if key == "windowsSendinputInsertionOnly"@ {
        "windowsSendInputInsertionOnly"@
    } else {
        key
    }
}

/// `fits` goes by the field's name and value alone: it answers as `valid` does.
pub open spec fn fits_as<F: Fn(&str, &str) -> bool>(
    fits: F,
    valid: spec_fn(Seq<char>, Seq<char>) -> bool,
) -> bool {
    forall|k: &str, j: &str, said: bool| #[trigger]
        call_ensures(fits, (k, j), said) ==> said == valid(k@, j@)
}

/// `fits` answers for every field, under its present name.
pub open spec fn answers_for<F: Fn(&str, &str) -> bool>(
    fits: F,
    valid: spec_fn(Seq<char>, Seq<char>) -> bool,
    fields: Map<Seq<char>, Seq<char>>,
) -> bool {
    forall|key: Seq<char>| #[trigger]
        fields.contains_key(key) ==> says(
            fits,
            present_name(key),
            fields[key],
            valid(present_name(key), fields[key]),
        )
}

/// `reads` goes by the fields alone: it answers as `reading` does.
pub open spec fn reads_as_fields<
    R: Fn(&PreferenceRecord) -> Option<(UserPreferencesWire, CatalogAnswers)>,
>(
    reads: R,
    reading: spec_fn(Map<Seq<char>, Seq<char>>) -> Option<(UserPreferencesWire, CatalogAnswers)>,
) -> bool {
    forall|record: PreferenceRecord, answer: Option<(UserPreferencesWire, CatalogAnswers)>|
        #[trigger] call_ensures(reads, (&record,), answer) ==> answer == reading(record@)
}

/// A file reads as a whole only where every value in it fits, and a field under its outdated name
/// reads as it does under its present one, which must then be free.
pub open spec fn reads_field_by_field(
    valid: spec_fn(Seq<char>, Seq<char>) -> bool,
    reading: spec_fn(Map<Seq<char>, Seq<char>>) -> Option<(UserPreferencesWire, CatalogAnswers)>,
) -> bool {
    &&& forall|fields: Map<Seq<char>, Seq<char>>, key: Seq<char>|
        (#[trigger] reading(fields)) is Some && #[trigger] fields.contains_key(key) ==> valid(
            key,
            fields[key],
        )
    &&& forall|fields: Map<Seq<char>, Seq<char>>, alias: Seq<char>|
        (#[trigger] reading(fields)) is Some && present_name(alias) != alias
            && #[trigger] fields.contains_key(alias) ==> !fields.contains_key(present_name(alias))
            && reading(fields.remove(alias).insert(present_name(alias), fields[alias]))
            == reading(fields)
}

proof fn lemma_names()
    ensures
        "windowsSendInputNewlineMode"@ != "windowsSendinputNewlineMode"@,
        "windowsSendInputInsertionOnly"@ != "windowsSendinputInsertionOnly"@,
        "windowsSendInputNewlineMode"@ != "windowsSendInputInsertionOnly"@,
        "windowsSendInputNewlineMode"@ != "windowsSendinputInsertionOnly"@,
        "windowsSendinputNewlineMode"@ != "windowsSendInputInsertionOnly"@,
        "windowsSendinputNewlineMode"@ != "windowsSendinputInsertionOnly"@,
{
    reveal_strlit("windowsSendInputNewlineMode");
    reveal_strlit("windowsSendinputNewlineMode");
    reveal_strlit("windowsSendInputInsertionOnly");
    reveal_strlit("windowsSendinputInsertionOnly");
    assert("windowsSendInputNewlineMode"@[11] != "windowsSendinputNewlineMode"@[11]);
    assert("windowsSendInputInsertionOnly"@[11] != "windowsSendinputInsertionOnly"@[11]);
    assert("windowsSendInputNewlineMode"@.len() != "windowsSendInputInsertionOnly"@.len());
    assert("windowsSendinputNewlineMode"@.len() != "windowsSendinputInsertionOnly"@.len());
}

/// A file that reads as a whole is salvaged to that reading: nothing in it is lost or changed.
pub proof fn a_readable_file_is_salvaged_to_its_reading<
    F: Fn(&str, &str) -> bool,
    B: Fn(&str, &str) -> bool,
    R: Fn(&PreferenceRecord) -> Option<(UserPreferencesWire, CatalogAnswers)>,
>(
    fits: F,
    binds: B,
    reads: R,
    valid: spec_fn(Seq<char>, Seq<char>) -> bool,
    reading: spec_fn(Map<Seq<char>, Seq<char>>) -> Option<(UserPreferencesWire, CatalogAnswers)>,
    fields: Map<Seq<char>, Seq<char>>,
    wire: UserPreferencesWire,
    answers: CatalogAnswers,
    defaults: UserPreferences,
    target: TargetOs,
    p: UserPreferences,
)
    requires
        fits_as(fits, valid),
        reads_as_fields(reads, reading),
        reads_field_by_field(valid, reading),
        reading(fields) == Some((wire, answers)),
        !preferences::lacks_combination(wire),
        salvages(fits, binds, reads, fields, defaults, target, p),
    ensures
        preferences::migrates(wire, answers, target, p),
{
    lemma_names();
    let clean = choose|clean: PreferenceRecord|
        cleans(fits, fields, clean@) && #[trigger] saves(binds, reads, clean, defaults, target, p);
    let second = choose|second: Map<Seq<char>, Seq<char>>|
        #[trigger] drops_aliases(fits, fields, second) && keeps_what_fits(fits, second, clean@);
    let first = choose|first: Map<Seq<char>, Seq<char>>|
        #[trigger] drops_newline_alias(fits, fields, first) && drops_insertion_alias(
            fits,
            first,
            second,
        );
    assert(reading(first) == reading(fields)) by {
        assert(fields.contains_key("windowsSendinputNewlineMode"@)
            || !fields.contains_key("windowsSendinputNewlineMode"@));
    }
    assert(reading(second) == reading(first)) by {
        assert(first.contains_key("windowsSendinputInsertionOnly"@)
            || !first.contains_key("windowsSendinputInsertionOnly"@));
    }
    assert forall|key: Seq<char>| second.contains_key(key) implies clean@.contains_key(key) by {
        assert(valid(key, second[key]));
    }
    assert(clean@ =~= second);
}

/// A field whose value does not fit counts as absent: what is salvaged of a file is what is
/// salvaged of the file without it, so that exactly the bad field is lost.
pub proof fn a_field_that_does_not_fit_counts_as_absent<
    F: Fn(&str, &str) -> bool,
    B: Fn(&str, &str) -> bool,
    R: Fn(&PreferenceRecord) -> Option<(UserPreferencesWire, CatalogAnswers)>,
>(
    fits: F,
    binds: B,
    reads: R,
    valid: spec_fn(Seq<char>, Seq<char>) -> bool,
    fields: Map<Seq<char>, Seq<char>>,
    key: Seq<char>,
    defaults: UserPreferences,
    target: TargetOs,
    p: UserPreferences,
)
    requires
        fits_as(fits, valid),
        answers_for(fits, valid, fields),
        fields.contains_key(key),
        !valid(present_name(key), fields[key]),
    ensures
        salvages(fits, binds, reads, fields, defaults, target, p) <==> salvages(
            fits,
            binds,
            reads,
            fields.remove(key),
            defaults,
            target,
            p,
        ),
{
    assert forall|clean: Map<Seq<char>, Seq<char>>|
        cleans(fits, fields, clean) == cleans(fits, fields.remove(key), clean) by {
        lemma_bad_field(fits, valid, fields, key, clean);
    }
    if salvages(fits, binds, reads, fields, defaults, target, p) {
        let clean = choose|clean: PreferenceRecord|
            cleans(fits, fields, clean@) && #[trigger] saves(
                binds,
                reads,
                clean,
                defaults,
                target,
                p,
            );
        assert(cleans(fits, fields.remove(key), clean@));
    }
    if salvages(fits, binds, reads, fields.remove(key), defaults, target, p) {
        let clean = choose|clean: PreferenceRecord|
            cleans(fits, fields.remove(key), clean@) && #[trigger] saves(
                binds,
                reads,
                clean,
                defaults,
                target,
                p,
            );
        assert(cleans(fits, fields, clean@));
    }
}

/// What is left of the fields when `valid` decides.
spec fn tidy(
    valid: spec_fn(Seq<char>, Seq<char>) -> bool,
    fields: Map<Seq<char>, Seq<char>>,
) -> Map<Seq<char>, Seq<char>> {
    let first = renamed(
        valid,
        fields,
        "windowsSendInputNewlineMode"@,
        "windowsSendinputNewlineMode"@,
    );
    let second = renamed(
        valid,
        first,
        "windowsSendInputInsertionOnly"@,
        "windowsSendinputInsertionOnly"@,
    );
    Map::new(
        |key: Seq<char>| second.contains_key(key) && valid(key, second[key]),
        |key: Seq<char>| second[key],
    )
}

spec fn renamed(
    valid: spec_fn(Seq<char>, Seq<char>) -> bool,
    fields: Map<Seq<char>, Seq<char>>,
    canonical: Seq<char>,
    alias: Seq<char>,
) -> Map<Seq<char>, Seq<char>> {
    preference_record::without_alias(
        fields,
        canonical,
        alias,
        AliasValidity {
            canonical_valid: valid(canonical, fields[canonical]),
            alias_valid: valid(canonical, fields[alias]),
        },
    )
}

proof fn lemma_renamed<F: Fn(&str, &str) -> bool>(
    fits: F,
    valid: spec_fn(Seq<char>, Seq<char>) -> bool,
    fields: Map<Seq<char>, Seq<char>>,
    canonical: Seq<char>,
    alias: Seq<char>,
    after: Map<Seq<char>, Seq<char>>,
)
    requires
        fits_as(fits, valid),
        answers_for(fits, valid, fields),
        present_name(alias) == canonical,
        present_name(canonical) == canonical,
    ensures
        answers_for(fits, valid, renamed(valid, fields, canonical, alias)),
        drops_alias(fits, fields, canonical, alias, after) <==> after == renamed(
            valid,
            fields,
            canonical,
            alias,
        ),
{
    let validity = AliasValidity {
        canonical_valid: valid(canonical, fields[canonical]),
        alias_valid: valid(canonical, fields[alias]),
    };
    assert(judges(fits, fields, canonical, alias, validity));
    assert(preference_record::without_alias(fields, canonical, alias, validity) == renamed(
        valid,
        fields,
        canonical,
        alias,
    ));
}

/// Where `valid` decides, cleaning has one outcome.
proof fn lemma_tidy<F: Fn(&str, &str) -> bool>(
    fits: F,
    valid: spec_fn(Seq<char>, Seq<char>) -> bool,
    fields: Map<Seq<char>, Seq<char>>,
    clean: Map<Seq<char>, Seq<char>>,
)
    requires
        fits_as(fits, valid),
        answers_for(fits, valid, fields),
    ensures
        cleans(fits, fields, clean) <==> clean == tidy(valid, fields),
{
    let first = renamed(
        valid,
        fields,
        "windowsSendInputNewlineMode"@,
        "windowsSendinputNewlineMode"@,
    );
    let second = renamed(
        valid,
        first,
        "windowsSendInputInsertionOnly"@,
        "windowsSendinputInsertionOnly"@,
    );
    lemma_names();
    if cleans(fits, fields, clean) {
        let b = choose|b: Map<Seq<char>, Seq<char>>|
            #[trigger] drops_aliases(fits, fields, b) && keeps_what_fits(fits, b, clean);
        let a = choose|a: Map<Seq<char>, Seq<char>>|
            #[trigger] drops_newline_alias(fits, fields, a) && drops_insertion_alias(fits, a, b);
        lemma_renamed(
            fits,
            valid,
            fields,
            "windowsSendInputNewlineMode"@,
            "windowsSendinputNewlineMode"@,
            a,
        );
        lemma_renamed(
            fits,
            valid,
            a,
            "windowsSendInputInsertionOnly"@,
            "windowsSendinputInsertionOnly"@,
            b,
        );
        assert forall|key: Seq<char>| clean.contains_key(key) == #[trigger] tidy(
            valid,
            fields,
        ).contains_key(key) by {
            if clean.contains_key(key) {
                assert(b.contains_key(key));
            }
        }
        assert(clean =~= tidy(valid, fields));
    }
    if clean == tidy(valid, fields) {
        lemma_renamed(
            fits,
            valid,
            fields,
            "windowsSendInputNewlineMode"@,
            "windowsSendinputNewlineMode"@,
            first,
        );
        lemma_renamed(
            fits,
            valid,
            first,
            "windowsSendInputInsertionOnly"@,
            "windowsSendinputInsertionOnly"@,
            second,
        );
        assert(drops_newline_alias(fits, fields, first));
        assert(drops_aliases(fits, fields, second));
        assert(keeps_what_fits(fits, second, clean)) by {
            assert forall|key: Seq<char>| #[trigger] second.contains_key(key) implies says(
                fits,
                key,
                second[key],
                clean.contains_key(key),
            ) by {
                assert(present_name(key) == key);
            }
        }
    }
}

proof fn lemma_bad_field<F: Fn(&str, &str) -> bool>(
    fits: F,
    valid: spec_fn(Seq<char>, Seq<char>) -> bool,
    fields: Map<Seq<char>, Seq<char>>,
    key: Seq<char>,
    clean: Map<Seq<char>, Seq<char>>,
)
    requires
        fits_as(fits, valid),
        answers_for(fits, valid, fields),
        fields.contains_key(key),
        !valid(present_name(key), fields[key]),
    ensures
        cleans(fits, fields, clean) == cleans(fits, fields.remove(key), clean),
{
    lemma_names();
    lemma_tidy(fits, valid, fields, clean);
    lemma_tidy(fits, valid, fields.remove(key), clean);
    assert(tidy(valid, fields) =~= tidy(valid, fields.remove(key)));
}

/// A record keeps the fields that fit and loses those that do not, whatever else it holds.
pub proof fn fitting_fields_are_retained<F: Fn(&str, &str) -> bool>(
    record: &PreferenceRecord,
    fits: &F,
    valid: spec_fn(Seq<char>, Seq<char>) -> bool,
    kept: PreferenceRecord,
    key: &str,
    before: Option<&str>,
    after: Option<&str>,
)
    requires
        fits_as(*fits, valid),
        call_ensures(PreferenceRecord::retain_fitting::<F>, (record, fits), kept),
        call_ensures(PreferenceRecord::get, (record, key), before),
        call_ensures(PreferenceRecord::get, (&kept, key), after),
    ensures
        after is Some <==> before is Some && valid(key@, before->0@),
        after is Some ==> after->0@ == before->0@,
{
    if before is Some {
        assert(says(*fits, key@, record@[key@], kept@.contains_key(key@)));
    }
}

/// Older names are gone from a record once it was tidied; a value under an older name is there under
/// the present one, unless there was a value that is valid, or no worse; every other field stays.
pub proof fn older_names_are_tidied_up<F: Fn(&str, &str) -> bool>(
    record: &mut PreferenceRecord,
    fits: &F,
    valid: spec_fn(Seq<char>, Seq<char>) -> bool,
    key: &str,
    older_key: &str,
    before: Option<&str>,
    older: Option<&str>,
    after: Option<&str>,
)
    requires
        fits_as(*fits, valid),
        call_ensures(PreferenceRecord::normalize_preference_aliases::<F>, (record, fits), ()),
        call_ensures(PreferenceRecord::get, (&*old(record), key), before),
        call_ensures(PreferenceRecord::get, (&*old(record), older_key), older),
        call_ensures(PreferenceRecord::get, (&*final(record), key), after),
    ensures
        key@ == "windowsSendinputNewlineMode"@ || key@ == "windowsSendinputInsertionOnly"@ ==> after
            is None,
        key@ != "windowsSendinputNewlineMode"@ && key@ != "windowsSendinputInsertionOnly"@ && key@
            != "windowsSendInputNewlineMode"@ && key@ != "windowsSendInputInsertionOnly"@ ==> (after
            is Some <==> before is Some) && (before is Some ==> after->0@ == before->0@),
        (key@ == "windowsSendInputNewlineMode"@ || key@ == "windowsSendInputInsertionOnly"@)
            && before is Some ==> after is Some && (valid(key@, before->0@) ==> after->0@
            == before->0@),
        (key@ == "windowsSendInputNewlineMode"@ && older_key@ == "windowsSendinputNewlineMode"@
            || key@ == "windowsSendInputInsertionOnly"@ && older_key@
            == "windowsSendinputInsertionOnly"@) && older is Some && (before is None || !valid(
            key@,
            before->0@,
        ) && valid(key@, older->0@)) ==> after is Some && after->0@ == older->0@,
{
    lemma_names();
    let fields = old(record)@;
    let first = choose|first: Map<Seq<char>, Seq<char>>| #[trigger]
        drops_newline_alias(*fits, fields, first) && drops_insertion_alias(
            *fits,
            first,
            final(record)@,
        );
    let v1 = choose|validity: AliasValidity|
        judges(
            *fits,
            fields,
            "windowsSendInputNewlineMode"@,
            "windowsSendinputNewlineMode"@,
            validity,
        ) && first == #[trigger] preference_record::without_alias(
            fields,
            "windowsSendInputNewlineMode"@,
            "windowsSendinputNewlineMode"@,
            validity,
        );
    let v2 = choose|validity: AliasValidity|
        judges(
            *fits,
            first,
            "windowsSendInputInsertionOnly"@,
            "windowsSendinputInsertionOnly"@,
            validity,
        ) && final(record)@ == #[trigger] preference_record::without_alias(
            first,
            "windowsSendInputInsertionOnly"@,
            "windowsSendinputInsertionOnly"@,
            validity,
        );
}

/// A file that holds no object is salvaged to the defaults.
pub proof fn unreadable_files_give_the_defaults<
    F: Fn(&str, &str) -> bool,
    B: Fn(&str, &str) -> bool,
    R: Fn(&PreferenceRecord) -> Option<(UserPreferencesWire, CatalogAnswers)>,
>(
    bytes: &[u8],
    fits: F,
    binds: B,
    reads: R,
    defaults: UserPreferences,
    target: TargetOs,
    r: UserPreferences,
)
    requires
        call_ensures(
            UserPreferences::salvage_from_json_bytes::<F, B, R>,
            (bytes, fits, binds, reads, defaults, target),
            r,
        ),
    ensures
        preference_record::json_object(bytes@) is None ==> r == defaults,
{
}

/// A file that can be read as it is gives what it is read as, and nothing is lost by salvaging it.
pub proof fn readable_files_are_not_changed_by_salvaging<
    F: Fn(&str, &str) -> bool,
    B: Fn(&str, &str) -> bool,
    R: Fn(&PreferenceRecord) -> Option<(UserPreferencesWire, CatalogAnswers)>,
>(
    bytes: &[u8],
    fits: F,
    binds: B,
    reads: R,
    valid: spec_fn(Seq<char>, Seq<char>) -> bool,
    reading: spec_fn(Map<Seq<char>, Seq<char>>) -> Option<(UserPreferencesWire, CatalogAnswers)>,
    wire: UserPreferencesWire,
    answers: CatalogAnswers,
    defaults: UserPreferences,
    target: TargetOs,
    r: UserPreferences,
)
    requires
        fits_as(fits, valid),
        reads_as_fields(reads, reading),
        reads_field_by_field(valid, reading),
        preference_record::json_object(bytes@) is Some,
        reading(preference_record::pair_map(preference_record::json_object(bytes@)->0)) == Some(
            (wire, answers),
        ),
        wire.dictation_hotkey is Some || !(wire.hotkey.trigger is Custom)
            || wire.custom_combo_hotkey is Some,
        call_ensures(
            UserPreferences::salvage_from_json_bytes::<F, B, R>,
            (bytes, fits, binds, reads, defaults, target),
            r,
        ),
    ensures
        preferences::migrates(wire, answers, target, r),
        r.launch_at_login == wire.launch_at_login && r.working_languages == wire.working_languages
            && r.hotkey == wire.hotkey,
{
    a_readable_file_is_salvaged_to_its_reading(
        fits,
        binds,
        reads,
        valid,
        reading,
        preference_record::pair_map(preference_record::json_object(bytes@)->0),
        wire,
        answers,
        defaults,
        target,
        r,
    );
}

/// A record whose older trigger is a custom one without keys is read without it; a record that has
/// keys for it, or another trigger, is not.
pub proof fn only_incomplete_triggers_are_read_around<
    B: Fn(&str, &str) -> bool,
    R: Fn(&PreferenceRecord) -> Option<(UserPreferencesWire, CatalogAnswers)>,
>(
    record: PreferenceRecord,
    binds: &B,
    valid: spec_fn(Seq<char>, Seq<char>) -> bool,
    reads: &R,
    target: TargetOs,
    r: Option<UserPreferences>,
)
    requires
        fits_as(*binds, valid),
        call_ensures(
            UserPreferences::salvage_without_incomplete_legacy_hotkey::<B, R>,
            (record, binds, reads, target),
            r,
        ),
    ensures
        r is Some ==> {
            &&& record@.contains_key("hotkey"@)
            &&& preference_record::string_member(record@["hotkey"@], "trigger"@) == Some("custom"@)
            &&& record@.contains_key("dictationHotkey"@) ==> !valid(
                "dictationHotkey"@,
                record@["dictationHotkey"@],
            )
            &&& record@.contains_key("customComboHotkey"@) ==> !valid(
                "customComboHotkey"@,
                record@["customComboHotkey"@],
            )
        },
{
}

proof fn lemma_all_fit<F: Fn(&str, &str) -> bool>(
    fits: F,
    valid: spec_fn(Seq<char>, Seq<char>) -> bool,
    fields: Map<Seq<char>, Seq<char>>,
    clean: Map<Seq<char>, Seq<char>>,
)
    requires
        fits_as(fits, valid),
        !fields.contains_key("windowsSendinputNewlineMode"@),
        !fields.contains_key("windowsSendinputInsertionOnly"@),
        forall|key: Seq<char>| #[trigger] fields.contains_key(key) ==> valid(key, fields[key]),
        cleans(fits, fields, clean),
    ensures
        clean == fields,
{
    assert forall|key: Seq<char>| #[trigger] fields.contains_key(key) implies clean.contains_key(
        key,
    ) by {
        assert(says(fits, key, fields[key], clean.contains_key(key)));
    }
    assert(clean =~= fields);
}

/// A file whose fields all fit, but which cannot be read because its older trigger is a custom one
/// without keys, is read without that trigger. One that cannot be read without it either gives the
/// defaults.
pub proof fn files_with_an_incomplete_trigger_are_read_without_it<
    F: Fn(&str, &str) -> bool,
    B: Fn(&str, &str) -> bool,
    R: Fn(&PreferenceRecord) -> Option<(UserPreferencesWire, CatalogAnswers)>,
>(
    bytes: &[u8],
    fits: F,
    valid: spec_fn(Seq<char>, Seq<char>) -> bool,
    binds: B,
    binding: spec_fn(Seq<char>, Seq<char>) -> bool,
    reads: R,
    reading: spec_fn(Map<Seq<char>, Seq<char>>) -> Option<(UserPreferencesWire, CatalogAnswers)>,
    defaults: UserPreferences,
    target: TargetOs,
    r: UserPreferences,
)
    requires
        fits_as(fits, valid),
        fits_as(binds, binding),
        reads_as_fields(reads, reading),
        preference_record::json_object(bytes@) is Some,
        ({
            let fields = preference_record::pair_map(
                preference_record::json_object(bytes@)->0,
            );
            &&& !fields.contains_key("windowsSendinputNewlineMode"@)
            &&& !fields.contains_key("windowsSendinputInsertionOnly"@)
            &&& forall|key: Seq<char>| #[trigger]
                fields.contains_key(key) ==> valid(key, fields[key])
            &&& reading(fields) is None
            &&& fields.contains_key("hotkey"@)
            &&& preference_record::string_member(fields["hotkey"@], "trigger"@) == Some("custom"@)
            &&& fields.contains_key("dictationHotkey"@) ==> !binding(
                "dictationHotkey"@,
                fields["dictationHotkey"@],
            )
            &&& fields.contains_key("customComboHotkey"@) ==> !binding(
                "customComboHotkey"@,
                fields["customComboHotkey"@],
            )
        }),
        call_ensures(
            UserPreferences::salvage_from_json_bytes::<F, B, R>,
            (bytes, fits, binds, reads, defaults, target),
            r,
        ),
    ensures
        ({
            let rest = preference_record::pair_map(
                preference_record::json_object(bytes@)->0,
            ).remove("hotkey"@);
            &&& reading(rest) matches Some((wire, answers)) ==> wire.dictation_hotkey is Some
                ==> preferences::migrates(wire, answers, target, r)
            &&& reading(rest) is None ==> r == defaults
        }),
{
    let fields = preference_record::pair_map(preference_record::json_object(bytes@)->0);
    let clean = choose|clean: PreferenceRecord|
        cleans(fits, fields, clean@) && #[trigger] saves(binds, reads, clean, defaults, target, r);
    lemma_all_fit(fits, valid, fields, clean@);
}

} // verus!
