//! The shortcuts that activate style packs: which of them are registered, and whether that is what
//! the user asked for.

use vstd::prelude::*;

use crate::hotkeys::{HotkeyTrigger, ShortcutBinding, StylePackHotkey};
use crate::routing::{self, is_modifier_only_shortcut, is_unconfigured_shortcut};
use crate::text::{self, same};

verus! {

/// A registered shortcut of a style pack.
#[derive(Debug)]
pub struct StylePackHotkeyRegistration<M> {
    pub binding: ShortcutBinding,
    /// Keeps the shortcut registered while it lives.
    pub monitor: M,
}

/// Registrations by the id of their style pack.
#[derive(Debug)]
pub struct RegistrationTable<R> {
    rows: Vec<(String, R)>,
}

/// No id occurs twice.
pub open spec fn distinct_ids<R>(rows: Seq<(String, R)>) -> bool {
    forall|i: int, j: int|
        0 <= i < j < rows.len() ==> (#[trigger] rows[i]).0@ != (#[trigger] rows[j]).0@
}

/// The rows as a map, the last row of an id winning.
pub open spec fn table_of<R>(rows: Seq<(String, R)>) -> Map<Seq<char>, R>
    decreases rows.len(),
{
    if rows.len() == 0 {
        Map::empty()
    } else {
        table_of(rows.drop_last()).insert(rows.last().0@, rows.last().1)
    }
}

/// The table in which the entries are registered one after another, the last entry of a pack
/// winning.
pub open spec fn registered<R>(entries: Seq<StylePackHotkey>, made: Seq<R>) -> Map<Seq<char>, R>
    decreases entries.len(),
{
    if entries.len() == 0 {
        Map::empty()
    } else {
        registered(entries.drop_last(), made.drop_last()).insert(
            entries.last().pack_id@,
            made.last(),
        )
    }
}

/// Just the desired entries are registered, each with its binding.
pub open spec fn matches_desired<M>(
    desired: Seq<StylePackHotkey>,
    table: Map<Seq<char>, StylePackHotkeyRegistration<M>>,
) -> bool {
    &&& desired.len() == table.len()
    &&& forall|i: int|
        0 <= i < desired.len() ==> table.contains_key((#[trigger] desired[i]).pack_id@)
            && table[desired[i].pack_id@].binding@ == desired[i].binding@
}

/// No pack has two entries.
pub open spec fn distinct_packs(entries: Seq<StylePackHotkey>) -> bool {
    forall|i: int, j: int|
        0 <= i < j < entries.len() ==> (#[trigger] entries[i]).pack_id@ != (
        #[trigger] entries[j]).pack_id@
}

proof fn lemma_table<R>(rows: Seq<(String, R)>)
    requires
        distinct_ids(rows),
    ensures
        forall|i: int|
            0 <= i < rows.len() ==> table_of(rows).contains_key((#[trigger] rows[i]).0@)
                && table_of(rows)[rows[i].0@] == rows[i].1,
        forall|key: Seq<char>| #[trigger]
            table_of(rows).contains_key(key) ==> exists|i: int|
                0 <= i < rows.len() && rows[i].0@ == key,
        table_of(rows).dom().finite(),
        table_of(rows).len() == rows.len(),
    decreases rows.len(),
{
    if rows.len() > 0 {
        let rest = rows.drop_last();
        lemma_table(rest);
        assert forall|i: int| 0 <= i < rows.len() implies table_of(rows).contains_key(
            (#[trigger] rows[i]).0@,
        ) && table_of(rows)[rows[i].0@] == rows[i].1 by {
            if i < rest.len() {
                assert(rest[i] == rows[i]);
                assert(rows[i].0@ != rows.last().0@);
            }
        }
        assert forall|key: Seq<char>| #[trigger] table_of(rows).contains_key(key) implies exists|
            i: int,
        | 0 <= i < rows.len() && rows[i].0@ == key by {
            if key == rows.last().0@ {
                assert(rows[rows.len() - 1].0@ == key);
            } else {
                let i = choose|i: int| 0 <= i < rest.len() && rest[i].0@ == key;
                assert(rows[i].0@ == key);
            }
        }
        assert(!table_of(rest).contains_key(rows.last().0@)) by {
            if table_of(rest).contains_key(rows.last().0@) {
                let i = choose|i: int| 0 <= i < rest.len() && rest[i].0@ == rows.last().0@;
                assert(rows[i].0@ != rows.last().0@);
            }
        }
    }
}

impl<R> RegistrationTable<R> {
    #[verifier::type_invariant]
    spec fn inv(self) -> bool {
        distinct_ids(self.rows@)
    }
}

impl<R> View for RegistrationTable<R> {
    type V = Map<Seq<char>, R>;

    closed spec fn view(&self) -> Map<Seq<char>, R> {
        table_of(self.rows@)
    }
}

impl<R> RegistrationTable<R> {
    pub fn new() -> (r: RegistrationTable<R>)
        ensures
            r@ == Map::<Seq<char>, R>::empty(),
    {
        RegistrationTable { rows: Vec::new() }
    }

    pub fn len(&self) -> (r: usize)
        ensures
            r == self@.len(),
            self@.dom().finite(),
    {
        proof {
            use_type_invariant(self);
            lemma_table(self.rows@);
        }
        self.rows.len()
    }

    /// Drops every registration.
    pub fn clear(&mut self)
        ensures
            final(self)@ == Map::<Seq<char>, R>::empty(),
    {
        self.rows = Vec::new();
    }

    fn position(&self, pack_id: &str) -> (r: Option<usize>)
        ensures
            match r {
                Some(i) => i < self.rows.len() && self.rows@[i as int].0@ == pack_id@,
                None => forall|i: int|
                    0 <= i < self.rows.len() ==> (#[trigger] self.rows@[i]).0@ != pack_id@,
            },
    {
        let mut i: usize = 0;
        while i < self.rows.len()
            invariant
                i <= self.rows.len(),
                forall|j: int| 0 <= j < i ==> (#[trigger] self.rows@[j]).0@ != pack_id@,
            decreases self.rows.len() - i,
        {
            if same(self.rows[i].0.as_str(), pack_id) {
                return Some(i);
            }
            i += 1;
        }
        None
    }

    /// The registration of a pack.
    pub fn get(&self, pack_id: &str) -> (r: Option<&R>)
        ensures
            match r {
                Some(registration) => self@.contains_key(pack_id@) && *registration
                    == self@[pack_id@],
                None => !self@.contains_key(pack_id@),
            },
    {
        proof {
            use_type_invariant(self);
            lemma_table(self.rows@);
        }
        match self.position(pack_id) {
            Some(i) => Some(&self.rows[i].1),
            None => None,
        }
    }

    /// Registers a pack, in place of its former registration.
    pub fn insert(&mut self, pack_id: &str, registration: R)
        ensures
            final(self)@ == old(self)@.insert(pack_id@, registration),
    {
        proof {
            use_type_invariant(&*self);
            lemma_table(self.rows@);
        }
        let ghost before = self.rows@;
        let position: Option<usize> = self.position(pack_id);
        let mut rows: Vec<(String, R)> = Vec::new();
        std::mem::swap(&mut rows, &mut self.rows);
        match position {
            Some(i) => {
                let former: (String, R) = rows.remove(i);
            },
            None => {},
        }
        let ghost rest = rows@;
        rows.push((pack_id.to_owned(), registration));
        proof {
            assert forall|x: int| 0 <= x < rest.len() implies (#[trigger] rest[x]).0@
                != pack_id@ by {
                match position {
                    Some(i) => {
                        if x < i {
                            assert(rest[x] == before[x]);
                            assert(before[x].0@ != before[i as int].0@);
                        } else {
                            assert(rest[x] == before[x + 1]);
                            assert(before[i as int].0@ != before[x + 1].0@);
                        }
                    },
                    None => {
                        assert(rest[x] == before[x]);
                    },
                }
            }
            assert forall|x: int, y: int| 0 <= x < y < rest.len() implies (#[trigger] rest[x]).0@ != (
            #[trigger] rest[y]).0@ by {
                match position {
                    Some(i) => {
                        let a = if x < i {
                            x
                        } else {
                            x + 1
                        };
                        let b = if y < i {
                            y
                        } else {
                            y + 1
                        };
                        assert(rest[x] == before[a]);
                        assert(rest[y] == before[b]);
                    },
                    None => {
                        assert(rest[x] == before[x]);
                        assert(rest[y] == before[y]);
                    },
                }
            }
            assert(distinct_ids(rest));
            lemma_table(rest);
            assert(rows@.drop_last() =~= rest);
            assert forall|x: int, y: int| 0 <= x < y < rows@.len() implies (
            #[trigger] rows@[x]).0@ != (#[trigger] rows@[y]).0@ by {
                assert(rows@[x] == rest[x]);
                if y < rest.len() {
                    assert(rows@[y] == rest[y]);
                }
            }
            assert forall|key: Seq<char>| key != pack_id@ implies (table_of(rest).contains_key(key)
                == #[trigger] table_of(before).contains_key(key)) && (table_of(rest).contains_key(
                key,
            ) ==> table_of(rest)[key] == table_of(before)[key]) by {
                if table_of(rest).contains_key(key) {
                    let x = choose|x: int| 0 <= x < rest.len() && rest[x].0@ == key;
                    let a = match position {
                        Some(i) => if x < i {
                            x
                        } else {
                            x + 1
                        },
                        None => x,
                    };
                    assert(rest[x] == before[a]);
                }
                if table_of(before).contains_key(key) {
                    let a = choose|a: int| 0 <= a < before.len() && before[a].0@ == key;
                    let x = match position {
                        Some(i) => if a < i {
                            a
                        } else {
                            a - 1
                        },
                        None => a,
                    };
                    assert(position matches Some(i) ==> a != i);
                    assert(rest[x] == before[a]);
                }
            }
            assert(table_of(rows@) =~= table_of(before).insert(pack_id@, registration));
        }
        self.rows = rows;
    }
}

/// `made` are what `register` made of the entries, one after another.
pub open spec fn made_by<R, F: Fn(&StylePackHotkey) -> Result<R, String>>(
    register: F,
    entries: Seq<StylePackHotkey>,
    made: Seq<R>,
) -> bool {
    &&& made.len() == entries.len()
    &&& forall|i: int|
        0 <= i < entries.len() ==> call_ensures(
            register,
            (&#[trigger] entries[i],),
            Ok::<R, String>(made[i]),
        )
}

/// Replaces all registrations by those of `entries`. The old ones go first, so that two packs can
/// swap their keys. The first entry that fails ends the attempt, and nothing stays registered.
pub fn replace_style_pack_hotkey_registrations<
    R,
    F: Fn(&StylePackHotkey) -> Result<R, String>,
>(entries: &[StylePackHotkey], registrations: &mut RegistrationTable<R>, register: F) -> (r: Result<
    (),
    String,
>)
    requires
        forall|i: int, made: Seq<R>|
            #![trigger made_by(register, entries@.take(i), made)]
            0 <= i < entries@.len() && made_by(register, entries@.take(i), made) ==> call_requires(
                register,
                (&entries@[i],),
            ),
    ensures
        match r {
            Ok(_) => exists|made: Seq<R>|
                #![trigger registered(entries@, made)]
                made_by(register, entries@, made) && final(registrations)@ == registered(
                    entries@,
                    made,
                ),
            Err(error) => {
                &&& final(registrations)@ == Map::<Seq<char>, R>::empty()
                &&& exists|i: int, made: Seq<R>|
                    #![trigger made_by(register, entries@.take(i), made)]
                    0 <= i < entries@.len() && made_by(register, entries@.take(i), made)
                        && call_ensures(register, (&entries@[i],), Err::<R, String>(error))
            },
        },
{
    registrations.clear();
    let ghost mut made: Seq<R> = Seq::empty();
    let mut i: usize = 0;
    while i < entries.len()
        invariant
            i <= entries.len(),
            forall|j: int, before: Seq<R>|
                #![trigger made_by(register, entries@.take(j), before)]
                0 <= j < entries@.len() && made_by(register, entries@.take(j), before)
                    ==> call_requires(register, (&entries@[j],)),
            made_by(register, entries@.take(i as int), made),
            registrations@ == registered(entries@.take(i as int), made),
        decreases entries.len() - i,
    {
        match register(&entries[i]) {
            Ok(registration) => {
                proof {
                    let next = made.push(registration);
                    let done = entries@.take(i as int + 1);
                    assert(done.drop_last() =~= entries@.take(i as int));
                    assert(next.drop_last() =~= made);
                    assert forall|j: int| 0 <= j < done.len() implies call_ensures(
                        register,
                        (&#[trigger] done[j],),
                        Ok::<R, String>(next[j]),
                    ) by {
                        if j < i {
                            assert(done[j] == entries@.take(i as int)[j]);
                        }
                    }
                    made = next;
                }
                registrations.insert(entries[i].pack_id.as_str(), registration);
            },
            Err(error) => {
                registrations.clear();
                return Err(error);
            },
        }
        i += 1;
    }
    assert(entries@.take(i as int) =~= entries@);
    Ok(())
}

/// Whether just the desired entries are registered, each with its binding.
pub fn style_pack_hotkey_registrations_match<M>(
    desired: &[StylePackHotkey],
    registrations: &RegistrationTable<StylePackHotkeyRegistration<M>>,
) -> (r: bool)
    ensures
        r == matches_desired(desired@, registrations@),
{
    if desired.len() != registrations.len() {
        return false;
    }
    let mut i: usize = 0;
    while i < desired.len()
        invariant
            i <= desired.len(),
            desired@.len() == registrations@.len(),
            forall|j: int|
                0 <= j < i ==> registrations@.contains_key((#[trigger] desired@[j]).pack_id@)
                    && registrations@[desired@[j].pack_id@].binding@ == desired@[j].binding@,
        decreases desired.len() - i,
    {
        let found: bool = match registrations.get(desired[i].pack_id.as_str()) {
            Some(registration) => registration.binding.same_as(&desired[i].binding),
            None => false,
        };
        if !found {
            assert(!(registrations@.contains_key(desired@[i as int].pack_id@)
                && registrations@[desired@[i as int].pack_id@].binding@
                == desired@[i as int].binding@));
            return false;
        }
        i += 1;
    }
    true
}

/// Whether an entry can be registered: it names a key, and not a lone modifier. `trigger` is the
/// lone modifier that its binding stands for, if any.
pub open spec fn is_registrable(entry: StylePackHotkey, trigger: Option<HotkeyTrigger>) -> bool {
    !routing::is_unconfigured(entry.binding@) && !routing::is_modifier_only(entry.binding@, trigger)
}

/// The entries that can be registered.
pub open spec fn registrable(
    entries: Seq<StylePackHotkey>,
    triggers: Seq<Option<HotkeyTrigger>>,
) -> Seq<StylePackHotkey>
    decreases entries.len(),
{
    if entries.len() == 0 {
        Seq::empty()
    } else {
        let rest = registrable(entries.drop_last(), triggers.drop_last());
        if is_registrable(entries.last(), triggers.last()) {
            rest.push(entries.last())
        } else {
            rest
        }
    }
}

/// The pack and the keys of each entry.
pub open spec fn entry_views(entries: Seq<StylePackHotkey>) -> Seq<
    (Seq<char>, crate::hotkeys::KeyCombination),
> {
    entries.map_values(|e: StylePackHotkey| (e.pack_id@, e.binding@))
}

/// The entries that can be registered, in their order. `triggers` holds for each entry the lone
/// modifier that its binding stands for, if any.
pub fn configured_style_pack_hotkeys(
    entries: &Vec<StylePackHotkey>,
    triggers: &Vec<Option<HotkeyTrigger>>,
) -> (r: Vec<StylePackHotkey>)
    requires
        entries@.len() == triggers@.len(),
    ensures
        entry_views(r@) == entry_views(registrable(entries@, triggers@)),
{
    let mut r: Vec<StylePackHotkey> = Vec::new();
    let mut i: usize = 0;
    assert(entry_views(r@) =~= entry_views(Seq::<StylePackHotkey>::empty()));
    while i < entries.len()
        invariant
            i <= entries.len(),
            entries@.len() == triggers@.len(),
            entry_views(r@) == entry_views(
                registrable(entries@.take(i as int), triggers@.take(i as int)),
            ),
        decreases entries.len() - i,
    {
        let ghost before = r@;
        proof {
            assert(entries@.take(i as int + 1).drop_last() =~= entries@.take(i as int));
            assert(triggers@.take(i as int + 1).drop_last() =~= triggers@.take(i as int));
        }
        if !is_unconfigured_shortcut(&entries[i].binding) && !is_modifier_only_shortcut(
            &entries[i].binding,
            triggers[i],
        ) {
            r.push(
                StylePackHotkey {
                    pack_id: entries[i].pack_id.clone(),
                    binding: entries[i].binding.copy(),
                },
            );
            proof {
                let kept = registrable(entries@.take(i as int), triggers@.take(i as int));
                assert(entry_views(r@) =~= entry_views(before).push(
                    (entries@[i as int].pack_id@, entries@[i as int].binding@),
                ));
                assert(entry_views(kept.push(entries@[i as int])) =~= entry_views(kept).push(
                    (entries@[i as int].pack_id@, entries@[i as int].binding@),
                ));
            }
        }
        i += 1;
    }
    assert(entries@.take(i as int) =~= entries@);
    assert(triggers@.take(i as int) =~= triggers@);
    r
}

/// Just the packs that have an entry are registered, each with what was made of its last one.
pub proof fn the_last_entry_of_each_pack_is_registered<R>(
    entries: Seq<StylePackHotkey>,
    made: Seq<R>,
)
    requires
        made.len() == entries.len(),
    ensures
        forall|key: Seq<char>| #[trigger]
            registered(entries, made).contains_key(key) ==> exists|i: int|
                0 <= i < entries.len() && entries[i].pack_id@ == key,
        forall|i: int|
            0 <= i < entries.len() ==> registered(entries, made).contains_key(
                (#[trigger] entries[i]).pack_id@,
            ),
        forall|i: int|
            #![trigger entries[i]]
            0 <= i < entries.len() && (forall|j: int|
                i < j < entries.len() ==> (#[trigger] entries[j]).pack_id@ != entries[i].pack_id@)
                ==> registered(entries, made)[entries[i].pack_id@] == made[i],
    decreases entries.len(),
{
    if entries.len() > 0 {
        let rest = entries.drop_last();
        let rest_made = made.drop_last();
        let last = entries.len() - 1;
        the_last_entry_of_each_pack_is_registered(rest, rest_made);
        assert forall|key: Seq<char>| #[trigger] registered(entries, made).contains_key(
            key,
        ) implies exists|i: int| 0 <= i < entries.len() && entries[i].pack_id@ == key by {
            if key == entries.last().pack_id@ {
                assert(entries[last].pack_id@ == key);
            } else {
                assert(registered(rest, rest_made).contains_key(key));
                let i = choose|i: int| 0 <= i < rest.len() && rest[i].pack_id@ == key;
                assert(entries[i].pack_id@ == key);
            }
        }
        assert forall|i: int| 0 <= i < entries.len() implies registered(
            entries,
            made,
        ).contains_key((#[trigger] entries[i]).pack_id@) by {
            if i < last {
                assert(rest[i] == entries[i]);
            }
        }
        assert forall|i: int|
            #![trigger entries[i]]
            0 <= i < entries.len() && (forall|j: int|
                i < j < entries.len() ==> (#[trigger] entries[j]).pack_id@
                    != entries[i].pack_id@) implies registered(
            entries,
            made,
        )[entries[i].pack_id@] == made[i] by {
            if i < last {
                assert(rest[i] == entries[i]);
                assert(rest_made[i] == made[i]);
                assert(entries[last].pack_id@ != entries[i].pack_id@);
                assert forall|j: int| i < j < rest.len() implies (#[trigger] rest[j]).pack_id@
                    != rest[i].pack_id@ by {
                    assert(rest[j] == entries[j]);
                }
            }
        }
    }
}

proof fn lemma_registered_size<R>(entries: Seq<StylePackHotkey>, made: Seq<R>)
    requires
        made.len() == entries.len(),
    ensures
        registered(entries, made).dom().finite(),
        registered(entries, made).len() <= entries.len(),
        distinct_packs(entries) <==> registered(entries, made).len() == entries.len(),
    decreases entries.len(),
{
    if entries.len() > 0 {
        let rest = entries.drop_last();
        let last = entries.last().pack_id@;
        lemma_registered_size(rest, made.drop_last());
        the_last_entry_of_each_pack_is_registered(rest, made.drop_last());
        if distinct_packs(entries) && registered(rest, made.drop_last()).contains_key(last) {
            let i = choose|i: int| 0 <= i < rest.len() && rest[i].pack_id@ == last;
            assert(entries[i].pack_id@ != last);
        }
        if !distinct_packs(entries) && distinct_packs(rest) {
            let (i, j) = choose|i: int, j: int|
                0 <= i < j < entries.len() && (#[trigger] entries[i]).pack_id@ == (
                #[trigger] entries[j]).pack_id@;
            assert(rest[i] == entries[i]);
            if j < rest.len() {
                assert(rest[j] == entries[j]);
            }
            assert(registered(rest, made.drop_last()).contains_key(last));
        }
    }
}

/// Two entries of one pack leave one registration, so such a list never matches.
pub proof fn doubled_packs_never_match<M>(
    desired: Seq<StylePackHotkey>,
    made: Seq<StylePackHotkeyRegistration<M>>,
)
    requires
        !distinct_packs(desired),
        made.len() == desired.len(),
    ensures
        !matches_desired(desired, registered(desired, made)),
{
    lemma_registered_size(desired, made);
}

/// Once every entry is registered with its own binding, the table matches what was desired.
pub proof fn replaced_registrations_match<M>(
    desired: Seq<StylePackHotkey>,
    made: Seq<StylePackHotkeyRegistration<M>>,
)
    requires
        distinct_packs(desired),
        made.len() == desired.len(),
        forall|i: int|
            0 <= i < made.len() ==> (#[trigger] made[i]).binding@ == desired[i].binding@,
    ensures
        matches_desired(desired, registered(desired, made)),
{
    lemma_registered_size(desired, made);
    the_last_entry_of_each_pack_is_registered(desired, made);
}

/// An empty table matches nothing but an empty list, so a failed replacement is tried again.
pub proof fn failed_registrations_never_match<M>(desired: Seq<StylePackHotkey>)
    ensures
        matches_desired(desired, Map::<Seq<char>, StylePackHotkeyRegistration<M>>::empty())
            <==> desired.len() == 0,
{
}

/// What was inserted last for a pack is what the table gives for it, and no other pack is touched.
pub proof fn tables_give_back_what_was_inserted<R>(
    table: &mut RegistrationTable<R>,
    pack_id: &str,
    registration: R,
    asked: &str,
    before: Option<&R>,
    after: Option<&R>,
)
    requires
        call_ensures(RegistrationTable::<R>::get, (&*old(table), asked), before),
        call_ensures(RegistrationTable::<R>::insert, (table, pack_id, registration), ()),
        call_ensures(RegistrationTable::<R>::get, (&*final(table), asked), after),
    ensures
        asked@ == pack_id@ ==> after is Some && *after->0 == registration,
        asked@ != pack_id@ ==> (after is Some <==> before is Some),
        asked@ != pack_id@ && before is Some ==> *after->0 == *before->0,
{
}

/// A new table and a cleared one hold nothing; a table counts its packs.
pub proof fn new_and_cleared_tables_are_empty<R>(
    fresh: RegistrationTable<R>,
    cleared: &mut RegistrationTable<R>,
    asked: &str,
    in_fresh: Option<&R>,
    in_cleared: Option<&R>,
    fresh_len: usize,
    cleared_len: usize,
)
    requires
        call_ensures(RegistrationTable::<R>::new, (), fresh),
        call_ensures(RegistrationTable::<R>::clear, (cleared,), ()),
        call_ensures(RegistrationTable::<R>::get, (&fresh, asked), in_fresh),
        call_ensures(RegistrationTable::<R>::get, (&*final(cleared), asked), in_cleared),
        call_ensures(RegistrationTable::<R>::len, (&fresh,), fresh_len),
        call_ensures(RegistrationTable::<R>::len, (&*final(cleared),), cleared_len),
    ensures
        in_fresh is None && in_cleared is None,
        fresh_len == 0 && cleared_len == 0,
{
}

/// A table counts a pack once: inserting for a pack that it knows keeps its size, inserting for a
/// new one adds one.
pub proof fn tables_count_each_pack_once<R>(
    table: &mut RegistrationTable<R>,
    pack_id: &str,
    registration: R,
    known: Option<&R>,
    before: usize,
    after: usize,
)
    requires
        call_ensures(RegistrationTable::<R>::get, (&*old(table), pack_id), known),
        call_ensures(RegistrationTable::<R>::len, (&*old(table),), before),
        call_ensures(RegistrationTable::<R>::insert, (table, pack_id, registration), ()),
        call_ensures(RegistrationTable::<R>::len, (&*final(table),), after),
    ensures
        known is Some ==> after == before,
        known is None ==> after == before + 1,
{
    if known is Some {
        assert(old(table)@.dom().insert(pack_id@) =~= old(table)@.dom());
    }
}

/// Replacing the registrations leaves those of the new entries: for each pack the registration of
/// its last entry, made from that entry, and none for a pack that has no entry. Where an entry could
/// not be registered, nothing is left and the error is that of the entry.
pub proof fn replaced_registrations_are_those_of_the_entries<
    R,
    F: Fn(&StylePackHotkey) -> Result<R, String>,
>(
    entries: &[StylePackHotkey],
    table: &mut RegistrationTable<R>,
    register: F,
    r: Result<(), String>,
    i: int,
    stranger: Seq<char>,
)
    requires
        0 <= i < entries@.len(),
        forall|j: int|
            i < j < entries@.len() ==> (#[trigger] entries@[j]).pack_id@ != entries@[i].pack_id@,
        forall|j: int| 0 <= j < entries@.len() ==> (#[trigger] entries@[j]).pack_id@ != stranger,
        call_ensures(
            replace_style_pack_hotkey_registrations::<R, F>,
            (entries, table, register),
            r,
        ),
    ensures
        r is Ok ==> final(table)@.contains_key(entries@[i].pack_id@) && call_ensures(
            register,
            (&entries@[i],),
            Ok::<R, String>(final(table)@[entries@[i].pack_id@]),
        ),
        r is Ok ==> !final(table)@.contains_key(stranger),
        r is Err ==> final(table)@ == Map::<Seq<char>, R>::empty(),
        r is Err ==> exists|j: int|
            0 <= j < entries@.len() && call_ensures(
                register,
                (&#[trigger] entries@[j],),
                Err::<R, String>(r->Err_0),
            ),
{
    if r is Ok {
        let made = choose|made: Seq<R>|
            #![trigger registered(entries@, made)]
            made_by(register, entries@, made) && final(table)@ == registered(entries@, made);
        the_last_entry_of_each_pack_is_registered(entries@, made);
        assert(entries@[i] == entries@[i]);
    } else {
        let (j, made) = choose|j: int, made: Seq<R>|
            #![trigger made_by(register, entries@.take(j), made)]
            0 <= j < entries@.len() && made_by(register, entries@.take(j), made) && call_ensures(
                register,
                (&entries@[j],),
                Err::<R, String>(r->Err_0),
            );
        assert(entries@[j] == entries@[j]);
    }
}

/// The registrations match where there are as many as entries and each entry has its own, with its
/// very keys.
pub proof fn registrations_match_by_pack_and_keys<M>(
    desired: &[StylePackHotkey],
    table: &RegistrationTable<StylePackHotkeyRegistration<M>>,
    size: usize,
    r: bool,
)
    requires
        call_ensures(
            RegistrationTable::<StylePackHotkeyRegistration<M>>::len,
            (table,),
            size,
        ),
        call_ensures(style_pack_hotkey_registrations_match::<M>, (desired, table), r),
    ensures
        r <==> desired@.len() == size && forall|i: int|
            0 <= i < desired@.len() ==> table@.contains_key((#[trigger] desired@[i]).pack_id@)
                && crate::hotkeys::same_keys(
                table@[desired@[i].pack_id@].binding,
                desired@[i].binding,
            ),
{
    assert forall|i: int| 0 <= i < desired@.len() implies (table@[(
    #[trigger] desired@[i]).pack_id@].binding@ == desired@[i].binding@)
        == crate::hotkeys::same_keys(
        table@[desired@[i].pack_id@].binding,
        desired@[i].binding,
    ) by {
        crate::hotkeys::shortcuts_are_their_keys(
            table@[desired@[i].pack_id@].binding,
            desired@[i].binding,
        );
    }
}

/// An entry gets a listener where it has a key, and is neither Shift alone nor a lone key that stands
/// for a trigger.
pub open spec fn gets_listener(entry: StylePackHotkey, trigger: Option<HotkeyTrigger>) -> bool {
    &&& !text::is_blank(entry.binding.primary@)
    &&& entry.binding.modifiers@.len() > 0 || !text::same_ignoring_ascii_case(
        entry.binding.primary@,
        "shift"@,
    ) && trigger is None
}

/// The places in the list of the entries that get a listener, in order.
pub open spec fn places_with_listener(
    entries: Seq<StylePackHotkey>,
    triggers: Seq<Option<HotkeyTrigger>>,
) -> Seq<int> {
    Seq::new(entries.len(), |i: int| i).filter(|i: int| gets_listener(entries[i], triggers[i]))
}

proof fn lemma_places(
    entries: Seq<StylePackHotkey>,
    triggers: Seq<Option<HotkeyTrigger>>,
    n: int,
)
    requires
        0 <= n <= entries.len(),
        entries.len() == triggers.len(),
    ensures
        ({
            let places = Seq::new(n as nat, |i: int| i).filter(
                |i: int| gets_listener(entries[i], triggers[i]),
            );
            let kept = registrable(entries.take(n), triggers.take(n));
            &&& kept.len() == places.len()
            &&& forall|j: int| 0 <= j < kept.len() ==> kept[j] == entries[#[trigger] places[j]]
        }),
    decreases n,
{
    reveal(Seq::filter);
    let all = Seq::new(n as nat, |i: int| i);
    if n > 0 {
        lemma_places(entries, triggers, n - 1);
        assert(all.drop_last() =~= Seq::new((n - 1) as nat, |i: int| i));
        assert(all.last() == n - 1);
        assert(entries.take(n).drop_last() =~= entries.take(n - 1));
        assert(triggers.take(n).drop_last() =~= triggers.take(n - 1));
        assert(entries.take(n).last() == entries[n - 1]);
        assert(triggers.take(n).last() == triggers[n - 1]);
        assert(text::texts(entries[n - 1].binding.modifiers@).len()
            == entries[n - 1].binding.modifiers@.len());
        assert(is_registrable(entries[n - 1], triggers[n - 1]) == gets_listener(
            entries[n - 1],
            triggers[n - 1],
        ));
    }
}

/// The entries that get a listener are kept, in their order, with their packs and keys, and no
/// others.
pub proof fn entries_with_a_usable_key_are_kept(
    entries: &Vec<StylePackHotkey>,
    triggers: &Vec<Option<HotkeyTrigger>>,
    r: Vec<StylePackHotkey>,
)
    requires
        entries@.len() == triggers@.len(),
        call_ensures(configured_style_pack_hotkeys, (entries, triggers), r),
    ensures
        r@.len() == places_with_listener(entries@, triggers@).len(),
        forall|j: int|
            0 <= j < r@.len() ==> (#[trigger] r@[j]).pack_id@ == entries@[places_with_listener(
                entries@,
                triggers@,
            )[j]].pack_id@ && crate::hotkeys::same_keys(
                r@[j].binding,
                entries@[places_with_listener(entries@, triggers@)[j]].binding,
            ),
{
    let n = entries@.len() as int;
    lemma_places(entries@, triggers@, n);
    assert(entries@.take(n) =~= entries@);
    assert(triggers@.take(n) =~= triggers@);
    let places = places_with_listener(entries@, triggers@);
    assert(Seq::new(n as nat, |i: int| i) =~= Seq::new(entries@.len(), |i: int| i));
    let kept = registrable(entries@, triggers@);
    let x = entry_views(r@);
    let y = entry_views(kept);
    assert(x.len() == r@.len() && y.len() == kept.len());
    assert forall|j: int| 0 <= j < r@.len() implies (#[trigger] r@[j]).pack_id@
        == entries@[places[j]].pack_id@ && crate::hotkeys::same_keys(
        r@[j].binding,
        entries@[places[j]].binding,
    ) by {
        assert(x[j] == y[j]);
        assert(kept[j] == entries@[places[j]]);
        crate::hotkeys::shortcuts_are_their_keys(r@[j].binding, kept[j].binding);
    }
}

} // verus!
