//! Keyed registries held as sequences of `(key, value)` entries, and the maps
//! they stand for: where a key occurs more than once, its last entry counts,
//! as when a list of pairs is collected into a map.
use vstd::prelude::*;
use crate::models::{LanguageMode, LearnedAppPreference, ManualRule, ManualRuleModel, PreferenceModel};
use crate::steps::sampled;
use crate::text::{lemma_text_less_total, lemma_text_less_transitive, normalized, text_before, text_less};

verus! {

/// The map that a list of entries stands for.
pub open spec fn keyed_map<V>(s: Seq<(Seq<char>, V)>) -> Map<Seq<char>, V>
    decreases s.len(),
{
    if s.len() == 0 {
        Map::empty()
    } else {
        keyed_map(s.drop_last()).insert(s.last().0, s.last().1)
    }
}

/// The index of the last entry for `k`, or -1.
pub open spec fn key_index<V>(s: Seq<(Seq<char>, V)>, k: Seq<char>) -> int
    decreases s.len(),
{
    if s.len() == 0 {
        -1
    } else if s.last().0 == k {
        s.len() - 1
    } else {
        key_index(s.drop_last(), k)
    }
}

/// No key occurs twice.
pub open spec fn unique_keys<V>(s: Seq<(Seq<char>, V)>) -> bool {
    forall|i: int, j: int| 0 <= i < j < s.len() ==> #[trigger] s[i].0 != #[trigger] s[j].0
}

/// The keys ascend strictly.
pub open spec fn sorted_keys<V>(s: Seq<(Seq<char>, V)>) -> bool {
    forall|i: int, j: int| 0 <= i < j < s.len() ==> text_less(#[trigger] s[i].0, #[trigger] s[j].0)
}

pub proof fn lemma_key_index<V>(s: Seq<(Seq<char>, V)>, k: Seq<char>)
    ensures
        -1 <= key_index(s, k) < s.len(),
        key_index(s, k) >= 0 ==> s[key_index(s, k)].0 == k,
        forall|j: int| key_index(s, k) < j < s.len() ==> #[trigger] s[j].0 != k,
        keyed_map(s).contains_key(k) == (key_index(s, k) >= 0),
        key_index(s, k) >= 0 ==> keyed_map(s)[k] == s[key_index(s, k)].1,
    decreases s.len(),
{
    if s.len() > 0 {
        lemma_key_index(s.drop_last(), k);
        assert forall|j: int| key_index(s, k) < j < s.len() implies #[trigger] s[j].0 != k by {
            if j < s.len() - 1 {
                assert(s[j] == s.drop_last()[j]);
            }
        }
    }
}

/// In a registry without repeated keys, the entry at `i` is the one for its key.
pub proof fn lemma_unique_key_index<V>(s: Seq<(Seq<char>, V)>, i: int)
    requires
        unique_keys(s),
        0 <= i < s.len(),
    ensures
        key_index(s, s[i].0) == i,
        keyed_map(s).contains_key(s[i].0),
        keyed_map(s)[s[i].0] == s[i].1,
{
    lemma_key_index(s, s[i].0);
    let ki = key_index(s, s[i].0);
    if ki != i {
        if ki < i {
            assert(s[i].0 != s[i].0);
        } else {
            assert(s[i].0 != s[ki].0);
        }
    }
}

/// Every key of the map has an entry.
pub proof fn lemma_keyed_map_domain<V>(s: Seq<(Seq<char>, V)>, k: Seq<char>)
    requires
        keyed_map(s).contains_key(k),
    ensures
        exists|i: int| 0 <= i < s.len() && #[trigger] s[i].0 == k,
{
    lemma_key_index(s, k);
    let i = key_index(s, k);
    assert(s[i].0 == k);
}

pub proof fn lemma_sorted_unique<V>(s: Seq<(Seq<char>, V)>)
    requires
        sorted_keys(s),
    ensures
        unique_keys(s),
{
    assert forall|i: int, j: int| 0 <= i < j < s.len() implies #[trigger] s[i].0 != #[trigger] s[j].0 by {
        assert(text_less(s[i].0, s[j].0));
        crate::text::lemma_text_less_irreflexive(s[i].0);
    }
}

/// Replacing the value of an entry changes the map at that entry's key only.
pub proof fn lemma_keyed_update<V>(s: Seq<(Seq<char>, V)>, i: int, v: V)
    requires
        unique_keys(s),
        0 <= i < s.len(),
    ensures
        keyed_map(s.update(i, (s[i].0, v))) =~= keyed_map(s).insert(s[i].0, v),
    decreases s.len(),
{
    let t = s.update(i, (s[i].0, v));
    if i == s.len() - 1 {
        assert(t.drop_last() =~= s.drop_last());
    } else {
        let d = s.drop_last();
        assert(t.drop_last() =~= d.update(i, (d[i].0, v)));
        assert(unique_keys(d));
        lemma_keyed_update(d, i, v);
        assert(s.last().0 != s[i].0);
        assert(t.last() == s.last());
        assert(keyed_map(t) =~= keyed_map(d).insert(s[i].0, v).insert(s.last().0, s.last().1));
    }
}

/// Inserting an entry for a new key adds that key to the map.
pub proof fn lemma_keyed_insert<V>(s: Seq<(Seq<char>, V)>, p: int, k: Seq<char>, v: V)
    requires
        0 <= p <= s.len(),
        forall|j: int| 0 <= j < s.len() ==> #[trigger] s[j].0 != k,
    ensures
        keyed_map(s.insert(p, (k, v))) =~= keyed_map(s).insert(k, v),
    decreases s.len(),
{
    let t = s.insert(p, (k, v));
    if p == s.len() {
        assert(t.drop_last() =~= s);
        assert(t.last() == (k, v));
    } else {
        let d = s.drop_last();
        assert(t.drop_last() =~= d.insert(p, (k, v)));
        assert forall|j: int| 0 <= j < d.len() implies #[trigger] d[j].0 != k by {
            assert(d[j] == s[j]);
        }
        lemma_keyed_insert(d, p, k, v);
        assert(t.last() == s.last());
        assert(s[s.len() - 1].0 != k);
        assert(keyed_map(t) =~= keyed_map(d).insert(k, v).insert(s.last().0, s.last().1));
    }
}

/// Removing the entry at `i` removes its key from the map.
pub proof fn lemma_keyed_remove<V>(s: Seq<(Seq<char>, V)>, i: int)
    requires
        unique_keys(s),
        0 <= i < s.len(),
    ensures
        keyed_map(s.remove(i)) =~= keyed_map(s).remove(s[i].0),
    decreases s.len(),
{
    let t = s.remove(i);
    let d = s.drop_last();
    let k = s[i].0;
    if i == s.len() - 1 {
        assert(t =~= d);
        lemma_key_index(d, k);
        if key_index(d, k) >= 0 {
            assert(d[key_index(d, k)] == s[key_index(d, k)]);
        }
    } else {
        assert(t.drop_last() =~= d.remove(i));
        assert(unique_keys(d));
        lemma_keyed_remove(d, i);
        assert(t.last() == s.last());
        assert(s.last().0 != k);
        assert(keyed_map(t) =~= keyed_map(d).remove(k).insert(s.last().0, s.last().1));
    }
}


pub open spec fn rule_entries(v: Seq<(String, ManualRule)>) -> Seq<(Seq<char>, ManualRuleModel)> {
    v.map_values(|e: (String, ManualRule)| (e.0@, e.1@))
}

pub open spec fn preference_entries(v: Seq<(String, LearnedAppPreference)>) -> Seq<
    (Seq<char>, PreferenceModel),
> {
    v.map_values(|e: (String, LearnedAppPreference)| (e.0@, e.1@))
}

/// Every rule is filed under the normalized name of its executable.
pub open spec fn rules_filed(v: Seq<(String, ManualRule)>) -> bool {
    forall|i: int| 0 <= i < v.len() ==> (#[trigger] v[i]).0@ == normalized(v[i].1.executable@)
}

/// Every preference is filed under the normalized name of its executable.
pub open spec fn preferences_filed(v: Seq<(String, LearnedAppPreference)>) -> bool {
    forall|i: int| 0 <= i < v.len() ==> (#[trigger] v[i]).0@ == normalized(v[i].1.executable@)
}

/// The view of each entry of a registry.
pub open spec fn entries_view<T: View>(v: Seq<(String, T)>) -> Seq<(Seq<char>, T::V)> {
    v.map_values(|e: (String, T)| (e.0@, e.1@))
}

/// The index of the last entry filed under `key`, if any.
pub(crate) fn find_entry<T: View>(entries: &Vec<(String, T)>, key: &String) -> (r: Option<usize>)
    ensures
        match r {
            Some(i) => i == key_index(entries_view(entries@), key@),
            None => key_index(entries_view(entries@), key@) == -1,
        },
{
    let ghost s = entries_view(entries@);
    let mut i = entries.len();
    while i > 0
        invariant
            i <= entries@.len(),
            s == entries_view(entries@),
            forall|j: int| i <= j < s.len() ==> #[trigger] s[j].0 != key@,
        decreases i,
    {
        if entries[i - 1].0 == *key {
            proof {
                lemma_key_index(s, key@);
                let ki = key_index(s, key@);
                if ki != i - 1 {
                    if ki >= 0 && ki < i - 1 {
                        assert(s[i - 1].0 != key@);
                    }
                    assert(s[i - 1].0 == key@);
                }
            }
            return Some(i - 1);
        }
        i = i - 1;
    }
    proof {
        lemma_key_index(s, key@);
        let ki = key_index(s, key@);
        if ki >= 0 {
            assert(s[ki].0 != key@);
        }
    }
    None
}

pub proof fn lemma_sorted_insert<V>(s: Seq<(Seq<char>, V)>, p: int, k: Seq<char>, v: V)
    requires
        sorted_keys(s),
        0 <= p <= s.len(),
        forall|i: int| 0 <= i < p ==> text_less(#[trigger] s[i].0, k),
        p < s.len() ==> text_less(k, s[p].0),
    ensures
        sorted_keys(s.insert(p, (k, v))),
{
    let t = s.insert(p, (k, v));
    assert forall|j: int| p <= j < s.len() implies text_less(k, #[trigger] s[j].0) by {
        if j > p {
            crate::text::lemma_text_less_transitive(k, s[p].0, s[j].0);
        }
    }
    assert forall|a: int, b: int| 0 <= a < b < t.len() implies text_less(
        #[trigger] t[a].0,
        #[trigger] t[b].0,
    ) by {
        if b < p {
            assert(t[a] == s[a] && t[b] == s[b]);
        } else if b == p {
            assert(t[a] == s[a]);
        } else if a < p {
            assert(t[a] == s[a] && t[b] == s[b - 1]);
            crate::text::lemma_text_less_transitive(s[a].0, k, s[b - 1].0);
        } else if a == p {
            assert(t[b] == s[b - 1]);
        } else {
            assert(t[a] == s[a - 1] && t[b] == s[b - 1]);
        }
    }
}

pub proof fn lemma_sorted_remove<V>(s: Seq<(Seq<char>, V)>, i: int)
    requires
        sorted_keys(s),
        0 <= i < s.len(),
    ensures
        sorted_keys(s.remove(i)),
{
    let t = s.remove(i);
    assert forall|a: int, b: int| 0 <= a < b < t.len() implies text_less(
        #[trigger] t[a].0,
        #[trigger] t[b].0,
    ) by {
        let a0 = if a < i { a } else { a + 1 };
        let b0 = if b < i { b } else { b + 1 };
        assert(t[a] == s[a0] && t[b] == s[b0]);
    }
}

/// Files `rule` under `key`, replacing a rule filed there, keeping the keys in order.
pub(crate) fn upsert_rule_entry(rules: &mut Vec<(String, ManualRule)>, key: String, rule: ManualRule)
    requires
        sorted_keys(rule_entries(old(rules)@)),
        rules_filed(old(rules)@),
        key@ == normalized(rule.executable@),
    ensures
        keyed_map(rule_entries(final(rules)@)) == keyed_map(rule_entries(old(rules)@)).insert(
            key@,
            rule@,
        ),
        sorted_keys(rule_entries(final(rules)@)),
        rules_filed(final(rules)@),
{
    let ghost s = rule_entries(rules@);
    assert(s =~= entries_view(rules@));
    proof {
        lemma_sorted_unique(s);
    }
    match find_entry(rules, &key) {
        Some(i) => {
            proof {
                lemma_key_index(s, key@);
                lemma_keyed_update(s, i as int, rule@);
            }
            rules.set(i, (key, rule));
            assert(rule_entries(rules@) =~= s.update(i as int, (s[i as int].0, rule@)));
        },
        None => {
            proof {
                lemma_key_index(s, key@);
            }
            let n = rules.len();
            let mut p: usize = 0;
            while p < n && text_before(rules[p].0.as_str(), key.as_str())
                invariant
                    n == rules@.len(),
                    s == rule_entries(rules@),
                    p <= n,
                    forall|i: int| 0 <= i < p ==> text_less(#[trigger] s[i].0, key@),
                decreases n - p,
            {
                p = p + 1;
            }
            proof {
                if p < n {
                    assert(s[p as int].0 != key@);
                    crate::text::lemma_text_less_total(s[p as int].0, key@);
                }
                lemma_sorted_insert(s, p as int, key@, rule@);
                lemma_keyed_insert(s, p as int, key@, rule@);
            }
            let ghost k = key@;
            let ghost r = rule@;
            rules.insert(p, (key, rule));
            assert(rule_entries(rules@) =~= s.insert(p as int, (k, r)));
        },
    }
}

/// Removes the rule filed under `key`, if any.
pub(crate) fn remove_rule_entry(rules: &mut Vec<(String, ManualRule)>, key: &String)
    requires
        sorted_keys(rule_entries(old(rules)@)),
        rules_filed(old(rules)@),
    ensures
        keyed_map(rule_entries(final(rules)@)) == keyed_map(rule_entries(old(rules)@)).remove(key@),
        sorted_keys(rule_entries(final(rules)@)),
        rules_filed(final(rules)@),
{
    let ghost s = rule_entries(rules@);
    assert(s =~= entries_view(rules@));
    proof {
        lemma_sorted_unique(s);
        lemma_key_index(s, key@);
    }
    match find_entry(rules, key) {
        Some(i) => {
            proof {
                lemma_keyed_remove(s, i as int);
                lemma_sorted_remove(s, i as int);
            }
            rules.remove(i);
            assert(rule_entries(rules@) =~= s.remove(i as int));
        },
        None => {
            assert(keyed_map(s).remove(key@) =~= keyed_map(s));
        },
    }
}

/// Records one sample in the preference filed under `key`, creating it for
/// `executable` where there is none.
pub(crate) fn record_sample(
    prefs: &mut Vec<(String, LearnedAppPreference)>,
    key: String,
    executable: &String,
    mode: LanguageMode,
    weight: u32,
    epoch: u64,
)
    requires
        unique_keys(preference_entries(old(prefs)@)),
        preferences_filed(old(prefs)@),
        key@ == normalized(executable@),
    ensures
        keyed_map(preference_entries(final(prefs)@)) == sampled(
            keyed_map(preference_entries(old(prefs)@)),
            key@,
            executable@,
            mode,
            weight,
            epoch,
        ),
        unique_keys(preference_entries(final(prefs)@)),
        preferences_filed(final(prefs)@),
{
    let ghost s = preference_entries(prefs@);
    assert(s =~= entries_view(prefs@));
    proof {
        lemma_key_index(s, key@);
    }
    match find_entry(prefs, &key) {
        Some(i) => {
            let mut entry = prefs[i].1.clone();
            entry.record(mode, weight, epoch);
            proof {
                lemma_keyed_update(s, i as int, entry@);
            }
            let ghost e = entry@;
            prefs.set(i, (key, entry));
            assert(preference_entries(prefs@) =~= s.update(i as int, (s[i as int].0, e)));
        },
        None => {
            let mut entry = LearnedAppPreference::empty(executable.clone());
            entry.record(mode, weight, epoch);
            let ghost k = key@;
            let ghost e = entry@;
            prefs.push((key, entry));
            assert(preference_entries(prefs@) =~= s.push((k, e)));
            assert(preference_entries(prefs@).drop_last() =~= s);
        },
    }
}

/// Files `pref` under `key`, replacing a preference filed there.
pub(crate) fn upsert_preference_entry(
    prefs: &mut Vec<(String, LearnedAppPreference)>,
    key: String,
    pref: LearnedAppPreference,
)
    requires
        unique_keys(preference_entries(old(prefs)@)),
        preferences_filed(old(prefs)@),
        key@ == normalized(pref.executable@),
    ensures
        keyed_map(preference_entries(final(prefs)@)) == keyed_map(
            preference_entries(old(prefs)@),
        ).insert(key@, pref@),
        unique_keys(preference_entries(final(prefs)@)),
        preferences_filed(final(prefs)@),
{
    let ghost s = preference_entries(prefs@);
    assert(s =~= entries_view(prefs@));
    proof {
        lemma_key_index(s, key@);
    }
    let ghost k = key@;
    let ghost v = pref@;
    match find_entry(prefs, &key) {
        Some(i) => {
            proof {
                lemma_keyed_update(s, i as int, pref@);
            }
            prefs.set(i, (key, pref));
            assert(preference_entries(prefs@) =~= s.update(i as int, (s[i as int].0, v)));
        },
        None => {
            prefs.push((key, pref));
            assert(preference_entries(prefs@) =~= s.push((k, v)));
            assert(preference_entries(prefs@).drop_last() =~= s);
        },
    }
}

} // verus!
