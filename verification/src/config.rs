//! Settings of the service: a list of dotted keys and their values, in which
//! a later entry shadows an earlier one with the same key.

use vstd::prelude::*;

verus! {

/// The value that a list of settings gives to `key`: that of the last entry
/// with this key.
pub open spec fn lookup(entries: Seq<(Seq<char>, Seq<char>)>, key: Seq<char>) -> Option<Seq<char>>
    decreases entries.len(),
{
    if entries.len() == 0 {
        None
    } else if entries.last().0 == key {
        Some(entries.last().1)
    } else {
        lookup(entries.drop_last(), key)
    }
}

/// The settings that a list of entries stands for.
pub open spec fn settings_of(entries: Seq<(Seq<char>, Seq<char>)>) -> Map<Seq<char>, Seq<char>> {
    Map::new(
        |key: Seq<char>| lookup(entries, key) is Some,
        |key: Seq<char>| lookup(entries, key)->0,
    )
}

/// The view of an optional string.
pub open spec fn text_of(value: Option<String>) -> Option<Seq<char>> {
    match value {
        Some(s) => Some(s@),
        None => None,
    }
}

/// Looking a key up in two lists, one after the other, finds what the second
/// list gives it, and what the first gives it where the second is silent.
pub proof fn lemma_lookup_concat(
    first: Seq<(Seq<char>, Seq<char>)>,
    second: Seq<(Seq<char>, Seq<char>)>,
    key: Seq<char>,
)
    ensures
        lookup(first + second, key) == match lookup(second, key) {
            Some(v) => Some(v),
            None => lookup(first, key),
        },
    decreases second.len(),
{
    if second.len() == 0 {
        assert(first + second =~= first);
    } else {
        assert((first + second).last() == second.last());
        assert((first + second).drop_last() =~= first + second.drop_last());
        lemma_lookup_concat(first, second.drop_last(), key);
    }
}

/// Settings read from an ordered list of sources.
pub struct Config {
    entries: Vec<(String, String)>,
}

impl View for Config {
    type V = Map<Seq<char>, Seq<char>>;

    closed spec fn view(&self) -> Map<Seq<char>, Seq<char>> {
        settings_of(self.entries.deep_view())
    }
}

impl Config {
    /// Settings that hold nothing.
    pub fn new() -> (settings: Config)
        ensures
            settings@ == Map::<Seq<char>, Seq<char>>::empty(),
    {
        let settings = Config { entries: Vec::new() };
        assert(settings.entries.deep_view() =~= Seq::empty());
        assert(settings@ =~= Map::<Seq<char>, Seq<char>>::empty());
        settings
    }

    /// Gives `key` the value `value`, in place of any value it had.
    pub fn set(&mut self, key: &str, value: &str)
        ensures
            final(self)@ == old(self)@.insert(key@, value@),
    {
        let ghost before = self.entries.deep_view();
        self.entries.push((key.to_owned(), value.to_owned()));
        proof {
            let after = self.entries.deep_view();
            assert(after.drop_last() =~= before);
            assert(after.last() == (key@, value@));
            assert(final(self)@ =~= old(self)@.insert(key@, value@));
        }
    }

    /// The value of `key`, if the settings hold one.
    pub fn get_string(&self, key: &str) -> (value: Option<String>)
        ensures
            text_of(value) == self@.get(key@),
    {
        let wanted = key.to_owned();
        let ghost all = self.entries.deep_view();
        let mut i: usize = self.entries.len();
        assert(all.take(i as int) =~= all);
        while i > 0
            invariant
                i <= self.entries.len(),
                all == self.entries.deep_view(),
                wanted@ == key@,
                lookup(all, key@) == lookup(all.take(i as int), key@),
            decreases i,
        {
            let ghost prefix = all.take(i as int);
            assert(prefix.last() == all[i - 1]);
            assert(prefix.drop_last() =~= all.take(i - 1));
            i -= 1;
            if self.entries[i].0 == wanted {
                return Some(self.entries[i].1.clone());
            }
        }
        None
    }
}

/// Builds the settings of the service from what the configuration file holds
/// and what the environment overrides: where both name a key, the
/// environment's value stands.
pub fn load_configuration(file: Vec<(String, String)>, environment: Vec<(String, String)>) -> (settings: Config)
    ensures
        settings@ == settings_of(file.deep_view()).union_prefer_right(
            settings_of(environment.deep_view()),
        ),
{
    let mut entries = file;
    let mut environment = environment;
    let ghost lower = entries.deep_view();
    let ghost upper = environment.deep_view();
    entries.append(&mut environment);
    let settings = Config { entries };
    proof {
        assert(settings.entries.deep_view() =~= lower + upper);
        assert forall|key: Seq<char>|
            #[trigger] lookup(lower + upper, key) == match lookup(upper, key) {
                Some(v) => Some(v),
                None => lookup(lower, key),
            } by {
            lemma_lookup_concat(lower, upper, key);
        }
        assert(settings@ =~= settings_of(lower).union_prefer_right(settings_of(upper)));
    }
    settings
}

} // verus!
