use crate::api::{OptionMap, OptionValue};
use vstd::prelude::*;
use vstd::string::StringExecFns;

verus! {

/// The value of the first entry of `entries` whose key is `key`.
pub open spec fn first_option(entries: Seq<(String, OptionValue)>, key: Seq<char>) -> Option<
    OptionValue,
>
    decreases entries.len(),
{
    if entries.len() == 0 {
        None
    } else if entries[0].0@ == key {
        Some(entries[0].1)
    } else {
        first_option(entries.drop_first(), key)
    }
}

/// The option that overrides the name of a network's bridge device.
pub open spec fn bridge_name_key() -> Seq<char> {
    "bridge_name"@
}

/// The bridge name used when a network names none.
pub open spec fn default_bridge_name() -> Seq<char> {
    "florp"@
}

/// The value of the `bridge_name` option, if the options carry one.
pub open spec fn bridge_name_option(options: Option<OptionMap>) -> Option<OptionValue> {
    match options {
        None => None,
        Some(entries) => first_option(entries@, bridge_name_key()),
    }
}

/// The bridge name that `options` ask for: `None` when `bridge_name` is
/// present but is not a string.
pub open spec fn requested_bridge_name(options: Option<OptionMap>) -> Option<Seq<char>> {
    match bridge_name_option(options) {
        None => Some(default_bridge_name()),
        Some(OptionValue::Text(name)) => Some(name@),
        Some(_) => None,
    }
}

proof fn lemma_first_option_skip(entries: Seq<(String, OptionValue)>, key: Seq<char>, i: int)
    requires
        0 <= i < entries.len(),
        entries[i].0@ != key,
    ensures
        first_option(entries.subrange(i, entries.len() as int), key) == first_option(
            entries.subrange(i + 1, entries.len() as int),
            key,
        ),
{
    let rest = entries.subrange(i, entries.len() as int);
    assert(rest.drop_first() =~= entries.subrange(i + 1, entries.len() as int));
}

/// Looks up `key` in an options map: the value of its first entry with that key.
pub fn lookup_option<'a>(entries: &'a OptionMap, key: &String) -> (r: Option<&'a OptionValue>)
    ensures
        match r {
            None => first_option(entries@, key@) is None,
            Some(v) => first_option(entries@, key@) == Some(*v),
        },
{
    let n = entries.len();
    let mut i: usize = 0;
    assert(entries@.subrange(0, n as int) =~= entries@);
    while i < n
        invariant
            n == entries@.len(),
            i <= n,
            first_option(entries@.subrange(i as int, n as int), key@) == first_option(
                entries@,
                key@,
            ),
        decreases n - i,
    {
        if entries[i].0 == *key {
            return Some(&entries[i].1);
        }
        proof {
            lemma_first_option_skip(entries@, key@, i as int);
        }
        i = i + 1;
    }
    None
}

/// Resolves the name of the bridge device that a new network gets: the
/// `bridge_name` option when it is a string, else the default name.
/// `None` when the option holds anything but a string.
pub fn resolve_bridge_name(options: &Option<OptionMap>) -> (r: Option<String>)
    ensures
        match r {
            None => requested_bridge_name(*options) is None,
            Some(name) => requested_bridge_name(*options) == Some(name@),
        },
{
    let found = match options {
        None => None,
        Some(entries) => lookup_option(entries, &String::from_str("bridge_name")),
    };
    proof {
        reveal_strlit("bridge_name");
        reveal_strlit("florp");
    }
    match found {
        None => Some(String::from_str("florp")),
        Some(OptionValue::Text(name)) => Some(name.clone()),
        Some(_) => None,
    }
}

} // verus!
