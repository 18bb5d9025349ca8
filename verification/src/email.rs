//! Resolution of the user's email identity from the repository's
//! configuration entries: the first readable `user.email` entry that holds
//! a value wins; unreadable entries are skipped, and a missing entry is
//! absorbed as an absent field, never raised.

use vstd::prelude::*;

verus! {

/// One configuration entry as the backend reported it: a (name, value)
/// pair, either part carried as `None` when it is not valid text, or `Bad`
/// when the entry itself could not be read.
#[derive(Clone, Debug)]
pub enum ConfigEntryRecord {
    Bad,
    Pair { name: Option<String>, value: Option<String> },
}

/// The value of the first entry at or after `i` whose name is `user.email`
/// and whose value is present.
pub open spec fn spec_find_email(entries: Seq<ConfigEntryRecord>, i: int) -> Option<Seq<char>>
    decreases entries.len() - i,
{
    if i < 0 || i >= entries.len() {
        None
    } else {
        match entries[i] {
            ConfigEntryRecord::Pair { name, value } => {
                if (name matches Some(n) && n@ == "user.email"@) && value is Some {
                    Some(value->0@)
                } else {
                    spec_find_email(entries, i + 1)
                }
            },
            ConfigEntryRecord::Bad => spec_find_email(entries, i + 1),
        }
    }
}

/// Greedily find the first `user.email` value among the configuration
/// entries, in the order the backend handed them out.
pub fn find_email(entries: &Vec<ConfigEntryRecord>) -> (r: Option<String>)
    ensures
        r is Some <==> spec_find_email(entries@, 0) is Some,
        r matches Some(v) ==> spec_find_email(entries@, 0) == Some(v@),
{
    let key = String::from_str("user.email");
    let n = entries.len();
    let mut i: usize = 0;
    while i < n
        invariant
            i <= n == entries@.len(),
            key@ == "user.email"@,
            spec_find_email(entries@, 0) == spec_find_email(entries@, i as int),
        decreases n - i,
    {
        match &entries[i] {
            ConfigEntryRecord::Pair { name, value } => {
                match name {
                    Some(entry_name) => {
                        if *entry_name == key {
                            match value {
                                Some(v) => {
                                    return Some(v.clone());
                                },
                                None => {},
                            }
                        }
                    },
                    None => {},
                }
            },
            ConfigEntryRecord::Bad => {},
        }
        i = i + 1;
    }
    None
}

} // verus!
