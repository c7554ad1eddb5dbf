//! The signed-in user of a request, and how it is read back from the values
//! that the session store keeps for a request.
use crate::text::{i32_to_decimal, int_decimal, parse_i32, parse_i32_spec, lemma_parse_i32_of_decimal};
use vstd::prelude::*;
use vstd::string::*;

verus! {

/// The signed-in user of a request.
#[derive(Clone, Debug, PartialEq, Eq, Structural)]
pub struct Session {
    pub user_id: i32,
}

/// The key under which the session store keeps the user id.
pub open spec fn user_id_key() -> Seq<char> {
    "user_id"@
}

/// The value of the first entry whose key is `key`.
pub open spec fn entry_lookup(entries: Seq<(Seq<char>, Seq<char>)>, key: Seq<char>) -> Option<
    Seq<char>,
>
    decreases entries.len(),
{
    if entries.len() == 0 {
        None
    } else if entries[0].0 == key {
        Some(entries[0].1)
    } else {
        entry_lookup(entries.skip(1), key)
    }
}

/// The session that a store's entries hold: none when there are no entries,
/// when there is no `user_id` entry, or when its value is not an `i32` in
/// decimal; otherwise the user with that id.
pub open spec fn session_from_entries(entries: Seq<(Seq<char>, Seq<char>)>) -> Option<Session> {
    if entries.len() == 0 {
        None
    } else {
        match entry_lookup(entries, user_id_key()) {
            Some(v) => match parse_i32_spec(v) {
                Some(id) => Some(Session { user_id: id }),
                None => None,
            },
            None => None,
        }
    }
}

/// The entries of a store as pairs of character sequences.
pub open spec fn entries_view(entries: Seq<(String, String)>) -> Seq<(Seq<char>, Seq<char>)> {
    entries.map_values(|e: (String, String)| (e.0@, e.1@))
}

impl Session {
    /// The user id in decimal, as `Display` renders it.
    pub fn to_string(&self) -> (s: String)
        ensures
            s@ == int_decimal(self.user_id as int),
    {
        i32_to_decimal(self.user_id)
    }

    /// The user id.
    pub fn deref(&self) -> (id: &i32)
        ensures
            *id == self.user_id,
    {
        &self.user_id
    }

    /// The session that the entries of a session store hold (see
    /// [`session_from_entries`]).
    pub fn from_entries(entries: &Vec<(String, String)>) -> (r: Option<Session>)
        ensures
            r == session_from_entries(entries_view(entries@)),
    {
        let ghost ev = entries_view(entries@);
        if entries.len() == 0 {
            return None;
        }
        let key = String::from_str("user_id");
        let mut i: usize = 0;
        assert(ev.skip(0) =~= ev);
        while i < entries.len()
            invariant
                i <= entries.len(),
                ev == entries_view(entries@),
                key@ == user_id_key(),
                entry_lookup(ev, user_id_key()) == entry_lookup(ev.skip(i as int), user_id_key()),
            decreases entries.len() - i,
        {
            let ghost rest = ev.skip(i as int);
            assert(rest[0] == (entries@[i as int].0@, entries@[i as int].1@));
            if entries[i].0 == key {
                let r = match parse_i32(entries[i].1.as_str()) {
                    Some(id) => Some(Session { user_id: id }),
                    None => None,
                };
                return r;
            }
            assert(rest.skip(1) =~= ev.skip(i + 1));
            i = i + 1;
        }
        assert(ev.skip(entries.len() as int) =~= Seq::<(Seq<char>, Seq<char>)>::empty());
        None
    }
}

/// A store that keeps a user's id in decimal under `user_id` holds that
/// user's session: reading back what the session renders gives it again.
pub proof fn lemma_session_roundtrip(s: Session)
    ensures
        session_from_entries(seq![(user_id_key(), int_decimal(s.user_id as int))]) == Some(s),
{
    let entries = seq![(user_id_key(), int_decimal(s.user_id as int))];
    lemma_parse_i32_of_decimal(s.user_id);
    assert(entry_lookup(entries, user_id_key()) == Some(int_decimal(s.user_id as int)));
}


/// A key found at position `k`, and at no earlier position, is looked up to
/// the value at `k`.
proof fn lemma_entry_lookup_first(entries: Seq<(Seq<char>, Seq<char>)>, key: Seq<char>, k: int)
    requires
        0 <= k < entries.len(),
        entries[k].0 == key,
        forall|j: int| 0 <= j < k ==> (#[trigger] entries[j]).0 != key,
    ensures
        entry_lookup(entries, key) == Some(entries[k].1),
    decreases k,
{
    if k > 0 {
        let rest = entries.skip(1);
        assert forall|j: int| 0 <= j < k - 1 implies (#[trigger] rest[j]).0 != key by {
            assert(rest[j] == entries[j + 1]);
        }
        lemma_entry_lookup_first(rest, key, k - 1);
        assert(entries[0].0 != key);
    }
}

/// A key that no entry has is not found.
proof fn lemma_entry_lookup_absent(entries: Seq<(Seq<char>, Seq<char>)>, key: Seq<char>)
    requires
        forall|j: int| 0 <= j < entries.len() ==> (#[trigger] entries[j]).0 != key,
    ensures
        entry_lookup(entries, key) is None,
    decreases entries.len(),
{
    if entries.len() > 0 {
        let rest = entries.skip(1);
        assert forall|j: int| 0 <= j < rest.len() implies (#[trigger] rest[j]).0 != key by {
            assert(rest[j] == entries[j + 1]);
        }
        lemma_entry_lookup_absent(rest, key);
        assert(entries[0].0 != key);
    }
}

/// Whatever else a store holds and wherever its one `user_id` entry stands,
/// when that entry's value is the decimal of `x` the session read back is
/// the user `x`.
pub proof fn lemma_session_from_user_id_entry(
    entries: Seq<(Seq<char>, Seq<char>)>,
    k: int,
    x: i32,
)
    requires
        0 <= k < entries.len(),
        entries[k] == (user_id_key(), int_decimal(x as int)),
        forall|j: int| 0 <= j < entries.len() && j != k ==> (#[trigger] entries[j]).0 != user_id_key(),
    ensures
        session_from_entries(entries) == Some(Session { user_id: x }),
{
    lemma_entry_lookup_first(entries, user_id_key(), k);
    lemma_parse_i32_of_decimal(x);
}

/// A store without a `user_id` entry holds no session.
pub proof fn lemma_no_user_id_no_session(entries: Seq<(Seq<char>, Seq<char>)>)
    requires
        forall|j: int| 0 <= j < entries.len() ==> (#[trigger] entries[j]).0 != user_id_key(),
    ensures
        session_from_entries(entries) is None,
{
    lemma_entry_lookup_absent(entries, user_id_key());
}

/// The session read from a store holds exactly the number that the first
/// `user_id` entry's value reads as, whatever the other entries are.
pub proof fn lemma_session_reads_first_user_id(entries: Seq<(Seq<char>, Seq<char>)>, k: int)
    requires
        0 <= k < entries.len(),
        entries[k].0 == user_id_key(),
        forall|j: int| 0 <= j < k ==> (#[trigger] entries[j]).0 != user_id_key(),
    ensures
        session_from_entries(entries) == (match parse_i32_spec(entries[k].1) {
            Some(id) => Some(Session { user_id: id }),
            None => None,
        }),
{
    lemma_entry_lookup_first(entries, user_id_key(), k);
}

} // verus!
