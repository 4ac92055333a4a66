//! The team-membership roster: a directory mapping each member's contact
//! address to their login identifier.

use vstd::prelude::*;

verus! {

/// The mapping described by a sequence of (address, login) pairs, where a
/// later pair for the same address overwrites an earlier one.
pub open spec fn map_of_entries(s: Seq<(String, String)>) -> Map<Seq<char>, Seq<char>>
    decreases s.len(),
{
    if s.len() == 0 {
        Map::empty()
    } else {
        map_of_entries(s.drop_last()).insert(s.last().0@, s.last().1@)
    }
}

/// A team's current members, keyed by contact address.
///
/// Built fresh once per run from the directory's (address, login) pairs and
/// then only read. Its mathematical content is a map from address to login;
/// when the directory hands over the same address twice, the later pair wins.
pub struct TeamRoster {
    entries: Vec<(String, String)>,
}

impl View for TeamRoster {
    type V = Map<Seq<char>, Seq<char>>;

    closed spec fn view(&self) -> Map<Seq<char>, Seq<char>> {
        map_of_entries(self.entries@)
    }
}

impl TeamRoster {
    /// A roster with no members.
    pub fn new() -> (r: TeamRoster)
        ensures
            r@ == Map::<Seq<char>, Seq<char>>::empty(),
    {
        TeamRoster { entries: Vec::new() }
    }

    /// A roster holding exactly the given pairs, later pairs overwriting
    /// earlier ones with the same address.
    pub fn from_pairs(pairs: Vec<(String, String)>) -> (r: TeamRoster)
        ensures
            r@ == map_of_entries(pairs@),
    {
        TeamRoster { entries: pairs }
    }

    /// Record one member. A later insertion for the same address wins.
    pub fn insert(&mut self, addr: String, login: String)
        ensures
            final(self)@ == old(self)@.insert(addr@, login@),
    {
        let ghost pre = self.entries@;
        self.entries.push((addr, login));
        proof {
            assert(self.entries@.drop_last() =~= pre);
        }
    }

    /// Look the address up: the member's login, or `None` when no member has
    /// this contact address.
    pub fn lookup(&self, addr: &String) -> (r: Option<String>)
        ensures
            r is Some <==> self@.contains_key(addr@),
            r matches Some(login) ==> login@ == self@[addr@],
    {
        let mut i: usize = self.entries.len();
        while i > 0
            invariant
                i <= self.entries.len(),
                forall|j: int| i <= j < self.entries@.len() ==> self.entries@[j].0@ != addr@,
            decreases i,
        {
            i = i - 1;
            let entry = &self.entries[i];
            if entry.0 == *addr {
                proof {
                    lemma_lookup_found(self.entries@, addr@, i as int);
                }
                return Some(entry.1.clone());
            }
        }
        proof {
            lemma_lookup_missing(self.entries@, addr@);
        }
        None
    }
}

/// When index `j` holds the last pair for address `k`, the roster's map holds
/// that pair's login under `k`.
proof fn lemma_lookup_found(s: Seq<(String, String)>, k: Seq<char>, j: int)
    requires
        0 <= j < s.len(),
        s[j].0@ == k,
        forall|l: int| j < l < s.len() ==> s[l].0@ != k,
    ensures
        map_of_entries(s).contains_key(k),
        map_of_entries(s)[k] == s[j].1@,
    decreases s.len(),
{
    if j == s.len() - 1 {
    } else {
        lemma_lookup_found(s.drop_last(), k, j);
    }
}

/// When no pair carries address `k`, the roster's map has no entry for `k`.
proof fn lemma_lookup_missing(s: Seq<(String, String)>, k: Seq<char>)
    requires
        forall|j: int| 0 <= j < s.len() ==> s[j].0@ != k,
    ensures
        !map_of_entries(s).contains_key(k),
    decreases s.len(),
{
    if s.len() > 0 {
        lemma_lookup_missing(s.drop_last(), k);
    }
}

} // verus!
