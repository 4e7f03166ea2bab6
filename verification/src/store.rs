//! The identities on record: which identity each server knows this client by.
//!
//! The record is a list of entries in the order they were written. Where an
//! address occurs more than once, the entry written last counts. Keeping the
//! list on disk is not done here.

use crate::protocol::text_view;
use crate::text::same_text;
use vstd::prelude::*;

verus! {

/// One entry of the record: a server address and the identity issued for it.
#[derive(Debug, Clone, PartialEq, Eq)]
pub struct ServerEntry {
    pub address: String,
    pub uuid: String,
}

/// The record of linked servers.
#[derive(Debug, Clone, PartialEq, Eq)]
pub struct ServerConfig {
    pub servers: Vec<ServerEntry>,
}

/// The model of the record: pairs of address and identity, oldest first.
pub type Links = Seq<(Seq<char>, Seq<char>)>;

impl View for ServerEntry {
    type V = (Seq<char>, Seq<char>);

    open spec fn view(&self) -> (Seq<char>, Seq<char>) {
        (self.address@, self.uuid@)
    }
}

impl View for ServerConfig {
    type V = Links;

    open spec fn view(&self) -> Links {
        Seq::new(self.servers@.len(), |i: int| self.servers@[i]@)
    }
}

/// The identity on record for an address: that of the last entry with that
/// address, if there is one.
pub open spec fn identity_for(links: Links, address: Seq<char>) -> Option<Seq<char>>
    decreases links.len(),
{
    if links.len() == 0 {
        None
    } else if links.last().0 == address {
        Some(links.last().1)
    } else {
        identity_for(links.drop_last(), address)
    }
}

/// The record without the entries for an address, the others in their order.
pub open spec fn without(links: Links, address: Seq<char>) -> Links
    decreases links.len(),
{
    if links.len() == 0 {
        Seq::empty()
    } else if links.last().0 == address {
        without(links.drop_last(), address)
    } else {
        without(links.drop_last(), address).push(links.last())
    }
}

/// The record after an identity was written for an address: the earlier
/// entries for the address are gone and the new one stands last.
pub open spec fn upserted(links: Links, address: Seq<char>, identity: Seq<char>) -> Links {
    without(links, address).push((address, identity))
}

/// How many entries the record holds for an address.
pub open spec fn entries_for(links: Links, address: Seq<char>) -> nat
    decreases links.len(),
{
    if links.len() == 0 {
        0
    } else if links.last().0 == address {
        entries_for(links.drop_last(), address) + 1
    } else {
        entries_for(links.drop_last(), address)
    }
}

/// Nothing is left for an address once its entries are taken out, and what
/// is on record for any other address stays.
pub proof fn lemma_without(links: Links, address: Seq<char>, other: Seq<char>)
    ensures
        entries_for(without(links, address), address) == 0,
        identity_for(without(links, address), address) is None,
        other != address ==> identity_for(without(links, address), other) == identity_for(
            links,
            other,
        ),
        other != address ==> entries_for(without(links, address), other) == entries_for(
            links,
            other,
        ),
    decreases links.len(),
{
    if links.len() > 0 {
        lemma_without(links.drop_last(), address, other);
        if links.last().0 != address {
            let kept = without(links.drop_last(), address);
            assert(kept.push(links.last()).drop_last() =~= kept);
        }
    }
}

/// An address has an identity on record exactly if the record holds an entry for it.
pub proof fn lemma_identity_iff_entry(links: Links, address: Seq<char>)
    ensures
        identity_for(links, address) is Some <==> entries_for(links, address) > 0,
        identity_for(links, address) is Some <==> exists|i: int|
            0 <= i < links.len() && (#[trigger] links[i]).0 == address,
    decreases links.len(),
{
    if links.len() > 0 {
        lemma_identity_iff_entry(links.drop_last(), address);
        if links.last().0 == address {
            assert(links[links.len() - 1].0 == address);
        } else if identity_for(links, address) is Some {
            let i = choose|i: int|
                0 <= i < links.drop_last().len() && (#[trigger] links.drop_last()[i]).0 == address;
            assert(links[i].0 == address);
        } else {
            assert forall|i: int| 0 <= i < links.len() implies (#[trigger] links[i]).0
                != address by {
                if i < links.len() - 1 {
                    assert(links.drop_last()[i].0 != address);
                }
            }
        }
    }
}

/// After an identity is written for an address, the record holds exactly one
/// entry for that address, with that identity, whatever it held before.
pub proof fn lemma_upsert_replaces(links: Links, address: Seq<char>, identity: Seq<char>)
    ensures
        identity_for(upserted(links, address, identity), address) == Some(identity),
        entries_for(upserted(links, address, identity), address) == 1,
{
    let kept = without(links, address);
    lemma_without(links, address, address);
    assert(kept.push((address, identity)).drop_last() =~= kept);
}

/// Writing an identity for one address leaves every other address as it was.
pub proof fn lemma_upsert_keeps_others(
    links: Links,
    address: Seq<char>,
    identity: Seq<char>,
    other: Seq<char>,
)
    requires
        other != address,
    ensures
        identity_for(upserted(links, address, identity), other) == identity_for(links, other),
        entries_for(upserted(links, address, identity), other) == entries_for(links, other),
{
    let kept = without(links, address);
    lemma_without(links, address, other);
    assert(kept.push((address, identity)).drop_last() =~= kept);
}

/// Taking the entries for an address out of a record that holds none for it
/// changes nothing.
pub proof fn lemma_without_absent(links: Links, address: Seq<char>)
    requires
        entries_for(links, address) == 0,
    ensures
        without(links, address) == links,
    decreases links.len(),
{
    if links.len() > 0 {
        lemma_without_absent(links.drop_last(), address);
        assert(links.drop_last().push(links.last()) =~= links);
    }
}

/// Writing for the same address again overwrites: only the identity written
/// last stays, so writing the same identity twice is the same as writing it once.
pub proof fn lemma_upsert_overwrites(
    links: Links,
    address: Seq<char>,
    first: Seq<char>,
    second: Seq<char>,
)
    ensures
        upserted(upserted(links, address, first), address, second) == upserted(
            links,
            address,
            second,
        ),
{
    let kept = without(links, address);
    lemma_without(links, address, address);
    lemma_without_absent(kept, address);
    assert(kept.push((address, first)).drop_last() =~= kept);
}

impl ServerConfig {
    /// A record without entries.
    pub fn new() -> (config: ServerConfig)
        ensures
            config@ == Seq::<(Seq<char>, Seq<char>)>::empty(),
    {
        let config = ServerConfig { servers: Vec::new() };
        assert(config@ =~= Seq::<(Seq<char>, Seq<char>)>::empty());
        config
    }

    /// The identity on record for a server.
    pub fn lookup(&self, address: &str) -> (identity: Option<String>)
        ensures
            text_view(identity) == identity_for(self@, address@),
    {
        let mut i: usize = self.servers.len();
        assert(self@.take(i as int) =~= self@);
        while i > 0
            invariant
                i <= self.servers.len(),
                identity_for(self@, address@) == identity_for(self@.take(i as int), address@),
            decreases i,
        {
            i = i - 1;
            let entry = &self.servers[i];
            proof {
                let seen = self@.take(i + 1);
                assert(seen.last() == entry@);
                assert(seen.drop_last() =~= self@.take(i as int));
            }
            if same_text(entry.address.as_str(), address) {
                return Some(entry.uuid.clone());
            }
        }
        proof {
            assert(self@.take(0).len() == 0);
        }
        None
    }

    /// Writes an identity for a server, in place of what was on record for it.
    pub fn upsert(&mut self, address: &str, uuid: &str)
        ensures
            final(self)@ == upserted(old(self)@, address@, uuid@),
    {
        let mut kept: Vec<ServerEntry> = Vec::new();
        let mut i: usize = 0;
        while i < self.servers.len()
            invariant
                i <= self.servers.len(),
                *self == *old(self),
                Seq::new(kept@.len(), |k: int| kept@[k]@) == without(
                    self@.take(i as int),
                    address@,
                ),
            decreases self.servers.len() - i,
        {
            let entry = &self.servers[i];
            let ghost before = Seq::new(kept@.len(), |k: int| kept@[k]@);
            proof {
                let seen = self@.take(i + 1);
                assert(seen.last() == entry@);
                assert(seen.drop_last() =~= self@.take(i as int));
            }
            if !same_text(entry.address.as_str(), address) {
                kept.push(ServerEntry { address: entry.address.clone(), uuid: entry.uuid.clone() });
                assert(Seq::new(kept@.len(), |k: int| kept@[k]@) =~= before.push(entry@));
            }
            i = i + 1;
        }
        let ghost before = Seq::new(kept@.len(), |k: int| kept@[k]@);
        proof {
            assert(self@.take(i as int) =~= self@);
        }
        kept.push(ServerEntry { address: address.to_owned(), uuid: uuid.to_owned() });
        self.servers = kept;
        assert(self@ =~= before.push((address@, uuid@)));
    }
}

} // verus!
