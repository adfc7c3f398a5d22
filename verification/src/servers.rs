//! The list of the game servers: their addresses by their names and by the
//! abbreviations of their names.

use vstd::prelude::*;
use crate::text::{lowercased, replace, replaced, to_lowercase};

verus! {

/// A game server.
#[derive(Debug, Clone, PartialEq, Eq)]
pub struct Server {
    /// The user-readable name of the server.
    pub name: String,
    /// The hostname of the server.
    pub host: String,
}

impl DeepView for Server {
    type V = (Seq<char>, Seq<char>);

    /// The name and the host.
    open spec fn deep_view(&self) -> (Seq<char>, Seq<char>) {
        (self.name@, self.host@)
    }
}

/// The abbreviated form of the name of a server: in lower case, with `e`
/// for `east`, `w` for `west`, `s` for `south`, `n` for `north`, `as` for
/// `asia`, `m` for `mid` and `aus` for `australia`, replaced in this order.
pub open spec fn abbreviated(name: Seq<char>) -> Seq<char> {
    let lower = lowercased(name);
    let east = replaced(lower, "east"@, "e"@);
    let west = replaced(east, "west"@, "w"@);
    let south = replaced(west, "south"@, "s"@);
    let north = replaced(south, "north"@, "n"@);
    let asia = replaced(north, "asia"@, "as"@);
    let mid = replaced(asia, "mid"@, "m"@);
    replaced(mid, "australia"@, "aus"@)
}

impl Server {
    /// Automatically generate an abbreviated form of this server's name.
    pub fn abbreviated_name(&self) -> (r: String)
        ensures
            r@ == abbreviated(self.name@),
    {
        let lower = to_lowercase(self.name.as_str());
        let east = replace(lower.as_str(), "east", "e");
        let west = replace(east.as_str(), "west", "w");
        let south = replace(west.as_str(), "south", "s");
        let north = replace(south.as_str(), "north", "n");
        let asia = replace(north.as_str(), "asia", "as");
        let mid = replace(asia.as_str(), "mid", "m");
        replace(mid.as_str(), "australia", "aus")
    }
}

/// Addresses by names.
pub type Directory = Map<Seq<char>, Seq<char>>;

/// The directory that comes of entering `entries` one after the other: a
/// later entry replaces an earlier one of the same name.
pub open spec fn entered(entries: Seq<(Seq<char>, Seq<char>)>) -> Directory
    decreases entries.len(),
{
    if entries.len() == 0 {
        Map::empty()
    } else {
        entered(entries.drop_last()).insert(entries.last().0, entries.last().1)
    }
}

/// The directory of `servers`: each server is entered under its name, then
/// under the abbreviation of its name.
pub open spec fn listed(servers: Seq<(Seq<char>, Seq<char>)>) -> Directory
    decreases servers.len(),
{
    if servers.len() == 0 {
        Map::empty()
    } else {
        let server = servers.last();
        listed(servers.drop_last()).insert(server.0, server.1).insert(
            abbreviated(server.0),
            server.1,
        )
    }
}

/// The list of the game servers.
pub struct ServerList {
    /// Server names and abbreviations with their addresses, in the order in
    /// which they were entered.
    entries: Vec<(String, String)>,
    /// Default server address.
    default: String,
}

impl View for ServerList {
    type V = Directory;

    /// The address of each name and of each abbreviation.
    closed spec fn view(&self) -> Directory {
        entered(self.entries.deep_view())
    }
}

/// Looks the address of a name up among entries: the last entry of the name
/// counts.
fn lookup<'a>(entries: &'a Vec<(String, String)>, name: &str) -> (r: Option<&'a String>)
    ensures
        match r {
            Some(host) => entered(entries.deep_view()).dom().contains(name@) && entered(
                entries.deep_view(),
            )[name@] == host@,
            None => !entered(entries.deep_view()).dom().contains(name@),
        },
{
    let key = name.to_owned();
    let ghost all = entries.deep_view();
    let mut i: usize = entries.len();
    assert(all.take(i as int) =~= all);
    while i > 0
        invariant
            i <= entries@.len(),
            all == entries.deep_view(),
            key@ == name@,
            entered(all).dom().contains(name@) == entered(all.take(i as int)).dom().contains(
                name@,
            ),
            entered(all).dom().contains(name@) ==> entered(all)[name@] == entered(
                all.take(i as int),
            )[name@],
        decreases i,
    {
        i = i - 1;
        proof {
            assert(all.take(i + 1).last() == (entries@[i as int].0@, entries@[i as int].1@));
            assert(all.take(i + 1).drop_last() =~= all.take(i as int));
        }
        if entries[i].0 == key {
            return Some(&entries[i].1);
        }
    }
    None
}

impl ServerList {
    /// The address of the default server.
    pub closed spec fn default_host(&self) -> Seq<char> {
        self.default@
    }

    /// Make the list of the given servers, with the server of the given name
    /// or abbreviation as the default; none if no server has that name.
    #[verifier::rlimit(50)]
    pub fn new(servers: Vec<Server>, default: &str) -> (r: Option<Self>)
        ensures
            r is Some <==> listed(servers.deep_view()).dom().contains(default@),
            r matches Some(list) ==> list@ == listed(servers.deep_view()) && list.default_host()
                == listed(servers.deep_view())[default@],
    {
        let ghost all = servers.deep_view();
        let mut entries: Vec<(String, String)> = Vec::new();
        let mut i: usize = 0;
        proof {
            assert(all.take(0) =~= Seq::<(Seq<char>, Seq<char>)>::empty());
            assert(entries.deep_view() =~= Seq::<(Seq<char>, Seq<char>)>::empty());
        }
        while i < servers.len()
            invariant
                i <= servers@.len(),
                all == servers.deep_view(),
                entered(entries.deep_view()) == listed(all.take(i as int)),
            decreases servers@.len() - i,
        {
            let server = &servers[i];
            let ghost before = entries.deep_view();
            let abbreviation = server.abbreviated_name();
            entries.push((server.name.clone(), server.host.clone()));
            let ghost named = entries.deep_view();
            entries.push((abbreviation, server.host.clone()));
            proof {
                let model = (server.name@, server.host@);
                assert(all.take(i + 1).last() == model);
                assert(all.take(i + 1).drop_last() =~= all.take(i as int));
                assert(named =~= before.push(model));
                assert(named.drop_last() =~= before);
                let short = (abbreviated(server.name@), server.host@);
                assert(entries.deep_view() =~= named.push(short));
                assert(entries.deep_view().drop_last() =~= named);
                assert(named.last() == model);
                assert(entries.deep_view().last() == short);
                assert(entered(named) == entered(before).insert(model.0, model.1));
                assert(entered(entries.deep_view()) == entered(named).insert(short.0, short.1));
                assert(listed(all.take(i + 1)) == listed(all.take(i as int)).insert(
                    model.0,
                    model.1,
                ).insert(short.0, short.1));
            }
            i = i + 1;
        }
        assert(all.take(servers@.len() as int) =~= all);
        match lookup(&entries, default) {
            Some(host) => {
                let default = host.clone();
                Some(ServerList { entries, default })
            },
            None => None,
        }
    }

    /// Get the address of a server from this list.
    pub fn get(&self, name: &str) -> (r: Option<&str>)
        ensures
            match r {
                Some(host) => self@.dom().contains(name@) && self@[name@] == host@,
                None => !self@.dom().contains(name@),
            },
    {
        match lookup(&self.entries, name) {
            Some(host) => Some(host.as_str()),
            None => None,
        }
    }

    /// Get the address of the default server.
    pub fn get_default(&self) -> (r: &str)
        ensures
            r@ == self.default_host(),
    {
        self.default.as_str()
    }
}

} // verus!
