//! The saved servers and the one that was used last.

use crate::models::connection::{ServerConfig, ServerView};
use crate::text::str_eq;
use vstd::prelude::*;

verus! {

/// Everything that is saved: the servers in the order in which they were
/// added, and the identifier of the one that was used last.
#[derive(Debug, PartialEq, Eq)]
pub struct StoredConfig {
    pub servers: Vec<ServerConfig>,
    pub last_used_server_id: Option<String>,
}

/// The saved configuration as plain values.
pub ghost struct StoredView {
    pub servers: Seq<ServerView>,
    pub last_used_server_id: Option<Seq<char>>,
}

impl View for StoredConfig {
    type V = StoredView;

    open spec fn view(&self) -> StoredView {
        StoredView {
            servers: self.servers.deep_view(),
            last_used_server_id: self.last_used_server_id.deep_view(),
        }
    }
}

impl Default for StoredConfig {
    /// Nothing saved yet.
    fn default() -> (config: Self)
        ensures
            config@ == (StoredView { servers: Seq::empty(), last_used_server_id: None }),
    {
        let config = StoredConfig { servers: Vec::new(), last_used_server_id: None };
        assert(config.servers.deep_view() =~= Seq::empty());
        config
    }
}

/// The place of the first server whose identifier is `id`.
pub open spec fn position_of(servers: Seq<ServerView>, id: Seq<char>) -> Option<int>
    decreases servers.len(),
{
    if servers.len() == 0 {
        None
    } else if servers[0].id == id {
        Some(0)
    } else {
        match position_of(servers.drop_first(), id) {
            Some(i) => Some(i + 1),
            None => None,
        }
    }
}

/// `position_of` gives the first place where the identifier stands, and none
/// exactly when it stands nowhere.
pub proof fn lemma_position_of(servers: Seq<ServerView>, id: Seq<char>)
    ensures
        match position_of(servers, id) {
            Some(i) => 0 <= i < servers.len() && servers[i].id == id && forall|j: int|
                0 <= j < i ==> (#[trigger] servers[j]).id != id,
            None => forall|j: int| 0 <= j < servers.len() ==> (#[trigger] servers[j]).id != id,
        },
    decreases servers.len(),
{
    if servers.len() > 0 && servers[0].id != id {
        let rest = servers.drop_first();
        lemma_position_of(rest, id);
        match position_of(rest, id) {
            Some(i) => {
                assert(servers[i + 1] == rest[i]);
                assert forall|j: int| 0 <= j < i + 1 implies (#[trigger] servers[j]).id != id by {
                    if j > 0 {
                        assert(servers[j] == rest[j - 1]);
                    }
                }
            },
            None => {
                assert forall|j: int| 0 <= j < servers.len() implies (#[trigger] servers[j]).id
                    != id by {
                    if j > 0 {
                        assert(servers[j] == rest[j - 1]);
                    }
                }
            },
        }
    }
}

/// Finds the place of the first server whose identifier is `id`.
pub fn find_server(servers: &Vec<ServerConfig>, id: &str) -> (place: Option<usize>)
    ensures
        match place {
            Some(i) => position_of(servers.deep_view(), id@) == Some(i as int),
            None => position_of(servers.deep_view(), id@) is None,
        },
{
    let ghost all = servers.deep_view();
    let mut i: usize = 0;
    proof {
        lemma_position_of(all, id@);
    }
    while i < servers.len()
        invariant
            i <= servers.len(),
            all == servers.deep_view(),
            forall|j: int| 0 <= j < i ==> (#[trigger] all[j]).id != id@,
        decreases servers.len() - i,
    {
        if str_eq(servers[i].id.as_str(), id) {
            proof {
                assert(all[i as int].id == id@);
                lemma_position_of(all, id@);
                let found = position_of(all, id@);
                if found is Some && found->0 != i {
                    if found->0 < i {
                        assert(all[found->0].id != id@);
                    } else {
                        assert(all[i as int].id != id@);
                    }
                }
                if found is None {
                    assert(all[i as int].id != id@);
                }
            }
            return Some(i);
        }
        i += 1;
    }
    proof {
        lemma_position_of(all, id@);
        let found = position_of(all, id@);
        if found is Some {
            assert(all[found->0].id != id@);
        }
    }
    None
}

/// The configuration after a server was added: it stands last.
pub open spec fn with_server(config: StoredView, server: ServerView) -> StoredView {
    StoredView { servers: config.servers.push(server), ..config }
}

/// Adds a server at the end of the list.
pub fn add_server(config: &mut StoredConfig, server: ServerConfig)
    ensures
        final(config)@ == with_server(old(config)@, server@),
{
    let ghost before = config.servers.deep_view();
    config.servers.push(server);
    proof {
        assert(config.servers.deep_view() =~= before.push(server@));
    }
}

/// The configuration after a server was changed: the first server with the
/// same identifier is replaced, where there is one.
pub open spec fn with_updated(config: StoredView, server: ServerView) -> StoredView {
    match position_of(config.servers, server.id) {
        Some(i) => StoredView { servers: config.servers.update(i, server), ..config },
        None => config,
    }
}

/// Replaces the first server that has `server`'s identifier. Where no server
/// has it, nothing changes and the answer is the error `Server not found`.
pub fn update_server(config: &mut StoredConfig, server: ServerConfig) -> (outcome: Result<
    (),
    String,
>)
    ensures
        final(config)@ == with_updated(old(config)@, server@),
        outcome is Ok <==> position_of(old(config)@.servers, server@.id) is Some,
        outcome is Err ==> outcome->Err_0@ == "Server not found"@,
{
    let ghost before = config.servers.deep_view();
    match find_server(&config.servers, server.id.as_str()) {
        Some(i) => {
            proof {
                lemma_position_of(before, server@.id);
            }
            config.servers.set(i, server);
            proof {
                assert(config.servers.deep_view() =~= before.update(i as int, server@));
            }
            Ok(())
        },
        None => Err(String::from_str("Server not found")),
    }
}

/// The configuration after a server was deleted: every server with the
/// identifier is gone, and so is the note of the last used server where it
/// named that identifier.
pub open spec fn without_server(config: StoredView, id: Seq<char>) -> StoredView {
    StoredView {
        servers: config.servers.filter(|server: ServerView| server.id != id),
        last_used_server_id: if config.last_used_server_id == Some(id) {
            None
        } else {
            config.last_used_server_id
        },
    }
}

/// Deletes every server whose identifier is `server_id`.
pub fn delete_server(config: &mut StoredConfig, server_id: &str)
    ensures
        final(config)@ == without_server(old(config)@, server_id@),
{
    let ghost all = config.servers.deep_view();
    let ghost pred = |server: ServerView| server.id != server_id@;
    let mut kept: Vec<ServerConfig> = Vec::new();
    let mut i: usize = 0;
    proof {
        reveal(Seq::filter);
        assert(all.take(0) =~= Seq::empty());
        assert(kept.deep_view() =~= all.take(0).filter(pred));
    }
    while i < config.servers.len()
        invariant
            i <= config.servers.len(),
            all == config.servers.deep_view(),
            *config == *old(config),
            pred == |server: ServerView| server.id != server_id@,
            kept.deep_view() == all.take(i as int).filter(pred),
        decreases config.servers.len() - i,
    {
        let ghost before = kept.deep_view();
        proof {
            reveal(Seq::filter);
            assert(all.take(i + 1).drop_last() =~= all.take(i as int));
            assert(all.take(i + 1).last() == config.servers[i as int]@);
        }
        if !str_eq(config.servers[i].id.as_str(), server_id) {
            kept.push(config.servers[i].clone());
            proof {
                assert(kept.deep_view() =~= before.push(config.servers[i as int]@));
            }
        }
        i += 1;
    }
    proof {
        assert(all.take(config.servers.len() as int) =~= all);
    }
    config.servers = kept;
    let forget = match &config.last_used_server_id {
        Some(last) => str_eq(last.as_str(), server_id),
        None => false,
    };
    if forget {
        config.last_used_server_id = None;
    }
}

/// The configuration after a server was used: its identifier is noted.
pub open spec fn with_last_used(config: StoredView, id: Seq<char>) -> StoredView {
    StoredView { last_used_server_id: Some(id), ..config }
}

/// Notes `server_id` as the server that was used last.
pub fn set_last_used_server(config: &mut StoredConfig, server_id: &str)
    ensures
        final(config)@ == with_last_used(old(config)@, server_id@),
{
    config.last_used_server_id = Some(String::from_str(server_id));
}

/// The server that was used last: the first one with the noted identifier.
pub open spec fn last_used(config: StoredView) -> Option<ServerView> {
    match config.last_used_server_id {
        Some(id) => match position_of(config.servers, id) {
            Some(i) => Some(config.servers[i]),
            None => None,
        },
        None => None,
    }
}

/// The server that was used last, where one is noted and still saved.
pub fn get_last_used_server(config: &StoredConfig) -> (server: Option<ServerConfig>)
    ensures
        server.deep_view() == last_used(config@),
{
    match &config.last_used_server_id {
        Some(id) => match find_server(&config.servers, id.as_str()) {
            Some(i) => {
                proof {
                    lemma_position_of(config.servers.deep_view(), id@);
                }
                Some(config.servers[i].clone())
            },
            None => None,
        },
        None => None,
    }
}

/// A server that was added and then noted as used is the one that is found
/// as the last used one, with the identifier, name, host, port and user name
/// that it was added with, provided that no server added before has its
/// identifier. Such a record never holds a password: it has no place for one.
pub proof fn lemma_saved_server_is_found(config: StoredView, server: ServerView)
    requires
        position_of(config.servers, server.id) is None,
    ensures
        last_used(with_last_used(with_server(config, server), server.id)) == Some(server),
        position_of(with_server(config, server).servers, server.id) == Some(
            config.servers.len() as int,
        ),
{
    let after = config.servers.push(server);
    lemma_position_of(config.servers, server.id);
    lemma_position_of(after, server.id);
    let found = position_of(after, server.id);
    if found is None {
        assert(after[config.servers.len() as int].id != server.id);
    } else if found->0 < config.servers.len() {
        assert(after[found->0] == config.servers[found->0]);
    }
}

/// Deleting a server leaves none with its identifier, and leaves every other
/// server in place and in order.
pub proof fn lemma_deleted_server_is_gone(config: StoredView, id: Seq<char>)
    ensures
        position_of(without_server(config, id).servers, id) is None,
        last_used(without_server(config, id)) is Some ==> last_used(without_server(config, id))
            ->0.id != id,
        without_server(config, id).servers.len() <= config.servers.len(),
{
    let pred = |server: ServerView| server.id != id;
    let kept = config.servers.filter(pred);
    config.servers.lemma_filter_len(pred);
    lemma_position_of(kept, id);
    if position_of(kept, id) is Some {
        config.servers.lemma_filter_pred(pred, position_of(kept, id)->0);
    }
    let after = without_server(config, id);
    if last_used(after) is Some {
        lemma_position_of(kept, after.last_used_server_id->0);
    }
}

} // verus!
