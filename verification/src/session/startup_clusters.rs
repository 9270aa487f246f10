//! Clusters that are made when the session starts, and the windows that belong to them.

use std::collections::HashMap;

use vstd::prelude::*;
use vstd::std_specs::hash::spec_keys_iter;
use vstd::std_specs::iter::IteratorSpec;

use crate::ids::{ClusterId, SurfaceId};
use crate::session::environment::{assigned, texts, Assignment, LaunchEnvironment};
use crate::session::focus::ClusterWorkspaceLayoutKind;
use crate::session::spawn::{
    changes_of, configured_process, launch_environment, Detachment, LaunchSpec,
};
use crate::steps::{str_of, text_of};
use crate::text::{decimal, decimal_of, joined, same_text};
use crate::text_map::TextMap;
use crate::time::{Duration, MAX_NANOS};

verus! {

broadcast use vstd::std_specs::hash::group_hash_axioms;

/// The variable that marks a process with its launch.
pub const LAUNCH_ID_ENV: &'static str = "HALLEY_STARTUP_CLUSTER_LAUNCH";

/// How long a launch waits for its window, in seconds.
pub const LAUNCH_CONTEXT_SECONDS: u64 = 15;

/// A command that is to be started for a cluster.
#[derive(Debug)]
pub struct PendingLaunch {
    pub cluster: ClusterId,
    pub command: String,
}

/// A command that was started for a cluster.
#[derive(Debug)]
pub struct LaunchContext {
    pub cluster: ClusterId,
    pub command: String,
    pub expires_at: Duration,
    pub matched: bool,
}

/// A surface that a launch brought.
#[derive(Debug)]
pub struct SurfaceLaunch {
    pub surface: SurfaceId,
    pub launch: String,
}

/// A launch that brought no window in time.
#[derive(Debug)]
pub struct LostLaunch {
    pub launch: String,
    pub command: String,
}

#[derive(Debug)]
pub struct StartupClusters {
    pub next_launch: u64,
    pub pending: Vec<PendingLaunch>,
    pub contexts: TextMap<LaunchContext>,
    pub client_launches: HashMap<u64, String>,
    pub surface_launches: Vec<SurfaceLaunch>,
}

/// What is known of launches.
#[verifier::ext_equal]
pub struct Launches {
    pub contexts: Map<Seq<char>, LaunchContext>,
    pub clients: Map<u64, String>,
    pub surfaces: Seq<SurfaceLaunch>,
}

/// The launch is known and its time is over.
pub open spec fn is_expired(
    contexts: Map<Seq<char>, LaunchContext>,
    launch: Seq<char>,
    now: Duration,
) -> bool {
    contexts.contains_key(launch) && now.nanos >= contexts[launch].expires_at.nanos
}

/// The surfaces whose launches are not over.
pub open spec fn live_surfaces(
    surfaces: Seq<SurfaceLaunch>,
    contexts: Map<Seq<char>, LaunchContext>,
    now: Duration,
) -> Seq<SurfaceLaunch>
    decreases surfaces.len(),
{
    if surfaces.len() == 0 {
        Seq::empty()
    } else {
        let before = live_surfaces(surfaces.drop_last(), contexts, now);
        if is_expired(contexts, surfaces.last().launch@, now) {
            before
        } else {
            before.push(surfaces.last())
        }
    }
}

impl Launches {
    /// What is left once the launches whose time is over are forgotten, with all that was
    /// put down to them.
    pub open spec fn live(self, now: Duration) -> Launches {
        Launches {
            contexts: Map::new(
                |launch: Seq<char>|
                    self.contexts.contains_key(launch) && !is_expired(self.contexts, launch, now),
                |launch: Seq<char>| self.contexts[launch],
            ),
            clients: Map::new(
                |client: u64|
                    self.clients.contains_key(client) && !is_expired(
                        self.contexts,
                        self.clients[client]@,
                        now,
                    ),
                |client: u64| self.clients[client],
            ),
            surfaces: live_surfaces(self.surfaces, self.contexts, now),
        }
    }

    /// The cluster of a launch that is known.
    pub open spec fn cluster_of(self, launch: Seq<char>) -> Option<ClusterId> {
        if self.contexts.contains_key(launch) {
            Some(self.contexts[launch].cluster)
        } else {
            None
        }
    }

    /// A window of the launch has come.
    pub open spec fn with_match(self, launch: Seq<char>) -> Launches {
        if self.contexts.contains_key(launch) {
            Launches {
                contexts: self.contexts.insert(
                    launch,
                    LaunchContext { matched: true, ..self.contexts[launch] },
                ),
                ..self
            }
        } else {
            self
        }
    }
}

/// The launch that the first entry for a surface names.
pub open spec fn launch_of_surface(surfaces: Seq<SurfaceLaunch>, surface: SurfaceId) -> Option<
    Seq<char>,
>
    decreases surfaces.len(),
{
    if surfaces.len() == 0 {
        None
    } else if surfaces[0].surface == surface {
        Some(surfaces[0].launch@)
    } else {
        launch_of_surface(surfaces.drop_first(), surface)
    }
}

/// The name of a launch.
pub open spec fn launch_name(pid: nat, nanos: nat, number: nat) -> Seq<char> {
    decimal_of(pid) + "-"@ + decimal_of(nanos) + "-"@ + decimal_of(number)
}

/// The lists hold exactly the launches that were lost, each once.
pub open spec fn are_lost(
    lost: Seq<LostLaunch>,
    contexts: Map<Seq<char>, LaunchContext>,
    now: Duration,
) -> bool {
    &&& forall|i: int|
        0 <= i < lost.len() ==> is_expired(contexts, (#[trigger] lost[i]).launch@, now)
            && !contexts[lost[i].launch@].matched && lost[i].command
            == contexts[lost[i].launch@].command
    &&& forall|launch: Seq<char>| #[trigger]
        is_expired(contexts, launch, now) && !contexts[launch].matched ==> exists|i: int|
            0 <= i < lost.len() && (#[trigger] lost[i]).launch@ == launch
    &&& forall|i: int, j: int|
        0 <= i < j < lost.len() ==> (#[trigger] lost[i]).launch@ != (#[trigger] lost[j]).launch@
}

fn expired(contexts: &TextMap<LaunchContext>, launch: &str, now: Duration) -> (r: bool)
    ensures
        r == is_expired(contexts@, launch@, now),
{
    match contexts.get(launch) {
        Some(context) => now.nanos >= context.expires_at.nanos,
        None => false,
    }
}

fn keep_clients(
    clients: &HashMap<u64, String>,
    contexts: &TextMap<LaunchContext>,
    now: Duration,
) -> (kept: HashMap<u64, String>)
    ensures
        forall|client: u64|
            kept@.contains_key(client) == (clients@.contains_key(client) && !is_expired(
                contexts@,
                clients@[client]@,
                now,
            )),
        forall|client: u64| #[trigger]
            kept@.contains_key(client) ==> kept@[client] == clients@[client],
{
    let mut kept: HashMap<u64, String> = HashMap::new();
    let ghost keys = spec_keys_iter(clients).remaining().unref();
    assert(keys.to_set() == clients@.dom());
    for client in it: clients.keys()
        invariant
            it.seq().unref() == keys,
            keys.to_set() == clients@.dom(),
            forall|c: u64| #[trigger]
                kept@.contains_key(c) ==> clients@.contains_key(c) && !is_expired(
                    contexts@,
                    clients@[c]@,
                    now,
                ) && kept@[c] == clients@[c],
            forall|i: int|
                0 <= i < it.index() && !is_expired(contexts@, clients@[#[trigger] keys[i]]@, now)
                    ==> kept@.contains_key(keys[i]),
    {
        assert(*client == keys[it.index()]);
        assert(keys.to_set().contains(keys[it.index()]));
        if let Some(launch) = clients.get(client) {
            if !expired(contexts, launch.as_str(), now) {
                kept.insert(*client, launch.clone());
            }
        }
    }
    assert forall|client: u64| kept@.contains_key(client) == (clients@.contains_key(client)
        && !is_expired(contexts@, clients@[client]@, now)) by {
        if clients@.contains_key(client) {
            assert(keys.to_set().contains(client));
            assert(keys.contains(client));
            let i = choose|i: int| 0 <= i < keys.len() && keys[i] == client;
            assert(keys[i] == client);
        }
    }
    kept
}

fn keep_surfaces(
    surfaces: &Vec<SurfaceLaunch>,
    contexts: &TextMap<LaunchContext>,
    now: Duration,
) -> (kept: Vec<SurfaceLaunch>)
    ensures
        kept@ == live_surfaces(surfaces@, contexts@, now),
{
    let mut kept: Vec<SurfaceLaunch> = Vec::new();
    let mut index: usize = 0;
    while index < surfaces.len()
        invariant
            index <= surfaces@.len(),
            kept@ == live_surfaces(surfaces@.take(index as int), contexts@, now),
        decreases surfaces@.len() - index,
    {
        proof {
            let longer = surfaces@.take(index as int + 1);
            assert(longer.drop_last() =~= surfaces@.take(index as int));
            assert(longer.last() == surfaces@[index as int]);
        }
        if !expired(contexts, surfaces[index].launch.as_str(), now) {
            kept.push(
                SurfaceLaunch {
                    surface: surfaces[index].surface,
                    launch: surfaces[index].launch.clone(),
                },
            );
        }
        index += 1;
    }
    assert(surfaces@.take(index as int) =~= surfaces@);
    kept
}

impl Default for StartupClusters {
    fn default() -> (r: Self)
        ensures
            r.next_launch == 0,
            r.pending@.len() == 0,
            r.launches().contexts == Map::<Seq<char>, LaunchContext>::empty(),
            r.launches().clients == Map::<u64, String>::empty(),
            r.launches().surfaces.len() == 0,
    {
        StartupClusters {
            next_launch: 0,
            pending: Vec::new(),
            contexts: TextMap::new(),
            client_launches: HashMap::new(),
            surface_launches: Vec::new(),
        }
    }
}

impl StartupClusters {
    pub open spec fn launches(self) -> Launches {
        Launches {
            contexts: self.contexts@,
            clients: self.client_launches@,
            surfaces: self.surface_launches@,
        }
    }

    pub fn queue(&mut self, cluster: ClusterId, command: String)
        ensures
            final(self).pending@ == old(self).pending@.push(PendingLaunch { cluster, command }),
            final(self).launches() == old(self).launches(),
            final(self).next_launch == old(self).next_launch,
    {
        self.pending.push(PendingLaunch { cluster, command });
    }

    pub fn take_pending(&mut self) -> (pending: Vec<PendingLaunch>)
        ensures
            pending@ == old(self).pending@,
            final(self).pending@.len() == 0,
            final(self).launches() == old(self).launches(),
            final(self).next_launch == old(self).next_launch,
    {
        let mut pending: Vec<PendingLaunch> = Vec::new();
        std::mem::swap(&mut pending, &mut self.pending);
        pending
    }

    /// Notes that a command of this process is started, and gives the launch a name.
    pub fn begin_launch(&mut self, pid: u32, cluster: ClusterId, command: String, now: Duration)
        -> (launch: String)
        requires
            now.nanos + LAUNCH_CONTEXT_SECONDS * 1_000_000_000 <= MAX_NANOS,
        ensures
            final(self).next_launch == (if old(self).next_launch == u64::MAX {
                u64::MAX as int
            } else {
                old(self).next_launch + 1
            }),
            launch@ == launch_name(pid as nat, now.nanos as nat, final(self).next_launch as nat),
            final(self).contexts@ == old(self).contexts@.insert(
                launch@,
                LaunchContext {
                    cluster,
                    command,
                    expires_at: Duration {
                        nanos: (now.nanos + LAUNCH_CONTEXT_SECONDS * 1_000_000_000) as u128,
                    },
                    matched: false,
                },
            ),
            final(self).client_launches@ == old(self).client_launches@,
            final(self).surface_launches@ == old(self).surface_launches@,
            final(self).pending@ == old(self).pending@,
    {
        if self.next_launch < u64::MAX {
            self.next_launch = self.next_launch + 1;
        }
        let process = joined(decimal(pid as u128).as_str(), "-");
        let time = joined(process.as_str(), decimal(now.nanos).as_str());
        let prefix = joined(time.as_str(), "-");
        let launch = joined(prefix.as_str(), decimal(self.next_launch as u128).as_str());
        let expires_at = now.plus(Duration::from_secs(LAUNCH_CONTEXT_SECONDS));
        self.contexts.insert(
            launch.clone(),
            LaunchContext { cluster, command, expires_at, matched: false },
        );
        launch
    }

    /// Forgets the launches whose time is over, and tells which brought no window.
    #[verifier::spinoff_prover]
    #[verifier::rlimit(40)]
    pub fn expire(&mut self, now: Duration) -> (lost: Vec<LostLaunch>)
        ensures
            final(self).launches() == old(self).launches().live(now),
            are_lost(lost@, old(self).contexts@, now),
            final(self).pending@ == old(self).pending@,
            final(self).next_launch == old(self).next_launch,
    {
        let ghost before = self.launches();
        let names = self.contexts.names();
        let surfaces = keep_surfaces(&self.surface_launches, &self.contexts, now);
        let clients = keep_clients(&self.client_launches, &self.contexts, now);
        let mut lost: Vec<LostLaunch> = Vec::new();
        let mut contexts: TextMap<LaunchContext> = TextMap::new();
        std::mem::swap(&mut contexts, &mut self.contexts);
        let mut index: usize = 0;
        while index < names.len()
            invariant
                index <= names@.len(),
                forall|i: int|
                    0 <= i < names@.len() ==> before.contexts.contains_key(#[trigger] names@[i]@),
                forall|i: int, j: int|
                    0 <= i < j < names@.len() ==> #[trigger] names@[i]@ != #[trigger] names@[j]@,
                forall|launch: Seq<char>|
                    contexts@.contains_key(launch) == (before.contexts.contains_key(launch) && !(
                    is_expired(before.contexts, launch, now) && exists|i: int|
                        0 <= i < index && #[trigger] names@[i]@ == launch)),
                forall|launch: Seq<char>| #[trigger]
                    contexts@.contains_key(launch) ==> contexts@[launch]
                        == before.contexts[launch],
                forall|i: int|
                    0 <= i < lost@.len() ==> is_expired(
                        before.contexts,
                        (#[trigger] lost@[i]).launch@,
                        now,
                    ) && !before.contexts[lost@[i].launch@].matched && lost@[i].command
                        == before.contexts[lost@[i].launch@].command && exists|k: int|
                        0 <= k < index && #[trigger] names@[k]@ == lost@[i].launch@,
                forall|k: int|
                    0 <= k < index && is_expired(before.contexts, #[trigger] names@[k]@, now)
                        && !before.contexts[names@[k]@].matched ==> exists|i: int|
                        0 <= i < lost@.len() && (#[trigger] lost@[i]).launch@ == names@[k]@,
                forall|i: int, j: int|
                    0 <= i < j < lost@.len() ==> (#[trigger] lost@[i]).launch@ != (
                    #[trigger] lost@[j]).launch@,
            decreases names@.len() - index,
        {
            let ghost earlier = contexts@;
            let ghost earlier_lost = lost@;
            let name = names[index].as_str();
            assert(earlier.contains_key(name@)) by {
                if exists|i: int| 0 <= i < index && #[trigger] names@[i]@ == name@ {
                    let i = choose|i: int| 0 <= i < index && #[trigger] names@[i]@ == name@;
                    assert(names@[i]@ != names@[index as int]@);
                }
            }
            if expired(&contexts, name, now) {
                if let Some(context) = contexts.remove(name) {
                    if !context.matched {
                        assert forall|i: int| 0 <= i < earlier_lost.len() implies (
                        #[trigger] earlier_lost[i]).launch@ != name@ by {
                            let k = choose|k: int|
                                0 <= k < index && #[trigger] names@[k]@ == earlier_lost[i].launch@;
                            assert(names@[k]@ != names@[index as int]@);
                        }
                        lost.push(
                            LostLaunch { launch: names[index].clone(), command: context.command },
                        );
                        assert(lost@[earlier_lost.len() as int].launch@ == name@);
                        assert forall|i: int| 0 <= i < earlier_lost.len() implies
                            #[trigger] earlier_lost[i] == lost@[i] by {}
                    }
                }
            }
            proof {
                assert forall|launch: Seq<char>|
                    contexts@.contains_key(launch) == (before.contexts.contains_key(launch) && !(
                    is_expired(before.contexts, launch, now) && exists|i: int|
                        0 <= i < index + 1 && #[trigger] names@[i]@ == launch)) by {
                    if launch == name@ {
                        assert(names@[index as int]@ == launch);
                    } else {
                        assert(earlier.contains_key(launch) == contexts@.contains_key(launch));
                        if exists|i: int| 0 <= i < index + 1 && #[trigger] names@[i]@ == launch {
                            let i = choose|i: int|
                                0 <= i < index + 1 && #[trigger] names@[i]@ == launch;
                            assert(i < index);
                        }
                    }
                }
                assert forall|i: int| 0 <= i < lost@.len() implies exists|k: int|
                    0 <= k < index + 1 && #[trigger] names@[k]@ == (
                    #[trigger] lost@[i]).launch@ by {
                    if i < earlier_lost.len() {
                        assert(lost@[i] == earlier_lost[i]);
                        let k = choose|k: int|
                            0 <= k < index && #[trigger] names@[k]@ == earlier_lost[i].launch@;
                        assert(names@[k]@ == lost@[i].launch@);
                    } else {
                        assert(names@[index as int]@ == lost@[i].launch@);
                    }
                }
                assert forall|k: int|
                    0 <= k < index + 1 && is_expired(before.contexts, #[trigger] names@[k]@, now)
                        && !before.contexts[names@[k]@].matched implies exists|i: int|
                    0 <= i < lost@.len() && (#[trigger] lost@[i]).launch@ == names@[k]@ by {
                    if k < index {
                        let i = choose|i: int|
                            0 <= i < earlier_lost.len() && (#[trigger] earlier_lost[i]).launch@
                                == names@[k]@;
                        assert(lost@[i] == earlier_lost[i]);
                    }
                }
            }
            index += 1;
        }
        self.contexts = contexts;
        self.client_launches = clients;
        self.surface_launches = surfaces;
        proof {
            assert forall|launch: Seq<char>| #[trigger]
                self.contexts@.contains_key(launch) == before.live(now).contexts.contains_key(
                    launch,
                ) by {
                if before.contexts.contains_key(launch) {
                    let i = choose|i: int|
                        0 <= i < names@.len() && #[trigger] names@[i]@ == launch;
                    assert(names@[i]@ == launch);
                }
            }
            assert(self.contexts@ =~= before.live(now).contexts);
            assert(self.client_launches@ =~= before.live(now).clients);
            assert forall|launch: Seq<char>| #[trigger]
                is_expired(before.contexts, launch, now)
                    && !before.contexts[launch].matched implies exists|i: int|
                0 <= i < lost@.len() && (#[trigger] lost@[i]).launch@ == launch by {
                let k = choose|k: int| 0 <= k < names@.len() && #[trigger] names@[k]@ == launch;
                assert(is_expired(before.contexts, names@[k]@, now));
            }
        }
        lost
    }

    /// The cluster of a launch that is known: a window of it has come.
    pub fn match_launch(&mut self, launch: &str) -> (cluster: Option<ClusterId>)
        ensures
            cluster == old(self).launches().cluster_of(launch@),
            final(self).launches() == old(self).launches().with_match(launch@),
            final(self).pending@ == old(self).pending@,
            final(self).next_launch == old(self).next_launch,
    {
        let context = match self.contexts.get(launch) {
            Some(context) => LaunchContext {
                cluster: context.cluster,
                command: context.command.clone(),
                expires_at: context.expires_at,
                matched: true,
            },
            None => {
                return None;
            },
        };
        let cluster = context.cluster;
        self.contexts.insert(launch.to_owned(), context);
        Some(cluster)
    }

    /// A client has shown that a surface comes from a launch.
    pub fn remember_activation(
        &mut self,
        surface: SurfaceId,
        client: Option<u64>,
        launch: &str,
        now: Duration,
    ) -> (found: (Option<ClusterId>, Vec<LostLaunch>))
        ensures
            are_lost(found.1@, old(self).contexts@, now),
            found.0 == old(self).launches().live(now).cluster_of(launch@),
            found.0 is None ==> final(self).launches() == old(self).launches().live(now),
            found.0 is Some ==> {
                let live = old(self).launches().live(now).with_match(launch@);
                let after = final(self).launches();
                &&& after.contexts == live.contexts
                &&& is_appended(after.surfaces, live.surfaces, surface, launch@)
                &&& match client {
                    Some(client) => is_noted(after.clients, live.clients, client, launch@),
                    None => after.clients == live.clients,
                }
            },
            final(self).pending@ == old(self).pending@,
            final(self).next_launch == old(self).next_launch,
    {
        let lost = self.expire(now);
        match self.match_launch(launch) {
            Some(cluster) => {
                let ghost live = self.launches();
                self.surface_launches.push(SurfaceLaunch { surface, launch: launch.to_owned() });
                assert(self.surface_launches@.drop_last() =~= live.surfaces);
                if let Some(client) = client {
                    self.client_launches.insert(client, launch.to_owned());
                    assert(self.client_launches@.remove(client) =~= live.clients.remove(client));
                }
                (Some(cluster), lost)
            },
            None => (None, lost),
        }
    }

    /// What the session itself knows of where a surface comes from. Where it knows
    /// nothing the process of the client is to be asked for its mark.
    pub fn cluster_for_wayland_surface(
        &mut self,
        surface: SurfaceId,
        client: Option<u64>,
        now: Duration,
    ) -> (found: (Attribution, Vec<LostLaunch>))
        ensures
            are_lost(found.1@, old(self).contexts@, now),
            ({
                let live = old(self).launches().live(now);
                match known_launch(live, surface, client) {
                    Some(launch) => found.0 == Attribution::Known(live.cluster_of(launch))
                        && final(self).launches() == live.with_match(launch),
                    None => found.0 == (match client {
                        Some(client) => Attribution::AskProcess(client),
                        None => Attribution::Known(None),
                    }) && final(self).launches() == live,
                }
            }),
            final(self).pending@ == old(self).pending@,
            final(self).next_launch == old(self).next_launch,
    {
        let lost = self.expire(now);
        let ghost live = self.launches();
        let launch = self.surface_launch(surface);
        if let Some(launch) = launch {
            return (Attribution::Known(self.match_launch(launch.as_str())), lost);
        }
        let client = match client {
            Some(client) => client,
            None => {
                return (Attribution::Known(None), lost);
            },
        };
        let launch = match self.client_launches.get(&client) {
            Some(launch) => launch.clone(),
            None => {
                return (Attribution::AskProcess(client), lost);
            },
        };
        (Attribution::Known(self.match_launch(launch.as_str())), lost)
    }

    fn surface_launch(&self, surface: SurfaceId) -> (launch: Option<String>)
        ensures
            text_of(launch) == launch_of_surface(self.surface_launches@, surface),
    {
        let mut index: usize = 0;
        assert(self.surface_launches@.skip(0) =~= self.surface_launches@);
        while index < self.surface_launches.len()
            invariant
                index <= self.surface_launches@.len(),
                launch_of_surface(self.surface_launches@, surface) == launch_of_surface(
                    self.surface_launches@.skip(index as int),
                    surface,
                ),
            decreases self.surface_launches@.len() - index,
        {
            proof {
                let rest = self.surface_launches@.skip(index as int);
                assert(rest[0] == self.surface_launches@[index as int]);
                assert(rest.drop_first() =~= self.surface_launches@.skip(index as int + 1));
            }
            if self.surface_launches[index].surface == surface {
                return Some(self.surface_launches[index].launch.clone());
            }
            index += 1;
        }
        None
    }

    /// The process of a client was asked, and may be marked.
    pub fn cluster_for_client_process(&mut self, client: u64, mark: Option<&str>) -> (cluster:
        Option<ClusterId>)
        ensures
            match mark {
                Some(launch) => {
                    let after = final(self).launches();
                    let before = old(self).launches();
                    &&& cluster == before.cluster_of(launch@)
                    &&& after.contexts == before.with_match(launch@).contexts
                    &&& after.surfaces == before.surfaces
                    &&& is_noted(after.clients, before.clients, client, launch@)
                },
                None => cluster is None && final(self).launches() == old(self).launches(),
            },
            final(self).pending@ == old(self).pending@,
            final(self).next_launch == old(self).next_launch,
    {
        match mark {
            Some(launch) => {
                let ghost before = self.client_launches@;
                self.client_launches.insert(client, launch.to_owned());
                assert(self.client_launches@.remove(client) =~= before.remove(client));
                self.match_launch(launch)
            },
            None => None,
        }
    }

    /// The cluster of a process that may be marked.
    pub fn cluster_for_pid(&mut self, mark: Option<&str>, now: Duration) -> (found: (
        Option<ClusterId>,
        Vec<LostLaunch>,
    ))
        ensures
            are_lost(found.1@, old(self).contexts@, now),
            ({
                let live = old(self).launches().live(now);
                match mark {
                    Some(launch) => found.0 == live.cluster_of(launch@) && final(self).launches()
                        == live.with_match(launch@),
                    None => found.0 is None && final(self).launches() == live,
                }
            }),
            final(self).pending@ == old(self).pending@,
            final(self).next_launch == old(self).next_launch,
    {
        let lost = self.expire(now);
        match mark {
            Some(launch) => (self.match_launch(launch), lost),
            None => (None, lost),
        }
    }
}

/// The surface is noted behind the others.
pub open spec fn is_appended(
    after: Seq<SurfaceLaunch>,
    before: Seq<SurfaceLaunch>,
    surface: SurfaceId,
    launch: Seq<char>,
) -> bool {
    &&& after.len() == before.len() + 1
    &&& after.drop_last() == before
    &&& after.last().surface == surface
    &&& after.last().launch@ == launch
}

/// The client is noted, and the others are as they were.
pub open spec fn is_noted(
    after: Map<u64, String>,
    before: Map<u64, String>,
    client: u64,
    launch: Seq<char>,
) -> bool {
    &&& after.contains_key(client)
    &&& after[client]@ == launch
    &&& after.remove(client) == before.remove(client)
}

/// What is known of where a window comes from.
#[derive(Clone, Copy, Debug, PartialEq, Eq, Structural)]
pub enum Attribution {
    /// It belongs to a cluster, or to none.
    Known(Option<ClusterId>),
    /// The process of the client may be marked.
    AskProcess(u64),
}

/// The launch that a surface is known to come from, or else its client.
pub open spec fn known_launch(
    launches: Launches,
    surface: SurfaceId,
    client: Option<u64>,
) -> Option<Seq<char>> {
    match launch_of_surface(launches.surfaces, surface) {
        Some(launch) => Some(launch),
        None => match client {
            Some(client) if launches.clients.contains_key(client) => Some(
                launches.clients[client]@,
            ),
            _ => None,
        },
    }
}

/// The layouts that a configuration may ask for.
#[derive(Clone, Copy, Debug, PartialEq, Eq, Structural)]
pub enum ClusterLayout {
    Tiling,
    Stacking,
}

/// The layout of a cluster that is made when the session starts.
pub fn startup_layout(declared: Option<ClusterLayout>, default_layout: ClusterLayout) -> (kind:
    ClusterWorkspaceLayoutKind)
    ensures
        kind == (match (match declared {
            Some(layout) => layout,
            None => default_layout,
        }) {
            ClusterLayout::Tiling => ClusterWorkspaceLayoutKind::Tiling,
            ClusterLayout::Stacking => ClusterWorkspaceLayoutKind::Stacking,
        }),
{
    let layout = match declared {
        Some(layout) => layout,
        None => default_layout,
    };
    match layout {
        ClusterLayout::Tiling => ClusterWorkspaceLayoutKind::Tiling,
        ClusterLayout::Stacking => ClusterWorkspaceLayoutKind::Stacking,
    }
}

/// Where a declared cluster goes: on an output, as one of so many.
#[derive(Debug)]
pub struct StartupPlacement {
    pub declaration: usize,
    pub output: String,
    pub index: usize,
    pub total: usize,
}

/// The output that a declaration asks for, or else the primary one.
pub open spec fn asked_output(declared: Option<String>, primary: Seq<char>) -> Seq<char> {
    match declared {
        Some(output) => output@,
        None => primary,
    }
}

pub open spec fn is_available(available: Seq<String>, name: Seq<char>) -> bool {
    exists|i: int| 0 <= i < available.len() && (#[trigger] available[i])@ == name
}

/// How many of the declarations go to an output.
pub open spec fn count_on(outputs: Seq<Option<String>>, primary: Seq<char>, name: Seq<char>) -> nat
    decreases outputs.len(),
{
    if outputs.len() == 0 {
        0
    } else {
        count_on(outputs.drop_last(), primary, name) + (if asked_output(outputs.last(), primary)
            == name {
            1nat
        } else {
            0
        })
    }
}

/// The declarations whose outputs there are.
pub open spec fn placeable(outputs: Seq<Option<String>>, primary: Seq<char>, available: Seq<String>)
    -> Seq<int>
    decreases outputs.len(),
{
    if outputs.len() == 0 {
        Seq::empty()
    } else {
        let before = placeable(outputs.drop_last(), primary, available);
        if is_available(available, asked_output(outputs.last(), primary)) {
            before.push(outputs.len() - 1)
        } else {
            before
        }
    }
}

/// The place of a declaration among those of its output.
pub open spec fn is_placed(
    placement: StartupPlacement,
    outputs: Seq<Option<String>>,
    primary: Seq<char>,
    declaration: int,
) -> bool {
    let name = asked_output(outputs[declaration], primary);
    &&& placement.declaration == declaration
    &&& placement.output@ == name
    &&& placement.index == count_on(outputs.take(declaration), primary, name)
    &&& placement.total == count_on(outputs, primary, name)
}

fn count_exec(outputs: &Vec<Option<String>>, end: usize, primary: &str, name: &str) -> (count:
    usize)
    requires
        end <= outputs@.len(),
    ensures
        count == count_on(outputs@.take(end as int), primary@, name@),
{
    let mut count: usize = 0;
    let mut index: usize = 0;
    while index < end
        invariant
            index <= end <= outputs@.len(),
            count <= index,
            count == count_on(outputs@.take(index as int), primary@, name@),
        decreases end - index,
    {
        proof {
            let longer = outputs@.take(index as int + 1);
            assert(longer.drop_last() =~= outputs@.take(index as int));
            assert(longer.last() == outputs@[index as int]);
        }
        let same = match &outputs[index] {
            Some(output) => same_text(output.as_str(), name),
            None => same_text(primary, name),
        };
        if same {
            count += 1;
        }
        index += 1;
    }
    count
}

fn available_exec(available: &Vec<String>, name: &str) -> (r: bool)
    ensures
        r == is_available(available@, name@),
{
    let mut index: usize = 0;
    while index < available.len()
        invariant
            index <= available@.len(),
            forall|i: int| 0 <= i < index ==> (#[trigger] available@[i])@ != name@,
        decreases available@.len() - index,
    {
        if same_text(available[index].as_str(), name) {
            assert(available@[index as int]@ == name@);
            return true;
        }
        index += 1;
    }
    false
}

/// Where the clusters that are declared go. Those whose outputs there are not are left
/// out. `outputs` holds what each declaration asks for.
pub fn place_startup_clusters(
    outputs: &Vec<Option<String>>,
    primary: &str,
    available: &Vec<String>,
) -> (placements: Vec<StartupPlacement>)
    ensures
        ({
            let placed = placeable(outputs@, primary@, available@);
            &&& placements@.len() == placed.len()
            &&& forall|i: int|
                0 <= i < placed.len() ==> is_placed(
                    #[trigger] placements@[i],
                    outputs@,
                    primary@,
                    placed[i],
                )
        }),
{
    let mut placements: Vec<StartupPlacement> = Vec::new();
    let mut index: usize = 0;
    while index < outputs.len()
        invariant
            index <= outputs@.len(),
            placements@.len() == placeable(
                outputs@.take(index as int),
                primary@,
                available@,
            ).len(),
            forall|i: int|
                0 <= i < placements@.len() ==> is_placed(
                    #[trigger] placements@[i],
                    outputs@,
                    primary@,
                    placeable(outputs@.take(index as int), primary@, available@)[i],
                ),
        decreases outputs@.len() - index,
    {
        proof {
            let longer = outputs@.take(index as int + 1);
            assert(longer.drop_last() =~= outputs@.take(index as int));
            assert(longer.last() == outputs@[index as int]);
            assert(outputs@.take(outputs@.len() as int) =~= outputs@);
        }
        let output = match &outputs[index] {
            Some(output) => output.clone(),
            None => primary.to_owned(),
        };
        if available_exec(available, output.as_str()) {
            let rank: usize = count_exec(outputs, index, primary, output.as_str());
            let total: usize = count_exec(outputs, outputs.len(), primary, output.as_str());
            placements.push(StartupPlacement { declaration: index, output, index: rank, total });
        }
        index += 1;
    }
    assert(outputs@.take(index as int) =~= outputs@);
    placements
}

/// How far a core is from the middle of its output, in pixels: the cores of an output
/// stand in a row around the middle.
pub open spec fn offset_of(index: int, total: int) -> int {
    (2 * index - (if total > 0 {
        total - 1
    } else {
        0
    })) * 46
}

/// How far a core is from the middle of its output, in pixels.
pub fn startup_offset(index: u32, total: u32) -> (offset: i64)
    ensures
        offset == offset_of(index as int, total as int),
{
    let others: i64 = if total > 0 {
        total as i64 - 1
    } else {
        0
    };
    (2 * index as i64 - others) * 46
}

/// The process of a launch, marked with its name.
pub fn startup_launch(
    launch: &PendingLaunch,
    launch_id: &str,
    token: &str,
    wayland_display: &str,
    x11_display: Option<&str>,
    cursor_size: u8,
    environment: &LaunchEnvironment,
) -> (spec: LaunchSpec)
    ensures
        spec.program@ == "sh"@,
        texts(spec.args@) == seq!["-c"@, launch.command@],
        changes_of(spec.environment@) == launch_environment(
            environment@,
            wayland_display@,
            str_of(x11_display),
            cursor_size as nat,
            marks(token@, launch_id@),
        ),
        spec.detachment == Detachment::Fork,
{
    let mut extra: Vec<Assignment> = Vec::new();
    extra.push(Assignment { name: "XDG_ACTIVATION_TOKEN".to_owned(), value: token.to_owned() });
    extra.push(Assignment { name: LAUNCH_ID_ENV.to_owned(), value: launch_id.to_owned() });
    proof {
        let first = extra@.drop_last();
        assert(first.drop_last() =~= Seq::<Assignment>::empty());
        assert(assigned(first.drop_last()) =~= Map::empty());
        assert(assigned(first) =~= Map::<Seq<char>, Seq<char>>::empty().insert(
            "XDG_ACTIVATION_TOKEN"@,
            token@,
        ));
        assert(assigned(extra@) =~= marks(token@, launch_id@));
    }
    configured_process(
        launch.command.as_str(),
        wayland_display,
        x11_display,
        cursor_size,
        environment,
        &extra,
        Detachment::Fork,
    )
}

/// What a launch adds to the environment of its process.
pub open spec fn marks(token: Seq<char>, launch_id: Seq<char>) -> Map<Seq<char>, Seq<char>> {
    Map::<Seq<char>, Seq<char>>::empty().insert("XDG_ACTIVATION_TOKEN"@, token).insert(
        LAUNCH_ID_ENV@,
        launch_id,
    )
}

proof fn parts_are_apart(a: Seq<char>, x: Seq<char>, b: Seq<char>, y: Seq<char>)
    requires
        a + "-"@ + x == b + "-"@ + y,
        forall|i: int| 0 <= i < a.len() ==> #[trigger] a[i] != '-',
        forall|i: int| 0 <= i < b.len() ==> #[trigger] b[i] != '-',
    ensures
        a == b,
        x == y,
{
    reveal_strlit("-");
    let left = a + "-"@ + x;
    let right = b + "-"@ + y;
    assert(left[a.len() as int] == '-');
    assert(right[b.len() as int] == '-');
    if a.len() < b.len() {
        assert(right[a.len() as int] == b[a.len() as int]);
    } else if b.len() < a.len() {
        assert(left[b.len() as int] == a[b.len() as int]);
    }
    assert forall|i: int| 0 <= i < a.len() implies a[i] == b[i] by {
        assert(left[i] == a[i] && right[i] == b[i]);
    }
    assert(a =~= b);
    assert(left.len() == a.len() + 1 + x.len());
    assert(right.len() == b.len() + 1 + y.len());
    assert forall|i: int| 0 <= i < x.len() implies x[i] == y[i] by {
        assert(left[a.len() + 1 + i] == x[i] && right[a.len() + 1 + i] == y[i]);
    }
    assert(x =~= y);
}

/// Launches have names of their own: no two that differ in process, time or number share
/// one.
pub proof fn launch_names_differ(
    pid: nat,
    nanos: nat,
    number: nat,
    other_pid: nat,
    other_nanos: nat,
    other_number: nat,
)
    requires
        launch_name(pid, nanos, number) == launch_name(other_pid, other_nanos, other_number),
    ensures
        pid == other_pid,
        nanos == other_nanos,
        number == other_number,
{
    crate::text::decimal_has_digits(pid);
    crate::text::decimal_has_digits(other_pid);
    crate::text::decimal_has_digits(nanos);
    crate::text::decimal_has_digits(other_nanos);
    let rest = decimal_of(nanos) + "-"@ + decimal_of(number);
    let other_rest = decimal_of(other_nanos) + "-"@ + decimal_of(other_number);
    assert(launch_name(pid, nanos, number) =~= decimal_of(pid) + "-"@ + rest);
    assert(launch_name(other_pid, other_nanos, other_number) =~= decimal_of(other_pid) + "-"@
        + other_rest);
    parts_are_apart(decimal_of(pid), rest, decimal_of(other_pid), other_rest);
    parts_are_apart(
        decimal_of(nanos),
        decimal_of(number),
        decimal_of(other_nanos),
        decimal_of(other_number),
    );
    crate::text::decimal_is_injective(pid, other_pid);
    crate::text::decimal_is_injective(nanos, other_nanos);
    crate::text::decimal_is_injective(number, other_number);
}

/// A launch whose time is over claims nothing any more: neither its own name nor a surface
/// or client that was put down to it leads to a cluster.
pub proof fn expired_launches_claim_nothing(
    launches: Launches,
    launch: Seq<char>,
    surface: SurfaceId,
    client: u64,
    now: Duration,
)
    requires
        is_expired(launches.contexts, launch, now),
    ensures
        launches.live(now).cluster_of(launch) is None,
        launch_of_surface(launches.live(now).surfaces, surface) != Some(launch),
        launches.live(now).clients.contains_key(client)
            ==> launches.live(now).clients[client]@ != launch,
{
    live_surfaces_are_live(launches.surfaces, launches.contexts, surface, now);
}

proof fn live_surfaces_are_live(
    surfaces: Seq<SurfaceLaunch>,
    contexts: Map<Seq<char>, LaunchContext>,
    surface: SurfaceId,
    now: Duration,
)
    ensures
        forall|i: int|
            0 <= i < live_surfaces(surfaces, contexts, now).len() ==> !is_expired(
                contexts,
                (#[trigger] live_surfaces(surfaces, contexts, now)[i]).launch@,
                now,
            ),
        match launch_of_surface(live_surfaces(surfaces, contexts, now), surface) {
            Some(launch) => !is_expired(contexts, launch, now),
            None => true,
        },
    decreases surfaces.len(),
{
    if surfaces.len() > 0 {
        live_surfaces_are_live(surfaces.drop_last(), contexts, surface, now);
    }
    first_is_listed(live_surfaces(surfaces, contexts, now), surface);
}

proof fn first_is_listed(surfaces: Seq<SurfaceLaunch>, surface: SurfaceId)
    ensures
        match launch_of_surface(surfaces, surface) {
            Some(launch) => exists|i: int|
                0 <= i < surfaces.len() && (#[trigger] surfaces[i]).launch@ == launch,
            None => true,
        },
    decreases surfaces.len(),
{
    if surfaces.len() > 0 && surfaces[0].surface != surface {
        let rest = surfaces.drop_first();
        first_is_listed(rest, surface);
        if let Some(launch) = launch_of_surface(rest, surface) {
            let i = choose|i: int| 0 <= i < rest.len() && (#[trigger] rest[i]).launch@ == launch;
            assert(surfaces[i + 1] == rest[i]);
        }
    } else if surfaces.len() > 0 {
        assert(surfaces[0].launch@ == surfaces[0].launch@);
    }
}

/// Before its time is over a launch leads to its cluster, and what happens to other
/// launches does not change that.
pub proof fn live_launches_are_kept(
    launches: Launches,
    launch: Seq<char>,
    other: Seq<char>,
    now: Duration,
)
    requires
        launches.contexts.contains_key(launch),
        now.nanos < launches.contexts[launch].expires_at.nanos,
    ensures
        launches.live(now).cluster_of(launch) == Some(launches.contexts[launch].cluster),
        launches.live(now).with_match(other).cluster_of(launch) == Some(
            launches.contexts[launch].cluster,
        ),
{
}

/// The cores of an output stand evenly on both sides of its middle.
pub proof fn offsets_are_even(index: int, total: int)
    requires
        0 <= index < total,
    ensures
        offset_of(index, total) == -offset_of(total - 1 - index, total),
        offset_of(index + 1, total) - offset_of(index, total) == 92,
{
}

/// A launch is over from the moment that its time ends, not before, and only one that is
/// known is ever over. It waits fifteen seconds.
pub proof fn launches_end_on_time(
    contexts: Map<Seq<char>, LaunchContext>,
    launch: Seq<char>,
    now: Duration,
)
    ensures
        contexts.contains_key(launch) ==> (is_expired(contexts, launch, now)
            <==> contexts[launch].expires_at.nanos <= now.nanos),
        !contexts.contains_key(launch) ==> !is_expired(contexts, launch, now),
        LAUNCH_CONTEXT_SECONDS == 15,
{
}

/// What is put down to launches that are not over is kept as it is.
pub proof fn what_is_not_over_is_kept(
    launches: Launches,
    launch: Seq<char>,
    client: u64,
    now: Duration,
)
    ensures
        launches.live(now).contexts.contains_key(launch) <==> launches.contexts.contains_key(launch)
            && now.nanos < launches.contexts[launch].expires_at.nanos,
        launches.live(now).contexts.contains_key(launch) ==> launches.live(now).contexts[launch]
            == launches.contexts[launch],
        launches.live(now).clients.contains_key(client) ==> launches.clients.contains_key(client)
            && launches.live(now).clients[client] == launches.clients[client],
        launches.clients.contains_key(client) && !is_expired(
            launches.contexts,
            launches.clients[client]@,
            now,
        ) ==> launches.live(now).clients.contains_key(client),
{
}

/// The surfaces of launches that are not over stay, in their order.
pub proof fn surfaces_of_live_launches_stay(
    surfaces: Seq<SurfaceLaunch>,
    last: SurfaceLaunch,
    contexts: Map<Seq<char>, LaunchContext>,
    now: Duration,
)
    ensures
        live_surfaces(Seq::<SurfaceLaunch>::empty(), contexts, now).len() == 0,
        is_expired(contexts, last.launch@, now) ==> live_surfaces(
            surfaces.push(last),
            contexts,
            now,
        ) == live_surfaces(surfaces, contexts, now),
        !is_expired(contexts, last.launch@, now) ==> live_surfaces(
            surfaces.push(last),
            contexts,
            now,
        ) == live_surfaces(surfaces, contexts, now).push(last),
{
    assert(surfaces.push(last).drop_last() =~= surfaces);
}

/// A launch leads to the cluster that it was started for. That a window of it has come is
/// noted of that launch alone, and changes neither its cluster nor its time.
pub proof fn launches_lead_to_their_cluster(launches: Launches, launch: Seq<char>, other: Seq<char>)
    requires
        other != launch,
        launches.contexts.contains_key(launch),
    ensures
        launches.cluster_of(launch) == Some(launches.contexts[launch].cluster),
        launches.with_match(launch).contexts[launch].matched,
        launches.with_match(launch).contexts[launch].cluster == launches.contexts[launch].cluster,
        launches.with_match(launch).contexts[launch].expires_at
            == launches.contexts[launch].expires_at,
        launches.with_match(launch).contexts[launch].command == launches.contexts[launch].command,
        launches.with_match(launch).contexts.contains_key(other)
            <==> launches.contexts.contains_key(other),
        launches.contexts.contains_key(other) ==> launches.with_match(launch).contexts[other]
            == launches.contexts[other],
        launches.with_match(launch).clients == launches.clients,
        launches.with_match(launch).surfaces == launches.surfaces,
        !launches.contexts.contains_key(other) ==> launches.cluster_of(other) is None
            && launches.with_match(other) == launches,
{
}

/// What a surface itself has shown counts before what its client has.
pub proof fn surfaces_are_asked_before_clients(
    launches: Launches,
    surface: SurfaceId,
    client: u64,
    i: int,
)
    ensures
        0 <= i < launches.surfaces.len() && launches.surfaces[i].surface == surface && (forall|
            j: int,
        |
            0 <= j < i ==> (#[trigger] launches.surfaces[j]).surface != surface) ==> known_launch(
            launches,
            surface,
            Some(client),
        ) == Some(launches.surfaces[i].launch@),
        (forall|j: int|
            0 <= j < launches.surfaces.len() ==> (#[trigger] launches.surfaces[j]).surface
                != surface) ==> {
            &&& launches.clients.contains_key(client) ==> known_launch(
                launches,
                surface,
                Some(client),
            ) == Some(launches.clients[client]@)
            &&& !launches.clients.contains_key(client) ==> known_launch(
                launches,
                surface,
                Some(client),
            ) is None
            &&& known_launch(launches, surface, None) is None
        },
{
    lemma_first_surface(launches.surfaces, surface, i);
}

proof fn lemma_first_surface(surfaces: Seq<SurfaceLaunch>, surface: SurfaceId, i: int)
    ensures
        0 <= i < surfaces.len() && surfaces[i].surface == surface && (forall|j: int|
            0 <= j < i ==> (#[trigger] surfaces[j]).surface != surface) ==> launch_of_surface(
            surfaces,
            surface,
        ) == Some(surfaces[i].launch@),
        (forall|j: int|
            0 <= j < surfaces.len() ==> (#[trigger] surfaces[j]).surface != surface)
            ==> launch_of_surface(surfaces, surface) is None,
    decreases surfaces.len(),
{
    if surfaces.len() > 0 {
        let rest = surfaces.drop_first();
        lemma_first_surface(rest, surface, i - 1);
        assert forall|j: int| 0 <= j < rest.len() implies rest[j] == #[trigger] surfaces[j + 1] by {}
        if forall|j: int| 0 <= j < surfaces.len() ==> (#[trigger] surfaces[j]).surface != surface {
            assert(surfaces[0].surface != surface);
            assert forall|j: int| 0 <= j < rest.len() implies (#[trigger] rest[j]).surface
                != surface by {
                assert(rest[j] == surfaces[j + 1]);
            }
        }
        if 0 < i < surfaces.len() && surfaces[i].surface == surface && (forall|j: int|
            0 <= j < i ==> (#[trigger] surfaces[j]).surface != surface) {
            assert(surfaces[0].surface != surface);
            assert(rest[i - 1] == surfaces[i]);
            assert forall|j: int| 0 <= j < i - 1 implies (#[trigger] rest[j]).surface
                != surface by {
                assert(rest[j] == surfaces[j + 1]);
            }
        }
    }
}

/// A declaration is for the output that it names, or else for the primary one, and is placed
/// exactly where there is that output.
pub proof fn declarations_are_placed_on_their_output(
    outputs: Seq<Option<String>>,
    last: Option<String>,
    primary: Seq<char>,
    available: Seq<String>,
    name: Seq<char>,
)
    ensures
        last matches Some(output) ==> asked_output(last, primary) == output@,
        last is None ==> asked_output(last, primary) == primary,
        placeable(Seq::<Option<String>>::empty(), primary, available).len() == 0,
        (exists|i: int|
            0 <= i < available.len() && (#[trigger] available[i])@ == asked_output(last, primary))
            ==> placeable(outputs.push(last), primary, available) == placeable(
            outputs,
            primary,
            available,
        ).push(outputs.len() as int),
        (forall|i: int|
            0 <= i < available.len() ==> (#[trigger] available[i])@ != asked_output(last, primary))
            ==> placeable(outputs.push(last), primary, available) == placeable(
            outputs,
            primary,
            available,
        ),
        count_on(Seq::<Option<String>>::empty(), primary, name) == 0,
        asked_output(last, primary) == name ==> count_on(outputs.push(last), primary, name)
            == count_on(outputs, primary, name) + 1,
        asked_output(last, primary) != name ==> count_on(outputs.push(last), primary, name)
            == count_on(outputs, primary, name),
{
    assert(outputs.push(last).drop_last() =~= outputs);
}

/// A cluster stands on the output that its declaration asks for, after those declared before
/// it there, and is one of them.
pub proof fn clusters_stand_in_the_order_of_their_declarations(
    placement: StartupPlacement,
    outputs: Seq<Option<String>>,
    primary: Seq<char>,
    declaration: int,
)
    requires
        0 <= declaration < outputs.len(),
        is_placed(placement, outputs, primary, declaration),
    ensures
        placement.declaration == declaration,
        outputs[declaration] matches Some(output) ==> placement.output@ == output@,
        outputs[declaration] is None ==> placement.output@ == primary,
        placement.index == count_on(outputs.take(declaration), primary, placement.output@),
        placement.index < placement.total,
        placement.total <= outputs.len(),
{
    lemma_count_grows(outputs, primary, placement.output@, declaration);
}

proof fn lemma_count_grows(
    outputs: Seq<Option<String>>,
    primary: Seq<char>,
    name: Seq<char>,
    i: int,
)
    requires
        0 <= i < outputs.len(),
        asked_output(outputs[i], primary) == name,
    ensures
        count_on(outputs.take(i), primary, name) < count_on(outputs, primary, name)
            <= outputs.len(),
    decreases outputs.len(),
{
    let shorter = outputs.drop_last();
    lemma_count_bound(outputs, primary, name);
    if i == outputs.len() - 1 {
        assert(outputs.take(i) =~= shorter);
    } else {
        assert(shorter[i] == outputs[i]);
        assert(shorter.take(i) =~= outputs.take(i));
        lemma_count_grows(shorter, primary, name, i);
    }
}

proof fn lemma_count_bound(outputs: Seq<Option<String>>, primary: Seq<char>, name: Seq<char>)
    ensures
        count_on(outputs, primary, name) <= outputs.len(),
    decreases outputs.len(),
{
    if outputs.len() > 0 {
        lemma_count_bound(outputs.drop_last(), primary, name);
    }
}

/// One core alone stands in the middle, and the cores of an output go from left to right.
pub proof fn cores_stand_around_the_middle(index: int, total: int)
    ensures
        offset_of(0, 1) == 0,
        offset_of(0, 2) == -46,
        offset_of(1, 2) == 46,
        offset_of(index + 1, total) > offset_of(index, total),
{
}

/// A launch hands its process the token that it is activated with, and its own name.
pub proof fn launches_mark_their_process(token: Seq<char>, launch: Seq<char>, name: Seq<char>)
    ensures
        marks(token, launch)[LAUNCH_ID_ENV@] == launch,
        marks(token, launch).contains_key(LAUNCH_ID_ENV@),
        marks(token, launch).contains_key("XDG_ACTIVATION_TOKEN"@),
        "XDG_ACTIVATION_TOKEN"@ != LAUNCH_ID_ENV@ ==> marks(token, launch)["XDG_ACTIVATION_TOKEN"@]
            == token,
        name != "XDG_ACTIVATION_TOKEN"@ && name != LAUNCH_ID_ENV@ ==> !marks(
            token,
            launch,
        ).contains_key(name),
{
}

/// A surface that is noted leads to its launch unless it was noted before, and no other
/// surface is touched.
pub proof fn noted_surfaces_lead_to_their_launch(
    after: Seq<SurfaceLaunch>,
    before: Seq<SurfaceLaunch>,
    surface: SurfaceId,
    launch: Seq<char>,
    i: int,
)
    requires
        is_appended(after, before, surface, launch),
    ensures
        after.len() == before.len() + 1,
        0 <= i < before.len() ==> after[i] == before[i],
        after[before.len() as int].surface == surface,
        after[before.len() as int].launch@ == launch,
{
    if 0 <= i < before.len() {
        assert(after.drop_last()[i] == before[i]);
    }
}

/// A client that is noted leads to its launch, and no other client is touched.
pub proof fn noted_clients_lead_to_their_launch(
    after: Map<u64, String>,
    before: Map<u64, String>,
    client: u64,
    other: u64,
    launch: Seq<char>,
)
    requires
        is_noted(after, before, client, launch),
        other != client,
    ensures
        after.contains_key(client),
        after[client]@ == launch,
        after.contains_key(other) <==> before.contains_key(other),
        before.contains_key(other) ==> after[other] == before[other],
{
    assert(after.remove(client).contains_key(other) == before.remove(client).contains_key(other));
    assert(after.remove(client)[other] == before.remove(client)[other]);
}

/// A launch is lost exactly where its time has ended and no window of it has come; it is told
/// of once, with its own command.
pub proof fn lost_launches_are_told_of_once(
    lost: Seq<LostLaunch>,
    contexts: Map<Seq<char>, LaunchContext>,
    now: Duration,
    launch: Seq<char>,
    i: int,
    j: int,
)
    requires
        are_lost(lost, contexts, now),
        0 <= i < lost.len(),
        0 <= j < lost.len(),
    ensures
        contexts.contains_key(lost[i].launch@),
        contexts[lost[i].launch@].expires_at.nanos <= now.nanos,
        !contexts[lost[i].launch@].matched,
        lost[i].command == contexts[lost[i].launch@].command,
        lost[i].launch@ == lost[j].launch@ ==> i == j,
        contexts.contains_key(launch) && contexts[launch].expires_at.nanos <= now.nanos
            && !contexts[launch].matched ==> exists|k: int|
            0 <= k < lost.len() && (#[trigger] lost[k]).launch@ == launch,
{
    assert(is_expired(contexts, lost[i].launch@, now));
    if contexts.contains_key(launch) && contexts[launch].expires_at.nanos <= now.nanos
        && !contexts[launch].matched {
        assert(is_expired(contexts, launch, now));
    }
}

/// A cluster has the layout that it asks for, and without one the default; each under its name.
pub proof fn clusters_have_the_layout_they_ask_for(declared: ClusterLayout, default_layout: ClusterLayout, asked: ClusterWorkspaceLayoutKind, default_kind: ClusterWorkspaceLayoutKind)
    requires
        call_ensures(startup_layout, (Some(declared), default_layout), asked),
        call_ensures(startup_layout, (None, default_layout), default_kind),
    ensures
        asked is Tiling <==> declared is Tiling,
        asked is Stacking <==> declared is Stacking,
        default_kind is Tiling <==> default_layout is Tiling,
        default_kind is Stacking <==> default_layout is Stacking,
{
}

} // verus!
