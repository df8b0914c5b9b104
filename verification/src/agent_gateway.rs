//! The agent gateway: the registry of connected agents, one per host, and
//! the decisions of an agent's connection from its first message to its
//! end.
use vstd::prelude::*;

use dashmap::DashMap;

verus! {

#[derive(Debug, Clone, PartialEq, Eq)]
pub enum AgentSendError {
    Offline,
    QueueClosed,
    DeliveryClosed,
    DeliveryFailed(String),
}

/// A connected agent: its connection, agent id and host, and when it
/// connected and last beat, in milliseconds of a monotonic clock.
#[derive(Debug, Clone)]
pub struct AgentPresence {
    pub connection_id: u128,
    pub agent_id: String,
    pub host_id: i64,
    pub connected_at_ms: u64,
    pub last_heartbeat_at_ms: u64,
}

/// An agent presence taken by value.
pub struct AgentPresenceView {
    pub connection_id: u128,
    pub agent_id: Seq<char>,
    pub host_id: i64,
    pub connected_at_ms: u64,
    pub last_heartbeat_at_ms: u64,
}

impl View for AgentPresence {
    type V = AgentPresenceView;

    open spec fn view(&self) -> AgentPresenceView {
        AgentPresenceView {
            connection_id: self.connection_id,
            agent_id: self.agent_id@,
            host_id: self.host_id,
            connected_at_ms: self.connected_at_ms,
            last_heartbeat_at_ms: self.last_heartbeat_at_ms,
        }
    }
}

#[verifier::external_type_specification]
#[verifier::external_body]
#[verifier::reject_recursive_types(K)]
#[verifier::reject_recursive_types(V)]
#[verifier::reject_recursive_types(S)]
pub struct ExDashMap<K, V, S>(DashMap<K, V, S>);

/// The presences that a registry map holds, by host.
pub uninterp spec fn presences(m: DashMap<i64, AgentPresence>) -> Map<i64, AgentPresenceView>;

/// Calls `DashMap::new`: the map starts empty.
#[verifier::external_body]
fn presence_map_new() -> (r: DashMap<i64, AgentPresence>)
    ensures
        presences(r) =~= Map::empty(),
{
    DashMap::new()
}

/// Calls `DashMap::insert`: the host's entry becomes `presence`, replacing
/// any earlier one.
#[verifier::external_body]
fn presence_map_insert(m: &mut DashMap<i64, AgentPresence>, host_id: i64, presence: AgentPresence)
    ensures
        presences(*final(m)) == presences(*old(m)).insert(host_id, presence@),
{
    m.insert(host_id, presence);
}

/// Calls `DashMap::get` and copies the host's entry out of its guard.
#[verifier::external_body]
fn presence_map_get(m: &DashMap<i64, AgentPresence>, host_id: i64) -> (r: Option<AgentPresence>)
    ensures
        r is Some <==> presences(*m).contains_key(host_id),
        r is Some ==> r->0@ == presences(*m)[host_id],
{
    m.get(&host_id).map(|entry| entry.value().clone())
}

/// Calls `DashMap::remove`: the host's entry is gone.
#[verifier::external_body]
fn presence_map_remove(m: &mut DashMap<i64, AgentPresence>, host_id: i64)
    ensures
        presences(*final(m)) == presences(*old(m)).remove(host_id),
{
    m.remove(&host_id);
}

/// Calls `DashMap::contains_key`.
#[verifier::external_body]
fn presence_map_contains(m: &DashMap<i64, AgentPresence>, host_id: i64) -> (r: bool)
    ensures
        r == presences(*m).contains_key(host_id),
{
    m.contains_key(&host_id)
}

/// Calls `DashMap::len`: the number of entries.
#[verifier::external_body]
fn presence_map_len(m: &DashMap<i64, AgentPresence>) -> (r: usize)
    ensures
        r == presences(*m).dom().len(),
{
    m.len()
}

/// Calls `DashMap::iter` and lists each entry's host, connection and last
/// heartbeat, in the map's own order: each entry once.
#[verifier::external_body]
fn presence_map_snapshot(m: &DashMap<i64, AgentPresence>) -> (r: Vec<(i64, u128, u64)>)
    ensures
        forall|i: int, j: int| 0 <= i < j < r@.len() ==> r@[i].0 != r@[j].0,
        forall|i: int|
            0 <= i < r@.len() ==> presences(*m).contains_key((#[trigger] r@[i]).0) && presences(
                *m,
            )[r@[i].0].connection_id == r@[i].1 && presences(*m)[r@[i].0].last_heartbeat_at_ms
                == r@[i].2,
        forall|h: i64|
            #[trigger] presences(*m).contains_key(h) ==> exists|i: int|
                0 <= i < r@.len() && r@[i].0 == h,
{
    m.iter().map(|entry| (*entry.key(), entry.connection_id, entry.last_heartbeat_at_ms)).collect()
}

/// The connected agents, at most one per host.
pub struct AgentRegistry {
    inner: DashMap<i64, AgentPresence>,
}

/// Whether a presence has not beaten for `timeout_ms` at `now_ms`.
pub open spec fn is_stale(last_heartbeat_at_ms: u64, now_ms: u64, timeout_ms: u64) -> bool {
    if now_ms >= last_heartbeat_at_ms {
        now_ms - last_heartbeat_at_ms >= timeout_ms
    } else {
        timeout_ms == 0
    }
}

/// Whether `connection_id` is the current connection of the host's agent.
pub open spec fn is_current_connection(
    agents: Map<i64, AgentPresenceView>,
    host_id: i64,
    connection_id: u128,
) -> bool {
    agents.contains_key(host_id) && agents[host_id].connection_id == connection_id
}

/// The agents after `presence` registered: it replaces any earlier
/// connection of its host.
pub open spec fn registered(
    agents: Map<i64, AgentPresenceView>,
    presence: AgentPresenceView,
) -> Map<i64, AgentPresenceView> {
    agents.insert(presence.host_id, presence)
}

/// The agents after the host's agent beat at `now_ms`.
pub open spec fn with_heartbeat(
    agents: Map<i64, AgentPresenceView>,
    host_id: i64,
    now_ms: u64,
) -> Map<i64, AgentPresenceView> {
    agents.insert(host_id, AgentPresenceView { last_heartbeat_at_ms: now_ms, ..agents[host_id] })
}

impl AgentRegistry {
    /// The agents that the registry holds, by host.
    pub closed spec fn agents(&self) -> Map<i64, AgentPresenceView> {
        presences(self.inner)
    }

    /// An empty registry.
    pub fn new() -> (r: Self)
        ensures
            r.agents() == Map::<i64, AgentPresenceView>::empty(),
    {
        AgentRegistry { inner: presence_map_new() }
    }

    /// Registers an agent for its host; a newer connection of the same host
    /// replaces the older one.
    pub fn register(&mut self, presence: AgentPresence)
        ensures
            final(self).agents() == registered(old(self).agents(), presence@),
    {
        let host_id = presence.host_id;
        presence_map_insert(&mut self.inner, host_id, presence);
    }

    /// Records a heartbeat of a connection: only the host's current
    /// connection beats; `false` for a stale or unknown connection.
    pub fn heartbeat(&mut self, host_id: i64, connection_id: u128, now_ms: u64) -> (r: bool)
        ensures
            r == is_current_connection(old(self).agents(), host_id, connection_id),
            r ==> final(self).agents() == with_heartbeat(old(self).agents(), host_id, now_ms),
            !r ==> final(self).agents() == old(self).agents(),
    {
        match presence_map_get(&self.inner, host_id) {
            Some(presence) => {
                if presence.connection_id != connection_id {
                    return false;
                }
                let mut updated = presence;
                updated.last_heartbeat_at_ms = now_ms;
                presence_map_insert(&mut self.inner, host_id, updated);
                true
            },
            None => false,
        }
    }

    /// Removes the host's agent if `connection_id` is its current
    /// connection; an older connection never removes a newer one.
    pub fn remove_if_current(&mut self, host_id: i64, connection_id: u128) -> (r: bool)
        ensures
            r == is_current_connection(old(self).agents(), host_id, connection_id),
            r ==> final(self).agents() == old(self).agents().remove(host_id),
            !r ==> final(self).agents() == old(self).agents(),
    {
        match presence_map_get(&self.inner, host_id) {
            Some(presence) => {
                if presence.connection_id != connection_id {
                    return false;
                }
                presence_map_remove(&mut self.inner, host_id);
                true
            },
            None => false,
        }
    }

    /// The current connection of the host's agent, if it is connected.
    pub fn current_connection(&self, host_id: i64) -> (r: Option<u128>)
        ensures
            r is Some <==> self.agents().contains_key(host_id),
            r is Some ==> r->0 == self.agents()[host_id].connection_id,
    {
        match presence_map_get(&self.inner, host_id) {
            Some(presence) => Some(presence.connection_id),
            None => None,
        }
    }

    /// Whether the host has a connected agent.
    pub fn is_online(&self, host_id: i64) -> (r: bool)
        ensures
            r == self.agents().contains_key(host_id),
    {
        presence_map_contains(&self.inner, host_id)
    }

    /// The number of connected agents.
    pub fn connection_count(&self) -> (r: usize)
        ensures
            r == self.agents().dom().len(),
    {
        presence_map_len(&self.inner)
    }

    /// Removes every agent that has not beaten for `timeout_ms` at `now_ms`
    /// and returns their hosts, each once.
    pub fn remove_stale(&mut self, timeout_ms: u64, now_ms: u64) -> (r: Vec<i64>)
        ensures
            forall|i: int, j: int| 0 <= i < j < r@.len() ==> r@[i] != r@[j],
            forall|h: i64|
                r@.contains(h) <==> (old(self).agents().contains_key(h) && is_stale(
                    old(self).agents()[h].last_heartbeat_at_ms,
                    now_ms,
                    timeout_ms,
                )),
            forall|h: i64|
                #[trigger] final(self).agents().contains_key(h) <==> (old(self).agents().contains_key(h) && !r@.contains(h)),
            forall|h: i64|
                #[trigger] final(self).agents().contains_key(h) ==> final(self).agents()[h]
                    == old(self).agents()[h],
    {
        let ghost start = self.agents();
        let snapshot = presence_map_snapshot(&self.inner);
        let mut removed: Vec<i64> = Vec::new();
        let mut i: usize = 0;
        while i < snapshot.len()
            invariant
                i <= snapshot@.len(),
                forall|a: int, b: int| 0 <= a < b < snapshot@.len() ==> snapshot@[a].0 != snapshot@[b].0,
                forall|a: int|
                    0 <= a < snapshot@.len() ==> start.contains_key((#[trigger] snapshot@[a]).0)
                        && start[snapshot@[a].0].connection_id == snapshot@[a].1
                        && start[snapshot@[a].0].last_heartbeat_at_ms == snapshot@[a].2,
                forall|h: i64|
                    #[trigger] start.contains_key(h) ==> exists|a: int|
                        0 <= a < snapshot@.len() && snapshot@[a].0 == h,
                forall|a: int, b: int| 0 <= a < b < removed@.len() ==> removed@[a] != removed@[b],
                forall|h: i64|
                    removed@.contains(h) <==> exists|a: int|
                        0 <= a < i && snapshot@[a].0 == h && is_stale(
                            snapshot@[a].2,
                            now_ms,
                            timeout_ms,
                        ),
                forall|h: i64|
                    #[trigger] self.agents().contains_key(h) <==> (start.contains_key(h)
                        && !removed@.contains(h)),
                forall|h: i64|
                    #[trigger] self.agents().contains_key(h) ==> self.agents()[h] == start[h],
                forall|a: int|
                    i <= a < snapshot@.len() ==> !removed@.contains(#[trigger] snapshot@[a].0),
            decreases snapshot.len() - i,
        {
            let (host_id, connection_id, last) = snapshot[i];
            let stale = if now_ms >= last {
                now_ms - last >= timeout_ms
            } else {
                timeout_ms == 0
            };
            let ghost before_removed = removed@;
            let ghost before_agents = self.agents();
            if stale {
                assert(self.agents().contains_key(host_id)) by {
                    assert(!removed@.contains(snapshot@[i as int].0));
                }
                let gone = self.remove_if_current(host_id, connection_id);
                assert(gone);
                removed.push(host_id);
                proof {
                    assert(removed@[before_removed.len() as int] == host_id);
                    assert forall|a: int, b: int|
                        0 <= a < b < removed@.len() implies removed@[a] != removed@[b] by {
                        if b == before_removed.len() {
                            assert(removed@[a] == before_removed[a]);
                            assert(before_removed.contains(removed@[a]));
                        }
                    }
                    assert forall|h: i64| removed@.contains(h) <==> exists|a: int|
                        0 <= a < i + 1 && snapshot@[a].0 == h && is_stale(
                            snapshot@[a].2,
                            now_ms,
                            timeout_ms,
                        ) by {
                        if removed@.contains(h) {
                            if h != host_id {
                                let k = choose|k: int| 0 <= k < removed@.len() && removed@[k] == h;
                                assert(before_removed.contains(h)) by {
                                    assert(k < before_removed.len());
                                    assert(before_removed[k] == h);
                                }
                            }
                        }
                        if exists|a: int|
                            0 <= a < i + 1 && snapshot@[a].0 == h && is_stale(
                                snapshot@[a].2,
                                now_ms,
                                timeout_ms,
                            ) {
                            let a = choose|a: int|
                                0 <= a < i + 1 && snapshot@[a].0 == h && is_stale(
                                    snapshot@[a].2,
                                    now_ms,
                                    timeout_ms,
                                );
                            if a < i {
                                assert(before_removed.contains(h));
                                let k = choose|k: int|
                                    0 <= k < before_removed.len() && before_removed[k] == h;
                                assert(removed@[k] == h);
                            } else {
                                assert(removed@[before_removed.len() as int] == h);
                            }
                        }
                    }
                    assert forall|a: int|
                        i + 1 <= a < snapshot@.len() implies !removed@.contains(
                        #[trigger] snapshot@[a].0,
                    ) by {
                        if removed@.contains(snapshot@[a].0) {
                            let k = choose|k: int|
                                0 <= k < removed@.len() && removed@[k] == snapshot@[a].0;
                            if k < before_removed.len() {
                                assert(before_removed.contains(snapshot@[a].0));
                            } else {
                                assert(snapshot@[a].0 == snapshot@[i as int].0);
                            }
                        }
                    }
                }
            } else {
                proof {
                    assert forall|h: i64| removed@.contains(h) <==> exists|a: int|
                        0 <= a < i + 1 && snapshot@[a].0 == h && is_stale(
                            snapshot@[a].2,
                            now_ms,
                            timeout_ms,
                        ) by {
                        if exists|a: int|
                            0 <= a < i + 1 && snapshot@[a].0 == h && is_stale(
                                snapshot@[a].2,
                                now_ms,
                                timeout_ms,
                            ) {
                            let a = choose|a: int|
                                0 <= a < i + 1 && snapshot@[a].0 == h && is_stale(
                                    snapshot@[a].2,
                                    now_ms,
                                    timeout_ms,
                                );
                            assert(a != i);
                        }
                    }
                }
            }
            i = i + 1;
        }
        proof {
            assert forall|h: i64| removed@.contains(h) <==> (start.contains_key(h) && is_stale(
                start[h].last_heartbeat_at_ms,
                now_ms,
                timeout_ms,
            )) by {
                if start.contains_key(h) {
                    let a = choose|a: int| 0 <= a < snapshot@.len() && snapshot@[a].0 == h;
                    assert(snapshot@[a].2 == start[h].last_heartbeat_at_ms);
                    if removed@.contains(h) {
                        let b = choose|b: int|
                            0 <= b < snapshot@.len() && snapshot@[b].0 == h && is_stale(
                                snapshot@[b].2,
                                now_ms,
                                timeout_ms,
                            );
                        assert(a == b);
                    }
                } else {
                    if removed@.contains(h) {
                        let b = choose|b: int|
                            0 <= b < snapshot@.len() && snapshot@[b].0 == h && is_stale(
                                snapshot@[b].2,
                                now_ms,
                                timeout_ms,
                            );
                        assert(start.contains_key(snapshot@[b].0));
                    }
                }
            }
        }
        removed
    }
}

/// Once a newer connection of a host has registered, an older connection
/// of that host is no longer current: its heartbeats are refused and it
/// cannot remove the newer one, while the newer one is current.
pub proof fn law_newer_connection_wins(
    agents: Map<i64, AgentPresenceView>,
    newer: AgentPresenceView,
    older_connection_id: u128,
)
    requires
        older_connection_id != newer.connection_id,
    ensures
        !is_current_connection(registered(agents, newer), newer.host_id, older_connection_id),
        is_current_connection(registered(agents, newer), newer.host_id, newer.connection_id),
{
}

/// An agent that has just beaten is not stale for any positive timeout,
/// and it stays the current connection of its host.
pub proof fn law_heartbeat_keeps_agent_fresh(
    agents: Map<i64, AgentPresenceView>,
    host_id: i64,
    connection_id: u128,
    now_ms: u64,
    timeout_ms: u64,
)
    requires
        is_current_connection(agents, host_id, connection_id),
        timeout_ms > 0,
    ensures
        is_current_connection(with_heartbeat(agents, host_id, now_ms), host_id, connection_id),
        !is_stale(with_heartbeat(agents, host_id, now_ms)[host_id].last_heartbeat_at_ms, now_ms, timeout_ms),
        with_heartbeat(agents, host_id, now_ms).dom() == agents.dom(),
{
    assert(with_heartbeat(agents, host_id, now_ms).dom() =~= agents.dom());
}

/// A message that an agent sends, as far as its connection cares.
#[derive(Debug, Clone)]
pub enum AgentMessage {
    Hello { host_id: i64, agent_id: String, agent_version: String },
    Heartbeat { host_id: i64 },
    EmulatorSnapshot { host_id: i64 },
    Pong,
    LoginReport,
    FosterReport,
}

/// What the socket of a connected agent delivered.
#[derive(Debug, Clone)]
pub enum SocketEvent {
    /// A text frame: `message` is `None` when it does not parse, and
    /// `version_ok` says whether the envelope's protocol version is
    /// supported.
    Text { version_ok: bool, message: Option<AgentMessage> },
    Close,
    OtherFrame,
    /// The stream ended or failed.
    Ended,
    /// No heartbeat arrived in time.
    TimedOut,
}

/// What a connection does after an event.
#[derive(Debug, Clone, Copy, PartialEq, Eq, Structural)]
pub enum SessionAction {
    /// Wait for the next event.
    Continue,
    /// Close the connection.
    Stop,
    /// The heartbeat was recorded: store it and restart the timeout; close
    /// when storing fails.
    StoreHeartbeat,
    /// Store the emulator snapshot; close when storing fails.
    StoreSnapshot,
}

/// The hello of a connection, from its first message: a text frame that
/// parses, has a supported protocol version and is a hello. Anything else
/// ends the connection.
pub fn first_message_hello(event: &SocketEvent) -> (r: Option<(i64, String, String)>)
    ensures
        match event {
            SocketEvent::Text { version_ok, message } => if *version_ok {
                match message {
                    Some(AgentMessage::Hello { host_id, agent_id, agent_version }) => r matches Some(
                        (h, a, v),
                    ) && h == host_id && a@ == agent_id@ && v@ == agent_version@,
                    _ => r is None,
                }
            } else {
                r is None
            },
            _ => r is None,
        },
{
    match event {
        SocketEvent::Text { version_ok, message } => {
            if !*version_ok {
                return None;
            }
            match message {
                Some(AgentMessage::Hello { host_id, agent_id, agent_version }) => Some(
                    (*host_id, agent_id.clone(), agent_version.clone()),
                ),
                _ => None,
            }
        },
        _ => None,
    }
}

/// The next step of a connection of host `host_id` over `connection_id`:
/// a timeout, an ended stream, a close, an unsupported version, a second
/// hello, or a report about another host ends it; unparseable texts,
/// other frames, pongs and login or foster reports are passed over; a
/// heartbeat of the current connection is recorded in the registry; a
/// heartbeat of a replaced connection ends it.
pub fn session_step(
    registry: &mut AgentRegistry,
    host_id: i64,
    connection_id: u128,
    event: &SocketEvent,
    now_ms: u64,
) -> (r: SessionAction)
    ensures
        match event {
            SocketEvent::Text { version_ok, message } => match message {
                None => r == SessionAction::Continue && final(registry).agents() == old(registry).agents(),
                Some(m) => if !*version_ok {
                    r == SessionAction::Stop && final(registry).agents() == old(registry).agents()
                } else {
                    match m {
                        AgentMessage::Heartbeat { host_id: reported } => if reported != host_id {
                            r == SessionAction::Stop && final(registry).agents() == old(registry).agents()
                        } else if is_current_connection(old(registry).agents(), host_id, connection_id) {
                            r == SessionAction::StoreHeartbeat && final(registry).agents()
                                == with_heartbeat(old(registry).agents(), host_id, now_ms)
                        } else {
                            r == SessionAction::Stop && final(registry).agents() == old(registry).agents()
                        },
                        AgentMessage::EmulatorSnapshot { host_id: reported } => (if reported
                            != host_id {
                            r == SessionAction::Stop
                        } else {
                            r == SessionAction::StoreSnapshot
                        }) && final(registry).agents() == old(registry).agents(),
                        AgentMessage::Hello { .. } => r == SessionAction::Stop && final(registry).agents() == old(registry).agents(),
                        _ => r == SessionAction::Continue && final(registry).agents() == old(registry).agents(),
                    }
                },
            },
            SocketEvent::OtherFrame => r == SessionAction::Continue && final(registry).agents()
                == old(registry).agents(),
            _ => r == SessionAction::Stop && final(registry).agents() == old(registry).agents(),
        },
{
    match event {
        SocketEvent::Text { version_ok, message } => match message {
            None => SessionAction::Continue,
            Some(m) => {
                if !*version_ok {
                    return SessionAction::Stop;
                }
                match m {
                    AgentMessage::Heartbeat { host_id: reported } => {
                        if *reported != host_id {
                            return SessionAction::Stop;
                        }
                        if registry.heartbeat(host_id, connection_id, now_ms) {
                            SessionAction::StoreHeartbeat
                        } else {
                            SessionAction::Stop
                        }
                    },
                    AgentMessage::EmulatorSnapshot { host_id: reported } => {
                        if *reported != host_id {
                            SessionAction::Stop
                        } else {
                            SessionAction::StoreSnapshot
                        }
                    },
                    AgentMessage::Hello { .. } => SessionAction::Stop,
                    AgentMessage::Pong | AgentMessage::LoginReport | AgentMessage::FosterReport =>
                        SessionAction::Continue,
                }
            },
        },
        SocketEvent::OtherFrame => SessionAction::Continue,
        SocketEvent::Close | SocketEvent::Ended | SocketEvent::TimedOut => SessionAction::Stop,
    }
}

/// The error of a command delivery, from what the agent's connection
/// answered: `Ok(None)` when the command was written, `Ok(Some(message))`
/// when the write failed, `Err(())` when the answer channel closed.
pub fn delivery_result(answer: Result<Option<String>, ()>) -> (r: Result<(), AgentSendError>)
    ensures
        match answer {
            Ok(None) => r is Ok,
            Ok(Some(message)) => r == Err::<(), AgentSendError>(
                AgentSendError::DeliveryFailed(message),
            ),
            Err(_) => r == Err::<(), AgentSendError>(AgentSendError::DeliveryClosed),
        },
{
    match answer {
        Ok(None) => Ok(()),
        Ok(Some(message)) => Err(AgentSendError::DeliveryFailed(message)),
        Err(_) => Err(AgentSendError::DeliveryClosed),
    }
}

} // verus!
