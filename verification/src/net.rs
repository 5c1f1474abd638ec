//! The wire protocol between simulators and the session server, and the
//! server's bookkeeping of who is connected.
use vstd::prelude::*;

use crate::Error;

verus! {

/// The largest packet body, in bytes, that a peer accepts.
pub const MAX_PACKET_SIZE: u32 = 1024u32;

/// A packet sent by a simulator to the server. `P` is an aircraft report.
#[derive(Debug, Clone)]
pub enum ToServerPacket<P> {
    /// The first packet of every connection.
    Auth { password: u64, master: bool },
    /// The master's aircraft.
    Primary(P),
}

/// A packet sent by the server to a simulator. `P` is an aircraft report.
#[derive(Debug, Clone)]
pub enum FromServerPacket<P> {
    /// The master's aircraft, relayed to a follower.
    Primary(P),
    /// The connection was admitted.
    AuthOk,
    /// The password was wrong.
    AuthFail,
    /// The connection asked to be master while another master is connected.
    DifferentMasterAlreadyConnected,
}

/// The number that four bytes encode, least significant byte first.
pub open spec fn le_u32(b: Seq<u8>) -> int {
    b[0] + 256 * b[1] + 65536 * b[2] + 16777216 * b[3]
}

/// The four bytes of `n`, least significant first.
pub open spec fn le_bytes(n: u32) -> Seq<u8> {
    seq![
        (n % 256) as u8,
        ((n / 256) % 256) as u8,
        ((n / 65536) % 256) as u8,
        (n / 16777216) as u8,
    ]
}

/// The bytes sent for a packet body: its length as four bytes, least
/// significant first (taken modulo 2^32), then the body.
pub open spec fn frame(body: Seq<u8>) -> Seq<u8> {
    le_bytes((body.len() % 0x1_0000_0000) as u32) + body
}

/// The bytes that announce a packet body of `len` bytes.
pub fn frame_header(len: usize) -> (header: [u8; 4])
    ensures
        header@ == le_bytes((len as int % 0x1_0000_0000) as u32),
        header[0] == (len as int % 0x1_0000_0000) % 256,
        header[1] == ((len as int % 0x1_0000_0000) / 256) % 256,
        header[2] == ((len as int % 0x1_0000_0000) / 65536) % 256,
        header[3] == (len as int % 0x1_0000_0000) / 16777216,
{
    let n: u32 = (len as u64 % 0x1_0000_0000u64) as u32;
    proof {
        assert(n == len as int % 0x1_0000_0000);
    }
    let h: [u8; 4] = [
        (n % 256) as u8,
        ((n / 256) % 256) as u8,
        ((n / 65536) % 256) as u8,
        (n / 16777216) as u8,
    ];
    assert(h@ =~= le_bytes(n));
    h
}

/// The bytes sent for the packet body `body`.
pub fn encode_frame(body: &[u8]) -> (bytes: Vec<u8>)
    ensures
        bytes@ == frame(body@),
        bytes@.len() == body@.len() + 4,
        bytes@.skip(4) == body@,
        bytes@[0] == (body@.len() % 0x1_0000_0000) % 256,
        bytes@[1] == ((body@.len() % 0x1_0000_0000) / 256) % 256,
        bytes@[2] == ((body@.len() % 0x1_0000_0000) / 65536) % 256,
        bytes@[3] == (body@.len() % 0x1_0000_0000) / 16777216,
{
    let header = frame_header(body.len());
    let mut bytes: Vec<u8> = Vec::new();
    let mut i: usize = 0;
    while i < 4
        invariant
            i <= 4,
            bytes@ == header@.take(i as int),
        decreases 4 - i,
    {
        bytes.push(header[i]);
        i = i + 1;
        assert(bytes@ =~= header@.take(i as int));
    }
    let mut j: usize = 0;
    while j < body.len()
        invariant
            j <= body@.len(),
            bytes@ == header@ + body@.take(j as int),
        decreases body@.len() - j,
    {
        bytes.push(body[j]);
        j = j + 1;
        assert(bytes@ =~= header@ + body@.take(j as int));
    }
    assert(body@.take(body@.len() as int) =~= body@);
    bytes
}

/// The length of the packet body that the four bytes `header` announce;
/// `Error::PacketTooLarge` where it is above `MAX_PACKET_SIZE`.
pub fn read_frame_size(header: [u8; 4]) -> (size: Result<u32, Error>)
    ensures
        le_u32(header@) <= MAX_PACKET_SIZE ==> size == Ok::<u32, Error>(le_u32(header@) as u32),
        le_u32(header@) > MAX_PACKET_SIZE ==> size matches Err(Error::PacketTooLarge),
        header[0] + 256 * header[1] + 65536 * header[2] + 16777216 * header[3] <= MAX_PACKET_SIZE
            ==> size == Ok::<u32, Error>(
            (header[0] + 256 * header[1] + 65536 * header[2] + 16777216 * header[3]) as u32,
        ),
        header[0] + 256 * header[1] + 65536 * header[2] + 16777216 * header[3] > MAX_PACKET_SIZE
            ==> size matches Err(Error::PacketTooLarge),
{
    let n: u32 = header[0] as u32 + (header[1] as u32) * 256 + (header[2] as u32) * 65536 + (
    header[3] as u32) * 16777216;
    if n > MAX_PACKET_SIZE {
        Err(Error::PacketTooLarge)
    } else {
        Ok(n)
    }
}

/// What a reader makes of a frame is what the writer framed: the header of
/// the frame of a body of at most `MAX_PACKET_SIZE` bytes announces exactly
/// the body's length, which the reader accepts, and the body follows it.
pub proof fn lemma_frame_round_trip(body: Seq<u8>)
    requires
        body.len() <= MAX_PACKET_SIZE,
    ensures
        frame(body).len() == body.len() + 4,
        le_u32(frame(body).take(4)) == body.len(),
        le_u32(frame(body).take(4)) <= MAX_PACKET_SIZE,
        frame(body).skip(4) == body,
{
    let n = (body.len() % 0x1_0000_0000) as u32;
    assert(n == body.len());
    assert(frame(body).take(4) =~= le_bytes(n));
    assert(frame(body).skip(4) =~= body);
}

/// Reading the header written for a length gives that length back.
pub proof fn lemma_header_round_trip(n: u32)
    ensures
        le_u32(le_bytes(n)) == n,
{
}

impl<P> ToServerPacket<P> {
    /// The aircraft report that the server relays to the followers for a
    /// packet received after authentication; `None` for a packet that has
    /// no place there.
    pub fn relayed(self) -> (report: Option<P>)
        ensures
            self matches ToServerPacket::Primary(p) ==> report == Some(p),
            self is Auth ==> report is None,
    {
        match self {
            ToServerPacket::Primary(p) => Some(p),
            ToServerPacket::Auth { .. } => None,
        }
    }
}

impl<P> FromServerPacket<P> {
    /// What the server's answer to a connection's first packet means for
    /// the connecting simulator.
    pub fn auth_result(&self) -> (res: Result<(), Error>)
        requires
            !(self is Primary),
        ensures
            self is AuthOk ==> res is Ok,
            self is AuthFail ==> res matches Err(Error::WrongPassword),
            self is DifferentMasterAlreadyConnected ==> res matches Err(
                Error::DifferentMasterAlreadyConnected,
            ),
    {
        match self {
            FromServerPacket::AuthOk => Ok(()),
            FromServerPacket::AuthFail => Err(Error::WrongPassword),
            FromServerPacket::DifferentMasterAlreadyConnected => Err(
                Error::DifferentMasterAlreadyConnected,
            ),
            FromServerPacket::Primary(_) => Err(Error::WrongPassword),
        }
    }
}

/// How the server answers the first packet of a connection.
#[derive(Debug, Clone, Copy, PartialEq, Eq, Structural)]
pub enum AuthDecision {
    /// The first packet was not an authentication; the connection is dropped unanswered.
    InvalidPacket,
    /// The password was wrong; the connection is answered `AuthFail` and dropped.
    WrongPassword,
    /// A master asked to join while another master is connected; the
    /// connection is answered `DifferentMasterAlreadyConnected` and dropped.
    MasterTaken,
    /// The connection is admitted, as master or as follower, and answered `AuthOk`.
    Accepted { is_master: bool },
}

/// The server's decision on the first packet `auth` of a connection, given
/// whether a master has connected before and the session's password.
pub open spec fn auth_decision<P>(
    master_connected: bool,
    auth: ToServerPacket<P>,
    correct_password: u64,
) -> AuthDecision {
    match auth {
        ToServerPacket::Auth { password, master } => {
            if password != correct_password {
                AuthDecision::WrongPassword
            } else if master_connected && master {
                AuthDecision::MasterTaken
            } else {
                AuthDecision::Accepted { is_master: master }
            }
        },
        ToServerPacket::Primary(_) => AuthDecision::InvalidPacket,
    }
}

impl AuthDecision {
    /// The packet the server answers with; `None` where it answers nothing.
    pub fn response<P>(&self) -> (packet: Option<FromServerPacket<P>>)
        ensures
            *self == AuthDecision::InvalidPacket ==> packet is None,
            *self == AuthDecision::WrongPassword ==> packet matches Some(FromServerPacket::AuthFail),
            *self == AuthDecision::MasterTaken ==> packet matches Some(
                FromServerPacket::DifferentMasterAlreadyConnected,
            ),
            *self is Accepted ==> packet matches Some(FromServerPacket::AuthOk),
    {
        match self {
            AuthDecision::InvalidPacket => None,
            AuthDecision::WrongPassword => Some(FromServerPacket::AuthFail),
            AuthDecision::MasterTaken => Some(FromServerPacket::DifferentMasterAlreadyConnected),
            AuthDecision::Accepted { .. } => Some(FromServerPacket::AuthOk),
        }
    }
}

/// An admitted connection, reached through `send`.
#[derive(Debug)]
pub struct ConnectedClient<S> {
    pub send: S,
    pub is_master: bool,
    pub id: usize,
}

/// Ids of the connected clients grow strictly in the order the clients are
/// kept, and all are below the next id to hand out.
pub open spec fn ids_ordered<S>(clients: Seq<ConnectedClient<S>>, next_id: usize) -> bool {
    &&& forall|i: int, j: int|
        0 <= i < j < clients.len() ==> #[trigger] clients[i].id < #[trigger] clients[j].id
    &&& forall|i: int| 0 <= i < clients.len() ==> #[trigger] clients[i].id < next_id
}

/// Whether one of the clients is the master.
pub open spec fn master_present<S>(clients: Seq<ConnectedClient<S>>) -> bool {
    exists|i: int| 0 <= i < clients.len() && #[trigger] clients[i].is_master
}

/// No two clients are master.
pub open spec fn at_most_one_master<S>(clients: Seq<ConnectedClient<S>>) -> bool {
    forall|i: int, j: int|
        0 <= i < clients.len() && 0 <= j < clients.len() && #[trigger] clients[i].is_master
            && #[trigger] clients[j].is_master ==> i == j
}

/// What holds of the server's bookkeeping at all times: ids are ordered and
/// fresh, there is at most one master, and the server counts a master as
/// connected exactly while one is among its clients.
pub open spec fn server_wf<S>(
    clients: Seq<ConnectedClient<S>>,
    next_id: usize,
    master_connected: bool,
) -> bool {
    &&& ids_ordered(clients, next_id)
    &&& at_most_one_master(clients)
    &&& master_connected == master_present(clients)
}

/// The clients left after the one with `id` has gone.
pub open spec fn without_client<S>(clients: Seq<ConnectedClient<S>>, id: usize) -> Seq<
    ConnectedClient<S>,
> {
    clients.filter(|c: ConnectedClient<S>| c.id != id)
}

/// How the server took in a new connection: its decision, and the id of the
/// client where it was admitted.
#[derive(Debug, Clone, Copy, PartialEq, Eq, Structural)]
pub struct Admission {
    pub decision: AuthDecision,
    pub id: Option<usize>,
}

/// What the server keeps about its connections: the admitted clients,
/// whether one of them is the master, and the next id to hand out.
/// `S` is how the server reaches a client.
pub struct ServerState<S> {
    master_connected: bool,
    clients: Vec<ConnectedClient<S>>,
    current_id: usize,
}

impl<S> ServerState<S> {
    #[verifier::type_invariant]
    spec fn inv(self) -> bool {
        server_wf(self.clients@, self.current_id, self.master_connected)
    }

    /// Whether a master is connected.
    pub closed spec fn master_connected(&self) -> bool {
        self.master_connected
    }

    /// The admitted clients, oldest first.
    pub closed spec fn clients(&self) -> Seq<ConnectedClient<S>> {
        self.clients@
    }

    /// The id the next admitted client gets.
    pub closed spec fn next_id(&self) -> usize {
        self.current_id
    }

    /// A server with no clients.
    pub fn new() -> (s: Self)
        ensures
            !s.master_connected(),
            s.clients() == Seq::<ConnectedClient<S>>::empty(),
            s.next_id() == 0,
            server_wf(s.clients(), s.next_id(), s.master_connected()),
    {
        ServerState { master_connected: false, clients: Vec::new(), current_id: 0 }
    }

    /// Decides on the first packet `auth` of a connection reached through
    /// `send`, and adds the connection as a client where it is admitted.
    pub fn accept_connection<P>(&mut self, auth: &ToServerPacket<P>, correct_password: u64, send: S) -> (a:
        Admission)
        requires
            auth_decision(old(self).master_connected(), *auth, correct_password) is Accepted
                ==> old(self).next_id() < usize::MAX,
        ensures
            a.decision == auth_decision(old(self).master_connected(), *auth, correct_password),
            *auth matches ToServerPacket::Auth { password, master } ==> {
                &&& password != correct_password ==> a.decision == AuthDecision::WrongPassword
                &&& password == correct_password && !master ==> a.decision
                    == AuthDecision::Accepted { is_master: false }
                &&& password == correct_password && master && !old(self).master_connected()
                    ==> a.decision == AuthDecision::Accepted { is_master: true }
                &&& password == correct_password && master && old(self).master_connected()
                    ==> a.decision == AuthDecision::MasterTaken
            },
            *auth is Primary ==> a.decision == AuthDecision::InvalidPacket,
            a.decision matches AuthDecision::Accepted { is_master } ==> a.id == Some(
                old(self).next_id(),
            ) && final(self).next_id() == old(self).next_id() + 1 && final(self).clients()
                == old(self).clients().push(
                ConnectedClient { send, is_master, id: old(self).next_id() },
            ),
            !(a.decision is Accepted) ==> a.id is None && final(self).next_id() == old(
                self,
            ).next_id() && final(self).clients() == old(self).clients(),
            final(self).master_connected() == (old(self).master_connected() || a.decision
                == AuthDecision::Accepted { is_master: true }),
            server_wf(final(self).clients(), final(self).next_id(), final(self).master_connected()),
    {
        proof {
            use_type_invariant(&*self);
        }
        let decision = match auth {
            ToServerPacket::Auth { password, master } => {
                if *password != correct_password {
                    AuthDecision::WrongPassword
                } else if self.master_connected && *master {
                    AuthDecision::MasterTaken
                } else {
                    AuthDecision::Accepted { is_master: *master }
                }
            },
            ToServerPacket::Primary(_) => AuthDecision::InvalidPacket,
        };
        match decision {
            AuthDecision::Accepted { is_master } => {
                let mut state: ServerState<S> = ServerState::new();
                std::mem::swap(&mut state, self);
                let ServerState { master_connected, mut clients, current_id } = state;
                let id = current_id;
                let ghost old_clients = clients@;
                let mc = master_connected || is_master;
                clients.push(ConnectedClient { send, is_master, id });
                proof {
                    assert(clients@[old_clients.len() as int].is_master == is_master);
                    if is_master {
                        assert(!master_present(old_clients));
                        assert(master_present(clients@));
                    } else if master_present(old_clients) {
                        let i = choose|i: int| 0 <= i < old_clients.len() && #[trigger] old_clients[i].is_master;
                        assert(clients@[i].is_master);
                    }
                    assert forall|i: int| 0 <= i < clients@.len() && clients@[i].is_master implies i
                        < old_clients.len() || is_master by {}
                }
                *self = ServerState { master_connected: mc, clients, current_id: id + 1 };
                Admission { decision, id: Some(id) }
            },
            _ => Admission { decision, id: None },
        }
    }

    /// The id the next admitted client gets.
    pub fn next_client_id(&self) -> (id: usize)
        ensures
            id == self.next_id(),
    {
        self.current_id
    }

    /// The number of admitted clients.
    pub fn client_count(&self) -> (n: usize)
        ensures
            n == self.clients().len(),
    {
        self.clients.len()
    }

    /// How to reach the client at position `index`.
    pub fn sender(&self, index: usize) -> (send: &S)
        requires
            index < self.clients().len(),
        ensures
            *send == self.clients()[index as int].send,
    {
        &self.clients[index].send
    }

    /// The positions, in order, of the clients that receive a relayed
    /// aircraft report: all clients that are not the master.
    pub fn recipients(&self) -> (positions: Vec<usize>)
        ensures
            forall|k: int|
                0 <= k < positions@.len() ==> #[trigger] positions@[k] < self.clients().len()
                    && !self.clients()[positions@[k] as int].is_master,
            forall|k: int, l: int|
                0 <= k < l < positions@.len() ==> #[trigger] positions@[k] < #[trigger] positions@[l],
            forall|i: int|
                0 <= i < self.clients().len() && !#[trigger] self.clients()[i].is_master ==> exists|
                    k: int,
                | 0 <= k < positions@.len() && positions@[k] == i,
    {
        let mut positions: Vec<usize> = Vec::new();
        let mut i: usize = 0;
        while i < self.clients.len()
            invariant
                i <= self.clients@.len(),
                forall|k: int|
                    0 <= k < positions@.len() ==> #[trigger] positions@[k] < i
                        && !self.clients@[positions@[k] as int].is_master,
                forall|k: int, l: int|
                    0 <= k < l < positions@.len() ==> #[trigger] positions@[k]
                        < #[trigger] positions@[l],
                forall|j: int|
                    0 <= j < i && !#[trigger] self.clients@[j].is_master ==> exists|k: int|
                        0 <= k < positions@.len() && positions@[k] == j,
            decreases self.clients@.len() - i,
        {
            if !self.clients[i].is_master {
                let ghost before = positions@;
                positions.push(i);
                assert forall|j: int|
                    0 <= j < i + 1 && !#[trigger] self.clients@[j].is_master implies exists|k: int|
                    0 <= k < positions@.len() && positions@[k] == j by {
                    if j == i {
                        assert(positions@[before.len() as int] == j);
                    } else {
                        let k = choose|k: int| 0 <= k < before.len() && before[k] == j;
                        assert(positions@[k] == j);
                    }
                }
            }
            i = i + 1;
        }
        positions
    }

    /// Drops the client with `id`, if there is one; where it was the master,
    /// the server no longer has a master.
    pub fn remove_client(&mut self, id: usize)
        ensures
            final(self).clients() == without_client(old(self).clients(), id),
            forall|i: int|
                0 <= i < final(self).clients().len() ==> #[trigger] final(self).clients()[i].id
                    != id && old(self).clients().contains(final(self).clients()[i]),
            forall|i: int|
                0 <= i < old(self).clients().len() && #[trigger] old(self).clients()[i].id != id
                    ==> final(self).clients().contains(old(self).clients()[i]),
            final(self).master_connected() == (old(self).master_connected() && !exists|i: int|
                0 <= i < old(self).clients().len() && #[trigger] old(self).clients()[i].id == id
                    && old(self).clients()[i].is_master),
            final(self).next_id() == old(self).next_id(),
            server_wf(final(self).clients(), final(self).next_id(), final(self).master_connected()),
    {
        proof {
            use_type_invariant(&*self);
        }
        let ghost old_clients = self.clients@;
        let ghost keep = |c: ConnectedClient<S>| c.id != id;
        let mut state: ServerState<S> = ServerState::new();
        std::mem::swap(&mut state, self);
        let ServerState { master_connected, mut clients, current_id } = state;
        let mut master_left = false;
        let mut j: usize = 0;
        let ghost mut k: int = 0;
        while j < clients.len()
            invariant
                0 <= k <= old_clients.len(),
                j == old_clients.take(k).filter(keep).len(),
                clients@ == old_clients.take(k).filter(keep) + old_clients.skip(k),
                ids_ordered(clients@, current_id),
                old_clients == old(self).clients@,
                keep == (|c: ConnectedClient<S>| c.id != id),
                current_id == old(self).current_id,
                master_connected == old(self).master_connected,
                master_left == exists|i: int|
                    0 <= i < k && #[trigger] old_clients[i].id == id && old_clients[i].is_master,
            decreases old_clients.len() - k,
        {
            proof {
                assert(old_clients.take(k + 1).drop_last() =~= old_clients.take(k));
                assert(clients@[j as int] == old_clients[k]);
                assert(old_clients.take(k + 1).last() == old_clients[k]);
                reveal_with_fuel(Seq::<_>::filter, 1);
            }
            let ghost prev = clients@;
            let ghost front = old_clients.take(k).filter(keep);
            assert(old_clients.skip(k) =~= seq![old_clients[k]] + old_clients.skip(k + 1));
            if clients[j].id == id {
                if clients[j].is_master {
                    master_left = true;
                }
                clients.remove(j);
                proof {
                    assert(prev == front + (seq![old_clients[k]] + old_clients.skip(k + 1)));
                    assert(prev.remove(j as int) =~= front + old_clients.skip(k + 1));
                    assert(old_clients.take(k + 1).filter(keep) == front);
                    assert(clients@ =~= old_clients.take(k + 1).filter(keep) + old_clients.skip(
                        k + 1,
                    ));
                }
            } else {
                j = j + 1;
                proof {
                    assert(prev =~= front.push(old_clients[k]) + old_clients.skip(k + 1));
                    assert(old_clients.take(k + 1).filter(keep) == front.push(old_clients[k]));
                    assert(clients@ =~= old_clients.take(k + 1).filter(keep) + old_clients.skip(
                        k + 1,
                    ));
                }
            }
            proof {
                k = k + 1;
            }
        }
        proof {
            broadcast use vstd::seq_lib::group_filter_ensures;

            assert(old_clients.take(k) =~= old_clients);
            assert(old_clients.skip(k) =~= Seq::<ConnectedClient<S>>::empty());
            assert(clients@ =~= old_clients.filter(keep));
            lemma_master_leaving(old_clients, current_id, master_connected, id);
            lemma_removed_client_gone(old_clients, id);
            assert(k == old_clients.len());
            assert(master_left == exists|i: int|
                0 <= i < old_clients.len() && #[trigger] old_clients[i].id == id
                    && old_clients[i].is_master);
        }
        *self = ServerState {
            master_connected: master_connected && !master_left,
            clients,
            current_id,
        };
        assert(old_clients == old(self).clients());
        assert(master_left == exists|i: int|
            0 <= i < old(self).clients().len() && #[trigger] old(self).clients()[i].id == id
                && old(self).clients()[i].is_master);
    }
}

/// When a client goes, the others keep their roles: there is still at most
/// one master, and a master remains exactly when there was one and it was not
/// the client that went. So once the master has gone, the next master is
/// admitted again.
pub proof fn lemma_master_leaving<S>(
    clients: Seq<ConnectedClient<S>>,
    next_id: usize,
    master_connected: bool,
    id: usize,
)
    requires
        server_wf(clients, next_id, master_connected),
    ensures
        at_most_one_master(without_client(clients, id)),
        ids_ordered(without_client(clients, id), next_id),
        master_present(without_client(clients, id)) == (master_connected && !exists|i: int|
            0 <= i < clients.len() && #[trigger] clients[i].id == id && clients[i].is_master),
{
    broadcast use vstd::seq_lib::group_filter_ensures;
    broadcast use vstd::seq::Seq::lemma_filter_contains_rev;

    let keep = |c: ConnectedClient<S>| c.id != id;
    let rest = without_client(clients, id);
    assert(rest == clients.filter(keep));
    // Every client left was a client before, with the same id and role.
    assert forall|a: int| 0 <= a < rest.len() implies exists|i: int|
        0 <= i < clients.len() && clients[i] == #[trigger] rest[a] by {
        assert(rest.contains(rest[a]));
    }
    assert forall|a: int, b: int|
        0 <= a < rest.len() && 0 <= b < rest.len() && #[trigger] rest[a].is_master
            && #[trigger] rest[b].is_master implies a == b by {
        let i = choose|i: int| 0 <= i < clients.len() && clients[i] == rest[a];
        let j = choose|j: int| 0 <= j < clients.len() && clients[j] == rest[b];
        assert(i == j);
        lemma_filter_ids_ordered(clients, next_id, id);
        if a < b {
            assert(rest[a].id < rest[b].id);
        } else if b < a {
            assert(rest[b].id < rest[a].id);
        }
    }
    lemma_filter_ids_ordered(clients, next_id, id);
    if master_present(rest) {
        let a = choose|a: int| 0 <= a < rest.len() && #[trigger] rest[a].is_master;
        let i = choose|i: int| 0 <= i < clients.len() && clients[i] == rest[a];
        assert(keep(rest[a]));
        assert(clients[i].is_master);
        assert forall|i2: int|
            0 <= i2 < clients.len() && #[trigger] clients[i2].id == id implies !clients[i2].is_master by {
            if clients[i2].is_master {
                assert(i2 == i);
            }
        }
    }
    if master_connected && !exists|i: int|
        0 <= i < clients.len() && #[trigger] clients[i].id == id && clients[i].is_master {
        let i = choose|i: int| 0 <= i < clients.len() && #[trigger] clients[i].is_master;
        assert(clients[i].id != id);
        assert(rest.contains(clients[i]));
        let a = choose|a: int| 0 <= a < rest.len() && rest[a] == clients[i];
        assert(rest[a].is_master);
    }
}

/// Filtering keeps ids ordered and fresh.
proof fn lemma_filter_ids_ordered<S>(clients: Seq<ConnectedClient<S>>, next_id: usize, id: usize)
    requires
        ids_ordered(clients, next_id),
    ensures
        ids_ordered(without_client(clients, id), next_id),
    decreases clients.len(),
{
    let keep = |c: ConnectedClient<S>| c.id != id;
    reveal_with_fuel(Seq::<_>::filter, 1);
    if clients.len() > 0 {
        let init = clients.drop_last();
        assert(ids_ordered(init, next_id));
        lemma_filter_ids_ordered(init, next_id, id);
        broadcast use vstd::seq_lib::group_filter_ensures;
        broadcast use vstd::seq::Seq::lemma_filter_contains_rev;

        let sub = init.filter(keep);
        assert(without_client(init, id) == sub);
        assert forall|a: int| 0 <= a < sub.len() implies #[trigger] sub[a].id < clients.last().id by {
            assert(sub.contains(sub[a]));
            let i = choose|i: int| 0 <= i < init.len() && init[i] == sub[a];
            assert(clients[i] == init[i]);
        }
    }
}

/// While a master is connected every further master is refused; once no
/// master is connected, a master with the right password is admitted.
pub proof fn lemma_one_master_at_a_time<P>(
    password: u64,
    correct_password: u64,
)
    requires
        password == correct_password,
    ensures
        auth_decision(true, ToServerPacket::<P>::Auth { password, master: true }, correct_password)
            == AuthDecision::MasterTaken,
        auth_decision(false, ToServerPacket::<P>::Auth { password, master: true }, correct_password)
            == (AuthDecision::Accepted { is_master: true }),
        auth_decision(true, ToServerPacket::<P>::Auth { password, master: false }, correct_password)
            == (AuthDecision::Accepted { is_master: false }),
{
}

/// Who is admitted: anyone with the right password who does not ask to be
/// master, whether or not a master is connected; a master with the right
/// password exactly while no master is connected; nobody with a wrong
/// password; and no connection whose first packet is not an authentication.
pub proof fn lemma_admission_rules<P>(
    master_connected: bool,
    auth: ToServerPacket<P>,
    correct_password: u64,
)
    ensures
        auth matches ToServerPacket::Auth { password, master } ==> {
            &&& password != correct_password ==> auth_decision(
                master_connected,
                auth,
                correct_password,
            ) == AuthDecision::WrongPassword
            &&& password == correct_password && !master ==> auth_decision(
                master_connected,
                auth,
                correct_password,
            ) == (AuthDecision::Accepted { is_master: false })
            &&& password == correct_password && master ==> (auth_decision(
                master_connected,
                auth,
                correct_password,
            ) == if master_connected {
                AuthDecision::MasterTaken
            } else {
                AuthDecision::Accepted { is_master: true }
            })
        },
        auth is Primary ==> auth_decision(master_connected, auth, correct_password)
            == AuthDecision::InvalidPacket,
{
}

/// A wrong password is refused whatever else the packet asks for.
pub proof fn lemma_wrong_password_refused<P>(
    master_connected: bool,
    password: u64,
    master: bool,
    correct_password: u64,
)
    requires
        password != correct_password,
    ensures
        auth_decision(
            master_connected,
            ToServerPacket::<P>::Auth { password, master },
            correct_password,
        ) == AuthDecision::WrongPassword,
{
}

/// Clients kept with ordered ids never share an id.
pub proof fn lemma_ordered_ids_unique<S>(clients: Seq<ConnectedClient<S>>, next_id: usize)
    requires
        ids_ordered(clients, next_id),
    ensures
        forall|i: int, j: int|
            0 <= i < clients.len() && 0 <= j < clients.len() && i != j ==> #[trigger] clients[i].id
                != #[trigger] clients[j].id,
{
    assert forall|i: int, j: int|
        0 <= i < clients.len() && 0 <= j < clients.len() && i != j implies #[trigger] clients[i].id
        != #[trigger] clients[j].id by {
        if i < j {
            assert(clients[i].id < clients[j].id);
        } else {
            assert(clients[j].id < clients[i].id);
        }
    }
}

/// A client that has gone is no longer reached, and every other client is kept.
pub proof fn lemma_removed_client_gone<S>(clients: Seq<ConnectedClient<S>>, id: usize)
    ensures
        forall|i: int|
            0 <= i < without_client(clients, id).len() ==> #[trigger] without_client(
                clients,
                id,
            )[i].id != id,
        forall|i: int|
            0 <= i < clients.len() && #[trigger] clients[i].id != id ==> without_client(
                clients,
                id,
            ).contains(clients[i]),
        forall|i: int|
            0 <= i < without_client(clients, id).len() ==> clients.contains(
                #[trigger] without_client(clients, id)[i],
            ),
{
    let keep = |c: ConnectedClient<S>| c.id != id;
    broadcast use vstd::seq_lib::group_filter_ensures;
    broadcast use vstd::seq::Seq::lemma_filter_contains_rev;

    assert(without_client(clients, id) == clients.filter(keep));
    assert forall|i: int| 0 <= i < without_client(clients, id).len() implies clients.contains(
        #[trigger] without_client(clients, id)[i],
    ) by {
        assert(clients.filter(keep).contains(clients.filter(keep)[i]));
    }
}

} // verus!
