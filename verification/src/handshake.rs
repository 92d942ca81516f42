use vstd::prelude::*;
use vstd::utf8::encode_utf8;
use crate::host::HostRecord;
use crate::protocol::SIGNIN_CRED;
use crate::text::{utf8_lossy, text_bytes, spec_utf8_lossy, lemma_lossy_of_bytes};

verus! {

/// One handshake message on the wire: a status byte, or a framed vector
/// (length prefix, bytes, acknowledgement).
#[derive(Debug)]
pub enum Wire {
    Byte(u8),
    Frame(Vec<u8>),
}

/// A handshake message as a mathematical value.
pub enum WireView {
    Byte(u8),
    Frame(Seq<u8>),
}

impl View for Wire {
    type V = WireView;

    open spec fn view(&self) -> WireView {
        match self {
            Wire::Byte(b) => WireView::Byte(*b),
            Wire::Frame(v) => WireView::Frame(v@),
        }
    }
}

/// The values of a sequence of messages.
pub open spec fn wires_view(s: Seq<Wire>) -> Seq<WireView> {
    s.map_values(|w: Wire| w@)
}

/// Where the server side of the handshake stands.
#[derive(Clone, Copy, Debug, PartialEq, Eq, Structural)]
pub enum ServerHandshake {
    /// Waits for the frame with the name the client expects.
    AwaitName,
    /// Sent its id; waits for the client's acknowledgement byte.
    AwaitCpidAck,
    /// Sent its host name; waits for the client's verdict byte.
    AwaitClientConfirm,
    /// Has the client's verdict; waits for its own public address (looked up).
    AwaitPublicIp(u8),
    /// Finished with this result: 0 agreed, 1 refused, `SIGNIN_CRED` a sign-up request.
    Done(u8),
}

/// What the server side is told next.
#[derive(Debug)]
pub enum ServerEvent {
    Frame(Vec<u8>),
    Byte(u8),
    /// The result of looking up the public address (none on timeout).
    PublicIp(Option<String>),
}

/// A server-side event as a mathematical value.
pub enum ServerEventView {
    Frame(Seq<u8>),
    Byte(u8),
    PublicIp(Option<Seq<char>>),
}

impl View for ServerEvent {
    type V = ServerEventView;

    open spec fn view(&self) -> ServerEventView {
        match self {
            ServerEvent::Frame(v) => ServerEventView::Frame(v@),
            ServerEvent::Byte(b) => ServerEventView::Byte(*b),
            ServerEvent::PublicIp(o) => ServerEventView::PublicIp(
                match o {
                    Some(t) => Some(t@),
                    None => None,
                },
            ),
        }
    }
}

/// The server's handshake rule. A frame holding only `SIGNIN_CRED` is a
/// sign-up request; a name other than the server's is refused with 1;
/// otherwise the server answers 0 and sends its id, then its host name,
/// then (if the client's verdict is 0) its public address, or the stored
/// one when the lookup gave none. An event the state does not wait for
/// changes nothing.
pub open spec fn spec_server_step(id: HostRecord, st: ServerHandshake, ev: ServerEventView) -> (
    ServerHandshake,
    Seq<WireView>,
) {
    match (st, ev) {
        (ServerHandshake::AwaitName, ServerEventView::Frame(b)) => {
            if b == seq![SIGNIN_CRED] {
                (ServerHandshake::Done(SIGNIN_CRED), Seq::empty())
            } else if spec_utf8_lossy(b) != id.name@ {
                (ServerHandshake::Done(1), seq![WireView::Byte(1)])
            } else {
                (
                    ServerHandshake::AwaitCpidAck,
                    seq![WireView::Byte(0), WireView::Frame(encode_utf8(id.cpid@))],
                )
            }
        },
        (ServerHandshake::AwaitCpidAck, ServerEventView::Byte(_)) => (
            ServerHandshake::AwaitClientConfirm,
            seq![WireView::Frame(encode_utf8(id.host@))],
        ),
        (ServerHandshake::AwaitClientConfirm, ServerEventView::Byte(c)) => (
            ServerHandshake::AwaitPublicIp(c),
            Seq::empty(),
        ),
        (ServerHandshake::AwaitPublicIp(c), ServerEventView::PublicIp(lookup)) => {
            let ip = match lookup {
                Some(t) => t,
                None => id.pub_ip@,
            };
            if c == 0 {
                (ServerHandshake::Done(0), seq![WireView::Frame(encode_utf8(ip))])
            } else {
                (ServerHandshake::Done(1), Seq::empty())
            }
        },
        _ => (st, Seq::empty()),
    }
}

/// One step of the server side of the handshake.
pub fn server_step(id: &HostRecord, st: ServerHandshake, ev: ServerEvent) -> (res: (
    ServerHandshake,
    Vec<Wire>,
))
    ensures
        res.0 == spec_server_step(*id, st, ev@).0,
        wires_view(res.1@) == spec_server_step(*id, st, ev@).1,
{
    let ghost evv = ev@;
    let mut out: Vec<Wire> = Vec::new();
    match (st, ev) {
        (ServerHandshake::AwaitName, ServerEvent::Frame(b)) => {
            if b.len() == 1 && b[0] == SIGNIN_CRED {
                assert(b@ =~= seq![SIGNIN_CRED]);
                assert(wires_view(out@) =~= Seq::<WireView>::empty());
                (ServerHandshake::Done(SIGNIN_CRED), out)
            } else {
                let name = utf8_lossy(b.as_slice());
                assert(b@ != seq![SIGNIN_CRED]);
                if name != id.name {
                    out.push(Wire::Byte(1));
                    assert(wires_view(out@) =~= seq![WireView::Byte(1)]);
                    (ServerHandshake::Done(1), out)
                } else {
                    out.push(Wire::Byte(0));
                    out.push(Wire::Frame(text_bytes(&id.cpid)));
                    assert(wires_view(out@) =~= seq![
                        WireView::Byte(0),
                        WireView::Frame(encode_utf8(id.cpid@)),
                    ]);
                    (ServerHandshake::AwaitCpidAck, out)
                }
            }
        },
        (ServerHandshake::AwaitCpidAck, ServerEvent::Byte(_)) => {
            out.push(Wire::Frame(text_bytes(&id.host)));
            assert(wires_view(out@) =~= seq![WireView::Frame(encode_utf8(id.host@))]);
            (ServerHandshake::AwaitClientConfirm, out)
        },
        (ServerHandshake::AwaitClientConfirm, ServerEvent::Byte(c)) => {
            assert(wires_view(out@) =~= Seq::<WireView>::empty());
            (ServerHandshake::AwaitPublicIp(c), out)
        },
        (ServerHandshake::AwaitPublicIp(c), ServerEvent::PublicIp(lookup)) => {
            if c == 0 {
                let ip = match lookup {
                    Some(t) => t,
                    None => id.pub_ip.clone(),
                };
                out.push(Wire::Frame(text_bytes(&ip)));
                assert(wires_view(out@) =~= seq![WireView::Frame(encode_utf8(ip@))]);
                (ServerHandshake::Done(0), out)
            } else {
                assert(wires_view(out@) =~= Seq::<WireView>::empty());
                (ServerHandshake::Done(1), out)
            }
        },
        (s, _) => {
            assert(wires_view(out@) =~= Seq::<WireView>::empty());
            (s, out)
        },
    }
}

/// Where the client side of the handshake stands.
#[derive(Debug)]
pub enum ClientHandshake {
    /// Sent the expected server name; waits for the server's verdict byte.
    AwaitServerConfirm,
    /// Waits for the frame with the server's id.
    AwaitCpid,
    /// Has the server's id; waits for the frame with its host name.
    AwaitHost(String),
    /// Waits for the frame with the server's public address.
    AwaitIp,
    /// Finished with this result: 0 the right server, 1 not.
    Done(u8),
}

/// The client side's state as a mathematical value.
pub enum ClientHandshakeView {
    AwaitServerConfirm,
    AwaitCpid,
    AwaitHost(Seq<char>),
    AwaitIp,
    Done(u8),
}

impl View for ClientHandshake {
    type V = ClientHandshakeView;

    open spec fn view(&self) -> ClientHandshakeView {
        match self {
            ClientHandshake::AwaitServerConfirm => ClientHandshakeView::AwaitServerConfirm,
            ClientHandshake::AwaitCpid => ClientHandshakeView::AwaitCpid,
            ClientHandshake::AwaitHost(c) => ClientHandshakeView::AwaitHost(c@),
            ClientHandshake::AwaitIp => ClientHandshakeView::AwaitIp,
            ClientHandshake::Done(r) => ClientHandshakeView::Done(*r),
        }
    }
}

/// What the client side does besides waiting.
#[derive(Debug)]
pub enum ClientAction {
    /// Write a message to the server.
    Send(Wire),
    /// Store this public address for the server (it changed).
    UpdatePubIp(String),
    /// The server at this address is not the expected one; the flag says
    /// whether it runs on the same machine (same host name).
    WrongServer(bool),
}

/// A client action as a mathematical value.
pub enum ClientActionView {
    Send(WireView),
    UpdatePubIp(Seq<char>),
    WrongServer(bool),
}

impl View for ClientAction {
    type V = ClientActionView;

    open spec fn view(&self) -> ClientActionView {
        match self {
            ClientAction::Send(w) => ClientActionView::Send(w@),
            ClientAction::UpdatePubIp(t) => ClientActionView::UpdatePubIp(t@),
            ClientAction::WrongServer(b) => ClientActionView::WrongServer(*b),
        }
    }
}

/// The values of a sequence of client actions.
pub open spec fn actions_view(s: Seq<ClientAction>) -> Seq<ClientActionView> {
    s.map_values(|a: ClientAction| a@)
}

/// How the client opens the handshake: it sends the name of the server it
/// expects, and waits for the verdict.
pub fn client_start(rec: &HostRecord) -> (res: (ClientHandshake, Wire))
    ensures
        res.0@ == ClientHandshakeView::AwaitServerConfirm,
        res.1@ == WireView::Frame(encode_utf8(rec.name@)),
{
    (ClientHandshake::AwaitServerConfirm, Wire::Frame(text_bytes(&rec.name)))
}

/// The client's handshake rule. A nonzero verdict ends it with 1; the id
/// is acknowledged with 0; after the host name, an id other than the
/// stored one is answered with 1 and ends it with 1 (reporting whether the
/// host name is the stored one), and the stored id is answered with 0;
/// the public address, when it differs from the stored one, is stored; the
/// result is then 0. A message the state does not wait for changes nothing.
pub open spec fn spec_client_step(rec: HostRecord, st: ClientHandshakeView, ev: WireView) -> (
    ClientHandshakeView,
    Seq<ClientActionView>,
) {
    match (st, ev) {
        (ClientHandshakeView::AwaitServerConfirm, WireView::Byte(c)) => {
            if c != 0 {
                (ClientHandshakeView::Done(1), Seq::empty())
            } else {
                (ClientHandshakeView::AwaitCpid, Seq::empty())
            }
        },
        (ClientHandshakeView::AwaitCpid, WireView::Frame(b)) => (
            ClientHandshakeView::AwaitHost(spec_utf8_lossy(b)),
            seq![ClientActionView::Send(WireView::Byte(0))],
        ),
        (ClientHandshakeView::AwaitHost(cpid), WireView::Frame(h)) => {
            if cpid != rec.cpid@ {
                (
                    ClientHandshakeView::Done(1),
                    seq![
                        ClientActionView::Send(WireView::Byte(1)),
                        ClientActionView::WrongServer(spec_utf8_lossy(h) == rec.host@),
                    ],
                )
            } else {
                (ClientHandshakeView::AwaitIp, seq![ClientActionView::Send(WireView::Byte(0))])
            }
        },
        (ClientHandshakeView::AwaitIp, WireView::Frame(b)) => {
            if spec_utf8_lossy(b) != rec.pub_ip@ {
                (
                    ClientHandshakeView::Done(0),
                    seq![ClientActionView::UpdatePubIp(spec_utf8_lossy(b))],
                )
            } else {
                (ClientHandshakeView::Done(0), Seq::empty())
            }
        },
        _ => (st, Seq::empty()),
    }
}

/// One step of the client side of the handshake.
pub fn client_step(rec: &HostRecord, st: ClientHandshake, ev: Wire) -> (res: (
    ClientHandshake,
    Vec<ClientAction>,
))
    ensures
        res.0@ == spec_client_step(*rec, st@, ev@).0,
        actions_view(res.1@) == spec_client_step(*rec, st@, ev@).1,
{
    let ghost stv = st@;
    let ghost evv = ev@;
    let mut out: Vec<ClientAction> = Vec::new();
    match (st, ev) {
        (ClientHandshake::AwaitServerConfirm, Wire::Byte(c)) => {
            assert(actions_view(out@) =~= Seq::<ClientActionView>::empty());
            if c != 0 {
                (ClientHandshake::Done(1), out)
            } else {
                (ClientHandshake::AwaitCpid, out)
            }
        },
        (ClientHandshake::AwaitCpid, Wire::Frame(b)) => {
            let cpid = utf8_lossy(b.as_slice());
            out.push(ClientAction::Send(Wire::Byte(0)));
            assert(actions_view(out@) =~= seq![ClientActionView::Send(WireView::Byte(0))]);
            (ClientHandshake::AwaitHost(cpid), out)
        },
        (ClientHandshake::AwaitHost(cpid), Wire::Frame(h)) => {
            let host = utf8_lossy(h.as_slice());
            if cpid != rec.cpid {
                let same_machine = host == rec.host;
                out.push(ClientAction::Send(Wire::Byte(1)));
                out.push(ClientAction::WrongServer(same_machine));
                assert(actions_view(out@) =~= seq![
                    ClientActionView::Send(WireView::Byte(1)),
                    ClientActionView::WrongServer(spec_utf8_lossy(h@) == rec.host@),
                ]);
                (ClientHandshake::Done(1), out)
            } else {
                out.push(ClientAction::Send(Wire::Byte(0)));
                assert(actions_view(out@) =~= seq![ClientActionView::Send(WireView::Byte(0))]);
                (ClientHandshake::AwaitIp, out)
            }
        },
        (ClientHandshake::AwaitIp, Wire::Frame(b)) => {
            let ip = utf8_lossy(b.as_slice());
            if ip != rec.pub_ip {
                out.push(ClientAction::UpdatePubIp(ip));
                assert(actions_view(out@) =~= seq![
                    ClientActionView::UpdatePubIp(spec_utf8_lossy(b@)),
                ]);
                (ClientHandshake::Done(0), out)
            } else {
                assert(actions_view(out@) =~= Seq::<ClientActionView>::empty());
                (ClientHandshake::Done(0), out)
            }
        },
        (s, _) => {
            assert(actions_view(out@) =~= Seq::<ClientActionView>::empty());
            (s, out)
        },
    }
}

/// A message the client writes, as the server receives it.
pub open spec fn as_server_event(a: ClientActionView) -> ServerEventView {
    match a {
        ClientActionView::Send(WireView::Byte(b)) => ServerEventView::Byte(b),
        ClientActionView::Send(WireView::Frame(f)) => ServerEventView::Frame(f),
        _ => ServerEventView::PublicIp(None),
    }
}

/// The result of a handshake between a client that stores `rec` for the
/// server and a server whose own record is `id`, when the server's address
/// lookup gives `lookup`: the server's final state, the client's final
/// state and the client's actions after its first one. Each message one
/// side writes is the next event of the other side.
pub open spec fn handshake_run(rec: HostRecord, id: HostRecord, lookup: Option<Seq<char>>) -> (
    ServerHandshake,
    ClientHandshakeView,
    Seq<ClientActionView>,
) {
    let (s1, so1) = spec_server_step(
        id,
        ServerHandshake::AwaitName,
        ServerEventView::Frame(encode_utf8(rec.name@)),
    );
    if s1 is Done {
        if so1.len() == 0 {
            (s1, ClientHandshakeView::AwaitServerConfirm, Seq::empty())
        } else {
            let (c1, co1) = spec_client_step(rec, ClientHandshakeView::AwaitServerConfirm, so1[0]);
            (s1, c1, co1)
        }
    } else {
        let (c1, _co1) = spec_client_step(rec, ClientHandshakeView::AwaitServerConfirm, so1[0]);
        let (c2, co2) = spec_client_step(rec, c1, so1[1]);
        let (s2, so2) = spec_server_step(id, s1, as_server_event(co2[0]));
        let (c3, co3) = spec_client_step(rec, c2, so2[0]);
        let (s3, _so3) = spec_server_step(id, s2, as_server_event(co3[0]));
        let (s4, so4) = spec_server_step(id, s3, ServerEventView::PublicIp(lookup));
        if so4.len() == 0 {
            (s4, c3, co2 + co3)
        } else {
            let (c4, co4) = spec_client_step(rec, c3, so4[0]);
            (s4, c4, co2 + co3 + co4)
        }
    }
}

/// Handshake law: unless the expected name reads as the one-byte sign-up
/// marker, both sides finish with the same result; that result is 0
/// exactly when the client's stored name and id are the server's own; and
/// then the client learns the address the server sent (the looked-up one,
/// or the server's stored one) and stores it exactly when it differs from
/// its own record.
pub proof fn law_handshake_agreement(rec: HostRecord, id: HostRecord, lookup: Option<Seq<char>>)
    requires
        encode_utf8(rec.name@) != seq![SIGNIN_CRED],
    ensures
        ({
            let (s, c, acts) = handshake_run(rec, id, lookup);
            let sent_ip = match lookup {
                Some(t) => t,
                None => id.pub_ip@,
            };
            &&& s matches ServerHandshake::Done(rs)
            &&& c matches ClientHandshakeView::Done(rc)
            &&& rs == rc
            &&& (rs == 0 <==> (rec.name@ == id.name@ && rec.cpid@ == id.cpid@))
            &&& rs == 0 ==> (acts.last() == ClientActionView::UpdatePubIp(sent_ip) <==> sent_ip
                != rec.pub_ip@)
        }),
{
    lemma_lossy_of_bytes(rec.name@);
    lemma_lossy_of_bytes(id.cpid@);
    lemma_lossy_of_bytes(id.host@);
    lemma_lossy_of_bytes(id.pub_ip@);
    match lookup {
        Some(t) => {
            lemma_lossy_of_bytes(t);
        },
        None => {},
    }
}

} // verus!
