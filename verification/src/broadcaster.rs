use vstd::prelude::*;

use tokio::sync::mpsc::{Receiver, Sender};

use crate::frame::{
    connected_line, frame_line, framed_spec, greeting_model, ping_line, ping_text, Frame,
    FrameModel,
};
use crate::HttpMode;

verus! {

/// The sending half of a tokio bounded channel, carried opaquely; the
/// contracts speak of it only through [`transmitted`].
#[verifier::external_type_specification]
#[verifier::external_body]
#[verifier::reject_recursive_types(T)]
pub struct ExSender<T>(Sender<T>);

/// The receiving half of a tokio bounded channel, carried opaquely and
/// handed out for the transport layer to drain.
#[verifier::external_type_specification]
#[verifier::external_body]
#[verifier::reject_recursive_types(T)]
pub struct ExReceiver<T>(Receiver<T>);

/// The frames a channel's sending half has accepted so far, oldest first.
pub uninterp spec fn transmitted(tx: Sender<Frame>) -> Seq<FrameModel>;

/// The identity of the channel a sending half feeds, fixed for its lifetime.
pub uninterp spec fn sender_channel(tx: Sender<Frame>) -> int;

/// The identity of the channel a receiving half drains, fixed for its
/// lifetime: a receiving half yields exactly what the sending half of the
/// same channel accepted.
pub uninterp spec fn receiver_channel(rx: Receiver<Frame>) -> int;

/// How many frames one client's channel buffers before an enqueue fails.
pub const CHANNEL_CAPACITY: usize = 100;

/// One failed delivery attempt: the channel's buffer was full, or its
/// receiving half was gone.
#[derive(Clone, Copy, Debug, PartialEq, Eq, Structural)]
pub enum LineSendError {
    Full,
    Closed,
}

/// Relies on tokio::sync::mpsc::channel: a freshly created bounded channel
/// has accepted no messages, and the two halves returned belong to one
/// channel. The call panics on a capacity of zero or above the semaphore's
/// permit limit — `usize::MAX >> 3`, which on narrower machines is as low as
/// `0x1fffffff` — so the capacity must stay within that bound.
#[verifier::external_body]
fn channel_pair(cap: usize) -> (r: (Sender<Frame>, Receiver<Frame>))
    requires
        1 <= cap <= 0x1fffffff,
    ensures
        transmitted(r.0) == Seq::<FrameModel>::empty(),
        sender_channel(r.0) == receiver_channel(r.1),
{
    tokio::sync::mpsc::channel(cap)
}

/// Relies on tokio::sync::mpsc::channel and Sender::try_send: a fresh
/// bounded channel of positive capacity whose receiving half is still held
/// right here is neither full nor closed, so it accepts its first message —
/// the expect can never fire — and the channel starts having accepted
/// exactly `first`; the two halves returned belong to one channel. The
/// creating call panics on a capacity of zero or above the semaphore's
/// permit limit — `usize::MAX >> 3`, as low as `0x1fffffff` on narrower
/// machines — so the capacity must stay within that bound.
#[verifier::external_body]
fn channel_pair_with_first(cap: usize, first: Frame) -> (r: (Sender<Frame>, Receiver<Frame>))
    requires
        1 <= cap <= 0x1fffffff,
    ensures
        transmitted(r.0) == seq![first@],
        sender_channel(r.0) == receiver_channel(r.1),
{
    let (tx, rx) = tokio::sync::mpsc::channel(cap);
    tx.try_send(first).expect("a fresh bounded channel accepts its first message");
    (tx, rx)
}

/// Relies on tokio::sync::mpsc::Sender::try_send: on Ok the message was
/// accepted into the channel behind everything accepted before it; on Err
/// (buffer full, or receiving half gone) nothing was accepted; the attempt
/// never blocks. Every channel here keeps its sole sending half inside one
/// registry handle — sending halves are never cloned — so the frames a
/// channel accepted form a single well-ordered history.
#[verifier::external_body]
fn try_send_frame(tx: &mut Sender<Frame>, f: Frame) -> (r: Result<(), LineSendError>)
    ensures
        r is Ok ==> transmitted(*final(tx)) == transmitted(*old(tx)).push(f@),
        r is Err ==> transmitted(*final(tx)) == transmitted(*old(tx)),
        sender_channel(*final(tx)) == sender_channel(*old(tx)),
{
    match tx.try_send(f) {
        Ok(()) => Ok(()),
        Err(tokio::sync::mpsc::error::TrySendError::Full(_)) => Err(LineSendError::Full),
        Err(tokio::sync::mpsc::error::TrySendError::Closed(_)) => Err(LineSendError::Closed),
    }
}

/// One registered client's delivery handle: the sending half of the channel
/// its connection drains, tagged with the transport kind it serves.
pub enum LineSender {
    Sse(Sender<Frame>),
    Ws(Sender<Frame>),
}

impl LineSender {
    /// The sending half behind this handle.
    pub open spec fn sender(self) -> Sender<Frame> {
        match self {
            LineSender::Sse(tx) => tx,
            LineSender::Ws(tx) => tx,
        }
    }

    /// Whether this handle serves a duplex-socket client.
    pub open spec fn is_ws(self) -> bool {
        match self {
            LineSender::Sse(_) => false,
            LineSender::Ws(_) => true,
        }
    }

    /// The frames this handle's channel has accepted, oldest first.
    pub open spec fn hist(self) -> Seq<FrameModel> {
        transmitted(self.sender())
    }

    /// The identity of the channel this handle feeds.
    pub open spec fn channel_id(self) -> int {
        sender_channel(self.sender())
    }

    /// The probe each transport kind answers during pruning: the literal
    /// chunk `data: ping\n\n` on a push stream, a protocol ping on a duplex
    /// socket.
    pub open spec fn probe_model(self) -> FrameModel {
        if self.is_ws() {
            FrameModel::Ping
        } else {
            FrameModel::Text(framed_spec(HttpMode::Sse, ping_text()))
        }
    }

    /// Try to hand one text chunk to this client, without blocking.
    fn try_send_text(&mut self, chunk: Vec<u8>) -> (r: Result<(), LineSendError>)
        ensures
            final(self).is_ws() == old(self).is_ws(),
            final(self).channel_id() == old(self).channel_id(),
            r is Ok ==> final(self).hist() == old(self).hist().push(FrameModel::Text(chunk@)),
            r is Err ==> final(self).hist() == old(self).hist(),
    {
        match self {
            LineSender::Sse(tx) => try_send_frame(tx, Frame::Text(chunk)),
            LineSender::Ws(tx) => try_send_frame(tx, Frame::Text(chunk)),
        }
    }

    /// Send this client's liveness probe, without blocking. Liveness is
    /// judged by acceptance alone, so a slow but live client whose buffer
    /// stands full fails its probe and is pruned; that follows the policy of
    /// never blocking the producer, and the client may simply reconnect.
    fn probe(&mut self) -> (r: Result<(), LineSendError>)
        ensures
            final(self).is_ws() == old(self).is_ws(),
            final(self).channel_id() == old(self).channel_id(),
            r is Ok ==> final(self).hist() == old(self).hist().push(old(self).probe_model()),
            r is Err ==> final(self).hist() == old(self).hist(),
    {
        match self {
            LineSender::Sse(tx) => {
                let payload = ping_line();
                let chunk = frame_line(HttpMode::Sse, payload.as_slice());
                try_send_frame(tx, Frame::Text(chunk))
            },
            LineSender::Ws(tx) => try_send_frame(tx, Frame::Ping),
        }
    }
}

/// The receiving half of one client's channel, handed back at registration
/// for the transport layer to drain. It yields frames until its paired
/// handle is pruned from the registry and the channel closes.
pub struct Client {
    rx: Receiver<Frame>,
}

impl Client {
    /// The identity of the channel this client drains: registration pairs it
    /// one-to-one with the handle appended to the registry.
    pub closed spec fn channel_id(self) -> int {
        receiver_channel(self.rx)
    }

    /// Surrender the receiving half for the transport layer to drain.
    pub fn into_receiver(self) -> (rx: Receiver<Frame>)
        ensures
            receiver_channel(rx) == self.channel_id(),
    {
        self.rx
    }
}

/// How one broadcast touches one handle: its kind is untouched, and its
/// channel either accepted exactly the framed line or, when the attempt
/// failed, accepted nothing.
pub open spec fn delivery_attempted(
    before: LineSender,
    after: LineSender,
    framed: Seq<u8>,
) -> bool {
    &&& after.is_ws() == before.is_ws()
    &&& after.channel_id() == before.channel_id()
    &&& (after.hist() == before.hist().push(FrameModel::Text(framed)) || after.hist()
        == before.hist())
}

/// A handle kept by one prune cycle: the same handle, whose channel accepted
/// the probe of its transport kind.
pub open spec fn kept_after_probe(before: LineSender, after: LineSender) -> bool {
    &&& after.is_ws() == before.is_ws()
    &&& after.channel_id() == before.channel_id()
    &&& after.hist() == before.hist().push(before.probe_model())
}

/// Decide one handle's fate from its probe outcome, where the outcome is in
/// hand: an accepted probe keeps the handle — appended behind the survivors
/// before it — and a failed one drops it; nothing else changes.
pub fn keep_probed(c: LineSender, r: Result<(), LineSendError>, kept: &mut Vec<LineSender>)
    ensures
        r is Ok ==> final(kept)@ == old(kept)@.push(c),
        r is Err ==> final(kept)@ == old(kept)@,
{
    if r.is_ok() {
        kept.push(c);
    }
}

/// How one complete prune cycle turns the registry `before` into `after`:
/// walking `before` in order, each handle is either kept — its channel
/// accepted the probe — or dropped; nothing else enters `after`.
pub open spec fn prune_rel(before: Seq<LineSender>, after: Seq<LineSender>) -> bool
    decreases before.len(),
{
    if before.len() == 0 {
        after.len() == 0
    } else {
        ||| (after.len() > 0 && kept_after_probe(before.last(), after.last()) && prune_rel(
            before.drop_last(),
            after.drop_last(),
        ))
        ||| prune_rel(before.drop_last(), after)
    }
}

/// The client registry and broadcaster: fans each produced line out to every
/// registered handle, framed for the delivery mode fixed at startup, and
/// periodically prunes handles that no longer accept a probe.
pub struct Broadcaster {
    clients: Vec<LineSender>,
    mode: HttpMode,
}

impl Broadcaster {
    /// The registered handles, in registration order.
    pub closed spec fn clients_spec(self) -> Seq<LineSender> {
        self.clients@
    }

    /// The delivery mode this broadcaster frames for.
    pub closed spec fn mode_spec(self) -> HttpMode {
        self.mode
    }

    /// A fresh broadcaster with an empty registry.
    pub fn new(mode: HttpMode) -> (b: Broadcaster)
        ensures
            b.clients_spec() == Seq::<LineSender>::empty(),
            b.mode_spec() == mode,
    {
        Broadcaster { clients: Vec::new(), mode }
    }

    /// How many clients stand registered, for observability.
    pub fn clients_len(&self) -> (n: usize)
        ensures
            n == self.clients_spec().len(),
    {
        self.clients.len()
    }

    /// Register a fresh push-stream client: a new bounded channel is created
    /// having accepted the connect greeting `data: connected\n\n` before
    /// anything else — a fresh channel cannot refuse its first enqueue, so
    /// the greeting is never absent — the sending half joins the registry,
    /// and the receiving half of that same channel is handed back to be
    /// streamed.
    pub fn new_sse_client(&mut self) -> (client: Client)
        ensures
            final(self).mode_spec() == old(self).mode_spec(),
            final(self).clients_spec().len() == old(self).clients_spec().len() + 1,
            forall|i: int|
                0 <= i < old(self).clients_spec().len() ==> #[trigger] final(self).clients_spec()[i]
                    == old(self).clients_spec()[i],
            !final(self).clients_spec().last().is_ws(),
            final(self).clients_spec().last().hist() == seq![greeting_model()],
            client.channel_id() == final(self).clients_spec().last().channel_id(),
    {
        let payload = connected_line();
        let chunk = frame_line(HttpMode::Sse, payload.as_slice());
        let (tx, rx) = channel_pair_with_first(CHANNEL_CAPACITY, Frame::Text(chunk));
        self.clients.push(LineSender::Sse(tx));
        Client { rx }
    }

    /// Register a fresh duplex-socket client: a new bounded channel joins
    /// the registry — the transport's own open event stands for a greeting,
    /// so none is enqueued — and the receiving half of that same channel is
    /// handed back for the session task to relay onto the socket.
    pub fn add_ws_client(&mut self) -> (client: Client)
        ensures
            final(self).mode_spec() == old(self).mode_spec(),
            final(self).clients_spec().len() == old(self).clients_spec().len() + 1,
            forall|i: int|
                0 <= i < old(self).clients_spec().len() ==> #[trigger] final(self).clients_spec()[i]
                    == old(self).clients_spec()[i],
            final(self).clients_spec().last().is_ws(),
            final(self).clients_spec().last().hist() == Seq::<FrameModel>::empty(),
            client.channel_id() == final(self).clients_spec().last().channel_id(),
    {
        let (tx, rx) = channel_pair(CHANNEL_CAPACITY);
        self.clients.push(LineSender::Ws(tx));
        Client { rx }
    }

    /// Broadcast one produced line: frame it once per the delivery mode,
    /// then attempt delivery to every registered handle in registry order.
    /// Every handle is attempted exactly once with the same framed bytes; a
    /// failed attempt is ignored, leaves that handle's channel untouched,
    /// and never disturbs delivery to the others.
    pub fn send(&mut self, msg: &[u8])
        ensures
            final(self).mode_spec() == old(self).mode_spec(),
            final(self).clients_spec().len() == old(self).clients_spec().len(),
            forall|i: int|
                0 <= i < old(self).clients_spec().len() ==> delivery_attempted(
                    old(self).clients_spec()[i],
                    #[trigger] final(self).clients_spec()[i],
                    framed_spec(old(self).mode_spec(), msg@),
                ),
    {
        let n = self.clients.len();
        for i in 0..n
            invariant
                self.mode == old(self).mode,
                n == self.clients@.len(),
                self.clients@.len() == old(self).clients@.len(),
                forall|j: int| i <= j < n ==> self.clients@[j] == old(self).clients@[j],
                forall|j: int|
                    0 <= j < i ==> delivery_attempted(
                        old(self).clients@[j],
                        #[trigger] self.clients@[j],
                        framed_spec(old(self).mode, msg@),
                    ),
        {
            let chunk = frame_line(self.mode, msg);
            let c = &mut self.clients[i];
            let _ = c.try_send_text(chunk);
        }
    }

    /// One complete prune cycle: probe every handle in registry order and
    /// keep exactly those whose probe was accepted — a handle whose probe
    /// failed is absent afterwards — then report whether the registry is now
    /// empty (informational only; reconnection stays possible).
    pub fn remove_stale_clients(&mut self) -> (empty: bool)
        ensures
            final(self).mode_spec() == old(self).mode_spec(),
            prune_rel(old(self).clients_spec(), final(self).clients_spec()),
            empty <==> final(self).clients_spec().len() == 0,
            old(self).clients_spec().len() == 0 ==> final(self).clients_spec().len() == 0,
    {
        let ghost orig = self.clients@;
        let n = self.clients.len();
        let mut kept: Vec<LineSender> = Vec::new();
        proof {
            assert(orig.take(0) =~= Seq::<LineSender>::empty());
            assert(self.clients@ =~= orig.skip(0));
        }
        for i in 0..n
            invariant
                self.mode == old(self).mode,
                orig == old(self).clients@,
                n == orig.len(),
                self.clients@ == orig.skip(i as int),
                prune_rel(orig.take(i as int), kept@),
        {
            let mut c = self.clients.remove(0);
            proof {
                assert(c == orig[i as int]);
                assert(self.clients@ =~= orig.skip(i as int + 1));
            }
            let r = c.probe();
            let ghost prev_kept = kept@;
            keep_probed(c, r, &mut kept);
            proof {
                assert(orig.take(i as int + 1).drop_last() =~= orig.take(i as int));
                assert(orig.take(i as int + 1).last() == orig[i as int]);
                if r.is_ok() {
                    assert(kept@.drop_last() =~= prev_kept);
                    assert(kept_after_probe(orig[i as int], kept@.last()));
                }
                assert(prune_rel(orig.take(i as int + 1), kept@));
            }
        }
        proof {
            assert(orig.take(n as int) =~= orig);
        }
        self.clients = kept;
        self.clients.is_empty()
    }
}

/// The history one client's channel shows after a run of broadcasts that
/// were all accepted: each line framed for `mode` and appended in emission
/// order behind the history `h` it started with.
pub open spec fn history_after_sends(
    h: Seq<FrameModel>,
    mode: HttpMode,
    lines: Seq<Seq<u8>>,
) -> Seq<FrameModel>
    decreases lines.len(),
{
    if lines.len() == 0 {
        h
    } else {
        history_after_sends(h.push(FrameModel::Text(framed_spec(mode, lines[0]))), mode, lines.skip(1))
    }
}

/// Broadcast order is preserved per client: after a run of accepted
/// broadcasts, a client's history is the history it started with, followed
/// by the framed lines in exactly the order the producer emitted them.
pub proof fn lemma_history_order(h: Seq<FrameModel>, mode: HttpMode, lines: Seq<Seq<u8>>)
    ensures
        history_after_sends(h, mode, lines).len() == h.len() + lines.len(),
        forall|i: int|
            0 <= i < h.len() ==> #[trigger] history_after_sends(h, mode, lines)[i] == h[i],
        forall|i: int|
            0 <= i < lines.len() ==> history_after_sends(h, mode, lines)[h.len() + i]
                == FrameModel::Text(framed_spec(mode, #[trigger] lines[i])),
    decreases lines.len(),
{
    if lines.len() == 0 {
    } else {
        let h1 = h.push(FrameModel::Text(framed_spec(mode, lines[0])));
        let rest = lines.skip(1);
        lemma_history_order(h1, mode, rest);
        assert forall|i: int| 0 <= i < lines.len() implies history_after_sends(h, mode, lines)[h.len()
            + i] == FrameModel::Text(framed_spec(mode, #[trigger] lines[i])) by {
            if i == 0 {
                assert(history_after_sends(h1, mode, rest)[h.len() as int] == h1[h.len() as int]);
            } else {
                assert(rest[i - 1] == lines[i]);
                assert(history_after_sends(h1, mode, rest)[h1.len() + (i - 1)]
                    == FrameModel::Text(framed_spec(mode, rest[i - 1])));
            }
        }
    }
}

/// A push-stream client that observed its connect greeting observes it
/// strictly before every frame a later broadcast appends: the greeting
/// stands first, and the broadcast frames follow in emission order.
pub proof fn lemma_greeting_precedes_broadcasts(mode: HttpMode, lines: Seq<Seq<u8>>)
    ensures
        history_after_sends(seq![greeting_model()], mode, lines)[0] == greeting_model(),
        history_after_sends(seq![greeting_model()], mode, lines).len() == 1 + lines.len(),
        forall|i: int|
            0 <= i < lines.len() ==> history_after_sends(seq![greeting_model()], mode, lines)[1 + i]
                == FrameModel::Text(framed_spec(mode, #[trigger] lines[i])),
{
    lemma_history_order(seq![greeting_model()], mode, lines);
}

/// One accepted broadcast appends exactly one frame: the line framed for the
/// delivery mode, behind everything the client observed before.
pub proof fn lemma_history_single_send(h: Seq<FrameModel>, mode: HttpMode, line: Seq<u8>)
    ensures
        history_after_sends(h, mode, seq![line]) == h.push(
            FrameModel::Text(framed_spec(mode, line)),
        ),
{
    let appended = h.push(FrameModel::Text(framed_spec(mode, line)));
    assert(seq![line][0] == line);
    assert(seq![line].skip(1) =~= Seq::<Seq<u8>>::empty());
    assert(history_after_sends(appended, mode, Seq::<Seq<u8>>::empty()) == appended);
}

/// One broadcast is uniform: any two clients whose channels accepted it
/// observed byte-identical framed frames.
pub proof fn lemma_broadcast_uniform(
    before1: LineSender,
    after1: LineSender,
    before2: LineSender,
    after2: LineSender,
    framed: Seq<u8>,
)
    requires
        delivery_attempted(before1, after1, framed),
        delivery_attempted(before2, after2, framed),
        after1.hist() != before1.hist(),
        after2.hist() != before2.hist(),
    ensures
        after1.hist().last() == after2.hist().last(),
        after1.hist().last() == FrameModel::Text(framed),
{
}

/// Pruning an empty registry leaves it empty.
pub proof fn lemma_prune_empty(after: Seq<LineSender>)
    requires
        prune_rel(Seq::<LineSender>::empty(), after),
    ensures
        after.len() == 0,
{
}

} // verus!
