use vstd::prelude::*;

verus! {

/// A content identifier: the bytes of a content-derived key. Equality is
/// equality of the bytes.
pub struct Cid {
    pub bytes: Vec<u8>,
}

impl View for Cid {
    type V = Seq<u8>;

    open spec fn view(&self) -> Seq<u8> {
        self.bytes@
    }
}

impl Cid {
    pub fn new(bytes: Vec<u8>) -> (r: Cid)
        ensures
            r@ == bytes@,
    {
        Cid { bytes }
    }

    /// A copy holding the same bytes.
    pub fn duplicate(&self) -> (r: Cid)
        ensures
            r@ == self@,
    {
        Cid { bytes: self.bytes.clone() }
    }

    /// Whether two identifiers hold the same bytes.
    pub fn same(&self, other: &Cid) -> (r: bool)
        ensures
            r == (self@ == other@),
    {
        bytes_equal(&self.bytes, &other.bytes)
    }
}

/// The identity of a remote peer, as bytes.
pub struct PeerId {
    pub bytes: Vec<u8>,
}

impl View for PeerId {
    type V = Seq<u8>;

    open spec fn view(&self) -> Seq<u8> {
        self.bytes@
    }
}

impl PeerId {
    pub fn new(bytes: Vec<u8>) -> (r: PeerId)
        ensures
            r@ == bytes@,
    {
        PeerId { bytes }
    }

    pub fn duplicate(&self) -> (r: PeerId)
        ensures
            r@ == self@,
    {
        PeerId { bytes: self.bytes.clone() }
    }
}

/// A network address (a multiaddress in its binary form).
pub struct Multiaddr {
    pub bytes: Vec<u8>,
}

impl View for Multiaddr {
    type V = Seq<u8>;

    open spec fn view(&self) -> Seq<u8> {
        self.bytes@
    }
}

impl Multiaddr {
    pub fn new(bytes: Vec<u8>) -> (r: Multiaddr)
        ensures
            r@ == bytes@,
    {
        Multiaddr { bytes }
    }

    pub fn duplicate(&self) -> (r: Multiaddr)
        ensures
            r@ == self@,
    {
        Multiaddr { bytes: self.bytes.clone() }
    }
}

pub fn bytes_equal(a: &Vec<u8>, b: &Vec<u8>) -> (r: bool)
    ensures
        r == (a@ == b@),
{
    if a.len() != b.len() {
        return false;
    }
    let mut i: usize = 0;
    while i < a.len()
        invariant
            a@.len() == b@.len(),
            i <= a@.len(),
            forall|j: int| 0 <= j < i ==> a@[j] == b@[j],
        decreases a@.len() - i,
    {
        if a[i] != b[i] {
            return false;
        }
        i = i + 1;
    }
    proof {
        assert(a@ =~= b@);
    }
    true
}

/// An immutable block: an identifier with its payload.
pub struct Block {
    pub cid: Cid,
    pub data: Vec<u8>,
}

impl View for Block {
    type V = (Seq<u8>, Seq<u8>);

    open spec fn view(&self) -> (Seq<u8>, Seq<u8>) {
        (self.cid@, self.data@)
    }
}

impl Block {
    pub fn new(cid: Cid, data: Vec<u8>) -> (r: Block)
        ensures
            r@ == (cid@, data@),
    {
        Block { cid, data }
    }
}

/// A fault reported by the block store.
pub struct StorageError {
    pub message: String,
}

/// A local-interest transition signalled by the block store.
pub enum Intent {
    Want(Cid),
    Cancel(Cid),
    Provide(Cid),
    Unprovide(Cid),
}

pub enum IntentView {
    Want(Seq<u8>),
    Cancel(Seq<u8>),
    Provide(Seq<u8>),
    Unprovide(Seq<u8>),
}

impl View for Intent {
    type V = IntentView;

    open spec fn view(&self) -> IntentView {
        match self {
            Intent::Want(c) => IntentView::Want(c@),
            Intent::Cancel(c) => IntentView::Cancel(c@),
            Intent::Provide(c) => IntentView::Provide(c@),
            Intent::Unprovide(c) => IntentView::Unprovide(c@),
        }
    }
}

/// An event coming from the swarm.
pub enum NetEvent {
    ReceivedBlock(PeerId, Cid, Vec<u8>),
    ReceivedWant(PeerId, Cid),
    Providers(Cid, Vec<PeerId>),
    NoProviders(Cid),
    BootstrapComplete,
}

pub enum NetEventView {
    ReceivedBlock(Seq<u8>, Seq<u8>, Seq<u8>),
    ReceivedWant(Seq<u8>, Seq<u8>),
    Providers(Seq<u8>, Seq<Seq<u8>>),
    NoProviders(Seq<u8>),
    BootstrapComplete,
}

pub open spec fn peers_view(peers: Seq<PeerId>) -> Seq<Seq<u8>> {
    peers.map_values(|p: PeerId| p@)
}

impl View for NetEvent {
    type V = NetEventView;

    open spec fn view(&self) -> NetEventView {
        match self {
            NetEvent::ReceivedBlock(p, c, d) => NetEventView::ReceivedBlock(p@, c@, d@),
            NetEvent::ReceivedWant(p, c) => NetEventView::ReceivedWant(p@, c@),
            NetEvent::Providers(c, ps) => NetEventView::Providers(c@, peers_view(ps@)),
            NetEvent::NoProviders(c) => NetEventView::NoProviders(c@),
            NetEvent::BootstrapComplete => NetEventView::BootstrapComplete,
        }
    }
}

/// An action that the coordinator asks the swarm to perform.
pub enum SwarmAction {
    Want(Cid, u64),
    Cancel(Cid),
    Provide(Cid),
    ProvideAndSend(Cid, Vec<u8>),
    Unprovide(Cid),
    Send(PeerId, Cid, Vec<u8>),
    Connect(PeerId),
}

pub enum SwarmActionView {
    Want(Seq<u8>, u64),
    Cancel(Seq<u8>),
    Provide(Seq<u8>),
    ProvideAndSend(Seq<u8>, Seq<u8>),
    Unprovide(Seq<u8>),
    Send(Seq<u8>, Seq<u8>, Seq<u8>),
    Connect(Seq<u8>),
}

impl View for SwarmAction {
    type V = SwarmActionView;

    open spec fn view(&self) -> SwarmActionView {
        match self {
            SwarmAction::Want(c, w) => SwarmActionView::Want(c@, *w),
            SwarmAction::Cancel(c) => SwarmActionView::Cancel(c@),
            SwarmAction::Provide(c) => SwarmActionView::Provide(c@),
            SwarmAction::ProvideAndSend(c, d) => SwarmActionView::ProvideAndSend(c@, d@),
            SwarmAction::Unprovide(c) => SwarmActionView::Unprovide(c@),
            SwarmAction::Send(p, c, d) => SwarmActionView::Send(p@, c@, d@),
            SwarmAction::Connect(p) => SwarmActionView::Connect(p@),
        }
    }
}

/// A recoverable fault met while servicing one event; it is logged and the
/// loop goes on.
pub enum Failure {
    /// The local lookup for a block that a peer asked for failed.
    LookupBlock(Cid),
    /// Storing a received block failed.
    InsertBlock(Cid),
    /// An entry of the enumeration of public blocks could not be read.
    ReadPublic,
    /// A provider set arrived empty.
    EmptyProviders(Cid),
}

pub enum FailureView {
    LookupBlock(Seq<u8>),
    InsertBlock(Seq<u8>),
    ReadPublic,
    EmptyProviders(Seq<u8>),
}

impl View for Failure {
    type V = FailureView;

    open spec fn view(&self) -> FailureView {
        match self {
            Failure::LookupBlock(c) => FailureView::LookupBlock(c@),
            Failure::InsertBlock(c) => FailureView::InsertBlock(c@),
            Failure::ReadPublic => FailureView::ReadPublic,
            Failure::EmptyProviders(c) => FailureView::EmptyProviders(c@),
        }
    }
}

/// What servicing an event did: a swarm action, a block stored, or a fault
/// logged.
pub enum Effect {
    Act(SwarmAction),
    Insert(Block),
    Fail(Failure),
}

pub enum EffectView {
    Act(SwarmActionView),
    Insert(Seq<u8>, Seq<u8>),
    Fail(FailureView),
}

impl View for Effect {
    type V = EffectView;

    open spec fn view(&self) -> EffectView {
        match self {
            Effect::Act(a) => EffectView::Act(a@),
            Effect::Insert(b) => EffectView::Insert(b.cid@, b.data@),
            Effect::Fail(f) => EffectView::Fail(f@),
        }
    }
}

pub open spec fn effects_view(effects: Seq<Effect>) -> Seq<EffectView> {
    effects.map_values(|e: Effect| e@)
}

} // verus!
