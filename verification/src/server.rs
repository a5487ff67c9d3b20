//! The server side: the registry of open peer connections and the relay
//! decision for one received frame. The sockets themselves live outside;
//! a handler hands in the raw buffer it read and the address it serves,
//! and gets back the decoded command, the peers the frame goes to, and
//! whether its own connection is done.

use vstd::prelude::*;
use crate::lcommand::Lcommand;
use crate::lcommand::ProtocolError;
use crate::lcommand::decode_spec;
use crate::lcommand::str_eq;
use crate::lcommand::Lcmd;

verus! {

/// The registered addresses that differ from `sender`, in registry
/// order: the peers a frame from `sender` is relayed to.
pub open spec fn peers_except(peers: Seq<Seq<char>>, sender: Seq<char>) -> Seq<Seq<char>>
    decreases peers.len(),
{
    if peers.len() == 0 {
        Seq::empty()
    } else {
        let rest = peers_except(peers.drop_last(), sender);
        if peers.last() == sender {
            rest
        } else {
            rest.push(peers.last())
        }
    }
}

/// The set of currently open peer connections, each named by its peer
/// address.
pub struct Registry {
    pub peers: Vec<String>,
}

/// What one received frame asks the handler to do: pass the raw frame on
/// to `targets`, and stop serving its connection when `done` (the frame
/// was a disconnect).
#[derive(Debug)]
pub struct RelayPlan {
    pub cmd: Lcommand,
    pub targets: Vec<String>,
    pub done: bool,
}

impl Registry {
    /// An empty registry.
    pub fn new() -> (r: Registry)
        ensures
            r.peers.deep_view() =~= Seq::<Seq<char>>::empty(),
    {
        Registry { peers: Vec::new() }
    }

    /// Registers a newly accepted connection.
    pub fn add(&mut self, peer: String)
        ensures
            final(self).peers.deep_view() == old(self).peers.deep_view().push(peer@),
    {
        let ghost before = self.peers.deep_view();
        self.peers.push(peer);
        proof {
            assert(self.peers.deep_view() =~= before.push(self.peers@.last()@));
        }
    }

    /// Unregisters a dead connection: every entry with that address
    /// leaves, every other stays, in order.
    pub fn remove(&mut self, dead: &String)
        ensures
            final(self).peers.deep_view() == peers_except(old(self).peers.deep_view(), dead@),
    {
        let kept = self.collect_except(dead);
        self.peers = kept;
    }

    /// The connections a frame from `sender` is forwarded to: every
    /// registered peer whose address differs, in registry order, and
    /// never the sender itself.
    pub fn targets(&self, sender: &String) -> (r: Vec<String>)
        ensures
            r.deep_view() == peers_except(self.peers.deep_view(), sender@),
    {
        self.collect_except(sender)
    }

    /// Copies every registered address that differs from `excluded`, in
    /// order.
    fn collect_except(&self, excluded: &String) -> (r: Vec<String>)
        ensures
            r.deep_view() == peers_except(self.peers.deep_view(), excluded@),
    {
        let ghost dv = self.peers.deep_view();
        let mut out: Vec<String> = Vec::new();
        let mut i: usize = 0;
        proof {
            assert(dv.take(0int) =~= Seq::<Seq<char>>::empty());
            assert(out.deep_view() =~= Seq::<Seq<char>>::empty());
        }
        while i < self.peers.len()
            invariant
                i <= self.peers.len(),
                dv == self.peers.deep_view(),
                dv.len() == self.peers.len(),
                out.deep_view() == peers_except(dv.take(i as int), excluded@),
            decreases self.peers.len() - i,
        {
            let ghost out_before = out.deep_view();
            let p = &self.peers[i];
            if !str_eq(p.as_str(), excluded.as_str()) {
                out.push(p.clone());
                proof {
                    assert(out.deep_view() =~= out_before.push(dv[i as int]));
                }
            }
            proof {
                let taken = dv.take(i as int + 1);
                assert(taken.drop_last() =~= dv.take(i as int));
                assert(taken.last() == dv[i as int]);
            }
            i = i + 1;
        }
        proof {
            assert(dv.take(self.peers.len() as int) =~= dv);
        }
        out
    }

    /// Decides what one received frame means for the handler that read
    /// it: the decoded command, the peers the raw frame is forwarded to
    /// (all but the sender), and whether the sender's connection is done
    /// (it sent a disconnect). A malformed frame is the decoder's error;
    /// the handler tears its own connection down and no other.
    pub fn relay_step(&self, frame: String, sender: &String) -> (r: Result<
        RelayPlan,
        ProtocolError,
    >)
        ensures
            match r {
                Ok(plan) => {
                    &&& decode_spec(frame@) == Ok::<_, ProtocolError>(
                        (plan.cmd.cmd_type, plan.cmd.user@, plan.cmd.content@),
                    )
                    &&& plan.done == (plan.cmd.cmd_type is Dc)
                    &&& plan.targets.deep_view() == peers_except(self.peers.deep_view(), sender@)
                },
                Err(e) => decode_spec(frame@) == Err::<(Lcmd, Seq<char>, Seq<char>), _>(e),
            },
    {
        match Lcommand::from(frame) {
            Err(e) => Err(e),
            Ok(cmd) => {
                let done = cmd.cmd_type == Lcmd::Dc;
                let targets = self.targets(sender);
                Ok(RelayPlan { cmd, targets, done })
            },
        }
    }
}

/// Law: a relayed frame never goes back to its sender. No entry of the
/// target list equals the sender's address.
pub proof fn lemma_no_echo(peers: Seq<Seq<char>>, sender: Seq<char>)
    ensures
        forall|j: int| 0 <= j < peers_except(peers, sender).len() ==> peers_except(peers, sender)[j]
            != sender,
    decreases peers.len(),
{
    if peers.len() > 0 {
        lemma_no_echo(peers.drop_last(), sender);
        let rest = peers_except(peers.drop_last(), sender);
        let out = peers_except(peers, sender);
        assert forall|j: int| 0 <= j < out.len() implies out[j] != sender by {
            if j < rest.len() {
                assert(out[j] == rest[j]);
            } else {
                assert(out[j] == peers.last());
            }
        }
    }
}

/// Law: broadcast exclusion. Every registered peer whose address differs
/// from the sender's is among the targets of the sender's frame (and by
/// `lemma_no_echo` the sender itself never is).
pub proof fn lemma_broadcast_exclusion(peers: Seq<Seq<char>>, sender: Seq<char>, k: int)
    requires
        0 <= k < peers.len(),
        peers[k] != sender,
    ensures
        peers_except(peers, sender).contains(peers[k]),
    decreases peers.len(),
{
    let out = peers_except(peers, sender);
    if k == peers.len() - 1 {
        assert(out.last() == peers[k]);
        assert(out.contains(peers[k])) by {
            assert(out[out.len() - 1] == peers[k]);
        }
    } else {
        lemma_broadcast_exclusion(peers.drop_last(), sender, k);
        let rest = peers_except(peers.drop_last(), sender);
        let i = choose|i: int| 0 <= i < rest.len() && rest[i] == peers.drop_last()[k];
        assert(out[i] == peers[k]);
    }
}

/// Law: fan-out resilience. The target list of a round is fixed before
/// any write is attempted, so one peer's failure cannot cost another its
/// copy: every registered peer other than the sender and the failed one
/// is among the round's targets, and is still among the targets of the
/// next round after the failed peer is removed from the registry.
pub proof fn lemma_fanout_resilience(
    peers: Seq<Seq<char>>,
    sender: Seq<char>,
    failed: Seq<char>,
    j: int,
)
    requires
        0 <= j < peers.len(),
        peers[j] != sender,
        peers[j] != failed,
    ensures
        peers_except(peers, sender).contains(peers[j]),
        peers_except(peers_except(peers, failed), sender).contains(peers[j]),
{
    lemma_broadcast_exclusion(peers, sender, j);
    lemma_broadcast_exclusion(peers, failed, j);
    let survivors = peers_except(peers, failed);
    let k = choose|k: int| 0 <= k < survivors.len() && survivors[k] == peers[j];
    lemma_broadcast_exclusion(survivors, sender, k);
}

} // verus!
