//! The per-item pipeline: a forward-only state machine that decides, for
//! one work item, whether the local copy is trusted, whether fetched
//! bytes are written, and which progress events are emitted.  The caller
//! performs the probe, the fetch and the write it asks for, and feeds
//! the findings back in; every decision in between is verified.

use vstd::prelude::*;

use crate::cache::{is_cached, spec_is_cached};
use crate::console::{ConsoleMessage, CorruptedMetadataAction, State};
use crate::hash::{sha1_of, Sha1Hash};
use crate::integrity::{bytes_authentic, verify, VerificationResult};

verus! {

/// What the pipeline waits for next.
#[derive(Clone, Copy, PartialEq, Eq, Structural, Debug)]
pub enum Phase {
    /// Needs the cache probe's findings.
    Checking,
    /// Needs the remote object's bytes.
    Fetching,
    /// Needs the pending bytes persisted.
    Writing,
    /// Terminal; nothing more to do.
    Finished,
}

/// The kind of a progress event, payloads left aside.
#[derive(Clone, Copy, PartialEq, Eq, Structural, Debug)]
pub enum StateTag {
    Checking,
    Cached,
    Processing,
    Done,
    ForciblyContinued,
    Skipped,
}

pub open spec fn state_tag(s: State) -> StateTag {
    match s {
        State::Checking => StateTag::Checking,
        State::Cached => StateTag::Cached,
        State::Processing => StateTag::Processing,
        State::Done => StateTag::Done,
        State::CorruptedMetadata(CorruptedMetadataAction::ForciblyContinued) =>
            StateTag::ForciblyContinued,
        State::CorruptedMetadata(CorruptedMetadataAction::Skipped { .. }) => StateTag::Skipped,
    }
}

pub open spec fn tags_of(msgs: Seq<ConsoleMessage>) -> Seq<StateTag> {
    msgs.map_values(|m: ConsoleMessage| state_tag(m.state))
}

/// Terminal events: exactly one ends every item's run.
pub open spec fn is_terminal(t: StateTag) -> bool {
    t == StateTag::Cached || t == StateTag::Done || t == StateTag::Skipped
}

/// The abstract state of one item's pipeline: its inputs, the phase it
/// waits in, the bytes it asks to have written, and every event emitted
/// so far.
#[verifier::ext_equal]
pub struct PipeView {
    pub hash: Seq<u8>,
    pub size: nat,
    pub index: nat,
    pub bypass: bool,
    pub phase: Phase,
    pub pending: Seq<u8>,
    pub history: Seq<StateTag>,
}

/// The reachable states of the machine: each phase admits exactly the
/// event histories of the paths that lead to it, and a forced
/// continuation is only ever recorded under the bypass flag.
pub open spec fn wf(v: PipeView) -> bool {
    &&& v.hash.len() == 20
    &&& match v.phase {
        Phase::Checking => v.history == seq![StateTag::Checking],
        Phase::Fetching => v.history == seq![StateTag::Checking],
        Phase::Writing => v.history == seq![StateTag::Checking, StateTag::Processing] || (
        v.history == seq![
            StateTag::Checking,
            StateTag::ForciblyContinued,
            StateTag::Processing,
        ] && v.bypass),
        Phase::Finished => v.history == seq![StateTag::Checking, StateTag::Cached] || v.history
            == seq![StateTag::Checking, StateTag::Processing, StateTag::Done] || (v.history
            == seq![
            StateTag::Checking,
            StateTag::ForciblyContinued,
            StateTag::Processing,
            StateTag::Done,
        ] && v.bypass) || v.history == seq![StateTag::Checking, StateTag::Skipped],
    }
}

/// The cache decision: a validated cache ends the item as `Cached`;
/// anything else falls through to a fetch.
pub open spec fn cache_step(
    v: PipeView,
    md5_header: Option<Seq<u8>>,
    local_file: Option<Seq<u8>>,
) -> PipeView {
    if spec_is_cached(v.size, md5_header, local_file) {
        PipeView { phase: Phase::Finished, history: v.history.push(StateTag::Cached), ..v }
    } else {
        PipeView { phase: Phase::Fetching, ..v }
    }
}

/// The verification decision on fetched bytes: under bypass everything
/// is forcibly written; otherwise authentic bytes are written and a
/// mismatch abandons the item with nothing written.
pub open spec fn fetch_step(v: PipeView, bytes: Seq<u8>) -> PipeView {
    if v.bypass {
        PipeView {
            phase: Phase::Writing,
            pending: bytes,
            history: v.history + seq![StateTag::ForciblyContinued, StateTag::Processing],
            ..v
        }
    } else if bytes_authentic(bytes, v.size, v.hash) {
        PipeView {
            phase: Phase::Writing,
            pending: bytes,
            history: v.history.push(StateTag::Processing),
            ..v
        }
    } else {
        PipeView { phase: Phase::Finished, history: v.history.push(StateTag::Skipped), ..v }
    }
}

/// After a successful write the item is done.
pub open spec fn write_step(v: PipeView) -> PipeView {
    PipeView { phase: Phase::Finished, history: v.history.push(StateTag::Done), ..v }
}

/// One work item's pipeline.  Events are handed back to the caller for
/// delivery; the ghost history records every event ever emitted.
pub struct ItemPipeline {
    hash: Sha1Hash,
    size: usize,
    item_index: usize,
    bypass: bool,
    phase: Phase,
    pending: Vec<u8>,
    history: Ghost<Seq<StateTag>>,
}

impl View for ItemPipeline {
    type V = PipeView;

    closed spec fn view(&self) -> PipeView {
        PipeView {
            hash: self.hash@,
            size: self.size as nat,
            index: self.item_index as nat,
            bypass: self.bypass,
            phase: self.phase,
            pending: self.pending@,
            history: self.history@,
        }
    }
}

impl ItemPipeline {
    /// Starts one item's pipeline and emits its `Checking` event.  With
    /// `force` set, cache validation is skipped entirely and the item
    /// goes straight to fetching.
    pub fn new(hash: Sha1Hash, size: usize, item_index: usize, force: bool, bypass: bool) -> (r:
        (ItemPipeline, Vec<ConsoleMessage>))
        ensures
            wf(r.0@),
            r.0@.hash == hash@,
            r.0@.size == size as nat,
            r.0@.index == item_index as nat,
            r.0@.bypass == bypass,
            r.0@.phase == (if force {
                Phase::Fetching
            } else {
                Phase::Checking
            }),
            r.0@.history == tags_of(r.1@),
            r.1@.len() == 1,
            r.1@[0].item_index == item_index,
            r.1@[0].hash@ == hash@,
            r.1@[0].state is Checking,
    {
        proof {
            use_type_invariant(&hash);
        }
        let ghost initial_history: Seq<StateTag> = seq![StateTag::Checking];
        let initial = ConsoleMessage { item_index, hash: hash.clone(), state: State::Checking };
        let mut msgs: Vec<ConsoleMessage> = Vec::new();
        msgs.push(initial);
        let pl = ItemPipeline {
            hash,
            size,
            item_index,
            bypass,
            phase: if force {
                Phase::Fetching
            } else {
                Phase::Checking
            },
            pending: Vec::new(),
            history: Ghost(initial_history),
        };
        proof {
            assert(tags_of(msgs@) =~= seq![StateTag::Checking]);
        }
        (pl, msgs)
    }

    /// The phase the pipeline waits in: which action the caller owes it.
    pub fn phase(&self) -> (p: Phase)
        ensures
            p == self@.phase,
    {
        self.phase
    }

    /// In the `Writing` phase: the bytes the caller must persist at the
    /// item's resolved path.
    pub fn bytes_to_write(&self) -> (b: &Vec<u8>)
        requires
            self@.phase == Phase::Writing,
        ensures
            b@ == self@.pending,
    {
        &self.pending
    }

    /// Feeds in what the cache probe found: the remote MD5 digest
    /// header, if any, and the local file's content, if readable.  A
    /// validated cache ends the item with a `Cached` event; otherwise
    /// the pipeline asks for a fetch, emitting nothing.
    pub fn on_cache_probe(&mut self, md5_header: Option<Vec<u8>>, local_file: Option<Vec<u8>>) -> (msgs: Vec<ConsoleMessage>)
        requires
            wf(old(self)@),
            old(self)@.phase == Phase::Checking,
        ensures
            wf(final(self)@),
            final(self)@ == cache_step(old(self)@, md5_header.deep_view(), local_file.deep_view()),
            final(self)@.history == old(self)@.history + tags_of(msgs@),
            forall|i: int|
                0 <= i < msgs@.len() ==> (#[trigger] msgs@[i]).item_index as nat == old(self)@.index
                    && msgs@[i].hash@ == old(self)@.hash,
    {
        let cached = is_cached(self.size, md5_header, local_file);
        if cached {
            let m = ConsoleMessage {
                item_index: self.item_index,
                hash: self.hash.clone(),
                state: State::Cached,
            };
            self.phase = Phase::Finished;
            proof {
                self.history@ = self.history@.push(StateTag::Cached);
            }
            let mut msgs: Vec<ConsoleMessage> = Vec::new();
            msgs.push(m);
            proof {
                assert(tags_of(msgs@) =~= seq![StateTag::Cached]);
                assert(final(self)@.history =~= old(self)@.history + tags_of(msgs@));
                assert(final(self)@.history =~= seq![StateTag::Checking, StateTag::Cached]);
                assert(final(self)@ =~= cache_step(
                    old(self)@,
                    md5_header.deep_view(),
                    local_file.deep_view(),
                ));
            }
            msgs
        } else {
            self.phase = Phase::Fetching;
            let msgs: Vec<ConsoleMessage> = Vec::new();
            proof {
                assert(tags_of(msgs@) =~= Seq::<StateTag>::empty());
                assert(final(self)@.history =~= old(self)@.history + tags_of(msgs@));
                assert(final(self)@ =~= cache_step(
                    old(self)@,
                    md5_header.deep_view(),
                    local_file.deep_view(),
                ));
            }
            msgs
        }
    }

    /// Feeds in the fetched bytes and applies the verification decision.
    /// Under bypass the bytes are accepted with a loud warning; authentic
    /// bytes move to writing; a mismatch abandons the item, emitting the
    /// digest actually computed.
    pub fn on_fetched(&mut self, bytes: Vec<u8>) -> (msgs: Vec<ConsoleMessage>)
        requires
            wf(old(self)@),
            old(self)@.phase == Phase::Fetching,
        ensures
            wf(final(self)@),
            final(self)@ == fetch_step(old(self)@, bytes@),
            final(self)@.history == old(self)@.history + tags_of(msgs@),
            forall|i: int|
                0 <= i < msgs@.len() ==> (#[trigger] msgs@[i]).item_index as nat == old(self)@.index
                    && msgs@[i].hash@ == old(self)@.hash,
            forall|i: int|
                0 <= i < msgs@.len() ==> ((#[trigger] msgs@[i]).state matches State::CorruptedMetadata(
                    CorruptedMetadataAction::Skipped { actual_hash },
                ) ==> actual_hash@ == sha1_of(bytes@)),
    {
        let verdict = verify(&bytes, self.size, &self.hash, self.bypass);
        let mut msgs: Vec<ConsoleMessage> = Vec::new();
        match verdict {
            VerificationResult::ForciblyAccepted => {
                msgs.push(
                    ConsoleMessage {
                        item_index: self.item_index,
                        hash: self.hash.clone(),
                        state: State::CorruptedMetadata(
                            CorruptedMetadataAction::ForciblyContinued,
                        ),
                    },
                );
                msgs.push(
                    ConsoleMessage {
                        item_index: self.item_index,
                        hash: self.hash.clone(),
                        state: State::Processing,
                    },
                );
                self.phase = Phase::Writing;
                self.pending = bytes;
                proof {
                    self.history@ = self.history@ + seq![
                        StateTag::ForciblyContinued,
                        StateTag::Processing,
                    ];
                    assert(tags_of(msgs@) =~= seq![
                        StateTag::ForciblyContinued,
                        StateTag::Processing,
                    ]);
                    assert(final(self)@ =~= fetch_step(old(self)@, bytes@));
                    assert(final(self)@.history =~= seq![
                        StateTag::Checking,
                        StateTag::ForciblyContinued,
                        StateTag::Processing,
                    ]);
                }
            },
            VerificationResult::Valid => {
                msgs.push(
                    ConsoleMessage {
                        item_index: self.item_index,
                        hash: self.hash.clone(),
                        state: State::Processing,
                    },
                );
                self.phase = Phase::Writing;
                self.pending = bytes;
                proof {
                    self.history@ = self.history@.push(StateTag::Processing);
                    assert(tags_of(msgs@) =~= seq![StateTag::Processing]);
                    assert(final(self)@ =~= fetch_step(old(self)@, bytes@));
                    assert(final(self)@.history =~= seq![
                        StateTag::Checking,
                        StateTag::Processing,
                    ]);
                }
            },
            VerificationResult::Mismatch(actual_hash) => {
                msgs.push(
                    ConsoleMessage {
                        item_index: self.item_index,
                        hash: self.hash.clone(),
                        state: State::CorruptedMetadata(
                            CorruptedMetadataAction::Skipped { actual_hash },
                        ),
                    },
                );
                self.phase = Phase::Finished;
                proof {
                    self.history@ = self.history@.push(StateTag::Skipped);
                    assert(tags_of(msgs@) =~= seq![StateTag::Skipped]);
                    assert(final(self)@ =~= fetch_step(old(self)@, bytes@));
                    assert(final(self)@.history =~= seq![StateTag::Checking, StateTag::Skipped]);
                }
            },
        }
        msgs
    }

    /// Acknowledges that the pending bytes were persisted; the item is
    /// done.
    pub fn on_written(&mut self) -> (msgs: Vec<ConsoleMessage>)
        requires
            wf(old(self)@),
            old(self)@.phase == Phase::Writing,
        ensures
            wf(final(self)@),
            final(self)@ == write_step(old(self)@),
            final(self)@.history == old(self)@.history + tags_of(msgs@),
            forall|i: int|
                0 <= i < msgs@.len() ==> (#[trigger] msgs@[i]).item_index as nat == old(self)@.index
                    && msgs@[i].hash@ == old(self)@.hash,
    {
        let mut msgs: Vec<ConsoleMessage> = Vec::new();
        msgs.push(
            ConsoleMessage {
                item_index: self.item_index,
                hash: self.hash.clone(),
                state: State::Done,
            },
        );
        self.phase = Phase::Finished;
        proof {
            self.history@ = self.history@.push(StateTag::Done);
            assert(tags_of(msgs@) =~= seq![StateTag::Done]);
            assert(final(self)@ =~= write_step(old(self)@));
            assert(final(self)@.history =~= old(self)@.history + tags_of(msgs@));
            if old(self)@.history == seq![StateTag::Checking, StateTag::Processing] {
                assert(final(self)@.history =~= seq![
                    StateTag::Checking,
                    StateTag::Processing,
                    StateTag::Done,
                ]);
            } else {
                assert(final(self)@.history =~= seq![
                    StateTag::Checking,
                    StateTag::ForciblyContinued,
                    StateTag::Processing,
                    StateTag::Done,
                ]);
            }
        }
        msgs
    }
}

/// How many terminal events a history holds.
pub open spec fn terminal_count(h: Seq<StateTag>) -> nat
    decreases h.len(),
{
    if h.len() == 0 {
        0
    } else {
        terminal_count(h.drop_last()) + if is_terminal(h.last()) {
            1nat
        } else {
            0nat
        }
    }
}

/// Round trip: fetched bytes whose length and SHA-1 digest match the
/// expectation always reach `Done`, and the bytes handed over for
/// writing are exactly the fetched bytes.
pub proof fn lemma_valid_download_reaches_done(v: PipeView, bytes: Seq<u8>)
    requires
        wf(v),
        v.phase == Phase::Fetching,
        !v.bypass,
        bytes_authentic(bytes, v.size, v.hash),
    ensures
        fetch_step(v, bytes).phase == Phase::Writing,
        fetch_step(v, bytes).pending == bytes,
        write_step(fetch_step(v, bytes)).phase == Phase::Finished,
        write_step(fetch_step(v, bytes)).pending == bytes,
        write_step(fetch_step(v, bytes)).history == seq![
            StateTag::Checking,
            StateTag::Processing,
            StateTag::Done,
        ],
{
    assert(write_step(fetch_step(v, bytes)).history =~= seq![
        StateTag::Checking,
        StateTag::Processing,
        StateTag::Done,
    ]);
}

/// Mismatch handling: bytes of the wrong length or digest, with bypass
/// disabled, end the item as `Skipped`; the machine never reaches the
/// writing phase and never records a write.
pub proof fn lemma_mismatch_skips(v: PipeView, bytes: Seq<u8>)
    requires
        wf(v),
        v.phase == Phase::Fetching,
        !v.bypass,
        !bytes_authentic(bytes, v.size, v.hash),
    ensures
        fetch_step(v, bytes).phase == Phase::Finished,
        fetch_step(v, bytes).pending == v.pending,
        fetch_step(v, bytes).history == seq![StateTag::Checking, StateTag::Skipped],
        !fetch_step(v, bytes).history.contains(StateTag::Processing),
        !fetch_step(v, bytes).history.contains(StateTag::Done),
{
    let h = fetch_step(v, bytes).history;
    assert(h =~= seq![StateTag::Checking, StateTag::Skipped]);
    assert forall|i: int| 0 <= i < h.len() implies h[i] != StateTag::Processing && h[i]
        != StateTag::Done by {
        assert(i == 0 || i == 1);
    }
}

/// Bypass handling: with bypass enabled the same input, matching or
/// not, is forcibly continued and reaches `Done`, the fetched bytes
/// being exactly what is handed over for writing.
pub proof fn lemma_bypass_forces_done(v: PipeView, bytes: Seq<u8>)
    requires
        wf(v),
        v.phase == Phase::Fetching,
        v.bypass,
    ensures
        fetch_step(v, bytes).phase == Phase::Writing,
        fetch_step(v, bytes).pending == bytes,
        write_step(fetch_step(v, bytes)).phase == Phase::Finished,
        write_step(fetch_step(v, bytes)).pending == bytes,
        write_step(fetch_step(v, bytes)).history == seq![
            StateTag::Checking,
            StateTag::ForciblyContinued,
            StateTag::Processing,
            StateTag::Done,
        ],
{
    assert(write_step(fetch_step(v, bytes)).history =~= seq![
        StateTag::Checking,
        StateTag::ForciblyContinued,
        StateTag::Processing,
        StateTag::Done,
    ]);
}

/// Every finished run emitted exactly one terminal event; it is the
/// last event, and the run began with `Checking`.
pub proof fn lemma_one_terminal_event(v: PipeView)
    requires
        wf(v),
        v.phase == Phase::Finished,
    ensures
        terminal_count(v.history) == 1,
        v.history.len() >= 1,
        is_terminal(v.history.last()),
        v.history[0] == StateTag::Checking,
{
    lemma_terminal_count_concrete(v.history);
}

proof fn lemma_terminal_count_concrete(h: Seq<StateTag>)
    requires
        h == seq![StateTag::Checking, StateTag::Cached] || h == seq![
            StateTag::Checking,
            StateTag::Processing,
            StateTag::Done,
        ] || h == seq![
            StateTag::Checking,
            StateTag::ForciblyContinued,
            StateTag::Processing,
            StateTag::Done,
        ] || h == seq![StateTag::Checking, StateTag::Skipped],
    ensures
        terminal_count(h) == 1,
{
    let e = Seq::<StateTag>::empty();
    let c = seq![StateTag::Checking];
    assert(c.drop_last() =~= e);
    assert(terminal_count(e) == 0);
    assert(terminal_count(c) == 0);
    if h == seq![StateTag::Checking, StateTag::Cached] {
        assert(h.drop_last() =~= c);
        assert(terminal_count(h) == terminal_count(c) + 1);
    } else if h == seq![StateTag::Checking, StateTag::Processing, StateTag::Done] {
        let cp = seq![StateTag::Checking, StateTag::Processing];
        assert(cp.drop_last() =~= c);
        assert(terminal_count(cp) == terminal_count(c));
        assert(h.drop_last() =~= cp);
        assert(terminal_count(h) == terminal_count(cp) + 1);
    } else if h == seq![
        StateTag::Checking,
        StateTag::ForciblyContinued,
        StateTag::Processing,
        StateTag::Done,
    ] {
        let cf = seq![StateTag::Checking, StateTag::ForciblyContinued];
        let cfp = seq![StateTag::Checking, StateTag::ForciblyContinued, StateTag::Processing];
        assert(cf.drop_last() =~= c);
        assert(terminal_count(cf) == terminal_count(c));
        assert(cfp.drop_last() =~= cf);
        assert(terminal_count(cfp) == terminal_count(cf));
        assert(h.drop_last() =~= cfp);
        assert(terminal_count(h) == terminal_count(cfp) + 1);
    } else {
        assert(h.drop_last() =~= c);
        assert(terminal_count(h) == terminal_count(c) + 1);
    }
}

} // verus!
