use vstd::prelude::*;
use std::collections::VecDeque;
use rand::rngs::StdRng;
use rand::seq::SliceRandom;

verus! {

/// The standard seeded random number generator of `rand` (ChaCha with 12
/// rounds), used to shuffle.
#[verifier::external_type_specification]
#[verifier::external_body]
pub struct ExStdRng(StdRng);

/// A single entry in the playback queue.
#[derive(Debug, Clone)]
pub struct QueueEntry {
    pub track_id: String,
    pub title: String,
    pub artist: String,
    pub album: String,
    /// Duration in seconds (0 if unknown before playback).
    pub duration: u32,
    /// Resolved stream URL ready to pass to the player.
    pub stream_url: String,
}

/// The playback queue: the track now playing, the tracks still to come in
/// order, and the tracks already played, oldest first.
#[derive(Debug)]
pub struct PlaybackQueue {
    pub current: Option<QueueEntry>,
    pub upcoming: VecDeque<QueueEntry>,
    pub history: Vec<QueueEntry>,
}

/// Mathematical model of a `PlaybackQueue`.
pub struct QueueView {
    pub current: Option<QueueEntry>,
    pub upcoming: Seq<QueueEntry>,
    pub history: Seq<QueueEntry>,
}

impl View for PlaybackQueue {
    type V = QueueView;

    open spec fn view(&self) -> QueueView {
        QueueView { current: self.current, upcoming: self.upcoming@, history: self.history@ }
    }
}

/// The current entry as a sequence of zero or one element.
pub open spec fn option_seq(o: Option<QueueEntry>) -> Seq<QueueEntry> {
    match o {
        Some(e) => seq![e],
        None => Seq::empty(),
    }
}

/// The whole playlist in play order: history, then the current entry, then upcoming.
pub open spec fn flatten(q: QueueView) -> Seq<QueueEntry> {
    q.history + option_seq(q.current) + q.upcoming
}

/// `advance`: the current entry (if any) moves to the end of history and the
/// first upcoming entry (if any) becomes current.
pub open spec fn spec_advance(q: QueueView) -> QueueView {
    QueueView {
        history: q.history + option_seq(q.current),
        current: if q.upcoming.len() > 0 { Some(q.upcoming[0]) } else { None },
        upcoming: if q.upcoming.len() > 0 { q.upcoming.drop_first() } else { q.upcoming },
    }
}

/// `step_back`: with a non-empty history, the current entry (if any) moves to
/// the front of upcoming and the last history entry becomes current; with an
/// empty history nothing changes.
pub open spec fn spec_step_back(q: QueueView) -> QueueView {
    if q.history.len() > 0 {
        QueueView {
            history: q.history.drop_last(),
            current: Some(q.history.last()),
            upcoming: option_seq(q.current) + q.upcoming,
        }
    } else {
        q
    }
}

/// `restart_cycle`: history followed by the current entry is turned back
/// into a current entry (the first of them) followed by the rest, which is
/// appended to upcoming; history becomes empty. With nothing played and no
/// current entry nothing changes.
pub open spec fn spec_restart_cycle(q: QueueView) -> QueueView {
    let all = q.history + option_seq(q.current);
    if all.len() > 0 {
        QueueView { history: Seq::empty(), current: Some(all[0]), upcoming: q.upcoming + all.drop_first() }
    } else {
        q
    }
}

/// The same entries, possibly in another order.
pub open spec fn is_permutation(a: Seq<QueueEntry>, b: Seq<QueueEntry>) -> bool {
    a.to_multiset() == b.to_multiset()
}

/// Randomly reorders `items` in place through `rand`'s `SliceRandom::shuffle`
/// driven by `rng` (a Fisher–Yates pass of swaps, which cannot fail on a
/// `StdRng`). The contract claims what holds of every outcome: the result
/// holds the same entries as before, each as often; and with two entries or
/// more the generator is drawn from (each swap draws an index through
/// `gen_range`, which takes at least one `u32` from the generator and so
/// moves it on), so it is left in another state. Which order comes out is
/// left unsaid: it depends on the generator's state, and `rand` documents
/// `StdRng`'s stream as not reproducible across versions and
/// configurations.
#[verifier::external_body]
fn shuffle_entries(items: &mut Vec<QueueEntry>, rng: &mut StdRng)
    ensures
        final(items)@.len() == old(items)@.len(),
        is_permutation(final(items)@, old(items)@),
        old(items)@.len() >= 2 ==> *final(rng) != *old(rng),
{
    items.shuffle(rng);
}

impl PlaybackQueue {
    /// An empty queue.
    pub fn new() -> (q: Self)
        ensures
            q@.current is None,
            q@.upcoming.len() == 0,
            q@.history.len() == 0,
    {
        PlaybackQueue { current: None, upcoming: VecDeque::new(), history: Vec::new() }
    }

    /// Move the current track into history and pop the next track from upcoming.
    /// Returns a reference to the new current track, or `None` if the queue is empty.
    pub fn advance(&mut self) -> (r: Option<&QueueEntry>)
        ensures
            final(self)@ == spec_advance(old(self)@),
            r is Some <==> final(self)@.current is Some,
            r matches Some(e) ==> *e == final(self)@.current.unwrap(),
    {
        if let Some(current) = self.current.take() {
            self.history.push(current);
        }
        self.current = self.upcoming.pop_front();
        proof {
            assert(self@.history =~= spec_advance(old(self)@).history);
            assert(self@.upcoming =~= spec_advance(old(self)@).upcoming);
        }
        self.current.as_ref()
    }

    /// Step back: push current to the front of upcoming and restore the last history entry.
    /// Returns a reference to the restored track, or `None` if there is no history
    /// and no current track.
    pub fn step_back(&mut self) -> (r: Option<&QueueEntry>)
        ensures
            final(self)@ == spec_step_back(old(self)@),
            r is Some <==> final(self)@.current is Some,
            r matches Some(e) ==> *e == final(self)@.current.unwrap(),
    {
        if let Some(prev) = self.history.pop() {
            if let Some(current) = self.current.take() {
                self.upcoming.push_front(current);
            }
            self.current = Some(prev);
            proof {
                assert(self@.history =~= spec_step_back(old(self)@).history);
                assert(self@.upcoming =~= spec_step_back(old(self)@).upcoming);
            }
        }
        self.current.as_ref()
    }

    /// Randomise the upcoming queue in place; history and the current entry stay.
    /// The order is drawn from `rng`: with two upcoming entries or more the
    /// generator is drawn from and left in another state.
    pub fn shuffle_upcoming(&mut self, rng: &mut StdRng)
        ensures
            final(self)@.current == old(self)@.current,
            final(self)@.history == old(self)@.history,
            final(self)@.upcoming.len() == old(self)@.upcoming.len(),
            is_permutation(final(self)@.upcoming, old(self)@.upcoming),
            old(self)@.upcoming.len() >= 2 ==> *final(rng) != *old(rng),
    {
        let ghost original = self.upcoming@;
        let mut items: Vec<QueueEntry> = Vec::new();
        while self.upcoming.len() > 0
            invariant
                items@ + self.upcoming@ == original,
                self@.current == old(self)@.current,
                self@.history == old(self)@.history,
            decreases self.upcoming@.len(),
        {
            let ghost before = self.upcoming@;
            let e = self.upcoming.pop_front().unwrap();
            items.push(e);
            proof {
                assert(before =~= seq![e] + self.upcoming@);
                assert(items@ + self.upcoming@ =~= original);
            }
        }
        assert(items@ =~= original);
        shuffle_entries(&mut items, rng);
        let ghost shuffled = items@;
        while items.len() > 0
            invariant
                items@ + self.upcoming@ == shuffled,
                self@.current == old(self)@.current,
                self@.history == old(self)@.history,
            decreases items@.len(),
        {
            let ghost before = items@;
            let e = items.pop().unwrap();
            self.upcoming.push_front(e);
            proof {
                assert(before =~= items@.push(e));
                assert(items@ + self.upcoming@ =~= shuffled);
            }
        }
        assert(self.upcoming@ =~= shuffled);
    }

    /// Restart the full playlist from the beginning for `RepeatMode::All`.
    /// History + current are converted back into current + upcoming in order.
    pub fn restart_cycle(&mut self) -> (r: Option<&QueueEntry>)
        ensures
            final(self)@ == spec_restart_cycle(old(self)@),
            r is Some <==> (old(self)@.history.len() > 0 || old(self)@.current is Some),
            r matches Some(e) ==> final(self)@.current == Some(*e),
    {
        let ghost start = self@;
        let mut all: VecDeque<QueueEntry> = VecDeque::new();
        while self.history.len() > 0
            invariant
                self.history@ + all@ == start.history,
                self.current == start.current,
                self.upcoming@ == start.upcoming,
            decreases self.history@.len(),
        {
            let ghost before = self.history@;
            let e = self.history.pop().unwrap();
            all.push_front(e);
            proof {
                assert(before =~= self.history@.push(e));
                assert(self.history@ + all@ =~= start.history);
            }
        }
        assert(all@ =~= start.history);
        if let Some(current) = self.current.take() {
            all.push_back(current);
        }
        assert(all@ =~= start.history + option_seq(start.current));
        if all.len() == 0 {
            return None;
        }
        self.current = all.pop_front();
        self.upcoming.append(&mut all);
        proof {
            assert(self@.history =~= spec_restart_cycle(start).history);
            assert(self@.upcoming =~= spec_restart_cycle(start).upcoming);
        }
        self.current.as_ref()
    }
}

impl Default for PlaybackQueue {
    fn default() -> (q: Self)
        ensures
            q@.current is None,
            q@.upcoming.len() == 0,
            q@.history.len() == 0,
    {
        PlaybackQueue::new()
    }
}

// ---------------------------------------------------------------------------
// Laws of the queue
// ---------------------------------------------------------------------------

/// Advancing never reorders, loses or duplicates an entry: the playlist in
/// play order (history, current, upcoming) is the same before and after.
pub proof fn lemma_advance_keeps_playlist(q: QueueView)
    ensures
        flatten(spec_advance(q)) == flatten(q),
{
    let a = spec_advance(q);
    if q.upcoming.len() > 0 {
        assert(q.upcoming =~= seq![q.upcoming[0]] + q.upcoming.drop_first());
        assert(flatten(a) =~= flatten(q));
    } else {
        assert(flatten(a) =~= flatten(q));
    }
}

/// Stepping back never reorders, loses or duplicates an entry either.
pub proof fn lemma_step_back_keeps_playlist(q: QueueView)
    ensures
        flatten(spec_step_back(q)) == flatten(q),
{
    if q.history.len() > 0 {
        assert(q.history =~= q.history.drop_last().push(q.history.last()));
        assert(flatten(spec_step_back(q)) =~= flatten(q));
    }
}

/// Stepping back right after advancing from a current track restores the
/// queue exactly: the previous track is current again and the track that
/// had been advanced to is first in upcoming once more.
pub proof fn lemma_step_back_undoes_advance(q: QueueView)
    requires
        q.current is Some,
    ensures
        spec_step_back(spec_advance(q)) == q,
{
    let a = spec_advance(q);
    let b = spec_step_back(a);
    assert(a.history.len() > 0);
    assert(b.history =~= q.history);
    assert(b.current == q.current);
    if q.upcoming.len() > 0 {
        assert(b.upcoming =~= q.upcoming);
    } else {
        assert(b.upcoming =~= q.upcoming);
    }
}

/// Once upcoming has run out, restarting the cycle keeps the playlist in
/// play order, empties history and makes the first track played current.
pub proof fn lemma_restart_cycle_replays_in_order(q: QueueView)
    requires
        q.upcoming.len() == 0,
        q.history.len() > 0 || q.current is Some,
    ensures
        flatten(spec_restart_cycle(q)) == flatten(q),
        spec_restart_cycle(q).history.len() == 0,
        spec_restart_cycle(q).current == Some(flatten(q)[0]),
{
    let all = q.history + option_seq(q.current);
    assert(all.len() > 0);
    assert(all =~= seq![all[0]] + all.drop_first());
    assert(flatten(q) =~= all);
    assert(flatten(spec_restart_cycle(q)) =~= all);
}

/// Restarting the cycle, in any state, keeps every entry, each as often.
pub proof fn lemma_restart_cycle_keeps_entries(q: QueueView)
    ensures
        is_permutation(flatten(spec_restart_cycle(q)), flatten(q)),
{
    let all = q.history + option_seq(q.current);
    if all.len() > 0 {
        let h = seq![all[0]];
        let t = all.drop_first();
        let u = q.upcoming;
        assert(all =~= h + t);
        assert(flatten(spec_restart_cycle(q)) =~= h + u + t);
        assert(flatten(q) =~= h + t + u);
        vstd::seq_lib::lemma_multiset_commutative(h + u, t);
        vstd::seq_lib::lemma_multiset_commutative(h, u);
        vstd::seq_lib::lemma_multiset_commutative(h + t, u);
        vstd::seq_lib::lemma_multiset_commutative(h, t);
        broadcast use vstd::multiset::group_multiset_axioms;

        assert((h + u + t).to_multiset() =~= (h + t + u).to_multiset());
    }
}

} // verus!
