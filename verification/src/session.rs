use vstd::prelude::*;
use crate::channel::{channel_name, channel_name_view};

verus! {

/// One event handed to the transport for delivery on a subscription's
/// channel: a serialized response item, or the terminal sentinel (`None`),
/// marking that nothing further will ever be sent on that channel.
pub struct Emission {
    pub channel: String,
    pub payload: Option<String>,
}

/// The event lifecycle of one subscription. The session derives the channel
/// name from the caller-chosen id once, hands out the emissions owed on that
/// channel in order, and closes either by the terminal sentinel (the stream
/// ended) or by aborting (a delivery or serialization failure ended the
/// drain loop early, in which case no sentinel is ever sent).
pub struct SubscriptionSession {
    channel: String,
    open: bool,
    history: Ghost<Seq<Option<Seq<char>>>>,
}

impl SubscriptionSession {
    /// The channel every emission of this session names.
    pub closed spec fn channel_view(&self) -> Seq<char> {
        self.channel@
    }

    /// Whether the stream is still being drained: only an open session may
    /// emit.
    pub closed spec fn is_open(&self) -> bool {
        self.open
    }

    /// The payloads handed out so far, in order; `None` is the terminal
    /// sentinel.
    pub closed spec fn history_view(&self) -> Seq<Option<Seq<char>>> {
        self.history@
    }

    /// While the session is open no sentinel has been handed out, and a
    /// sentinel, once handed out, is the last emission ever.
    pub open spec fn wf(&self) -> bool {
        &&& (self.is_open() ==> forall|i: int|
            0 <= i < self.history_view().len() ==> #[trigger] self.history_view()[i] is Some)
        &&& (forall|i: int|
            0 <= i < self.history_view().len() - 1 ==> #[trigger] self.history_view()[i] is Some)
    }

    /// Opens the session for subscription id `id`, deriving the channel name
    /// that stays fixed for the session's whole life. No event has been
    /// emitted yet.
    pub fn new(id: u32) -> (s: Self)
        ensures
            s.channel_view() == channel_name_view(id),
            s.is_open(),
            s.history_view() == Seq::<Option<Seq<char>>>::empty(),
            s.wf(),
    {
        SubscriptionSession { channel: channel_name(id), open: true, history: Ghost(Seq::empty()) }
    }

    /// One stream item, already serialized: returns the emission owed on the
    /// session's channel, in arrival order, and the session stays open for
    /// the next item.
    pub fn on_item(&mut self, body: String) -> (e: Emission)
        requires
            old(self).is_open(),
            old(self).wf(),
        ensures
            final(self).is_open(),
            final(self).wf(),
            final(self).channel_view() == old(self).channel_view(),
            final(self).history_view() == old(self).history_view().push(Some(body@)),
            e.channel@ == old(self).channel_view(),
            e.payload matches Some(p) && p@ == body@,
    {
        let e = Emission { channel: self.channel.clone(), payload: Some(body) };
        proof {
            self.history@ = self.history@.push(Some(body@));
        }
        e
    }

    /// The stream ended naturally: returns the terminal sentinel owed on the
    /// channel, as the last emission ever, and closes the session.
    pub fn finish(&mut self) -> (e: Emission)
        requires
            old(self).is_open(),
            old(self).wf(),
        ensures
            !final(self).is_open(),
            final(self).wf(),
            final(self).channel_view() == old(self).channel_view(),
            final(self).history_view() == old(self).history_view().push(
                Option::<Seq<char>>::None,
            ),
            e.channel@ == old(self).channel_view(),
            e.payload is None,
    {
        self.open = false;
        proof {
            self.history@ = self.history@.push(Option::<Seq<char>>::None);
        }
        Emission { channel: self.channel.clone(), payload: Option::None }
    }

    /// A failed delivery, or a per-item serialization failure: the drain
    /// loop ends here. The session closes with nothing more handed out — in
    /// particular, no terminal sentinel follows an abort.
    pub fn abort(&mut self)
        requires
            old(self).wf(),
        ensures
            !final(self).is_open(),
            final(self).wf(),
            final(self).channel_view() == old(self).channel_view(),
            final(self).history_view() == old(self).history_view(),
    {
        self.open = false;
    }

    /// Law: the terminal sentinel is never interleaved with or followed by a
    /// later event — wherever a sentinel stands in a session's history, it
    /// is the last emission.
    pub proof fn lemma_sentinel_is_terminal(s: &SubscriptionSession, i: int)
        requires
            s.wf(),
            0 <= i < s.history_view().len(),
            s.history_view()[i] is None,
        ensures
            i == s.history_view().len() - 1,
    {
    }
}

/// Each of the first `events.len()` events carries, on channel `chan`, the
/// corresponding item of `items`, in order.
pub open spec fn events_match_prefix(
    chan: Seq<char>,
    items: Seq<Seq<char>>,
    events: Seq<Emission>,
) -> bool
    decreases events.len(),
{
    if events.len() == 0 {
        true
    } else {
        &&& events_match_prefix(chan, items, events.drop_last())
        &&& events.len() <= items.len()
        &&& events.last().channel@ == chan
        &&& (events.last().payload matches Some(p) && p@ == items[events.len() - 1])
    }
}

/// Law helper: reads `events_match_prefix` pointwise — the `i`-th event
/// carries the `i`-th item on channel `chan`.
pub proof fn lemma_events_match_index(
    chan: Seq<char>,
    items: Seq<Seq<char>>,
    events: Seq<Emission>,
    i: int,
)
    requires
        events_match_prefix(chan, items, events),
        0 <= i < events.len(),
    ensures
        events[i].channel@ == chan,
        events[i].payload matches Some(p) && p@ == items[i],
    decreases events.len(),
{
    if i < events.len() - 1 {
        lemma_events_match_index(chan, items, events.drop_last(), i);
    }
}

proof fn lemma_events_match_push(
    chan: Seq<char>,
    items: Seq<Seq<char>>,
    events: Seq<Emission>,
    e: Emission,
)
    requires
        events_match_prefix(chan, items, events),
        events.len() < items.len(),
        e.channel@ == chan,
        e.payload matches Some(p) && p@ == items[events.len() as int],
    ensures
        events_match_prefix(chan, items, events.push(e)),
{
    assert(events.push(e).drop_last() =~= events);
    assert(events.push(e).last() == e);
}

/// Law: a stream of `n` items that ends naturally, with every delivery
/// succeeding, puts exactly `n + 1` events on the id's channel — the items
/// in arrival order, then the terminal sentinel, and nothing else.
pub fn drain_all(id: u32, items: Vec<String>) -> (events: Vec<Emission>)
    ensures
        events@.len() == items@.len() + 1,
        events_match_prefix(
            channel_name_view(id),
            items@.map_values(|s: String| s@),
            events@.drop_last(),
        ),
        events@.last().channel@ == channel_name_view(id),
        events@.last().payload is None,
{
    let ghost item_views = items@.map_values(|s: String| s@);
    let mut session = SubscriptionSession::new(id);
    let mut events: Vec<Emission> = Vec::new();
    let mut i: usize = 0;
    while i < items.len()
        invariant
            i <= items.len(),
            item_views == items@.map_values(|s: String| s@),
            session.wf(),
            session.is_open(),
            session.channel_view() == channel_name_view(id),
            events@.len() == i,
            events_match_prefix(channel_name_view(id), item_views, events@),
        decreases items.len() - i,
    {
        let e = session.on_item(items[i].clone());
        proof {
            lemma_events_match_push(channel_name_view(id), item_views, events@, e);
        }
        events.push(e);
        i += 1;
    }
    let e = session.finish();
    let ghost gevents = events@;
    events.push(e);
    proof {
        assert(events@.drop_last() =~= gevents);
    }
    events
}

} // verus!
