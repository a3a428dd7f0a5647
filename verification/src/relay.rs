//! The server's relay of upload announcements to its subscribers.
//!
//! Each announcement is encoded once; subscribers that asked to join since the last
//! announcement are admitted, the encoded event is offered to every subscriber, and
//! only those that accepted it stay for the next one.
use vstd::prelude::*;
use crate::model::{EventData, EventView};
use crate::text::same_text;

verus! {

/// The file name that marks a keep-alive announcement.
pub open spec fn ping_name() -> Seq<char> {
    seq!['/', '/', 'P', 'I', 'N', 'G']
}

/// Whether an announcement is the keep-alive ping.
pub fn is_ping(filename: &str) -> (ping: bool)
    ensures
        ping == (filename@ == ping_name()),
{
    let marker = "//PING";
    proof {
        reveal_strlit("//PING");
        assert(marker@ =~= ping_name());
    }
    same_text(filename, marker)
}

/// Seconds between two keep-alive pings.
pub const PING_INTERVAL_SECS: u64 = 5;

/// The keep-alive announcement: the ping file name, nil ids and empty texts.
pub fn ping_event() -> (event: EventData)
    ensures
        event@ == (EventView {
            filename: ping_name(),
            file_id: 0,
            groupname: Seq::empty(),
            group_id: 0,
            sender: Seq::empty(),
        }),
{
    let marker = "//PING";
    let blank = "";
    proof {
        reveal_strlit("//PING");
        reveal_strlit("");
        assert(marker@ =~= ping_name());
        assert(blank@ =~= Seq::<char>::empty());
    }
    EventData {
        filename: String::from_str(marker),
        file_id: 0,
        groupname: String::from_str(blank),
        group_id: 0,
        sender: String::from_str(blank),
    }
}

/// What the relay does with one announcement.
#[derive(Debug, Clone, Copy, PartialEq, Eq)]
pub struct RelayPlan {
    /// Print the announcement to the server log.
    pub log: bool,
    /// Admit waiting subscribers and offer the encoded event to all of them.
    pub forward: bool,
}

/// Decides what happens to an announcement: everything but the keep-alive ping is
/// logged, and it is forwarded only when it could be encoded as a server-sent event
/// (otherwise the failure is reported and the subscriber list is left untouched).
pub fn plan_announcement(event: &EventData, encoded: bool) -> (plan: RelayPlan)
    ensures
        plan.log == (event.filename@ != ping_name()),
        plan.forward == encoded,
{
    RelayPlan { log: !is_ping(event.filename.as_str()), forward: encoded }
}

/// The subscribers whose delivery succeeded, in their original order.
pub open spec fn kept<S>(subs: Seq<S>, delivered: Seq<bool>) -> Seq<S>
    decreases subs.len(),
{
    if subs.len() == 0 {
        Seq::empty()
    } else {
        let rest = kept(subs.drop_last(), delivered.take(subs.len() - 1));
        if delivered[subs.len() - 1] {
            rest.push(subs.last())
        } else {
            rest
        }
    }
}

/// The number of successful deliveries.
pub open spec fn count_delivered(delivered: Seq<bool>) -> nat
    decreases delivered.len(),
{
    if delivered.len() == 0 {
        0
    } else {
        count_delivered(delivered.drop_last()) + if delivered.last() {
            1nat
        } else {
            0nat
        }
    }
}

/// The subscriber list of the relay.
pub struct Relay<S> {
    subscribers: Vec<S>,
}

impl<S> View for Relay<S> {
    type V = Seq<S>;

    closed spec fn view(&self) -> Seq<S> {
        self.subscribers@
    }
}

impl<S> Relay<S> {
    /// A relay with no subscribers.
    pub fn new() -> (relay: Self)
        ensures
            relay@ == Seq::<S>::empty(),
    {
        Relay { subscribers: Vec::new() }
    }

    /// Adds a subscriber at the end of the list.
    pub fn add_subscriber(&mut self, subscriber: S)
        ensures
            final(self)@ == old(self)@.push(subscriber),
    {
        self.subscribers.push(subscriber);
    }

    /// The number of subscribers.
    pub fn len(&self) -> (n: usize)
        ensures
            n == self@.len(),
    {
        self.subscribers.len()
    }

    /// Hands the subscribers out for delivery, leaving the relay empty.
    pub fn take_all(&mut self) -> (subscribers: Vec<S>)
        ensures
            subscribers@ == old(self)@,
            final(self)@ == Seq::<S>::empty(),
    {
        let mut taken: Vec<S> = Vec::new();
        std::mem::swap(&mut taken, &mut self.subscribers);
        taken
    }

    /// Puts back, in order, the subscribers that accepted the last event:
    /// `delivered[i]` tells whether `subscribers[i]` accepted it.
    pub fn keep_delivered(&mut self, subscribers: Vec<S>, delivered: &Vec<bool>)
        requires
            subscribers@.len() == delivered@.len(),
        ensures
            final(self)@ == old(self)@ + kept(subscribers@, delivered@),
    {
        let mut living = living_subscribers(subscribers, delivered);
        let ghost before = self.subscribers@;
        self.subscribers.append(&mut living);
        assert(self.subscribers@ == before + kept(subscribers@, delivered@));
    }
}

proof fn lemma_kept_take_step<S>(subs: Seq<S>, delivered: Seq<bool>, i: int)
    requires
        0 <= i < subs.len(),
        subs.len() == delivered.len(),
    ensures
        kept(subs.take(i + 1), delivered.take(i + 1)) == if delivered[i] {
            kept(subs.take(i), delivered.take(i)).push(subs[i])
        } else {
            kept(subs.take(i), delivered.take(i))
        },
{
    assert(subs.take(i + 1).drop_last() =~= subs.take(i));
    assert(delivered.take(i + 1).take(i) =~= delivered.take(i));
}

/// The subscribers whose delivery succeeded, in their original order:
/// `delivered[i]` tells whether `subscribers[i]` accepted the event.
pub fn living_subscribers<S>(subscribers: Vec<S>, delivered: &Vec<bool>) -> (living: Vec<S>)
    requires
        subscribers@.len() == delivered@.len(),
    ensures
        living@ == kept(subscribers@, delivered@),
{
    let ghost all = subscribers@;
    let mut living: Vec<S> = Vec::new();
    let mut i: usize = 0;
    assert(all.take(0) =~= Seq::<S>::empty());
    for sub in it: subscribers.into_iter()
        invariant
            it.seq() == all,
            i == it.index(),
            i <= all.len(),
            all.len() == delivered@.len(),
            delivered@.len() == delivered.len(),
            living@ == kept(all.take(i as int), delivered@.take(i as int)),
    {
        proof {
            lemma_kept_take_step(all, delivered@, i as int);
        }
        if delivered[i] {
            living.push(sub);
        }
        i = i + 1;
    }
    assert(all.take(all.len() as int) =~= all);
    assert(delivered@.take(all.len() as int) =~= delivered@);
    living
}

/// As many subscribers stay as accepted the event.
pub proof fn law_kept_count<S>(subs: Seq<S>, delivered: Seq<bool>)
    requires
        subs.len() == delivered.len(),
    ensures
        kept(subs, delivered).len() == count_delivered(delivered),
    decreases subs.len(),
{
    if subs.len() > 0 {
        law_kept_count(subs.drop_last(), delivered.take(subs.len() - 1));
        assert(delivered.take(subs.len() - 1) =~= delivered.drop_last());
    }
}

/// When every subscriber accepts the event, the list is unchanged.
pub proof fn law_all_delivered_keeps_all<S>(subs: Seq<S>, delivered: Seq<bool>)
    requires
        subs.len() == delivered.len(),
        forall|i: int| 0 <= i < delivered.len() ==> delivered[i],
    ensures
        kept(subs, delivered) == subs,
    decreases subs.len(),
{
    if subs.len() > 0 {
        let d = delivered.take(subs.len() - 1);
        assert forall|i: int| 0 <= i < d.len() implies d[i] by {
            assert(d[i] == delivered[i]);
        }
        law_all_delivered_keeps_all(subs.drop_last(), d);
        assert(subs.drop_last().push(subs.last()) =~= subs);
    }
}

/// Every subscriber that accepted the event stays, and every one that stays accepted it:
/// a subscriber whose delivery failed gets no further event.
pub proof fn law_kept_exactly_delivered<S>(subs: Seq<S>, delivered: Seq<bool>)
    requires
        subs.len() == delivered.len(),
    ensures
        forall|i: int| 0 <= i < subs.len() && delivered[i] ==> kept(subs, delivered).contains(
            #[trigger] subs[i],
        ),
        forall|x: S| kept(subs, delivered).contains(x) ==> exists|i: int|
            0 <= i < subs.len() && delivered[i] && #[trigger] subs[i] == x,
    decreases subs.len(),
{
    if subs.len() > 0 {
        let n: int = subs.len() - 1;
        let front = subs.drop_last();
        let d = delivered.take(n);
        law_kept_exactly_delivered(front, d);
        let rest = kept(front, d);
        assert forall|i: int| 0 <= i < subs.len() && delivered[i] implies kept(subs, delivered).contains(
            #[trigger] subs[i],
        ) by {
            if i < n {
                assert(front[i] == subs[i]);
                assert(d[i] == delivered[i]);
                assert(rest.contains(front[i]));
                let j = choose|j: int| 0 <= j < rest.len() && rest[j] == front[i];
                if delivered[n] {
                    assert(rest.push(subs.last())[j] == subs[i]);
                }
            } else {
                assert(rest.push(subs.last())[rest.len() as int] == subs[i]);
            }
        }
        assert forall|x: S| kept(subs, delivered).contains(x) implies exists|i: int|
            0 <= i < subs.len() && delivered[i] && #[trigger] subs[i] == x by {
            let j = choose|j: int| 0 <= j < kept(subs, delivered).len() && kept(subs, delivered)[j] == x;
            if j < rest.len() {
                assert(rest[j] == x);
                assert(rest.contains(x));
                let i = choose|i: int| 0 <= i < front.len() && d[i] && #[trigger] front[i] == x;
                assert(subs[i] == front[i] && delivered[i] == d[i]);
            } else {
                assert(delivered[n] && subs[n] == x);
            }
        }
    }
}

} // verus!
