//! The simulator: the peripheral regions of the bus, the device state the
//! regions share with the interrupt path, and the connection logic of the
//! console link.
use vstd::prelude::*;

use crate::regions::mmio_handler::MmioHandler;
use crate::vector_table::VectorTablePtr;

verus! {

/// Index of the first handler from `k` on whose range holds `address`.
pub open spec fn first_covering<H: MmioHandler>(hs: Seq<H>, address: usize, k: int) -> Option<int>
    decreases hs.len() - k,
{
    if k < 0 || k >= hs.len() {
        None
    } else if hs[k].covers(address) {
        Some(k)
    } else {
        first_covering(hs, address, k + 1)
    }
}

/// The handlers of the simulated bus, searched in order.
pub struct Simulator<H> {
    pub handlers: Vec<H>,
}

impl<H: MmioHandler> Simulator<H> {
    pub fn new(handlers: Vec<H>) -> (r: Self)
        ensures
            r.handlers@ == handlers@,
    {
        Self { handlers }
    }

    /// The first handler whose range holds `address`.
    pub fn lookup_handler(&mut self, address: usize) -> (r: Option<&mut H>)
        ensures
            match first_covering(old(self).handlers@, address, 0) {
                Some(i) => r is Some && *r->0 == old(self).handlers@[i] && final(self).handlers@
                    == old(self).handlers@.update(i, *final(r->0)),
                None => r is None && final(self).handlers@ == old(self).handlers@,
            },
    {
        let mut i: usize = 0;
        while i < self.handlers.len()
            invariant
                i <= self.handlers@.len(),
                self.handlers@ == old(self).handlers@,
                first_covering(old(self).handlers@, address, 0) == first_covering(
                    old(self).handlers@,
                    address,
                    i as int,
                ),
            decreases self.handlers@.len() - i,
        {
            if self.handlers[i].contains(address) {
                return Some(&mut self.handlers[i]);
            }
            i = i + 1;
        }
        None
    }
}

/// The device state shared between the peripheral regions and the
/// interrupt path: the registered vector table and the interrupt being
/// served.
#[derive(Clone, Copy, Debug)]
pub struct DeviceState {
    pub vector_table: VectorTablePtr,
    pub active_interrupt: Option<u32>,
}

impl DeviceState {
    pub fn new() -> (r: Self)
        ensures
            r.vector_table.0 == 0,
            r.active_interrupt is None,
    {
        Self { vector_table: VectorTablePtr::new_null(), active_interrupt: None }
    }

    pub fn get_vector_table(&self) -> (r: VectorTablePtr)
        ensures
            r == self.vector_table,
    {
        self.vector_table
    }

    pub fn set_vector_table(&mut self, vector_table: VectorTablePtr)
        ensures
            final(self).vector_table == vector_table,
            final(self).active_interrupt == old(self).active_interrupt,
    {
        self.vector_table = vector_table;
    }

    pub fn get_active_interrupt(&self) -> (r: Option<u32>)
        ensures
            r == self.active_interrupt,
    {
        self.active_interrupt
    }

    /// Starts serving interrupt `irqn` whose vector table entries are
    /// `entries`: returns the handler to run and marks the interrupt active,
    /// or returns nothing (and changes nothing) when the table has no
    /// handler for it.
    pub fn begin_interrupt(&mut self, irqn: u32, entries: &[u64]) -> (handler: Option<u64>)
        ensures
            handler == (if old(self).vector_table.0 == 0 || irqn as int >= entries@.len()
                || entries@[irqn as int] == 0 {
                None
            } else {
                Some(entries@[irqn as int])
            }),
            final(self).active_interrupt == (if handler is Some {
                Some(irqn)
            } else {
                old(self).active_interrupt
            }),
            final(self).vector_table == old(self).vector_table,
    {
        let handler = self.vector_table.try_get_handler(irqn as usize, entries);
        if handler.is_some() {
            self.active_interrupt = Some(irqn);
        }
        handler
    }

    /// The handler returned: no interrupt is active any more.
    pub fn end_interrupt(&mut self)
        ensures
            final(self).active_interrupt is None,
            final(self).vector_table == old(self).vector_table,
    {
        self.active_interrupt = None;
    }
}

/// A request to the console link.
#[derive(Clone, Copy, Debug, PartialEq, Eq, Structural)]
pub enum LinkRequest {
    OpenChannel,
    SendBin,
    Listen,
}

/// What the link does with a request.
#[derive(Clone, Copy, Debug, PartialEq, Eq, Structural)]
pub enum LinkAction {
    /// Hand the request to the console.
    Perform,
    /// Answer an open request with channel 0 without contacting the
    /// console.
    ReplyNoChannel,
    /// Drop the request.
    Ignore,
}

/// What a link that is `connected` does with `request`: a connected link
/// performs every request; a broken one answers open requests with channel
/// 0 and drops the others.
pub open spec fn link_action(connected: bool, request: LinkRequest) -> LinkAction {
    if connected {
        LinkAction::Perform
    } else if request == LinkRequest::OpenChannel {
        LinkAction::ReplyNoChannel
    } else {
        LinkAction::Ignore
    }
}

/// A request to the console link and what the console answered when the
/// request was handed to it: for an open, the channel (`None` when the open
/// failed); for a send or a listen, `Some` when it succeeded.  A request the
/// link does not hand over has no answer that counts.
#[derive(Clone, Copy, Debug, PartialEq, Eq, Structural)]
pub struct LinkEvent {
    pub request: LinkRequest,
    pub outcome: Option<u64>,
}

/// One request on a link that is `connected`: whether the link is still
/// connected afterwards, and the channel an open request is answered with
/// (`None` for the other requests, which get no answer).
pub open spec fn link_step(connected: bool, ev: LinkEvent) -> (bool, Option<u64>) {
    match link_action(connected, ev.request) {
        LinkAction::Perform => (
            ev.outcome is Some,
            if ev.request == LinkRequest::OpenChannel {
                Some(
                    match ev.outcome {
                        Some(id) => id,
                        None => 0,
                    },
                )
            } else {
                None
            },
        ),
        LinkAction::ReplyNoChannel => (connected, Some(0)),
        LinkAction::Ignore => (connected, None),
    }
}

/// Whether the link is connected after the requests `evs`.
pub open spec fn link_after(connected: bool, evs: Seq<LinkEvent>) -> bool
    decreases evs.len(),
{
    if evs.len() == 0 {
        connected
    } else {
        link_after(link_step(connected, evs[0]).0, evs.drop_first())
    }
}

/// The answers the requests `evs` get, in request order.
pub open spec fn link_replies(connected: bool, evs: Seq<LinkEvent>) -> Seq<u64>
    decreases evs.len(),
{
    if evs.len() == 0 {
        Seq::empty()
    } else {
        let (next, reply) = link_step(connected, evs[0]);
        let rest = link_replies(next, evs.drop_first());
        match reply {
            Some(id) => seq![id] + rest,
            None => rest,
        }
    }
}

/// The number of open requests among `evs`.
pub open spec fn open_count(evs: Seq<LinkEvent>) -> nat
    decreases evs.len(),
{
    if evs.len() == 0 {
        0
    } else {
        (if evs[0].request == LinkRequest::OpenChannel {
            1nat
        } else {
            0nat
        }) + open_count(evs.drop_first())
    }
}

/// The channels the console answered the open requests among `evs` with,
/// in order.
pub open spec fn opened_channels(evs: Seq<LinkEvent>) -> Seq<u64>
    decreases evs.len(),
{
    if evs.len() == 0 {
        Seq::empty()
    } else {
        let rest = opened_channels(evs.drop_first());
        if evs[0].request == LinkRequest::OpenChannel {
            seq![
                match evs[0].outcome {
                    Some(id) => id,
                    None => 0,
                },
            ] + rest
        } else {
            rest
        }
    }
}

/// Whether the console answered every request of `evs` with success.
pub open spec fn all_succeed(evs: Seq<LinkEvent>) -> bool {
    forall|i: int| 0 <= i < evs.len() ==> (#[trigger] evs[i]).outcome is Some
}

/// The console link: connected until a console operation fails.
#[derive(Clone, Copy, Debug)]
pub struct LinkState {
    pub connected: bool,
}

impl LinkState {
    /// The link after the connection attempt.
    pub fn new(connected: bool) -> (r: Self)
        ensures
            r.connected == connected,
    {
        Self { connected }
    }

    /// A connected link performs every request; a broken one answers open
    /// requests with channel 0 and drops the others.
    pub fn decide(&self, request: LinkRequest) -> (action: LinkAction)
        ensures
            action == link_action(self.connected, request),
    {
        if self.connected {
            LinkAction::Perform
        } else if let LinkRequest::OpenChannel = request {
            LinkAction::ReplyNoChannel
        } else {
            LinkAction::Ignore
        }
    }

    /// Records the outcome of a performed request: a failure breaks the
    /// link.
    pub fn complete(&mut self, succeeded: bool)
        ensures
            final(self).connected == (old(self).connected && succeeded),
    {
        if !succeeded {
            self.connected = false;
        }
    }

    /// Finishes a request: `ev.outcome` is the console's answer when the
    /// link performed the request (what [`LinkState::decide`] returned for
    /// it).  Returns the channel an open request is answered with.
    pub fn finish(&mut self, ev: LinkEvent) -> (reply: Option<u64>)
        ensures
            (final(self).connected, reply) == link_step(old(self).connected, ev),
    {
        match self.decide(ev.request) {
            LinkAction::Perform => {
                if let LinkRequest::OpenChannel = ev.request {
                    Some(self.open_channel_reply(ev.outcome))
                } else {
                    self.complete(ev.outcome.is_some());
                    None
                }
            },
            LinkAction::ReplyNoChannel => Some(0),
            LinkAction::Ignore => None,
        }
    }

    /// The channel an open request reports: the console's channel, or 0
    /// when the open failed.
    pub fn open_channel_reply(&mut self, result: Option<u64>) -> (channel: u64)
        ensures
            channel == (match result {
                Some(id) => id,
                None => 0,
            }),
            final(self).connected == (old(self).connected && result is Some),
    {
        match result {
            Some(id) => id,
            None => {
                self.connected = false;
                0
            },
        }
    }
}

proof fn lemma_link_concat(connected: bool, a: Seq<LinkEvent>, b: Seq<LinkEvent>)
    ensures
        link_after(connected, a + b) == link_after(link_after(connected, a), b),
        link_replies(connected, a + b) == link_replies(connected, a) + link_replies(
            link_after(connected, a),
            b,
        ),
        open_count(a + b) == open_count(a) + open_count(b),
        opened_channels(a + b) == opened_channels(a) + opened_channels(b),
    decreases a.len(),
{
    if a.len() == 0 {
        assert(a + b =~= b);
    } else {
        assert((a + b).drop_first() =~= a.drop_first() + b);
        assert((a + b)[0] == a[0]);
        lemma_link_concat(link_step(connected, a[0]).0, a.drop_first(), b);
        let reply = link_step(connected, a[0]).1;
        let next = link_step(connected, a[0]).0;
        match reply {
            Some(id) => {
                assert(seq![id] + link_replies(next, a.drop_first() + b) =~= seq![id]
                    + link_replies(next, a.drop_first()) + link_replies(
                    link_after(next, a.drop_first()),
                    b,
                ));
            },
            None => {},
        }
        if a[0].request == LinkRequest::OpenChannel {
            let c = match a[0].outcome {
                Some(id) => id,
                None => 0,
            };
            assert(seq![c] + opened_channels(a.drop_first() + b) =~= seq![c] + opened_channels(
                a.drop_first(),
            ) + opened_channels(b));
        }
    }
}

/// Every open request is answered exactly once, in request order; sends
/// and listens get no answer.
pub proof fn law_link_one_reply_per_open(connected: bool, evs: Seq<LinkEvent>)
    ensures
        link_replies(connected, evs).len() == open_count(evs),
    decreases evs.len(),
{
    if evs.len() > 0 {
        law_link_one_reply_per_open(link_step(connected, evs[0]).0, evs.drop_first());
    }
}

/// A broken link stays broken and answers every open request with channel
/// 0, whatever the console would have answered.
pub proof fn law_link_broken_answers_zero(evs: Seq<LinkEvent>)
    ensures
        !link_after(false, evs),
        link_replies(false, evs) == Seq::new(open_count(evs), |i: int| 0u64),
    decreases evs.len(),
{
    if evs.len() > 0 {
        law_link_broken_answers_zero(evs.drop_first());
        let rest = link_replies(false, evs.drop_first());
        if evs[0].request == LinkRequest::OpenChannel {
            assert(seq![0u64] + rest =~= Seq::new(open_count(evs), |i: int| 0u64));
        } else {
            assert(rest =~= Seq::new(open_count(evs), |i: int| 0u64));
        }
    }
}

/// While the console answers every request with success, the link stays
/// connected and each open request is answered with the console's channel.
pub proof fn law_link_connected_run(evs: Seq<LinkEvent>)
    requires
        all_succeed(evs),
    ensures
        link_after(true, evs),
        link_replies(true, evs) == opened_channels(evs),
    decreases evs.len(),
{
    if evs.len() > 0 {
        assert(evs[0].outcome is Some);
        assert(all_succeed(evs.drop_first())) by {
            assert forall|i: int| 0 <= i < evs.drop_first().len() implies (
            #[trigger] evs.drop_first()[i]).outcome is Some by {
                assert(evs.drop_first()[i] == evs[i + 1]);
            }
        }
        law_link_connected_run(evs.drop_first());
    }
}

/// The answers of a connected link over a run of requests: the console's
/// channels for the opens before the first failure; for the failing
/// request, if it is an open, channel 0; after it, channel 0 for every
/// open, the console no longer being asked.
pub proof fn law_link_first_failure(before: Seq<LinkEvent>, failed: LinkEvent, after: Seq<LinkEvent>)
    requires
        all_succeed(before),
        failed.outcome is None,
    ensures
        !link_after(true, before + seq![failed] + after),
        link_replies(true, before + seq![failed] + after) == opened_channels(before) + (if failed.request
            == LinkRequest::OpenChannel {
            seq![0u64]
        } else {
            Seq::empty()
        }) + Seq::new(open_count(after), |i: int| 0u64),
{
    law_link_connected_run(before);
    lemma_link_concat(true, before, seq![failed]);
    lemma_link_concat(true, before + seq![failed], after);
    law_link_broken_answers_zero(after);
    let one = seq![failed];
    assert(one.drop_first() =~= Seq::<LinkEvent>::empty());
    assert(one[0] == failed);
    assert(link_replies(false, one.drop_first()) =~= Seq::<u64>::empty());
    assert(!link_after(false, one.drop_first()));
    assert(!link_step(true, failed).0);
    assert(!link_after(true, one));
    if failed.request == LinkRequest::OpenChannel {
        assert(link_replies(true, one) =~= seq![0u64]);
    } else {
        assert(link_replies(true, one) =~= Seq::<u64>::empty());
    }
    assert(!link_after(true, before + one));
}

} // verus!
