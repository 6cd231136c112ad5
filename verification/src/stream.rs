//! The stream: frames from a source through a filter to a processor, and packets from the
//! processor to the receiver.
//!
//! Two loops run a stream. The first one asks the source for frames and hands what the filter makes
//! of them to the processor; the second one asks the processor for packets and hands them to the
//! receiver. Packets that the receiver is done with are used again.
use std::collections::VecDeque;
use vstd::prelude::*;
use crate::errors::{fails_with, ErrorView, RhinoError, RhinoResult};
use crate::{duration_of_millis, Config, Filter, Frame, Packet, PacketKind, Processor, Signal, Source};

verus! {

/// How many configurations or signals may wait for a stage.
pub const CONTROL_CAPACITY: usize = 2;

/// How many packets may wait for the receiver.
pub const PACKET_CAPACITY: usize = 3;

/// How many packets may wait to be used again.
pub const PUT_BACK_CAPACITY: usize = 1;

/// A new configuration for one of the stages.
pub enum ConfigType<T: Source, U: Filter, V: Processor> {
    Source(T::ConfigType),
    Filter(U::ConfigType),
    Processor(V::ConfigType),
}

/// A signal for one of the stages.
#[derive(Clone, Copy, Debug, PartialEq, Eq, Structural)]
pub enum SignalType {
    Source(u32),
    Processor(u32),
}

/// `post` is what is left of `pre` after the configuration that was waiting, if there was one.
pub open spec fn configure_step<X: Config>(
    pre: X,
    received: Option<X::ConfigType>,
    post: X,
) -> bool {
    match received {
        Some(c) => exists|r: RhinoResult<()>| #[trigger] X::configured(pre, c, post, r),
        None => post == pre,
    }
}

/// `post` is what is left of `pre` after the signal that was waiting, if there was one.
pub open spec fn signal_step<X: Signal>(pre: X, received: Option<u32>, post: X) -> bool {
    match received {
        Some(flags) => exists|r: RhinoResult<()>| #[trigger] X::signalled(pre, flags, post, r),
        None => post == pre,
    }
}

/// Configures a stage with the configuration that is waiting for it, if there is one. A failure
/// does not stop the stream.
pub fn try_configure<X: Config>(function: &mut X, received: Option<X::ConfigType>)
    ensures
        configure_step(*old(function), received, *final(function)),
{
    match received {
        Some(conf) => {
            let ghost pre = *function;
            let r = function.configure(conf);
            assert(X::configured(pre, conf, *function, r));
        },
        None => {},
    }
}

/// Signals to a stage the signal that is waiting for it, if there is one. A failure does not stop
/// the stream.
pub fn try_signal<X: Signal>(function: &mut X, received: Option<u32>)
    ensures
        signal_step(*old(function), received, *final(function)),
{
    match received {
        Some(flags) => {
            let ghost pre = *function;
            let r = function.signal(flags);
            assert(X::signalled(pre, flags, *function, r));
        },
        None => {},
    }
}

/// What the loop over the source does next.
pub enum PumpAction<H> {
    /// Ask the source for the next frame.
    PollSource,
    /// Send the frame to the processor.
    Send(Frame<H>),
    /// Hand the configuration that is waiting for the filter to it.
    ConfigureFilter,
    /// End the loop.
    Exit,
}

/// What the loop over the source is waiting for.
#[derive(Clone, Copy, Debug, PartialEq, Eq, Structural)]
pub enum PumpState {
    Polling,
    Sending,
    /// The source has its controls, and the filter is next.
    ConfiguringFilter,
    Exited,
}

impl<H> PumpAction<H> {
    /// What the loop waits for once it does this.
    pub open spec fn then_state(self) -> PumpState {
        match self {
            PumpAction::PollSource => PumpState::Polling,
            PumpAction::Send(_) => PumpState::Sending,
            PumpAction::ConfigureFilter => PumpState::ConfiguringFilter,
            PumpAction::Exit => PumpState::Exited,
        }
    }
}

/// What follows an error of the source or the filter: a recoverable one is ignored, any other one
/// ends the loop.
pub open spec fn after_error<H>(e: RhinoError) -> PumpAction<H> {
    if e is Recoverable {
        PumpAction::PollSource
    } else {
        PumpAction::Exit
    }
}

/// What follows what the filter returned.
pub open spec fn after_filter<H>(filtered: RhinoResult<Frame<H>>) -> PumpAction<H> {
    match filtered {
        Ok(frame) => PumpAction::Send(frame),
        Err(e) => after_error(e),
    }
}

/// What follows what the source returned, if the filter returns `filtered` for its frame.
pub open spec fn after_source<H>(
    item: Option<RhinoResult<Frame<H>>>,
    filtered: RhinoResult<Frame<H>>,
) -> PumpAction<H> {
    match item {
        None => PumpAction::Exit,
        Some(Err(e)) => after_error(e),
        Some(Ok(_)) => after_filter(filtered),
    }
}

/// The loop over the source.
#[derive(Debug)]
pub struct SourcePump {
    state: PumpState,
}

impl SourcePump {
    /// What the loop is waiting for.
    pub closed spec fn state(self) -> PumpState {
        self.state
    }

    /// A loop that asks the source first.
    pub fn new() -> (r: Self)
        ensures
            r.state() == PumpState::Polling,
    {
        SourcePump { state: PumpState::Polling }
    }

    /// What the loop is waiting for.
    pub fn get_state(&self) -> (r: PumpState)
        ensures
            r == self.state(),
    {
        self.state
    }

    fn error_action<H>(&mut self, e: &RhinoError) -> (r: PumpAction<H>)
        ensures
            r == after_error::<H>(*e),
            final(self).state() == r.then_state(),
    {
        match e {
            RhinoError::Recoverable(_) => {
                self.state = PumpState::Polling;
                PumpAction::PollSource
            },
            _ => {
                self.state = PumpState::Exited;
                PumpAction::Exit
            },
        }
    }

    /// Takes what the source returned. A frame goes through the filter.
    pub fn on_source<F: Filter>(
        &mut self,
        filter: &mut F,
        item: Option<RhinoResult<Frame<F::Handle>>>,
    ) -> (r: PumpAction<F::Handle>)
        requires
            old(self).state() == PumpState::Polling,
        ensures
            final(self).state() == r.then_state(),
            match item {
                Some(Ok(frame)) => exists|filtered: RhinoResult<Frame<F::Handle>>| #[trigger]
                    F::filtered(*old(filter), frame, *final(filter), filtered) && r
                        == after_source(item, filtered) && match filtered {
                        Ok(f) => r == PumpAction::Send(f),
                        Err(e) => if e is Recoverable {
                            r is PollSource
                        } else {
                            r is Exit
                        },
                    },
                _ => *final(filter) == *old(filter) && forall|filtered: RhinoResult<
                    Frame<F::Handle>,
                >| r == #[trigger] after_source(item, filtered),
            },
    {
        match item {
            None => {
                self.state = PumpState::Exited;
                PumpAction::Exit
            },
            Some(result) => {
                match result {
                    Err(e) => self.error_action(&e),
                    Ok(frame) => {
                        let ghost pre = *filter;
                        let filtered = filter.apply_filter(&frame);
                        assert(F::filtered(pre, frame, *filter, filtered));
                        match filtered {
                            Err(e) => self.error_action(&e),
                            Ok(f) => {
                                self.state = PumpState::Sending;
                                PumpAction::Send(f)
                            },
                        }
                    },
                }
            },
        }
    }

    /// Takes whether the frame was sent to the processor. If so, the source gets the signal and then the
    /// configuration that are waiting for it, and the filter is next; else the loop ends.
    pub fn on_sent<S: Source, H>(
        &mut self,
        sent: bool,
        source: &mut S,
        source_signal: Option<u32>,
        source_config: Option<S::ConfigType>,
    ) -> (r: PumpAction<H>)
        requires
            old(self).state() == PumpState::Sending,
        ensures
            final(self).state() == r.then_state(),
            sent ==> {
                &&& r is ConfigureFilter
                &&& exists|mid: S| #[trigger]
                    signal_step(*old(source), source_signal, mid) && configure_step(
                        mid,
                        source_config,
                        *final(source),
                    )
            },
            !sent ==> r is Exit && *final(source) == *old(source),
    {
        if sent {
            try_signal(source, source_signal);
            let ghost mid = *source;
            assert(signal_step(*old(source), source_signal, mid));
            try_configure(source, source_config);
            self.state = PumpState::ConfiguringFilter;
            PumpAction::ConfigureFilter
        } else {
            self.state = PumpState::Exited;
            PumpAction::Exit
        }
    }

    /// Hands the configuration that is waiting for the filter to it, once the source has its controls.
    /// The source is asked next.
    pub fn on_source_served<F: Filter>(
        &mut self,
        filter: &mut F,
        filter_config: Option<F::ConfigType>,
    ) -> (r: PumpAction<F::Handle>)
        requires
            old(self).state() == PumpState::ConfiguringFilter,
        ensures
            r is PollSource,
            final(self).state() == r.then_state(),
            configure_step(*old(filter), filter_config, *final(filter)),
    {
        try_configure(filter, filter_config);
        self.state = PumpState::Polling;
        PumpAction::PollSource
    }
}

/// One round of the loop over the source: what the source returned, what the filter returned for its
/// frame, and whether the processor took the result.
pub struct Round<H> {
    pub item: Option<RhinoResult<Frame<H>>>,
    pub filtered: RhinoResult<Frame<H>>,
    pub sent: bool,
}

impl<H> Round<H> {
    /// What the loop does with what it got.
    pub open spec fn action(self) -> PumpAction<H> {
        after_source(self.item, self.filtered)
    }

    /// The loop ends with this round.
    pub open spec fn ends(self) -> bool {
        self.action() is Exit || (self.action() is Send && !self.sent)
    }
}

/// The frames that the processor gets in `rounds`, up to the one that ends the loop.
pub open spec fn delivered<H>(rounds: Seq<Round<H>>) -> Seq<Frame<H>>
    decreases rounds.len(),
{
    if rounds.len() == 0 || rounds.first().ends() {
        Seq::empty()
    } else {
        match rounds.first().action() {
            PumpAction::Send(frame) => seq![frame] + delivered(rounds.drop_first()),
            _ => delivered(rounds.drop_first()),
        }
    }
}

/// The loop is still running after `rounds`.
pub open spec fn running<H>(rounds: Seq<Round<H>>) -> bool {
    forall|i: int| 0 <= i < rounds.len() ==> !(#[trigger] rounds[i]).ends()
}

/// A frame that the filter makes is sent as it is, whatever its size and its pixel layout, and whatever
/// frame it was made of. If it is taken, the round delivers that frame and no other one.
pub proof fn law_filtered_frame_is_sent<H>(captured: Frame<H>, made: Frame<H>)
    ensures
        after_filter(Ok(made)) == PumpAction::Send(made),
        after_source(Some(Ok(captured)), Ok(made)) == PumpAction::Send(made),
        delivered(
            seq![Round { item: Some(Ok(captured)), filtered: Ok(made), sent: true }],
        ) == seq![made],
{
    let rounds = seq![Round { item: Some(Ok(captured)), filtered: Ok(made), sent: true }];
    assert(rounds.first().action() == PumpAction::Send(made));
    assert(rounds.drop_first() == Seq::<Round<H>>::empty());
    assert(delivered(rounds.drop_first()) == Seq::<Frame<H>>::empty());
    assert(seq![made] + Seq::<Frame<H>>::empty() == seq![made]);
}

/// An error sends nothing, wherever it comes from. A recoverable one makes the loop ask the source again,
/// any other one and the end of the source make it end.
pub proof fn law_errors_decide<H>(e: RhinoError, captured: Frame<H>, any: RhinoResult<Frame<H>>)
    ensures
        after_error::<H>(e) is PollSource <==> e is Recoverable,
        after_error::<H>(e) is Exit <==> !(e is Recoverable),
        after_source(Some(Err::<Frame<H>, RhinoError>(e)), any) == after_error::<H>(e),
        after_source(Some(Ok(captured)), Err::<Frame<H>, RhinoError>(e)) == after_error::<H>(e),
        after_source(None::<RhinoResult<Frame<H>>>, any) is Exit,
{
}

/// What the loop waits for tells what it does.
pub proof fn law_state_tells_action<H>(action: PumpAction<H>)
    ensures
        action.then_state() == PumpState::Polling <==> action is PollSource,
        action.then_state() == PumpState::Sending <==> action is Send,
        action.then_state() == PumpState::ConfiguringFilter <==> action is ConfigureFilter,
        action.then_state() == PumpState::Exited <==> action is Exit,
{
}

/// The frame that a round has for the processor: what the filter made of a frame of the source.
pub open spec fn made<H>(round: Round<H>) -> Option<Frame<H>> {
    match (round.item, round.filtered) {
        (Some(Ok(_)), Ok(frame)) => Some(frame),
        _ => None,
    }
}

/// A round ends the loop where the source ended, where there is an error that is not recoverable, or
/// where the processor did not take the frame that there was for it, and only there.
pub proof fn law_what_ends_the_loop<H>(round: Round<H>)
    ensures
        round.ends() <==> {
            ||| round.item is None
            ||| (round.item matches Some(Err(e)) && !(e is Recoverable))
            ||| (round.item matches Some(Ok(_)) && (round.filtered matches Err(e) && !(
            e is Recoverable)))
            ||| (made(round) is Some && !round.sent)
        },
{
}

/// While the loop runs the processor gets each frame that the filter made, in order: as many frames as
/// there are rounds with one, and each of them as it was made.
pub proof fn law_every_made_frame_is_delivered<H>(rounds: Seq<Round<H>>)
    requires
        running(rounds),
    ensures
        delivered(rounds) == rounds.filter(|r: Round<H>| made(r) is Some).map_values(
            |r: Round<H>| made(r)->0,
        ),
        delivered(rounds).len() == rounds.filter(|r: Round<H>| made(r) is Some).len(),
    decreases rounds.len(),
{
    let has = |r: Round<H>| made(r) is Some;
    let get = |r: Round<H>| made(r)->0;
    if rounds.len() == 0 {
        reveal(Seq::filter);
        assert(rounds.filter(has) == rounds);
        assert(delivered(rounds) == rounds.filter(has).map_values(get));
    } else {
        let front = rounds.drop_last();
        let last = seq![rounds.last()];
        assert(rounds == front + last);
        assert(!rounds[rounds.len() - 1].ends());
        assert forall|i: int| 0 <= i < front.len() implies !(#[trigger] front[i]).ends() by {
            assert(!rounds[i].ends());
        }
        law_every_made_frame_is_delivered(front);
        law_delivered_in_order(front, last);
        Seq::filter_distributes_over_add(front, last, has);
        reveal(Seq::filter);
        assert(last.drop_last() == Seq::<Round<H>>::empty());
        assert(last.drop_first() == Seq::<Round<H>>::empty());
        assert(delivered(last.drop_first()) == Seq::<Frame<H>>::empty());
        let tail = last.filter(has);
        assert(Seq::<Round<H>>::empty().filter(has) == Seq::<Round<H>>::empty());
        if made(rounds.last()) is Some {
            assert(tail == last);
            assert(delivered(last) == seq![made(rounds.last())->0]);
        } else {
            assert(tail == Seq::<Round<H>>::empty());
            assert(delivered(last) == Seq::<Frame<H>>::empty());
        }
        assert(delivered(rounds) == rounds.filter(has).map_values(get));
    }
}

/// A configuration that waits reaches its stage, and a stage for which none waits stays as it is.
pub proof fn law_configuration_reaches_its_stage<X: Config>(pre: X, conf: X::ConfigType, post: X)
    ensures
        configure_step(pre, Some(conf), post) ==> exists|r: RhinoResult<()>| #[trigger]
            X::configured(pre, conf, post, r),
        configure_step(pre, None, post) <==> post == pre,
{
}

/// A signal that waits reaches its stage, and a stage for which none waits stays as it is.
pub proof fn law_signal_reaches_its_stage<X: Signal>(pre: X, flags: u32, post: X)
    ensures
        signal_step(pre, Some(flags), post) ==> exists|r: RhinoResult<()>| #[trigger]
            X::signalled(pre, flags, post, r),
        signal_step(pre, None, post) <==> post == pre,
{
}

/// Two controls may wait for each stage, three packets for the receiver, and one packet to be used again.
pub proof fn law_capacities()
    ensures
        CONTROL_CAPACITY == 2,
        PACKET_CAPACITY == 3,
        PUT_BACK_CAPACITY == 1,
{
}

/// What comes after rounds that did not end the loop comes behind what they delivered.
pub proof fn law_delivered_in_order<H>(a: Seq<Round<H>>, b: Seq<Round<H>>)
    requires
        running(a),
    ensures
        delivered(a + b) == delivered(a) + delivered(b),
    decreases a.len(),
{
    if a.len() == 0 {
        assert(a + b == b);
    } else {
        assert(!a[0].ends());
        assert((a + b).first() == a.first());
        assert((a + b).drop_first() == a.drop_first() + b);
        assert forall|i: int| 0 <= i < a.drop_first().len() implies !(
        #[trigger] a.drop_first()[i]).ends() by {
            assert(!a[i + 1].ends());
        }
        law_delivered_in_order(a.drop_first(), b);
    }
}

/// A recoverable error costs its own frame alone: the processor gets what it would have got without
/// that round.
pub proof fn law_recoverable_is_skipped<H>(a: Seq<Round<H>>, skipped: Round<H>, b: Seq<Round<H>>)
    requires
        running(a),
        skipped.item matches Some(Err(e)) ==> e is Recoverable,
        skipped.item matches Some(Ok(_)) ==> (skipped.filtered matches Err(e) && e is Recoverable),
        skipped.item is Some,
    ensures
        delivered(a.push(skipped) + b) == delivered(a + b),
{
    let round = seq![skipped];
    assert(a.push(skipped) + b == a + (round + b));
    assert((round + b).drop_first() == b);
    assert((round + b).first() == skipped);
    law_delivered_in_order(a, round + b);
    law_delivered_in_order(a, b);
}

/// The first error that is not recoverable, the end of the source or a processor that is gone ends
/// the stream: nothing after it is delivered.
pub proof fn law_nothing_after_the_end<H>(a: Seq<Round<H>>, last: Round<H>, b: Seq<Round<H>>)
    requires
        running(a),
        last.ends(),
    ensures
        delivered(a.push(last) + b) == delivered(a),
{
    let rest = seq![last] + b;
    assert(a.push(last) + b == a + rest);
    assert(rest.first() == last);
    law_delivered_in_order(a, rest);
    assert(delivered(a) + delivered(rest) == delivered(a));
}

/// Taking a packet of the packets `pre` gives `r` and leaves `post`: one of them, or an empty one where
/// there is none.
pub open spec fn packet_taken(pre: Seq<Packet>, r: Packet, post: Seq<Packet>) -> bool {
    if pre.len() > 0 {
        r == pre.first() && post == pre.drop_first()
    } else {
        &&& post == pre
        &&& r.data@ == Seq::<u8>::empty()
        &&& r.kind == PacketKind::Picture
        &&& r.encode_time == duration_of_millis(0)
    }
}

/// Giving `packet` back to the packets `pre` leaves `post`.
pub open spec fn packet_put_back(pre: Seq<Packet>, packet: Packet, post: Seq<Packet>) -> bool {
    post == seq![packet] + pre
}

/// Packets that can be used again. The one that came back last is used first.
#[derive(Debug)]
pub struct PacketPool {
    packets: VecDeque<Packet>,
}

impl View for PacketPool {
    type V = Seq<Packet>;

    closed spec fn view(&self) -> Seq<Packet> {
        self.packets@
    }
}

impl PacketPool {
    /// A pool without packets.
    pub fn new() -> (r: Self)
        ensures
            r@ == Seq::<Packet>::empty(),
    {
        PacketPool { packets: VecDeque::new() }
    }

    /// The packet that came back last, or a new one.
    pub fn take(&mut self) -> (r: Packet)
        ensures
            old(self)@.len() > 0 ==> r == old(self)@.first() && final(self)@
                == old(self)@.drop_first(),
            old(self)@.len() == 0 ==> {
                &&& final(self)@ == old(self)@
                &&& r.data@ == Seq::<u8>::empty()
                &&& r.kind == PacketKind::Picture
                &&& r.encode_time == duration_of_millis(0)
            },
            packet_taken(old(self)@, r, final(self)@),
    {
        match self.packets.pop_front() {
            Some(packet) => packet,
            None => Packet::new(),
        }
    }

    /// Takes a packet back.
    pub fn put_back(&mut self, packet: Packet)
        ensures
            final(self)@ == seq![packet] + old(self)@,
            packet_put_back(old(self)@, packet, final(self)@),
    {
        self.packets.push_front(packet);
    }
}

/// A packet that comes back is the next one to be used, and the pool is then as it was.
pub proof fn law_put_back_is_taken(pool: Seq<Packet>, packet: Packet)
    ensures
        (seq![packet] + pool).first() == packet,
        (seq![packet] + pool).drop_first() == pool,
{
    assert((seq![packet] + pool).drop_first() == pool);
}

/// Giving a packet back and taking one gives that packet, and undoes the first.
pub proof fn law_taking_undoes_giving_back(
    pool: Seq<Packet>,
    packet: Packet,
    between: Seq<Packet>,
    taken: Packet,
    after: Seq<Packet>,
)
    requires
        packet_put_back(pool, packet, between),
        packet_taken(between, taken, after),
    ensures
        taken == packet,
        after == pool,
        between.len() == pool.len() + 1,
{
    assert((seq![packet] + pool).drop_first() == pool);
}

/// Packets that came back are used in the reverse order.
pub proof fn law_last_back_first_taken(
    pool: Seq<Packet>,
    first: Packet,
    one: Seq<Packet>,
    second: Packet,
    two: Seq<Packet>,
    taken: Packet,
    three: Seq<Packet>,
    next: Packet,
    four: Seq<Packet>,
)
    requires
        packet_put_back(pool, first, one),
        packet_put_back(one, second, two),
        packet_taken(two, taken, three),
        packet_taken(three, next, four),
    ensures
        taken == second,
        next == first,
        four == pool,
{
    law_taking_undoes_giving_back(one, second, two, taken, three);
    law_taking_undoes_giving_back(pool, first, one, next, four);
}

/// A pool without packets gives an empty packet and stays without any.
pub proof fn law_empty_pool_gives_a_new_packet(taken: Packet, after: Seq<Packet>)
    requires
        packet_taken(Seq::empty(), taken, after),
    ensures
        taken.data@.len() == 0,
        taken.kind == PacketKind::Picture,
        after.len() == 0,
{
}

/// A result that came for the packet `before` of a receiver leaves it `after`, tells `r`, and gives back
/// `used`.
pub open spec fn packet_received(
    before: Packet,
    received: Option<RhinoResult<Packet>>,
    after: Packet,
    r: RhinoResult<()>,
    used: Option<Packet>,
) -> bool {
    match received {
        Some(Ok(new_packet)) => r is Ok && after == new_packet && used == Some(before),
        Some(Err(e)) => r == Err::<(), RhinoError>(e) && after == before && used is None,
        None => r is Ok && after == before && used is None,
    }
}

/// No packet is lost and none is made: a packet that came is at the receiver, and the one that was there
/// comes back. Where none came the receiver keeps its own.
pub proof fn law_packets_change_places(
    before: Packet,
    received: Option<RhinoResult<Packet>>,
    after: Packet,
    r: RhinoResult<()>,
    used: Option<Packet>,
)
    requires
        packet_received(before, received, after, r, used),
    ensures
        used is Some <==> (received is Some && received->0 is Ok),
        used matches Some(packet) ==> packet == before && after == received->0->Ok_0,
        used is None ==> after == before,
        r is Err <==> (received is Some && received->0 is Err),
        r matches Err(e) ==> e == received->0->Err_0,
{
}

/// What the loop over the processor does next.
#[derive(Clone, Copy, Debug, PartialEq, Eq, Structural)]
pub enum PacketAction {
    /// Ask the processor for the next packet.
    NextPacket,
    /// End the loop.
    Exit,
}

/// Takes whether the result of the processor was sent to the receiver. If so, the processor gets the
/// signal and the configuration that are waiting for it; else the loop ends. An error of the
/// processor is a result like any other.
pub fn on_packet_sent<P: Processor>(
    sent: bool,
    processor: &mut P,
    signal: Option<u32>,
    config: Option<P::ConfigType>,
) -> (r: PacketAction)
    ensures
        sent ==> {
            &&& r is NextPacket
            &&& exists|mid: P| #[trigger]
                signal_step(*old(processor), signal, mid) && configure_step(
                    mid,
                    config,
                    *final(processor),
                )
        },
        !sent ==> r is Exit && *final(processor) == *old(processor),
{
    if sent {
        try_signal(processor, signal);
        let ghost mid = *processor;
        assert(signal_step(*old(processor), signal, mid));
        try_configure(processor, config);
        PacketAction::NextPacket
    } else {
        PacketAction::Exit
    }
}

/// A configuration on its way to the stage that it is for.
pub struct ConfigRoute<T: Source, U: Filter, V: Processor> {
    pub source: Option<T::ConfigType>,
    pub filter: Option<U::ConfigType>,
    pub processor: Option<V::ConfigType>,
}

/// A signal on its way to the stage that it is for.
#[derive(Clone, Copy, Debug, PartialEq, Eq, Structural)]
pub struct SignalRoute {
    pub source: Option<u32>,
    pub processor: Option<u32>,
}

/// A stream that runs.
#[derive(Debug)]
pub struct RhinoStream {
    pub pump: SourcePump,
    pub pool: PacketPool,
}

impl RhinoStream {
    /// Starts a stream: the queue of the processor is taken, and there is a stream if there is one.
    pub fn new<V: Processor>(processor: &mut V) -> (r: RhinoResult<(RhinoStream, V::Queue)>)
        ensures
            exists|q: RhinoResult<V::Queue>| #[trigger]
                V::queue_given(*old(processor), *final(processor), q) && match q {
                    Ok(queue) => {
                        &&& r is Ok
                        &&& r->Ok_0.1 == queue
                        &&& r->Ok_0.0.pump.state() == PumpState::Polling
                        &&& r->Ok_0.0.pool@ == Seq::<Packet>::empty()
                    },
                    Err(e) => r == Err::<(RhinoStream, V::Queue), RhinoError>(e),
                },
    {
        let q = processor.get_queue();
        assert(V::queue_given(*old(processor), *processor, q));
        match q {
            Ok(queue) => Ok((RhinoStream { pump: SourcePump::new(), pool: PacketPool::new() }, queue)),
            Err(e) => Err(e),
        }
    }

    /// Takes what came from the loop over the processor: a result, or nothing where the loop ended.
    /// A packet changes places with the one of the receiver, which is returned to be used again.
    pub fn get_next_frame(packet: &mut Packet, received: Option<RhinoResult<Packet>>) -> (r: (
        RhinoResult<()>,
        Option<Packet>,
    ))
        ensures
            match received {
                Some(Ok(new_packet)) => {
                    &&& r.0 is Ok
                    &&& *final(packet) == new_packet
                    &&& r.1 == Some(*old(packet))
                },
                Some(Err(e)) => {
                    &&& r.0 == Err::<(), RhinoError>(e)
                    &&& *final(packet) == *old(packet)
                    &&& r.1 is None
                },
                None => r.0 is Ok && *final(packet) == *old(packet) && r.1 is None,
            },
            packet_received(*old(packet), received, *final(packet), r.0, r.1),
    {
        match received {
            Some(result) => match result {
                Ok(new_packet) => {
                    let mut new_packet = new_packet;
                    std::mem::swap(&mut new_packet, packet);
                    (Ok(()), Some(new_packet))
                },
                Err(e) => (Err(e), None),
            },
            None => (Ok(()), None),
        }
    }

    /// As `get_next_frame`, where nothing may have come in time.
    pub fn get_next_frame_with_timeout(
        packet: &mut Packet,
        received: Option<Option<RhinoResult<Packet>>>,
    ) -> (r: (RhinoResult<()>, Option<Packet>))
        ensures
            match received {
                Some(Some(Ok(new_packet))) => {
                    &&& r.0 is Ok
                    &&& *final(packet) == new_packet
                    &&& r.1 == Some(*old(packet))
                },
                Some(Some(Err(e))) => {
                    &&& r.0 == Err::<(), RhinoError>(e)
                    &&& *final(packet) == *old(packet)
                    &&& r.1 is None
                },
                Some(None) => r.0 is Ok && *final(packet) == *old(packet) && r.1 is None,
                None => {
                    &&& fails_with(r.0, ErrorView::Timedout)
                    &&& *final(packet) == *old(packet)
                    &&& r.1 is None
                },
            },
    {
        match received {
            Some(frame_result) => RhinoStream::get_next_frame(packet, frame_result),
            None => (Err(RhinoError::Timedout), None),
        }
    }

    /// Where a configuration goes: to its stage, and to no other one.
    pub fn configure<T: Source, U: Filter, V: Processor>(conf: ConfigType<T, U, V>) -> (r:
        ConfigRoute<T, U, V>)
        ensures
            match conf {
                ConfigType::Source(c) => r.source == Some(c) && r.filter is None
                    && r.processor is None,
                ConfigType::Filter(c) => r.source is None && r.filter == Some(c)
                    && r.processor is None,
                ConfigType::Processor(c) => r.source is None && r.filter is None && r.processor
                    == Some(c),
            },
    {
        match conf {
            ConfigType::Source(c) => ConfigRoute { source: Some(c), filter: None, processor: None },
            ConfigType::Filter(c) => ConfigRoute { source: None, filter: Some(c), processor: None },
            ConfigType::Processor(c) => ConfigRoute {
                source: None,
                filter: None,
                processor: Some(c),
            },
        }
    }

    /// Where a signal goes: to its stage, and to no other one.
    pub fn signal(signal: SignalType) -> (r: SignalRoute)
        ensures
            r == (match signal {
                SignalType::Source(s) => SignalRoute { source: Some(s), processor: None },
                SignalType::Processor(s) => SignalRoute { source: None, processor: Some(s) },
            }),
    {
        match signal {
            SignalType::Source(s) => SignalRoute { source: Some(s), processor: None },
            SignalType::Processor(s) => SignalRoute { source: None, processor: Some(s) },
        }
    }

    /// The outcome of handing a configuration or a signal to its stage. A stage that is gone is not
    /// expected.
    pub fn handed_over(sent: Result<(), String>) -> (r: RhinoResult<()>)
        ensures
            match sent {
                Ok(_) => r is Ok,
                Err(text) => fails_with(r, ErrorView::Unexpected(text@)),
            },
    {
        match sent {
            Ok(_) => Ok(()),
            Err(text) => Err(RhinoError::Unexpected(text)),
        }
    }
}

} // verus!
