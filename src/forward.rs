use vstd::prelude::*;

verus! {

/// One of the two copy directions of a forwarding pair.
#[derive(Clone, Copy, Debug, PartialEq, Eq, Structural)]
pub enum Direction {
    /// From endpoint A (the peer stream) to endpoint B (the TCP side).
    AToB,
    /// From endpoint B to endpoint A.
    BToA,
}

/// One of the two endpoints of a forwarding pair.
#[derive(Clone, Copy, Debug, PartialEq, Eq, Structural)]
pub enum Side {
    A,
    B,
}

/// How a forwarding pair ended without error.
#[derive(Clone, Copy, Debug, PartialEq, Eq, Structural)]
pub enum ForwardingOutcome {
    /// Both directions reached end of data.
    Clean,
}

/// How a forwarding pair failed.
#[derive(Clone, Copy, Debug, PartialEq, Eq, Structural)]
pub enum ForwardError {
    /// An I/O error on the given endpoint.
    Io(Side),
}

/// What the I/O around a forwarding pair reports.
#[derive(Debug)]
pub enum Event {
    /// A chunk of bytes was read from the source of the direction.
    Read(Direction, Vec<u8>),
    /// The source of the direction reached end of data.
    Eof(Direction),
    /// A read or a write on the endpoint failed.
    Failed(Side),
}

/// What the I/O around a forwarding pair must do next.
#[derive(Debug)]
pub enum Action {
    /// Write the bytes to the destination of the direction.
    Write(Direction, Vec<u8>),
    /// Shut down the write half of the destination of the direction.
    ShutdownWrite(Direction),
    /// Stop both copy loops and close both endpoints.
    CloseBoth,
}

pub ghost enum EventView {
    Read(Direction, Seq<u8>),
    Eof(Direction),
    Failed(Side),
}

pub ghost enum ActionView {
    Write(Direction, Seq<u8>),
    ShutdownWrite(Direction),
    CloseBoth,
}

impl View for Event {
    type V = EventView;

    open spec fn view(&self) -> EventView {
        match self {
            Event::Read(d, b) => EventView::Read(*d, b@),
            Event::Eof(d) => EventView::Eof(*d),
            Event::Failed(s) => EventView::Failed(*s),
        }
    }
}

impl View for Action {
    type V = ActionView;

    open spec fn view(&self) -> ActionView {
        match self {
            Action::Write(d, b) => ActionView::Write(*d, b@),
            Action::ShutdownWrite(d) => ActionView::ShutdownWrite(*d),
            Action::CloseBoth => ActionView::CloseBoth,
        }
    }
}

/// The decisions of one forwarding pair: two copy directions, each open until
/// its source reaches end of data, and the result once the pair is done.
#[derive(Clone, Copy, Debug)]
pub struct Forwarder {
    pub a_to_b_open: bool,
    pub b_to_a_open: bool,
    pub result: Option<Result<ForwardingOutcome, ForwardError>>,
}

pub open spec fn is_open(s: Forwarder, d: Direction) -> bool {
    match d {
        Direction::AToB => s.a_to_b_open,
        Direction::BToA => s.b_to_a_open,
    }
}

pub open spec fn close_direction(s: Forwarder, d: Direction) -> Forwarder {
    match d {
        Direction::AToB => Forwarder { a_to_b_open: false, ..s },
        Direction::BToA => Forwarder { b_to_a_open: false, ..s },
    }
}

/// The state after one event. A finished pair ignores every event, and so
/// does a direction for data that comes after its own end of data.
pub open spec fn step_state(s: Forwarder, e: EventView) -> Forwarder {
    if s.result is Some {
        s
    } else {
        match e {
            EventView::Read(d, b) => s,
            EventView::Eof(d) => if !is_open(s, d) {
                s
            } else {
                let t = close_direction(s, d);
                if !t.a_to_b_open && !t.b_to_a_open {
                    Forwarder { result: Some(Ok(ForwardingOutcome::Clean)), ..t }
                } else {
                    t
                }
            },
            EventView::Failed(side) => Forwarder {
                a_to_b_open: false,
                b_to_a_open: false,
                result: Some(Err(ForwardError::Io(side))),
            },
        }
    }
}

/// The action for one event: data read is written on unchanged, end of data is
/// passed on as a shutdown of the opposite write half, an error closes both.
pub open spec fn step_action(s: Forwarder, e: EventView) -> Option<ActionView> {
    if s.result is Some {
        None
    } else {
        match e {
            EventView::Read(d, b) => if is_open(s, d) {
                Some(ActionView::Write(d, b))
            } else {
                None
            },
            EventView::Eof(d) => if is_open(s, d) {
                Some(ActionView::ShutdownWrite(d))
            } else {
                None
            },
            EventView::Failed(side) => Some(ActionView::CloseBoth),
        }
    }
}

pub open spec fn initial() -> Forwarder {
    Forwarder { a_to_b_open: true, b_to_a_open: true, result: None }
}

pub open spec fn option_seq(a: Option<ActionView>) -> Seq<ActionView> {
    match a {
        Some(x) => seq![x],
        None => Seq::empty(),
    }
}

/// The state after a sequence of events.
pub open spec fn run_state(s: Forwarder, evs: Seq<EventView>) -> Forwarder
    decreases evs.len(),
{
    if evs.len() == 0 {
        s
    } else {
        step_state(run_state(s, evs.drop_last()), evs.last())
    }
}

/// The actions taken over a sequence of events, in order.
pub open spec fn run_actions(s: Forwarder, evs: Seq<EventView>) -> Seq<ActionView>
    decreases evs.len(),
{
    if evs.len() == 0 {
        Seq::empty()
    } else {
        run_actions(s, evs.drop_last()) + option_seq(
            step_action(run_state(s, evs.drop_last()), evs.last()),
        )
    }
}

/// The bytes written in direction `d` by a sequence of actions, in order.
pub open spec fn written(d: Direction, acts: Seq<ActionView>) -> Seq<u8>
    decreases acts.len(),
{
    if acts.len() == 0 {
        Seq::empty()
    } else {
        written(d, acts.drop_last()) + match acts.last() {
            ActionView::Write(e, b) => if e == d {
                b
            } else {
                Seq::empty()
            },
            _ => Seq::empty(),
        }
    }
}

/// The bytes read in direction `d` over a sequence of events, in order.
pub open spec fn read_bytes(d: Direction, evs: Seq<EventView>) -> Seq<u8>
    decreases evs.len(),
{
    if evs.len() == 0 {
        Seq::empty()
    } else {
        read_bytes(d, evs.drop_last()) + match evs.last() {
            EventView::Read(e, b) => if e == d {
                b
            } else {
                Seq::empty()
            },
            _ => Seq::empty(),
        }
    }
}

pub open spec fn has_eof(d: Direction, evs: Seq<EventView>) -> bool {
    exists|i: int| 0 <= i < evs.len() && evs[i] == EventView::Eof(d)
}

pub open spec fn has_failure(evs: Seq<EventView>) -> bool {
    exists|i: int| 0 <= i < evs.len() && #[trigger] evs[i] is Failed
}

/// Events as a byte source gives them: no data in a direction after the end of
/// data in that direction.
pub open spec fn events_wf(evs: Seq<EventView>) -> bool {
    forall|i: int, j: int|
        #![trigger evs[i], evs[j]]
        0 <= i < j < evs.len() && evs[i] is Eof && evs[j] is Read ==> evs[j]->Read_0
            != evs[i]->Eof_0
}

impl Forwarder {
    /// A pair with both directions open.
    pub fn new() -> (r: Forwarder)
        ensures
            r == initial(),
    {
        Forwarder { a_to_b_open: true, b_to_a_open: true, result: None }
    }

    /// Whether the pair is done.
    pub fn is_done(&self) -> (r: bool)
        ensures
            r == self.result is Some,
    {
        self.result.is_some()
    }

    fn direction_open(&self, d: Direction) -> (r: bool)
        ensures
            r == is_open(*self, d),
    {
        match d {
            Direction::AToB => self.a_to_b_open,
            Direction::BToA => self.b_to_a_open,
        }
    }

    /// Takes one event and says what to do about it.
    pub fn step(&mut self, e: Event) -> (r: Option<Action>)
        ensures
            *final(self) == step_state(*old(self), e@),
            r matches Some(a) ==> step_action(*old(self), e@) == Some(a@),
            r is None ==> step_action(*old(self), e@) is None,
    {
        if self.result.is_some() {
            return None;
        }
        match e {
            Event::Read(d, b) => {
                if self.direction_open(d) {
                    Some(Action::Write(d, b))
                } else {
                    None
                }
            },
            Event::Eof(d) => {
                if !self.direction_open(d) {
                    return None;
                }
                match d {
                    Direction::AToB => self.a_to_b_open = false,
                    Direction::BToA => self.b_to_a_open = false,
                }
                if !self.a_to_b_open && !self.b_to_a_open {
                    self.result = Some(Ok(ForwardingOutcome::Clean));
                }
                Some(Action::ShutdownWrite(d))
            },
            Event::Failed(side) => {
                self.a_to_b_open = false;
                self.b_to_a_open = false;
                self.result = Some(Err(ForwardError::Io(side)));
                Some(Action::CloseBoth)
            },
        }
    }
}

pub open spec fn other(d: Direction) -> Direction {
    match d {
        Direction::AToB => Direction::BToA,
        Direction::BToA => Direction::AToB,
    }
}

pub open spec fn has_shutdown(d: Direction, acts: Seq<ActionView>) -> bool {
    exists|k: int| 0 <= k < acts.len() && acts[k] == ActionView::ShutdownWrite(d)
}

proof fn lemma_has_eof_push(evs: Seq<EventView>, d: Direction)
    requires
        evs.len() > 0,
    ensures
        has_eof(d, evs) == (has_eof(d, evs.drop_last()) || evs.last() == EventView::Eof(d)),
{
    let init = evs.drop_last();
    if has_eof(d, init) {
        let i = choose|i: int| 0 <= i < init.len() && init[i] == EventView::Eof(d);
        assert(evs[i] == init[i]);
    }
    if evs.last() == EventView::Eof(d) {
        assert(evs[evs.len() - 1] == EventView::Eof(d));
    }
    if has_eof(d, evs) {
        let i = choose|i: int| 0 <= i < evs.len() && evs[i] == EventView::Eof(d);
        if i < evs.len() - 1 {
            assert(init[i] == evs[i]);
        }
    }
}

proof fn lemma_run(evs: Seq<EventView>)
    requires
        events_wf(evs),
        !has_failure(evs),
    ensures
        ({
            let s = run_state(initial(), evs);
            let acts = run_actions(initial(), evs);
            &&& forall|d: Direction| is_open(s, d) == !has_eof(d, evs)
            &&& s.result is Some <==> (has_eof(Direction::AToB, evs) && has_eof(
                Direction::BToA,
                evs,
            ))
            &&& s.result is Some ==> s.result == Some(
                Ok::<ForwardingOutcome, ForwardError>(ForwardingOutcome::Clean),
            )
            &&& forall|d: Direction| written(d, acts) == read_bytes(d, evs)
            &&& forall|d: Direction| has_eof(d, evs) ==> has_shutdown(d, acts)
        }),
    decreases evs.len(),
{
    if evs.len() == 0 {
        assert forall|d: Direction| !has_eof(d, evs) by {}
    } else {
        let init = evs.drop_last();
        let e = evs.last();
        assert(events_wf(init)) by {
            assert forall|i: int, j: int|
                #![trigger init[i], init[j]]
                0 <= i < j < init.len() && init[i] is Eof && init[j] is Read implies init[j]->Read_0
                != init[i]->Eof_0 by {
                assert(init[i] == evs[i] && init[j] == evs[j]);
            }
        }
        assert(!has_failure(init)) by {
            assert forall|i: int| 0 <= i < init.len() implies !(#[trigger] init[i] is Failed) by {
                assert(init[i] == evs[i]);
            }
        }
        assert(!(e is Failed)) by {
            assert(evs[evs.len() - 1] == e);
        }
        lemma_run(init);
        lemma_has_eof_push(evs, Direction::AToB);
        lemma_has_eof_push(evs, Direction::BToA);
        let s0 = run_state(initial(), init);
        let a0 = run_actions(initial(), init);
        let acts = run_actions(initial(), evs);
        let step = option_seq(step_action(s0, e));
        assert(acts == a0 + step);
        match e {
            EventView::Read(d, b) => {
                if has_eof(d, init) {
                    let i = choose|i: int| 0 <= i < init.len() && init[i] == EventView::Eof(d);
                    assert(evs[i] == init[i]);
                    assert(evs[evs.len() - 1] == e);
                }
                assert(!has_eof(d, init));
                assert(s0.result is None);
                assert(step == seq![ActionView::Write(d, b)]);
            },
            _ => {},
        }
        assert forall|d: Direction| written(d, acts) == read_bytes(d, evs) by {
            assert(read_bytes(d, evs) == read_bytes(d, init) + match e {
                EventView::Read(f, b) => if f == d {
                    b
                } else {
                    Seq::empty()
                },
                _ => Seq::empty(),
            });
            if step.len() == 0 {
                assert(acts =~= a0);
            } else {
                assert(acts.drop_last() =~= a0);
                assert(acts.last() == step[0]);
            }
        }
        assert forall|d: Direction| has_eof(d, evs) implies has_shutdown(d, acts) by {
            if has_eof(d, init) {
                let k = choose|k: int| 0 <= k < a0.len() && a0[k] == ActionView::ShutdownWrite(d);
                assert(acts[k] == a0[k]);
            } else {
                assert(e == EventView::Eof(d));
                assert(acts[a0.len() as int] == ActionView::ShutdownWrite(d));
            }
        }
    }
}

/// Every byte read in a direction is written on in that direction, once and in
/// order, however the data was cut into chunks, until an error stops the pair.
pub proof fn lemma_forward_round_trip(evs: Seq<EventView>, d: Direction)
    requires
        events_wf(evs),
        !has_failure(evs),
    ensures
        written(d, run_actions(initial(), evs)) == read_bytes(d, evs),
{
    lemma_run(evs);
}

/// Two forwarding pairs in series, the second reading in a direction what the
/// first wrote in it, deliver at the far end exactly the bytes read at the near
/// end, in order: the path from the connector's input through a stream to the
/// listener's TCP target, and the path back.
pub proof fn lemma_two_hop_round_trip(near: Seq<EventView>, far: Seq<EventView>, d: Direction)
    requires
        events_wf(near),
        !has_failure(near),
        events_wf(far),
        !has_failure(far),
        read_bytes(d, far) == written(d, run_actions(initial(), near)),
    ensures
        written(d, run_actions(initial(), far)) == read_bytes(d, near),
{
    lemma_run(near);
    lemma_run(far);
}

/// When one direction has reached end of data and the other has not, the
/// shutdown of the first has been passed on, the pair is still running, the
/// other direction is still open, and the data of both has been written on in
/// full.
pub proof fn lemma_half_close(evs: Seq<EventView>, d: Direction)
    requires
        events_wf(evs),
        !has_failure(evs),
        has_eof(d, evs),
        !has_eof(other(d), evs),
    ensures
        has_shutdown(d, run_actions(initial(), evs)),
        run_state(initial(), evs).result is None,
        is_open(run_state(initial(), evs), other(d)),
        written(d, run_actions(initial(), evs)) == read_bytes(d, evs),
        written(other(d), run_actions(initial(), evs)) == read_bytes(other(d), evs),
{
    lemma_run(evs);
}

/// The pair ends cleanly exactly when both directions have reached end of data,
/// in either order.
pub proof fn lemma_clean_end(evs: Seq<EventView>)
    requires
        events_wf(evs),
        !has_failure(evs),
    ensures
        run_state(initial(), evs).result is Some <==> (has_eof(Direction::AToB, evs) && has_eof(
            Direction::BToA,
            evs,
        )),
        run_state(initial(), evs).result is Some ==> run_state(initial(), evs).result == Some(
            Ok::<ForwardingOutcome, ForwardError>(ForwardingOutcome::Clean),
        ),
{
    lemma_run(evs);
}

} // verus!
