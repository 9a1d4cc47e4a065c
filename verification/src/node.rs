//! The program of a node: which action follows which event.
use vstd::prelude::*;

use crate::link::{
    Board, Due, JoinOutcome, Link, LinkState, SendOutcome, SendResponse, Status, TICK_SECONDS,
};
use crate::payload::{be32, climate_bytes, climate_payload, counter_payload};
use crate::screen::{probe_rows, sensor_rows, update_display, update_sensor_display, Screen};
use crate::sensor::{celsius, percent, word, Climate};

verus! {

/// LoRaWAN port of the uplinks.
pub const UPLINK_PORT: u8 = 1;

/// Milliseconds in one tick.
pub const TICK_MILLIS: u64 = 2000;

/// Milliseconds that the sensor node waits after an uplink.
pub const SETTLE_MILLIS: u64 = 100;

/// An uplink to send.
#[derive(Clone, Copy, Debug, PartialEq, Eq)]
pub struct Uplink {
    pub payload: [u8; 4],
    pub port: u8,
    pub confirmed: bool,
}

/// What the node has to do next.
pub enum Action {
    /// Ask the sensor for a frame.
    Measure,
    /// Draw these rows.
    Show(Screen),
    /// Try to join the network.
    Join,
    /// Switch the LED on or off.
    Led(bool),
    /// Send this uplink.
    Send(Uplink),
    /// Wait for so many milliseconds.
    Wait(u64),
}

/// An action in mathematical terms.
pub enum ActionView {
    Measure,
    Show(Seq<Seq<char>>),
    Join,
    Led(bool),
    Send(Seq<u8>, u8, bool),
    Wait(nat),
}

impl View for Action {
    type V = ActionView;

    open spec fn view(&self) -> ActionView {
        match self {
            Action::Measure => ActionView::Measure,
            Action::Show(screen) => ActionView::Show(screen@),
            Action::Join => ActionView::Join,
            Action::Led(on) => ActionView::Led(*on),
            Action::Send(uplink) => ActionView::Send(
                uplink.payload@,
                uplink.port,
                uplink.confirmed,
            ),
            Action::Wait(millis) => ActionView::Wait(*millis as nat),
        }
    }
}

/// How the last action ended.
#[derive(Clone, Copy, Debug)]
pub enum Event {
    /// It was done; there is nothing to tell of it.
    Done,
    /// The sensor's frame, if the sensor answered.
    Sampled(Option<[u8; 6]>),
    /// How the join attempt ended.
    Joined(JoinOutcome),
    /// How the uplink ended.
    Sent(SendOutcome),
}

/// The action that the node waits for.
#[derive(Clone, Copy, Debug, PartialEq, Eq, Structural)]
pub enum Phase {
    /// First measurement, before the join attempt at power-up.
    FirstMeasure,
    /// First picture, before the join attempt at power-up.
    FirstShow,
    /// Join attempt at power-up.
    FirstJoin,
    /// Picture right after the join attempt at power-up.
    Greet,
    /// Measurement of a tick.
    Measure,
    /// Picture of a tick.
    Show,
    /// LED on, before an uplink.
    Light,
    /// Uplink.
    Send,
    /// LED off, after an uplink.
    Dark,
    /// Pause after an uplink.
    Settle,
    /// Join retry.
    Retry,
    /// Pause until the next tick.
    Rest,
}

/// The state of a node in mathematical terms.
pub struct NodeState {
    pub board: Board,
    pub phase: Phase,
    pub temp_int: int,
    pub hum_int: int,
    pub link: LinkState,
}

impl NodeState {
    /// The state at power-up, with the first join attempt already counted.
    pub open spec fn initial(board: Board) -> NodeState {
        NodeState {
            board,
            phase: match board {
                Board::Lora1 => Phase::FirstMeasure,
                Board::Lora2 => Phase::FirstShow,
            },
            temp_int: 0,
            hum_int: 0,
            link: LinkState::initial().attempt(),
        }
    }

    /// What holds of a node at all times: readings that the sensor can report, a
    /// well-formed link, a join attempt only while not joined and not waiting,
    /// and an uplink only while joined.
    pub open spec fn wf(self) -> bool {
        &&& -45 <= self.temp_int <= 130
        &&& -6 <= self.hum_int <= 119
        &&& self.link.wf()
        &&& match self.phase {
            Phase::FirstMeasure | Phase::FirstShow | Phase::FirstJoin | Phase::Retry => {
                !self.link.joined && self.link.join_wait_counter == 0
            },
            Phase::Light | Phase::Send => self.link.joined,
            _ => true,
        }
    }

    /// What the display shows in this state.
    pub open spec fn rows(self) -> Seq<Seq<char>> {
        let link = self.link;
        let snr = link.report.snr as int;
        let rssi = link.report.rssi as int;
        let dr = link.report.dr as nat;
        match self.board {
            Board::Lora1 => sensor_rows(
                self.temp_int,
                self.hum_int,
                link.tx_count,
                link.joined,
                link.join_attempt,
                snr,
                rssi,
                dr,
            ),
            Board::Lora2 => probe_rows(
                link.tx_count,
                link.joined,
                link.join_attempt,
                snr,
                rssi,
                dr,
            ),
        }
    }

    /// The payload of an uplink sent in this state.
    pub open spec fn payload(self) -> Seq<u8> {
        match self.board {
            Board::Lora1 => climate_bytes(self.temp_int, self.hum_int),
            Board::Lora2 => be32(self.link.tx_count as int),
        }
    }

    /// The action that the node waits for in this state.
    pub open spec fn pending(self) -> ActionView {
        match self.phase {
            Phase::FirstMeasure | Phase::Measure => ActionView::Measure,
            Phase::FirstShow | Phase::Greet | Phase::Show => ActionView::Show(self.rows()),
            Phase::FirstJoin | Phase::Retry => ActionView::Join,
            Phase::Light => ActionView::Led(true),
            Phase::Send => ActionView::Send(
                self.payload(),
                UPLINK_PORT,
                self.board.confirms(self.link.tx_count),
            ),
            Phase::Dark => ActionView::Led(false),
            Phase::Settle => ActionView::Wait(SETTLE_MILLIS as nat),
            Phase::Rest => ActionView::Wait(TICK_MILLIS as nat),
        }
    }

    /// Whether `event` can end the action that the node waits for.
    pub open spec fn accepts(self, event: Event) -> bool {
        match self.phase {
            Phase::FirstMeasure | Phase::Measure => event is Sampled,
            Phase::FirstJoin | Phase::Retry => event is Joined,
            Phase::Send => event is Sent,
            _ => event is Done,
        }
    }

    /// Whether the node decides what is due when the action that it waits for is done.
    pub open spec fn decides(self) -> bool {
        match self.phase {
            Phase::Greet => true,
            Phase::Show => self.board is Lora1,
            Phase::Rest => self.board is Lora2,
            _ => false,
        }
    }

    /// The same state in another phase.
    pub open spec fn enter(self, phase: Phase) -> NodeState {
        NodeState { phase, ..self }
    }

    /// The reading is replaced by the sensor's frame, if the sensor answered.
    pub open spec fn sampled(self, frame: Option<[u8; 6]>) -> NodeState {
        match frame {
            Some(data) => NodeState {
                temp_int: celsius(word(data@[0], data@[1])),
                hum_int: percent(word(data@[3], data@[4])),
                ..self
            },
            None => self,
        }
    }

    /// What is due is done, or nothing was: the sensor node rests, the range
    /// probe draws first.
    pub open spec fn finish(self) -> NodeState {
        match self.board {
            Board::Lora1 => self.enter(Phase::Rest),
            Board::Lora2 => self.enter(Phase::Show),
        }
    }

    /// A tick is counted and what is due at it begins.
    pub open spec fn decide(self) -> NodeState {
        let ticked = NodeState { link: self.link.after_tick(self.board), ..self };
        match self.link.due(self.board) {
            Due::Uplink => ticked.enter(Phase::Light),
            Due::Join => ticked.enter(Phase::Retry),
            Due::Nothing => ticked.finish(),
        }
    }

    /// The state after `event` has ended the action that the node waits for.
    pub open spec fn next(self, event: Event) -> NodeState {
        match (self.phase, event) {
            (Phase::FirstMeasure, Event::Sampled(frame)) => self.sampled(frame).enter(
                Phase::FirstShow,
            ),
            (Phase::Measure, Event::Sampled(frame)) => self.sampled(frame).enter(Phase::Show),
            (Phase::FirstJoin, Event::Joined(outcome)) => NodeState {
                link: self.link.after_first_join(outcome),
                phase: match self.board {
                    Board::Lora1 => Phase::Measure,
                    Board::Lora2 => Phase::Greet,
                },
                ..self
            },
            (Phase::Retry, Event::Joined(outcome)) => NodeState {
                link: self.link.after_join(outcome),
                ..self
            }.finish(),
            (Phase::Send, Event::Sent(outcome)) => NodeState {
                link: self.link.after_uplink(self.board, outcome),
                phase: Phase::Dark,
                ..self
            },
            (Phase::FirstShow, Event::Done) => self.enter(Phase::FirstJoin),
            (Phase::Greet, Event::Done) => self.decide(),
            (Phase::Show, Event::Done) => match self.board {
                Board::Lora1 => self.decide(),
                Board::Lora2 => self.enter(Phase::Rest),
            },
            (Phase::Light, Event::Done) => self.enter(Phase::Send),
            (Phase::Dark, Event::Done) => match self.board {
                Board::Lora1 => self.enter(Phase::Settle),
                Board::Lora2 => self.finish(),
            },
            (Phase::Settle, Event::Done) => self.finish(),
            (Phase::Rest, Event::Done) => match self.board {
                Board::Lora1 => self.enter(Phase::Measure),
                Board::Lora2 => self.decide(),
            },
            _ => self,
        }
    }

    /// Whether the counters still fit in their machine integers after `event`.
    pub open spec fn has_range(self, event: Event) -> bool {
        &&& self.next(event).link.fits()
        &&& self.decides() ==> self.link.uplink_counter < u32::MAX
    }
}

/// A node: its link, its last sensor reading and where it is in its program.
#[derive(Clone, Copy, Debug)]
pub struct Node {
    link: Link,
    climate: Climate,
    phase: Phase,
}

impl View for Node {
    type V = NodeState;

    closed spec fn view(&self) -> NodeState {
        NodeState {
            board: self.link.spec_board(),
            phase: self.phase,
            temp_int: self.climate.temp_int as int,
            hum_int: self.climate.hum_int as int,
            link: self.link@,
        }
    }
}

impl Node {
    #[verifier::type_invariant]
    spec fn inv(self) -> bool {
        self@.wf()
    }

    /// A node at power-up.
    pub fn new(board: Board) -> (node: Node)
        ensures
            node@ == NodeState::initial(board),
    {
        let mut link = Link::new(board);
        link.first_attempt();
        let phase = match board {
            Board::Lora1 => Phase::FirstMeasure,
            Board::Lora2 => Phase::FirstShow,
        };
        Node { link, climate: Climate::new(), phase }
    }

    /// The state of the link; the node is well-formed at all times.
    pub fn status(&self) -> (status: Status)
        ensures
            status@ == self@.link,
            self@.wf(),
            self@.link.fits(),
    {
        proof {
            use_type_invariant(self);
        }
        self.link.status()
    }

    /// Seconds to wait before the next join attempt.
    pub fn join_backoff_seconds(&self) -> (seconds: u32)
        ensures
            seconds == TICK_SECONDS * self@.link.join_backoff_ticks,
    {
        self.link.join_backoff_seconds()
    }

    /// The last sensor reading.
    pub fn climate(&self) -> (climate: Climate)
        ensures
            climate.temp_int == self@.temp_int,
            climate.hum_int == self@.hum_int,
            climate.wf(),
    {
        proof {
            use_type_invariant(self);
        }
        self.climate
    }

    /// The phase that the node is in.
    pub fn phase(&self) -> (phase: Phase)
        ensures
            phase == self@.phase,
    {
        self.phase
    }

    /// The action that the node waits for.
    pub fn pending(&self) -> (action: Action)
        ensures
            action@ == self@.pending(),
    {
        match self.phase {
            Phase::FirstMeasure | Phase::Measure => Action::Measure,
            Phase::FirstShow | Phase::Greet | Phase::Show => Action::Show(self.screen()),
            Phase::FirstJoin | Phase::Retry => Action::Join,
            Phase::Light => Action::Led(true),
            Phase::Send => Action::Send(self.uplink()),
            Phase::Dark => Action::Led(false),
            Phase::Settle => Action::Wait(SETTLE_MILLIS),
            Phase::Rest => Action::Wait(TICK_MILLIS),
        }
    }

    /// What the display shows.
    pub fn screen(&self) -> (screen: Screen)
        ensures
            screen@ == self@.rows(),
    {
        let s: Status = self.link.status();
        match self.link.board() {
            Board::Lora1 => update_sensor_display(
                self.climate.temp_int,
                self.climate.hum_int,
                s.tx_count,
                s.is_joined,
                s.join_attempt,
                s.report.snr,
                s.report.rssi,
                s.report.dr,
            ),
            Board::Lora2 => update_display(
                s.tx_count,
                s.is_joined,
                s.join_attempt,
                s.report.snr,
                s.report.rssi,
                s.report.dr,
            ),
        }
    }

    /// The uplink that the node would send now.
    pub fn uplink(&self) -> (uplink: Uplink)
        ensures
            uplink.payload@ == self@.payload(),
            uplink.port == UPLINK_PORT,
            uplink.confirmed == self@.board.confirms(self@.link.tx_count),
    {
        proof {
            use_type_invariant(self);
        }
        let board: Board = self.link.board();
        let tx_count: u32 = self.link.status().tx_count;
        let payload: [u8; 4] = match board {
            Board::Lora1 => climate_payload(self.climate.temp_int, self.climate.hum_int),
            Board::Lora2 => counter_payload(tx_count),
        };
        Uplink { payload, port: UPLINK_PORT, confirmed: board.use_confirmed(tx_count) }
    }

    /// Whether [`Node::step`] can take `event` now: it ends the pending action and
    /// leaves the counters within their range.
    pub fn can_take(&self, event: &Event) -> (ready: bool)
        ensures
            ready == (self@.accepts(*event) && self@.has_range(*event)),
    {
        proof {
            use_type_invariant(self);
        }
        let board: Board = self.link.board();
        let s: Status = self.link.status();
        match (self.phase, event) {
            (Phase::FirstMeasure | Phase::Measure, Event::Sampled(_)) => true,
            (Phase::FirstJoin | Phase::Retry, Event::Joined(_)) => true,
            (Phase::Send, Event::Sent(SendOutcome::RadioFault)) => true,
            (Phase::Send, Event::Sent(SendOutcome::Response(SendResponse::NoAck, _))) => true,
            (Phase::Send, Event::Sent(_)) => s.tx_count < u32::MAX,
            (Phase::FirstMeasure | Phase::Measure, _) => false,
            (Phase::FirstJoin | Phase::Retry | Phase::Send, _) => false,
            (phase, Event::Done) => {
                let decides: bool = match phase {
                    Phase::Greet => true,
                    Phase::Show => matches!(board, Board::Lora1),
                    Phase::Rest => matches!(board, Board::Lora2),
                    _ => false,
                };
                let joins: bool = !s.is_joined && s.join_wait_counter + 1 >= s.join_backoff_ticks;
                !decides || (s.uplink_counter < u32::MAX && (!joins || s.join_attempt < u32::MAX))
            },
            _ => false,
        }
    }

    /// Takes the event that ended the pending action and gives the action that follows.
    pub fn step(&mut self, event: Event) -> (action: Action)
        requires
            old(self)@.accepts(event),
            old(self)@.has_range(event),
        ensures
            final(self)@ == old(self)@.next(event),
            action@ == final(self)@.pending(),
    {
        proof {
            use_type_invariant(&*self);
        }
        let mut link = self.link;
        let mut climate = self.climate;
        let board: Board = link.board();
        let phase = match (self.phase, event) {
            (Phase::FirstMeasure, Event::Sampled(frame)) => {
                climate = resampled(climate, frame);
                Phase::FirstShow
            },
            (Phase::Measure, Event::Sampled(frame)) => {
                climate = resampled(climate, frame);
                Phase::Show
            },
            (Phase::FirstJoin, Event::Joined(outcome)) => {
                link.first_join_ended(outcome);
                match board {
                    Board::Lora1 => Phase::Measure,
                    Board::Lora2 => Phase::Greet,
                }
            },
            (Phase::Retry, Event::Joined(outcome)) => {
                link.join_ended(outcome);
                finished(board)
            },
            (Phase::Send, Event::Sent(outcome)) => {
                link.uplink_ended(outcome);
                Phase::Dark
            },
            (Phase::FirstShow, Event::Done) => Phase::FirstJoin,
            (Phase::Greet, Event::Done) => decided(&mut link),
            (Phase::Show, Event::Done) => match board {
                Board::Lora1 => decided(&mut link),
                Board::Lora2 => Phase::Rest,
            },
            (Phase::Light, Event::Done) => Phase::Send,
            (Phase::Dark, Event::Done) => match board {
                Board::Lora1 => Phase::Settle,
                Board::Lora2 => finished(board),
            },
            (Phase::Settle, Event::Done) => finished(board),
            (Phase::Rest, Event::Done) => match board {
                Board::Lora1 => Phase::Measure,
                Board::Lora2 => decided(&mut link),
            },
            (phase, _) => phase,
        };
        let _ = link.status();
        *self = Node { link, climate, phase };
        self.pending()
    }
}

/// The reading after the sensor was asked.
fn resampled(climate: Climate, frame: Option<[u8; 6]>) -> (next: Climate)
    requires
        climate.wf(),
    ensures
        next.wf(),
        match frame {
            Some(data) => {
                &&& next.temp_int == celsius(word(data@[0], data@[1]))
                &&& next.hum_int == percent(word(data@[3], data@[4]))
            },
            None => next == climate,
        },
{
    match frame {
        Some(data) => Climate::decode(&data),
        None => climate,
    }
}

/// The phase after what was due is done.
fn finished(board: Board) -> (phase: Phase)
    ensures
        phase == match board {
            Board::Lora1 => Phase::Rest,
            Board::Lora2 => Phase::Show,
        },
{
    match board {
        Board::Lora1 => Phase::Rest,
        Board::Lora2 => Phase::Show,
    }
}

/// Counts a tick and gives the phase in which what is due at it begins.
fn decided(link: &mut Link) -> (phase: Phase)
    requires
        old(link)@.uplink_counter < u32::MAX,
        old(link)@.after_tick(old(link).spec_board()).fits(),
    ensures
        final(link)@ == old(link)@.after_tick(old(link).spec_board()),
        final(link).spec_board() == old(link).spec_board(),
        phase == match old(link)@.due(old(link).spec_board()) {
            Due::Uplink => Phase::Light,
            Due::Join => Phase::Retry,
            Due::Nothing => match old(link).spec_board() {
                Board::Lora1 => Phase::Rest,
                Board::Lora2 => Phase::Show,
            },
        },
{
    match link.tick() {
        Due::Uplink => Phase::Light,
        Due::Join => Phase::Retry,
        Due::Nothing => finished(link.board()),
    }
}

} // verus!
