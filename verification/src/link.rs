//! The link to the gateway: when to join, when to send, and when a silent
//! gateway means that the node has to join again.
use vstd::prelude::*;

verus! {

/// The two boards. They run the same join algorithm; they differ in how often
/// they send, in which uplinks ask for an acknowledgement, and in what a radio
/// fault says about the gateway.
#[derive(Clone, Copy, Debug, PartialEq, Eq, Structural)]
pub enum Board {
    /// Sensor node: temperature and humidity, one uplink in five confirmed.
    Lora1,
    /// Range probe: a packet counter, every uplink confirmed.
    Lora2,
}

/// Ticks that the node waits before the first join retry.
pub const JOIN_BACKOFF_MIN: u32 = 8;

/// Ticks that the node waits at most between two join attempts.
pub const JOIN_BACKOFF_MAX: u32 = 30;

/// Missed acknowledgements in a row after which the gateway counts as lost.
pub const MAX_UPLINK_FAILS: u8 = 3;

/// On [`Board::Lora1`] one uplink in this many is confirmed.
pub const CONFIRMED_UPLINK_INTERVAL: u32 = 5;

/// Seconds in one tick.
pub const TICK_SECONDS: u32 = 2;

impl Board {
    /// Ticks from one uplink to the next.
    pub open spec fn interval(self) -> nat {
        match self {
            Board::Lora1 => 15,
            Board::Lora2 => 5,
        }
    }

    /// Whether the uplink that follows `tx_count` completed ones asks for an acknowledgement.
    pub open spec fn confirms(self, tx_count: nat) -> bool {
        match self {
            Board::Lora1 => tx_count % (CONFIRMED_UPLINK_INTERVAL as nat) == 0,
            Board::Lora2 => true,
        }
    }

    /// Ticks from one uplink to the next.
    pub fn uplink_interval(self) -> (ticks: u32)
        ensures
            ticks == self.interval(),
    {
        match self {
            Board::Lora1 => 15,
            Board::Lora2 => 5,
        }
    }

    /// Whether the uplink that follows `tx_count` completed ones asks for an acknowledgement.
    pub fn use_confirmed(self, tx_count: u32) -> (confirmed: bool)
        ensures
            confirmed == self.confirms(tx_count as nat),
    {
        match self {
            Board::Lora1 => tx_count % CONFIRMED_UPLINK_INTERVAL == 0,
            Board::Lora2 => true,
        }
    }
}

/// How a join attempt ended.
#[derive(Clone, Copy, Debug, PartialEq, Eq, Structural)]
pub enum JoinOutcome {
    JoinSuccess,
    NoJoinAccept,
    RadioFault,
}

/// What the radio stack reports of an uplink that went out.
#[derive(Clone, Copy, Debug, PartialEq, Eq, Structural)]
pub enum SendResponse {
    DownlinkReceived,
    SessionExpired,
    /// A confirmed uplink that no acknowledgement followed.
    NoAck,
    RxComplete,
}

/// Radio readings that belong to an uplink.
#[derive(Clone, Copy, Debug, PartialEq, Eq, Structural)]
pub struct LinkReport {
    /// Signal-to-noise ratio in dB.
    pub snr: i8,
    /// Received signal strength in dBm.
    pub rssi: i16,
    /// Data rate index.
    pub dr: u8,
}

/// How an uplink ended.
#[derive(Clone, Copy, Debug, PartialEq, Eq, Structural)]
pub enum SendOutcome {
    Response(SendResponse, LinkReport),
    RadioFault,
}

/// What is due at a tick.
#[derive(Clone, Copy, Debug, PartialEq, Eq, Structural)]
pub enum Due {
    Nothing,
    Join,
    Uplink,
}

/// The state of the link in mathematical terms.
pub struct LinkState {
    pub joined: bool,
    /// Join attempts since start or since the gateway was lost.
    pub join_attempt: nat,
    /// Completed uplinks since start.
    pub tx_count: nat,
    /// Ticks since the last uplink became due.
    pub uplink_counter: nat,
    /// Missed acknowledgements in a row.
    pub uplink_fail_count: nat,
    /// Ticks to wait before the next join attempt.
    pub join_backoff_ticks: nat,
    /// Ticks already waited for the next join attempt.
    pub join_wait_counter: nat,
    /// Readings of the last completed uplink.
    pub report: LinkReport,
}

/// What an uplink tells of the gateway.
pub enum Evidence {
    /// The gateway answered.
    Heard,
    /// The gateway did not answer though it was asked to.
    Missed,
    /// Nothing either way.
    Neutral,
}

/// What the outcome of an uplink tells of the gateway. An unconfirmed uplink
/// tells nothing. Of a confirmed one a missing acknowledgement speaks against
/// the gateway, and a downlink or a completed reception for it. An expired
/// session can come with or without an answer, so [`Board::Lora1`] takes it for
/// neither, while [`Board::Lora2`] takes it for an answer. A radio fault tells
/// nothing on [`Board::Lora1`]; [`Board::Lora2`] counts it as a missed
/// acknowledgement.
pub open spec fn evidence(board: Board, confirmed: bool, outcome: SendOutcome) -> Evidence {
    match outcome {
        SendOutcome::Response(SendResponse::NoAck, _) => if confirmed {
            Evidence::Missed
        } else {
            Evidence::Neutral
        },
        SendOutcome::Response(SendResponse::SessionExpired, _) => if confirmed && board is Lora2 {
            Evidence::Heard
        } else {
            Evidence::Neutral
        },
        SendOutcome::Response(_, _) => if confirmed {
            Evidence::Heard
        } else {
            Evidence::Neutral
        },
        SendOutcome::RadioFault => match board {
            Board::Lora1 => Evidence::Neutral,
            Board::Lora2 => Evidence::Missed,
        },
    }
}

/// The readings that come with an uplink that completed: one with any response
/// but a missing acknowledgement.
pub open spec fn completed(outcome: SendOutcome) -> Option<LinkReport> {
    match outcome {
        SendOutcome::Response(SendResponse::NoAck, _) => None,
        SendOutcome::Response(_, report) => Some(report),
        SendOutcome::RadioFault => None,
    }
}

impl LinkState {
    /// The state at power-up.
    pub open spec fn initial() -> LinkState {
        LinkState {
            joined: false,
            join_attempt: 0,
            tx_count: 0,
            uplink_counter: 0,
            uplink_fail_count: 0,
            join_backoff_ticks: JOIN_BACKOFF_MIN as nat,
            join_wait_counter: 0,
            report: LinkReport { snr: 0, rssi: 0, dr: 0 },
        }
    }

    /// What holds of the link at all times: fewer misses than lose the gateway,
    /// and none while not joined; a backoff that doubling from the shortest
    /// reaches, the shortest while joined; and a wait that is not over yet, none
    /// while joined.
    pub open spec fn wf(self) -> bool {
        &&& self.uplink_fail_count < MAX_UPLINK_FAILS
        &&& !self.joined ==> self.uplink_fail_count == 0
        &&& self.join_backoff_ticks == 8 || self.join_backoff_ticks == 16
            || self.join_backoff_ticks == 30
        &&& self.joined ==> self.join_backoff_ticks == JOIN_BACKOFF_MIN
        &&& self.join_wait_counter < self.join_backoff_ticks
        &&& self.joined ==> self.join_wait_counter == 0
    }

    /// Whether the counters fit in the machine integers that hold them.
    pub open spec fn fits(self) -> bool {
        &&& self.join_attempt <= u32::MAX
        &&& self.tx_count <= u32::MAX
        &&& self.uplink_counter <= u32::MAX
    }

    /// One more join attempt begins.
    pub open spec fn attempt(self) -> LinkState {
        LinkState { join_attempt: self.join_attempt + 1, ..self }
    }

    /// The join attempt at power-up has ended. A failure does not lengthen the backoff.
    pub open spec fn after_first_join(self, outcome: JoinOutcome) -> LinkState {
        match outcome {
            JoinOutcome::JoinSuccess => LinkState {
                joined: true,
                join_backoff_ticks: JOIN_BACKOFF_MIN as nat,
                ..self
            },
            _ => self,
        }
    }

    /// A join retry has ended: success resets the backoff, a failure doubles it
    /// up to its limit.
    pub open spec fn after_join(self, outcome: JoinOutcome) -> LinkState {
        match outcome {
            JoinOutcome::JoinSuccess => LinkState {
                joined: true,
                uplink_fail_count: 0,
                join_backoff_ticks: JOIN_BACKOFF_MIN as nat,
                ..self
            },
            _ => LinkState { join_backoff_ticks: doubled(self.join_backoff_ticks), ..self },
        }
    }

    /// The gateway counts as lost: the node has to join again, from the shortest
    /// backoff and with a fresh attempt count. The packet counter stays.
    pub open spec fn lost(self) -> LinkState {
        LinkState {
            joined: false,
            join_attempt: 0,
            uplink_fail_count: 0,
            join_backoff_ticks: JOIN_BACKOFF_MIN as nat,
            join_wait_counter: 0,
            ..self
        }
    }

    /// What is due at the next tick.
    pub open spec fn due(self, board: Board) -> Due {
        if self.joined {
            if self.uplink_counter + 1 >= board.interval() {
                Due::Uplink
            } else {
                Due::Nothing
            }
        } else if self.join_wait_counter + 1 >= self.join_backoff_ticks {
            Due::Join
        } else {
            Due::Nothing
        }
    }

    /// A tick has passed.
    pub open spec fn after_tick(self, board: Board) -> LinkState {
        let counted = LinkState { uplink_counter: self.uplink_counter + 1, ..self };
        match self.due(board) {
            Due::Uplink => LinkState { uplink_counter: 0, ..self },
            Due::Join => LinkState { join_wait_counter: 0, ..counted.attempt() },
            Due::Nothing => if self.joined {
                counted
            } else {
                LinkState { join_wait_counter: self.join_wait_counter + 1, ..counted }
            },
        }
    }

    /// An uplink has ended. One that completed is counted and its readings are
    /// kept; what the outcome tells of the gateway resets or raises the count of
    /// misses, and the last miss allowed loses the gateway.
    pub open spec fn after_uplink(self, board: Board, outcome: SendOutcome) -> LinkState {
        let sent = match completed(outcome) {
            Some(report) => LinkState { tx_count: self.tx_count + 1, report, ..self },
            None => self,
        };
        match evidence(board, board.confirms(self.tx_count), outcome) {
            Evidence::Heard => LinkState { uplink_fail_count: 0, ..sent },
            Evidence::Missed => if self.uplink_fail_count + 1 >= MAX_UPLINK_FAILS {
                sent.lost()
            } else {
                LinkState { uplink_fail_count: self.uplink_fail_count + 1, ..sent }
            },
            Evidence::Neutral => sent,
        }
    }
}

/// The backoff that follows `ticks` after a failed join retry.
pub open spec fn doubled(ticks: nat) -> nat {
    if 2 * ticks <= JOIN_BACKOFF_MAX {
        2 * ticks
    } else {
        JOIN_BACKOFF_MAX as nat
    }
}

/// The link as the node holds it, readable field by field.
#[derive(Clone, Copy, Debug, PartialEq, Eq, Structural)]
pub struct Status {
    pub is_joined: bool,
    pub join_attempt: u32,
    pub tx_count: u32,
    pub uplink_counter: u32,
    pub uplink_fail_count: u8,
    pub join_backoff_ticks: u32,
    pub join_wait_counter: u32,
    pub report: LinkReport,
}

impl View for Status {
    type V = LinkState;

    open spec fn view(&self) -> LinkState {
        LinkState {
            joined: self.is_joined,
            join_attempt: self.join_attempt as nat,
            tx_count: self.tx_count as nat,
            uplink_counter: self.uplink_counter as nat,
            uplink_fail_count: self.uplink_fail_count as nat,
            join_backoff_ticks: self.join_backoff_ticks as nat,
            join_wait_counter: self.join_wait_counter as nat,
            report: self.report,
        }
    }
}

/// The link of one board.
#[derive(Clone, Copy, Debug)]
pub struct Link {
    board: Board,
    status: Status,
}

impl View for Link {
    type V = LinkState;

    closed spec fn view(&self) -> LinkState {
        self.status@
    }
}

impl Link {
    /// The board that the link belongs to.
    pub closed spec fn spec_board(&self) -> Board {
        self.board
    }

    #[verifier::type_invariant]
    spec fn inv(self) -> bool {
        self.status@.wf()
    }

    /// The link at power-up.
    pub fn new(board: Board) -> (link: Link)
        ensures
            link.spec_board() == board,
            link@ == LinkState::initial(),
    {
        Link {
            board,
            status: Status {
                is_joined: false,
                join_attempt: 0,
                tx_count: 0,
                uplink_counter: 0,
                uplink_fail_count: 0,
                join_backoff_ticks: JOIN_BACKOFF_MIN,
                join_wait_counter: 0,
                report: LinkReport { snr: 0, rssi: 0, dr: 0 },
            },
        }
    }

    /// The board that the link belongs to.
    pub fn board(&self) -> (board: Board)
        ensures
            board == self.spec_board(),
    {
        self.board
    }

    /// The state of the link, which is well-formed at all times.
    pub fn status(&self) -> (status: Status)
        ensures
            status@ == self@,
            self@.wf(),
            self@.fits(),
    {
        proof {
            use_type_invariant(self);
        }
        self.status
    }

    /// Seconds to wait before the next join attempt.
    pub fn join_backoff_seconds(&self) -> (seconds: u32)
        ensures
            seconds == TICK_SECONDS * self@.join_backoff_ticks,
    {
        proof {
            use_type_invariant(self);
        }
        self.status.join_backoff_ticks * TICK_SECONDS
    }

    /// Begins the join attempt at power-up.
    pub fn first_attempt(&mut self)
        requires
            old(self)@.attempt().fits(),
        ensures
            final(self)@ == old(self)@.attempt(),
            final(self).spec_board() == old(self).spec_board(),
    {
        proof {
            use_type_invariant(&*self);
        }
        self.status.join_attempt = self.status.join_attempt + 1;
    }

    /// Takes the outcome of the join attempt at power-up.
    pub fn first_join_ended(&mut self, outcome: JoinOutcome)
        requires
            !old(self)@.joined,
            old(self)@.join_wait_counter == 0,
        ensures
            final(self)@ == old(self)@.after_first_join(outcome),
            final(self).spec_board() == old(self).spec_board(),
    {
        proof {
            use_type_invariant(&*self);
        }
        match outcome {
            JoinOutcome::JoinSuccess => {
                self.status = Status {
                    is_joined: true,
                    join_backoff_ticks: JOIN_BACKOFF_MIN,
                    ..self.status
                };
            },
            JoinOutcome::NoJoinAccept => {},
            JoinOutcome::RadioFault => {},
        }
    }

    /// Takes the outcome of a join retry.
    pub fn join_ended(&mut self, outcome: JoinOutcome)
        requires
            !old(self)@.joined,
            old(self)@.join_wait_counter == 0,
        ensures
            final(self)@ == old(self)@.after_join(outcome),
            final(self).spec_board() == old(self).spec_board(),
    {
        proof {
            use_type_invariant(&*self);
        }
        match outcome {
            JoinOutcome::JoinSuccess => {
                self.status = Status {
                    is_joined: true,
                    uplink_fail_count: 0,
                    join_backoff_ticks: JOIN_BACKOFF_MIN,
                    ..self.status
                };
            },
            JoinOutcome::NoJoinAccept | JoinOutcome::RadioFault => {
                let twice: u32 = self.status.join_backoff_ticks * 2;
                let next: u32 = if twice < JOIN_BACKOFF_MAX {
                    twice
                } else {
                    JOIN_BACKOFF_MAX
                };
                self.status = Status { join_backoff_ticks: next, ..self.status };
            },
        }
    }

    /// Counts a tick and says what is due.
    pub fn tick(&mut self) -> (due: Due)
        requires
            old(self)@.uplink_counter < u32::MAX,
            old(self)@.after_tick(old(self).spec_board()).fits(),
        ensures
            final(self)@ == old(self)@.after_tick(old(self).spec_board()),
            due == old(self)@.due(old(self).spec_board()),
            final(self).spec_board() == old(self).spec_board(),
    {
        proof {
            use_type_invariant(&*self);
        }
        let uplink_counter: u32 = self.status.uplink_counter + 1;
        if self.status.is_joined {
            if uplink_counter >= self.board.uplink_interval() {
                self.status = Status { uplink_counter: 0, ..self.status };
                Due::Uplink
            } else {
                self.status = Status { uplink_counter, ..self.status };
                Due::Nothing
            }
        } else {
            let waited: u32 = self.status.join_wait_counter + 1;
            if waited >= self.status.join_backoff_ticks {
                self.status = Status {
                    uplink_counter,
                    join_wait_counter: 0,
                    join_attempt: self.status.join_attempt + 1,
                    ..self.status
                };
                Due::Join
            } else {
                self.status = Status { uplink_counter, join_wait_counter: waited, ..self.status };
                Due::Nothing
            }
        }
    }

    /// Takes the outcome of an uplink.
    pub fn uplink_ended(&mut self, outcome: SendOutcome)
        requires
            old(self)@.joined,
            old(self)@.after_uplink(old(self).spec_board(), outcome).fits(),
        ensures
            final(self)@ == old(self)@.after_uplink(old(self).spec_board(), outcome),
            final(self).spec_board() == old(self).spec_board(),
    {
        proof {
            use_type_invariant(&*self);
        }
        let confirmed: bool = self.board.use_confirmed(self.status.tx_count);
        match outcome {
            SendOutcome::Response(SendResponse::NoAck, _) => {
                if confirmed {
                    self.missed();
                }
            },
            SendOutcome::Response(response, report) => {
                let heard: bool = confirmed && !(matches!(response, SendResponse::SessionExpired)
                    && matches!(self.board, Board::Lora1));
                let uplink_fail_count: u8 = if heard {
                    0
                } else {
                    self.status.uplink_fail_count
                };
                self.status = Status {
                    tx_count: self.status.tx_count + 1,
                    report,
                    uplink_fail_count,
                    ..self.status
                };
            },
            SendOutcome::RadioFault => {
                match self.board {
                    Board::Lora1 => {},
                    Board::Lora2 => self.missed(),
                }
            },
        }
    }

    /// Counts a missed acknowledgement; the last one allowed loses the gateway.
    fn missed(&mut self)
        requires
            old(self)@.joined,
        ensures
            final(self).spec_board() == old(self).spec_board(),
            final(self)@ == if old(self)@.uplink_fail_count + 1 >= MAX_UPLINK_FAILS {
                old(self)@.lost()
            } else {
                LinkState {
                    uplink_fail_count: old(self)@.uplink_fail_count + 1,
                    ..old(self)@
                }
            },
    {
        proof {
            use_type_invariant(&*self);
        }
        let fails: u8 = self.status.uplink_fail_count + 1;
        if fails >= MAX_UPLINK_FAILS {
            self.status = Status {
                is_joined: false,
                join_attempt: 0,
                uplink_fail_count: 0,
                join_backoff_ticks: JOIN_BACKOFF_MIN,
                join_wait_counter: 0,
                ..self.status
            };
        } else {
            self.status = Status { uplink_fail_count: fails, ..self.status };
        }
    }
}

} // verus!
