//! What holds of the library as a whole, across calls.
use vstd::prelude::*;

pub mod display;
pub mod link;
pub mod node;

use crate::link::{
    completed, evidence, Board, Due, Evidence, JoinOutcome, LinkReport, LinkState,
    SendOutcome, SendResponse, JOIN_BACKOFF_MAX, JOIN_BACKOFF_MIN, MAX_UPLINK_FAILS, TICK_SECONDS,
};
use crate::node::{ActionView, Event, NodeState, Phase};
use crate::payload::{be16, be32, climate_bytes};
use crate::screen::{connecting_row, spreading_factor_of};
use crate::sensor::word;
use crate::text::decimal;

verus! {

// ---------------------------------------------------------------------------
// Joining
// ---------------------------------------------------------------------------

/// The link after `n` ticks, with whatever was due at them not yet ended.
pub open spec fn ticks(board: Board, s: LinkState, n: nat) -> LinkState
    decreases n,
{
    if n == 0 {
        s
    } else {
        ticks(board, s, (n - 1) as nat).after_tick(board)
    }
}

/// While the node is not joined, nothing is due until the backoff has run out;
/// then a join attempt is due, which is the next one in number. That takes no
/// more ticks than the longest backoff, a minute.
pub proof fn law_join_attempt_within_a_minute(board: Board, s: LinkState)
    requires
        s.wf(),
        !s.joined,
    ensures
        ({
            let n = (s.join_backoff_ticks - s.join_wait_counter) as nat;
            &&& 1 <= n <= JOIN_BACKOFF_MAX
            &&& n * TICK_SECONDS <= 60
            &&& forall|k: nat|
                #![trigger ticks(board, s, k)]
                k + 1 < n ==> ticks(board, s, k).due(board) == Due::Nothing
            &&& ticks(board, s, (n - 1) as nat).due(board) == Due::Join
            &&& ticks(board, s, n) == LinkState {
                join_attempt: s.join_attempt + 1,
                join_wait_counter: 0,
                uplink_counter: s.uplink_counter + n,
                ..s
            }
        }),
{
    let n = (s.join_backoff_ticks - s.join_wait_counter) as nat;
    assert forall|k: nat| k + 1 < n implies #[trigger] ticks(board, s, k).due(board)
        == Due::Nothing by {
        lemma_waiting(board, s, k);
    }
    lemma_waiting(board, s, (n - 1) as nat);
}

/// The link while it waits for the next join attempt.
proof fn lemma_waiting(board: Board, s: LinkState, k: nat)
    requires
        s.wf(),
        !s.joined,
        s.join_wait_counter + k < s.join_backoff_ticks,
    ensures
        ticks(board, s, k) == (LinkState {
            join_wait_counter: s.join_wait_counter + k,
            uplink_counter: s.uplink_counter + k,
            ..s
        }),
    decreases k,
{
    if k > 0 {
        lemma_waiting(board, s, (k - 1) as nat);
    }
}

/// One round of retrying: the backoff runs out and the join attempt fails.
pub open spec fn failed_round(board: Board, s: LinkState, outcome: JoinOutcome) -> LinkState {
    ticks(board, s, s.join_backoff_ticks).after_join(outcome)
}

/// The link after rounds of retrying that end as `outcomes` says.
pub open spec fn failed_rounds(board: Board, s: LinkState, outcomes: Seq<JoinOutcome>) -> LinkState
    decreases outcomes.len(),
{
    if outcomes.len() == 0 {
        s
    } else {
        failed_round(board, failed_rounds(board, s, outcomes.drop_last()), outcomes.last())
    }
}

/// After a failed join at power-up, and after the gateway was lost, the backoff
/// is 16 s; it doubles with each failed retry up to 60 s, and stays there. Each
/// round makes one attempt; the node stays not joined and keeps its packet counter.
pub proof fn law_backoff_doubles_up_to_a_minute(
    board: Board,
    s: LinkState,
    outcomes: Seq<JoinOutcome>,
)
    requires
        s.wf(),
        !s.joined,
        s.join_backoff_ticks == JOIN_BACKOFF_MIN,
        s.join_wait_counter == 0,
        forall|i: int| 0 <= i < outcomes.len() ==> outcomes[i] != JoinOutcome::JoinSuccess,
    ensures
        ({
            let t = failed_rounds(board, s, outcomes);
            &&& t.wf()
            &&& !t.joined
            &&& t.join_wait_counter == 0
            &&& t.join_attempt == s.join_attempt + outcomes.len()
            &&& t.tx_count == s.tx_count
            &&& TICK_SECONDS * t.join_backoff_ticks == if outcomes.len() == 0 {
                16
            } else if outcomes.len() == 1 {
                32
            } else {
                60int
            }
        }),
    decreases outcomes.len(),
{
    if outcomes.len() > 0 {
        let before = failed_rounds(board, s, outcomes.drop_last());
        law_backoff_doubles_up_to_a_minute(board, s, outcomes.drop_last());
        law_join_attempt_within_a_minute(board, before);
        assert(outcomes.last() != JoinOutcome::JoinSuccess);
    }
}

/// A successful join resets the backoff to 16 s and the misses to none; it keeps
/// the packet counter.
pub proof fn law_success_resets_the_backoff(s: LinkState)
    requires
        s.wf(),
        !s.joined,
        s.join_wait_counter == 0,
    ensures
        ({
            let t = s.after_join(JoinOutcome::JoinSuccess);
            let first = s.after_first_join(JoinOutcome::JoinSuccess);
            &&& t.wf()
            &&& t.joined
            &&& TICK_SECONDS * t.join_backoff_ticks == 16
            &&& t.uplink_fail_count == 0
            &&& t.tx_count == s.tx_count
            &&& first == t
        }),
{
}

// ---------------------------------------------------------------------------
// Sending
// ---------------------------------------------------------------------------

/// Ticks until the next uplink is due.
pub open spec fn uplink_wait(board: Board, s: LinkState) -> nat {
    if s.uplink_counter + 1 >= board.interval() {
        1
    } else {
        (board.interval() - s.uplink_counter) as nat
    }
}

/// While the node is joined, nothing but an uplink is ever due, and one is due
/// as soon as the interval since the last one has passed: at once if it passed
/// while the node was not joined, and otherwise at the first tick that completes
/// it. A tick changes nothing else of the link.
pub proof fn law_uplink_cadence(board: Board, s: LinkState)
    requires
        s.joined,
    ensures
        ({
            let n = uplink_wait(board, s);
            &&& forall|k: nat|
                #![trigger ticks(board, s, k)]
                k + 1 < n ==> ticks(board, s, k).due(board) == Due::Nothing
            &&& forall|k: nat|
                k < n ==> #[trigger] ticks(board, s, k) == (LinkState {
                    uplink_counter: s.uplink_counter + k,
                    ..s
                })
            &&& ticks(board, s, (n - 1) as nat).due(board) == Due::Uplink
            &&& ticks(board, s, n) == LinkState { uplink_counter: 0, ..s }
        }),
{
    let n = uplink_wait(board, s);
    assert forall|k: nat| k + 1 < n implies #[trigger] ticks(board, s, k).due(board)
        == Due::Nothing by {
        lemma_counting(board, s, k);
    }
    assert forall|k: nat| k < n implies #[trigger] ticks(board, s, k) == (LinkState {
        uplink_counter: s.uplink_counter + k,
        ..s
    }) by {
        if k > 0 {
            lemma_counting(board, s, k);
        }
    }
    if n > 1 {
        lemma_counting(board, s, (n - 1) as nat);
    } else {
        reveal_with_fuel(ticks, 2);
    }
}

/// The link while it waits for the next uplink.
proof fn lemma_counting(board: Board, s: LinkState, k: nat)
    requires
        s.joined,
        s.uplink_counter + k < board.interval(),
    ensures
        ticks(board, s, k) == (LinkState { uplink_counter: s.uplink_counter + k, ..s }),
    decreases k,
{
    if k > 0 {
        lemma_counting(board, s, (k - 1) as nat);
    }
}

/// Of five completed uplinks in a row the sensor node confirms exactly one; the
/// range probe confirms every one.
pub proof fn law_confirmed_share(n: nat)
    ensures
        exists|k: nat|
            {
                &&& k < 5
                &&& #[trigger] Board::Lora1.confirms(n + k)
                &&& forall|j: nat| j < 5 && #[trigger] Board::Lora1.confirms(n + j) ==> j == k
            },
        Board::Lora2.confirms(n),
{
    let k = ((5 - n % 5) % 5) as nat;
    assert(Board::Lora1.confirms(n + k));
    assert forall|j: nat| j < 5 && #[trigger] Board::Lora1.confirms(n + j) implies j == k by {}
}

/// The link after uplinks that end as `outcomes` says.
pub open spec fn uplinks(board: Board, s: LinkState, outcomes: Seq<SendOutcome>) -> LinkState
    decreases outcomes.len(),
{
    if outcomes.len() == 0 {
        s
    } else {
        uplinks(board, s, outcomes.drop_last()).after_uplink(board, outcomes.last())
    }
}

/// What the last of `outcomes` tells of the gateway.
pub open spec fn last_evidence(board: Board, s: LinkState, outcomes: Seq<SendOutcome>) -> Evidence {
    evidence(
        board,
        board.confirms(uplinks(board, s, outcomes.drop_last()).tx_count),
        outcomes.last(),
    )
}

/// Misses since the gateway was last heard.
pub open spec fn misses(board: Board, s: LinkState, outcomes: Seq<SendOutcome>) -> nat
    decreases outcomes.len(),
{
    if outcomes.len() == 0 {
        s.uplink_fail_count
    } else {
        match last_evidence(board, s, outcomes) {
            Evidence::Heard => 0,
            Evidence::Missed => misses(board, s, outcomes.drop_last()) + 1,
            Evidence::Neutral => misses(board, s, outcomes.drop_last()),
        }
    }
}

/// The node joins again when and only when three misses have come with no answer
/// from the gateway between them, however many uplinks that tell nothing lie
/// between them.
pub proof fn law_three_misses_lose_the_gateway(
    board: Board,
    s: LinkState,
    outcomes: Seq<SendOutcome>,
)
    requires
        s.wf(),
        s.joined,
        forall|n: int|
            0 <= n < outcomes.len() ==> #[trigger] misses(board, s, outcomes.take(n))
                < MAX_UPLINK_FAILS,
    ensures
        ({
            let t = uplinks(board, s, outcomes);
            &&& t.wf()
            &&& t.joined <==> misses(board, s, outcomes) < MAX_UPLINK_FAILS
            &&& t.joined ==> t.uplink_fail_count == misses(board, s, outcomes)
            &&& misses(board, s, outcomes) <= MAX_UPLINK_FAILS
        }),
    decreases outcomes.len(),
{
    if outcomes.len() > 0 {
        let rest = outcomes.drop_last();
        assert(rest == outcomes.take(outcomes.len() - 1));
        assert forall|n: int| 0 <= n < rest.len() implies #[trigger] misses(
            board,
            s,
            rest.take(n),
        ) < MAX_UPLINK_FAILS by {
            assert(rest.take(n) == outcomes.take(n));
        }
        law_three_misses_lose_the_gateway(board, s, rest);
    } else {
        assert(outcomes == outcomes.take(0));
    }
}

/// Losing the gateway starts the joining over: attempts from none, the shortest
/// backoff, no misses. The packet counter and the last readings stay, so the
/// counter resumes where it was.
pub proof fn law_rejoin_starts_over(board: Board, s: LinkState, outcome: SendOutcome)
    requires
        s.wf(),
        s.joined,
        !s.after_uplink(board, outcome).joined,
    ensures
        s.after_uplink(board, outcome) == (LinkState {
            joined: false,
            join_attempt: 0,
            uplink_fail_count: 0,
            join_backoff_ticks: JOIN_BACKOFF_MIN as nat,
            join_wait_counter: 0,
            ..s
        }),
{
}

/// An uplink that asked for no acknowledgement changes neither whether the node
/// is joined nor how many misses it has counted.
pub proof fn law_unconfirmed_uplinks_are_neutral(s: LinkState, outcome: SendOutcome)
    requires
        !Board::Lora1.confirms(s.tx_count),
    ensures
        ({
            let t = s.after_uplink(Board::Lora1, outcome);
            &&& t.joined == s.joined
            &&& t.uplink_fail_count == s.uplink_fail_count
        }),
{
}

/// Whether an acknowledgement was missing.
pub open spec fn no_ack(outcome: SendOutcome) -> bool {
    outcome matches SendOutcome::Response(SendResponse::NoAck, _)
}

/// Whether the response to a confirmed uplink shows that the gateway heard it.
pub open spec fn acknowledged(outcome: SendOutcome) -> bool {
    ||| outcome matches SendOutcome::Response(SendResponse::DownlinkReceived, _)
    ||| outcome matches SendOutcome::Response(SendResponse::RxComplete, _)
}

/// On the sensor node the count of misses rises only by a missing
/// acknowledgement of a confirmed uplink, and falls only by the acknowledgement
/// of one or when the gateway is lost.
pub proof fn law_sensor_counts_missing_acknowledgements_only(s: LinkState, outcome: SendOutcome)
    requires
        s.wf(),
        s.joined,
    ensures
        ({
            let t = s.after_uplink(Board::Lora1, outcome);
            let confirmed = Board::Lora1.confirms(s.tx_count);
            &&& t.uplink_fail_count > s.uplink_fail_count || !t.joined ==> confirmed && no_ack(
                outcome,
            )
            &&& t.joined && t.uplink_fail_count < s.uplink_fail_count ==> confirmed
                && acknowledged(outcome)
            &&& confirmed && acknowledged(outcome) ==> t.joined && t.uplink_fail_count == 0
        }),
{
}

/// An uplink that ends as it does when the gateway is gone: no acknowledgement
/// if one was asked for, and nothing amiss otherwise.
pub open spec fn unanswered(board: Board, s: LinkState, report: LinkReport) -> SendOutcome {
    if board.confirms(s.tx_count) {
        SendOutcome::Response(SendResponse::NoAck, report)
    } else {
        SendOutcome::Response(SendResponse::RxComplete, report)
    }
}

/// The link after `n` uplinks with the gateway gone.
pub open spec fn unanswered_uplinks(
    board: Board,
    s: LinkState,
    report: LinkReport,
    n: nat,
) -> LinkState
    decreases n,
{
    if n == 0 {
        s
    } else {
        let t = unanswered_uplinks(board, s, report, (n - 1) as nat);
        t.after_uplink(board, unanswered(board, t, report))
    }
}

/// Uplinks that it takes to notice that the gateway is gone: those up to the next
/// confirmed one, and from there as many as misses are left.
pub open spec fn uplinks_to_notice(board: Board, s: LinkState) -> nat {
    let unconfirmed = match board {
        Board::Lora1 => ((5 - s.tx_count % 5) % 5) as nat,
        Board::Lora2 => 0,
    };
    (unconfirmed + MAX_UPLINK_FAILS - s.uplink_fail_count) as nat
}

/// With the gateway gone the node stays joined for exactly as many uplinks as
/// [`uplinks_to_notice`] says and then joins again: on the range probe after
/// three at most, on the sensor node after seven at most, which is within three
/// cycles of five.
pub proof fn law_gateway_loss_is_noticed(board: Board, s: LinkState, report: LinkReport)
    requires
        s.wf(),
        s.joined,
    ensures
        ({
            let n = uplinks_to_notice(board, s);
            &&& forall|k: nat| k < n ==> #[trigger] unanswered_uplinks(board, s, report, k).joined
            &&& !unanswered_uplinks(board, s, report, n).joined
            &&& 1 <= n
            &&& board is Lora2 ==> n <= 3
            &&& board is Lora1 ==> n <= 7 <= 3 * 5
        }),
{
    let n = uplinks_to_notice(board, s);
    assert forall|k: nat| k < n implies #[trigger] unanswered_uplinks(
        board,
        s,
        report,
        k,
    ).joined by {
        lemma_unanswered(board, s, report, k);
    }
    lemma_unanswered(board, s, report, (n - 1) as nat);
}

/// The link while the gateway is gone and the node has not noticed.
proof fn lemma_unanswered(board: Board, s: LinkState, report: LinkReport, k: nat)
    requires
        s.wf(),
        s.joined,
        k < uplinks_to_notice(board, s),
    ensures
        ({
            let t = unanswered_uplinks(board, s, report, k);
            let unconfirmed = (uplinks_to_notice(board, s) + s.uplink_fail_count
                - MAX_UPLINK_FAILS) as nat;
            &&& t.joined
            &&& t.wf()
            &&& k <= unconfirmed ==> t.tx_count == s.tx_count + k && t.uplink_fail_count
                == s.uplink_fail_count
            &&& k > unconfirmed ==> t.tx_count == s.tx_count + unconfirmed && t.uplink_fail_count
                == s.uplink_fail_count + k - unconfirmed
        }),
    decreases k,
{
    if k > 0 {
        lemma_unanswered(board, s, report, (k - 1) as nat);
    }
}

/// The packet counter never goes back: only an uplink that completed moves it,
/// by one.
pub proof fn law_packet_counter_only_counts_completed_uplinks(
    board: Board,
    s: LinkState,
    join: JoinOutcome,
    send: SendOutcome,
)
    ensures
        s.attempt().tx_count == s.tx_count,
        s.after_first_join(join).tx_count == s.tx_count,
        s.after_join(join).tx_count == s.tx_count,
        s.after_tick(board).tx_count == s.tx_count,
        s.after_uplink(board, send).tx_count == s.tx_count + (if completed(send) is Some {
            1int
        } else {
            0
        }),
{
}

// ---------------------------------------------------------------------------
// The program
// ---------------------------------------------------------------------------

/// A node is well-formed at power-up and stays so: it never tries to join while
/// joined and never sends while not joined.
pub proof fn law_node_stays_well_formed(board: Board, s: NodeState, event: Event)
    requires
        s.wf(),
        s.accepts(event),
    ensures
        NodeState::initial(board).wf(),
        s.next(event).wf(),
        s.next(event).board == s.board,
        s.pending() is Join ==> !s.link.joined,
        s.pending() is Send ==> s.link.joined,
{
    if let Event::Sampled(Some(data)) = event {
        assert(0 <= word(data@[0], data@[1]) <= 65535);
        assert(0 <= word(data@[3], data@[4]) <= 65535);
    }
}

/// The LED is lit for an uplink and for nothing else: an uplink comes right after
/// the LED is switched on and at no other time, and the LED is switched off right
/// after an uplink and at no other time.
pub proof fn law_led_is_lit_during_an_uplink(s: NodeState, event: Event)
    requires
        s.accepts(event),
    ensures
        s.next(event).pending() is Send <==> s.pending() == ActionView::Led(true),
        s.next(event).pending() == ActionView::Led(false) <==> s.pending() is Send,
{
}

/// Whether a phase belongs to the ticks, as against power-up.
pub open spec fn ticking(phase: Phase) -> bool {
    !(phase is FirstMeasure || phase is FirstShow || phase is FirstJoin || phase is Greet)
}

/// Pictures still to be drawn before the next rest.
pub open spec fn pictures_left(s: NodeState) -> nat {
    match (s.board, s.phase) {
        (_, Phase::Rest) => 0,
        (_, Phase::Show) => 1,
        (Board::Lora1, Phase::Measure) => 1,
        (Board::Lora1, _) => 0,
        (Board::Lora2, _) => 1,
    }
}

/// Actions still to be done before the next rest, at most.
pub open spec fn actions_left(s: NodeState) -> nat {
    match (s.board, s.phase) {
        (_, Phase::Rest) => 0,
        (Board::Lora1, Phase::Settle) => 1,
        (Board::Lora1, Phase::Retry) => 1,
        (Board::Lora1, Phase::Dark) => 2,
        (Board::Lora1, Phase::Send) => 3,
        (Board::Lora1, Phase::Light) => 4,
        (Board::Lora1, Phase::Show) => 5,
        (Board::Lora1, _) => 6,
        (Board::Lora2, Phase::Show) => 1,
        (Board::Lora2, Phase::Retry) => 2,
        (Board::Lora2, Phase::Settle) => 2,
        (Board::Lora2, Phase::Dark) => 2,
        (Board::Lora2, Phase::Send) => 3,
        (Board::Lora2, _) => 4,
    }
}

/// Every tick ends with a rest of two seconds, after six actions at most, and
/// draws exactly one picture before it.
pub proof fn law_every_tick_draws_once_and_rests(s: NodeState, event: Event)
    requires
        s.accepts(event),
        ticking(s.phase),
        s.board is Lora2 ==> !(s.phase is Measure),
    ensures
        ({
            let t = s.next(event);
            &&& ticking(t.phase)
            &&& s.board is Lora2 ==> !(t.phase is Measure)
            &&& !(s.phase is Rest) ==> actions_left(t) < actions_left(s) && pictures_left(s)
                == pictures_left(t) + (if s.pending() is Show {
                1int
            } else {
                0
            })
            &&& s.phase is Rest ==> actions_left(t) <= 6 && pictures_left(t) == 1
            &&& s.phase is Rest ==> s.pending() == ActionView::Wait(2000)
        }),
{
}

/// Link ticks still to be counted before the next rest. The range probe counts
/// its tick as the rest ends, so it has none left at any other time.
pub open spec fn ticks_left(s: NodeState) -> nat {
    if s.board is Lora1 && (s.phase is Measure || s.phase is Show) {
        1
    } else {
        0
    }
}

/// Each rest of two seconds goes with exactly one tick of the link: the range
/// probe counts it when the rest ends, the sensor node once between that rest
/// and the next. Nothing else counts ticks.
pub proof fn law_one_link_tick_per_rest(s: NodeState, event: Event)
    requires
        s.wf(),
        s.accepts(event),
        ticking(s.phase),
        s.board is Lora2 ==> !(s.phase is Measure),
    ensures
        ({
            let t = s.next(event);
            &&& s.decides() ==> t.link == s.link.after_tick(s.board)
            &&& !s.decides() ==> t.link.uplink_counter == s.link.uplink_counter
            &&& s.board is Lora2 ==> (s.decides() <==> s.phase is Rest)
            &&& ticks_left(s) + (if s.phase is Rest {
                1int
            } else {
                0
            }) == ticks_left(t) + (if s.decides() {
                1int
            } else {
                0
            })
        }),
{
}

/// The node after `events`.
pub open spec fn run(s: NodeState, events: Seq<Event>) -> NodeState
    decreases events.len(),
{
    if events.len() == 0 {
        s
    } else {
        run(s, events.drop_last()).next(events.last())
    }
}

/// Whether each of `events` ends the action that is pending when it comes.
pub open spec fn accepted(s: NodeState, events: Seq<Event>) -> bool
    decreases events.len(),
{
    events.len() > 0 ==> {
        &&& accepted(s, events.drop_last())
        &&& run(s, events.drop_last()).accepts(events.last())
    }
}

/// Rests of two seconds that end during `events`.
pub open spec fn rests(s: NodeState, events: Seq<Event>) -> nat
    decreases events.len(),
{
    if events.len() == 0 {
        0
    } else {
        rests(s, events.drop_last()) + (if run(s, events.drop_last()).phase is Rest {
            1nat
        } else {
            0
        })
    }
}

/// Link ticks that are counted during `events`.
pub open spec fn ticks_counted(s: NodeState, events: Seq<Event>) -> nat
    decreases events.len(),
{
    if events.len() == 0 {
        0
    } else {
        ticks_counted(s, events.drop_last()) + (if run(s, events.drop_last()).decides() {
            1nat
        } else {
            0
        })
    }
}

/// Whether no join attempt and no uplink ends during `events`.
pub open spec fn quiet(events: Seq<Event>) -> bool {
    forall|i: int| 0 <= i < events.len() ==> !(events[i] is Joined) && !(events[i] is Sent)
}

/// However a node runs, from one rest to another it counts as many link ticks as
/// rests have ended; from a rest to any other moment it is at most one behind.
pub proof fn law_ticks_keep_time(s: NodeState, events: Seq<Event>)
    requires
        s.wf(),
        s.phase is Rest,
        accepted(s, events),
    ensures
        ({
            let t = run(s, events);
            &&& t.wf()
            &&& ticks_counted(s, events) + ticks_left(t) == rests(s, events)
            &&& t.phase is Rest ==> ticks_counted(s, events) == rests(s, events)
        }),
{
    lemma_run(s, events);
}

/// What holds of a run that starts with a rest.
proof fn lemma_run(s: NodeState, events: Seq<Event>)
    requires
        s.wf(),
        s.phase is Rest,
        accepted(s, events),
    ensures
        ({
            let t = run(s, events);
            &&& t.wf()
            &&& t.board == s.board
            &&& ticking(t.phase)
            &&& t.board is Lora2 ==> !(t.phase is Measure)
            &&& ticks_counted(s, events) + ticks_left(t) == rests(s, events)
        }),
    decreases events.len(),
{
    if events.len() > 0 {
        let before = run(s, events.drop_last());
        lemma_run(s, events.drop_last());
        law_node_stays_well_formed(s.board, before, events.last());
        law_every_tick_draws_once_and_rests(before, events.last());
        law_one_link_tick_per_rest(before, events.last());
    }
}

/// A node that rests while not joined tries to join when the backoff has run out,
/// and not before: until then the link only counts ticks, and no more rests end
/// than the backoff has ticks left, so at most a minute is rested away.
pub proof fn law_node_tries_to_join_within_a_minute(s: NodeState, events: Seq<Event>)
    requires
        s.wf(),
        s.phase is Rest,
        !s.link.joined,
        accepted(s, events),
        quiet(events),
    ensures
        ({
            let t = run(s, events);
            let n = (s.link.join_backoff_ticks - s.link.join_wait_counter) as nat;
            let k = ticks_counted(s, events);
            &&& t.link == ticks(s.board, s.link, k)
            &&& t.pending() is Join <==> k == n
            &&& k <= n
            &&& rests(s, events) <= n
            &&& TICK_SECONDS * rests(s, events) <= 60
        }),
{
    lemma_run(s, events);
    lemma_waiting_run(s, events);
    law_join_attempt_within_a_minute(s.board, s.link);
}

proof fn lemma_waiting_run(s: NodeState, events: Seq<Event>)
    requires
        s.wf(),
        s.phase is Rest,
        !s.link.joined,
        accepted(s, events),
        quiet(events),
    ensures
        ({
            let t = run(s, events);
            let n = (s.link.join_backoff_ticks - s.link.join_wait_counter) as nat;
            let k = ticks_counted(s, events);
            &&& t.link == ticks(s.board, s.link, k)
            &&& k <= n
            &&& t.phase is Retry <==> k == n
            &&& t.phase is Retry || t.phase is Measure || t.phase is Show || t.phase is Rest
        }),
    decreases events.len(),
{
    law_join_attempt_within_a_minute(s.board, s.link);
    if events.len() > 0 {
        let rest = events.drop_last();
        let k = ticks_counted(s, rest);
        assert forall|i: int| 0 <= i < rest.len() implies !(rest[i] is Joined) && !(
        rest[i] is Sent) by {
            assert(rest[i] == events[i]);
        }
        assert(!(events.last() is Joined) && !(events.last() is Sent));
        lemma_run(s, rest);
        lemma_waiting_run(s, rest);
        assert(k < s.link.join_backoff_ticks - s.link.join_wait_counter);
        lemma_waiting(s.board, s.link, k);
    }
}

/// A node that rests while joined starts an uplink when its interval has passed,
/// and not before: until then the link only counts ticks, and no more rests end
/// than the interval has ticks left.
pub proof fn law_node_sends_on_time(s: NodeState, events: Seq<Event>)
    requires
        s.wf(),
        s.phase is Rest,
        s.link.joined,
        accepted(s, events),
        quiet(events),
    ensures
        ({
            let t = run(s, events);
            let n = uplink_wait(s.board, s.link);
            let k = ticks_counted(s, events);
            &&& t.link == ticks(s.board, s.link, k)
            &&& t.pending() == ActionView::Led(true) || t.pending() is Send <==> k == n
            &&& k <= n
            &&& rests(s, events) <= n
        }),
{
    lemma_run(s, events);
    lemma_counting_run(s, events);
}

proof fn lemma_counting_run(s: NodeState, events: Seq<Event>)
    requires
        s.wf(),
        s.phase is Rest,
        s.link.joined,
        accepted(s, events),
        quiet(events),
    ensures
        ({
            let t = run(s, events);
            let n = uplink_wait(s.board, s.link);
            let k = ticks_counted(s, events);
            &&& t.link == ticks(s.board, s.link, k)
            &&& k <= n
            &&& t.phase is Light || t.phase is Send <==> k == n
            &&& t.phase is Light || t.phase is Send || t.phase is Measure || t.phase is Show
                || t.phase is Rest
        }),
    decreases events.len(),
{
    law_uplink_cadence(s.board, s.link);
    if events.len() > 0 {
        let rest = events.drop_last();
        let k = ticks_counted(s, rest);
        assert forall|i: int| 0 <= i < rest.len() implies !(rest[i] is Joined) && !(
        rest[i] is Sent) by {
            assert(rest[i] == events[i]);
        }
        assert(!(events.last() is Joined) && !(events.last() is Sent));
        lemma_run(s, rest);
        lemma_counting_run(s, rest);
    }
}

/// Whether an event is one that comes when the gateway is gone: a join attempt
/// fails, a confirmed uplink gets no acknowledgement, and an unconfirmed one
/// ends with nothing amiss.
pub open spec fn gateway_gone(s: NodeState, event: Event) -> bool {
    match event {
        Event::Joined(outcome) => outcome != JoinOutcome::JoinSuccess,
        Event::Sent(SendOutcome::Response(response, _)) => response == if s.board.confirms(
            s.link.tx_count,
        ) {
            SendResponse::NoAck
        } else {
            SendResponse::RxComplete
        },
        Event::Sent(SendOutcome::RadioFault) => false,
        _ => true,
    }
}

/// Whether the gateway is gone all through `events`.
pub open spec fn gone_throughout(s: NodeState, events: Seq<Event>) -> bool
    decreases events.len(),
{
    events.len() > 0 ==> {
        &&& gone_throughout(s, events.drop_last())
        &&& gateway_gone(run(s, events.drop_last()), events.last())
    }
}

/// Link ticks that a joined node counts from now on until it notices that the
/// gateway is gone: those to the next uplink, unless it has begun, and an
/// interval for each uplink that it takes beyond that one.
pub open spec fn ticks_to_notice(s: NodeState) -> nat {
    let further = (s.board.interval() * (uplinks_to_notice(s.board, s.link) - 1)) as nat;
    if s.phase is Light || s.phase is Send {
        further
    } else {
        uplink_wait(s.board, s.link) + further
    }
}

/// With the gateway gone from a rest on, a joined node stays joined for exactly
/// as many link ticks as [`ticks_to_notice`] says, and has to join again at the
/// uplink of the last one: it is not joined when it next rests, and never once
/// more rests have ended than that. On the range probe that is half a minute at
/// most; on the sensor node it is three and a half minutes at most, well within
/// seven and a half.
pub proof fn law_node_notices_a_lost_gateway(s: NodeState, events: Seq<Event>)
    requires
        s.wf(),
        s.phase is Rest,
        s.link.joined,
        accepted(s, events),
        gone_throughout(s, events),
    ensures
        ({
            let t = run(s, events);
            let n = ticks_to_notice(s);
            &&& s.board is Lora2 ==> n <= 15 && TICK_SECONDS * n <= 30
            &&& s.board is Lora1 ==> n <= 7 * 15 && TICK_SECONDS * n <= 210
            &&& !t.link.joined ==> ticks_counted(s, events) >= n
            &&& t.link.joined ==> ticks_counted(s, events) <= n
            &&& rests(s, events) > n ==> !t.link.joined
            &&& t.phase is Rest ==> (t.link.joined <==> rests(s, events) < n)
        }),
{
    lemma_run(s, events);
    lemma_noticing_run(s, events);
}

/// The ticks counted and those still to come before the node notices.
proof fn lemma_noticing_run(s: NodeState, events: Seq<Event>)
    requires
        s.wf(),
        s.phase is Rest,
        s.link.joined,
        accepted(s, events),
        gone_throughout(s, events),
    ensures
        ({
            let t = run(s, events);
            &&& t.link.joined ==> ticks_counted(s, events) + ticks_to_notice(t) == ticks_to_notice(
                s,
            )
            &&& t.phase is Light || t.phase is Send ==> t.link.joined && t.link.uplink_counter == 0
            &&& !t.link.joined ==> ticks_counted(s, events) >= ticks_to_notice(s)
        }),
    decreases events.len(),
{
    if events.len() > 0 {
        let before = run(s, events.drop_last());
        lemma_run(s, events.drop_last());
        lemma_noticing_run(s, events.drop_last());
        lemma_run(s, events);
        if before.link.joined {
            lemma_noticing_step(before, events.last());
        }
    }
}

/// One event with the gateway gone, while the node is joined.
proof fn lemma_noticing_step(s: NodeState, event: Event)
    requires
        s.wf(),
        s.link.joined,
        ticking(s.phase),
        s.phase is Light || s.phase is Send ==> s.link.uplink_counter == 0,
        s.accepts(event),
        gateway_gone(s, event),
    ensures
        ({
            let t = s.next(event);
            let counted = if s.decides() {
                1int
            } else {
                0
            };
            &&& t.link.joined ==> counted + ticks_to_notice(t) == ticks_to_notice(s)
            &&& t.phase is Light || t.phase is Send ==> t.link.joined && t.link.uplink_counter == 0
            &&& !t.link.joined ==> counted == 0 && ticks_to_notice(s) == 0
        }),
{
    let t = s.next(event);
    let m = uplinks_to_notice(s.board, s.link);
    assert(m >= 1);
    if s.phase is Send {
        assert(t.link.joined ==> uplinks_to_notice(s.board, t.link) == m - 1);
        assert(!t.link.joined ==> m == 1);
        assert(uplink_wait(s.board, s.link) == s.board.interval());
    }
    match s.board {
        Board::Lora1 => {},
        Board::Lora2 => {},
    }
}

/// Events from power-up to the first rest.
pub open spec fn startup_len(board: Board) -> int {
    match board {
        Board::Lora1 => 5,
        Board::Lora2 => 4,
    }
}

/// Which of the events at power-up ends the join attempt.
pub open spec fn startup_join(board: Board) -> int {
    match board {
        Board::Lora1 => 2,
        Board::Lora2 => 1,
    }
}

/// Every run from power-up makes exactly one join attempt before its first rest,
/// the node's first, and comes to that rest after a fixed number of events. The
/// link then has taken the outcome of that attempt and counted one tick, and
/// the node is well-formed, so what holds of runs from a rest holds of the rest
/// of the run.
pub proof fn law_power_up_makes_one_join_attempt(board: Board, events: Seq<Event>)
    requires
        accepted(NodeState::initial(board), events),
        events.len() >= startup_len(board),
    ensures
        ({
            let s = NodeState::initial(board);
            let n = startup_len(board);
            let j = startup_join(board);
            let first = run(s, events.take(n));
            let later = events.skip(n);
            &&& forall|k: int|
                0 <= k < n ==> (#[trigger] run(s, events.take(k)).pending() is Join <==> k == j)
            &&& forall|k: int| 0 <= k < n ==> !(#[trigger] run(s, events.take(k)).phase is Rest)
            &&& run(s, events.take(j)).link.join_attempt == 1
            &&& events[j] matches Event::Joined(outcome) && first.link
                == LinkState::initial().attempt().after_first_join(outcome).after_tick(board)
            &&& first.link.join_attempt == 1
            &&& first.phase is Rest
            &&& first.wf()
            &&& accepted(first, later)
            &&& run(s, events) == run(first, later)
        }),
{
    let s = NodeState::initial(board);
    let n = startup_len(board);
    let j = startup_join(board);
    assert forall|k: int| 0 <= k < n implies (#[trigger] run(s, events.take(k)).pending() is Join
        <==> k == j) by {
        reveal(run_at);
        lemma_startup_phase(board, events, k);
    }
    assert forall|k: int| 0 <= k < n implies !(#[trigger] run(
        s,
        events.take(k),
    ).phase is Rest) by {
        reveal(run_at);
        lemma_startup_phase(board, events, k);
    }
    assert(run(s, events.take(j)).link.join_attempt == 1) by {
        reveal(run_at);
        lemma_startup_phase(board, events, j);
    }
    lemma_startup_end(board, events);
    lemma_cut_run(s, events, n);
    assert(run_at(s, events, n) == run(s, events.take(n))) by {
        reveal(run_at);
    }
}

/// What holds before each event at power-up.
proof fn lemma_startup_phase(board: Board, events: Seq<Event>, k: int)
    requires
        accepted(NodeState::initial(board), events),
        events.len() >= startup_len(board),
        0 <= k < startup_len(board),
    ensures
        ({
            let t = run_at(NodeState::initial(board), events, k);
            &&& t.pending() is Join <==> k == startup_join(board)
            &&& !(t.phase is Rest)
            &&& k == startup_join(board) ==> t.link.join_attempt == 1
        }),
{
    lemma_startup_phases(board, events);
    assert(k == 0 || k == 1 || k == 2 || k == 3 || k == 4);
}

/// What holds of the link at the first rest.
proof fn lemma_startup_end(board: Board, events: Seq<Event>)
    requires
        accepted(NodeState::initial(board), events),
        events.len() >= startup_len(board),
    ensures
        ({
            let first = run_at(NodeState::initial(board), events, startup_len(board));
            &&& events[startup_join(board)] matches Event::Joined(outcome) && first.link
                == LinkState::initial().attempt().after_first_join(outcome).after_tick(board)
            &&& first.link.join_attempt == 1
            &&& first.phase is Rest
        }),
{
    lemma_startup_phases(board, events);
}

/// What holds wherever a run is cut.
proof fn lemma_cut_run(s: NodeState, events: Seq<Event>, k: int)
    requires
        s.wf(),
        accepted(s, events),
        0 <= k <= events.len(),
    ensures
        run_at(s, events, k).wf(),
        accepted(run_at(s, events, k), events.skip(k)),
        run(s, events) == run(run_at(s, events, k), events.skip(k)),
{
    reveal(run_at);
    lemma_accepted_prefix(s, events, k);
    lemma_run_stays_well_formed(s, events.take(k));
    lemma_split_run(s, events, k);
    lemma_accepted_suffix(s, events, k, events.len() - k);
    assert(events.skip(k).take(events.len() - k) == events.skip(k));
}

/// The node after the first `k` of `events`.
#[verifier::opaque]
spec fn run_at(s: NodeState, events: Seq<Event>, k: int) -> NodeState {
    run(s, events.take(k))
}

/// Where the node is after each event at power-up.
proof fn lemma_startup_phases(board: Board, events: Seq<Event>)
    requires
        accepted(NodeState::initial(board), events),
        events.len() >= startup_len(board),
    ensures
        ({
            let s = NodeState::initial(board);
            let joined = LinkState::initial().attempt().after_first_join(
                events[startup_join(board)]->Joined_0,
            );
            &&& events[startup_join(board)] is Joined
            &&& board is Lora1 ==> {
                &&& run_at(s, events, 0).phase is FirstMeasure
                &&& run_at(s, events, 1).phase is FirstShow
                &&& run_at(s, events, 2).phase is FirstJoin
                &&& run_at(s, events, 3).phase is Measure
                &&& run_at(s, events, 4).phase is Show
                &&& run_at(s, events, 5).phase is Rest
                &&& run_at(s, events, 2).link == LinkState::initial().attempt()
                &&& run_at(s, events, 5).link == joined.after_tick(board)
            }
            &&& board is Lora2 ==> {
                &&& run_at(s, events, 0).phase is FirstShow
                &&& run_at(s, events, 1).phase is FirstJoin
                &&& run_at(s, events, 2).phase is Greet
                &&& run_at(s, events, 3).phase is Show
                &&& run_at(s, events, 4).phase is Rest
                &&& run_at(s, events, 1).link == LinkState::initial().attempt()
                &&& run_at(s, events, 4).link == joined.after_tick(board)
            }
        }),
{
    let s = NodeState::initial(board);
    assert(run_at(s, events, 0) == s) by {
        reveal(run_at);
    }
    lemma_next_prefix(s, events, 0);
    lemma_next_prefix(s, events, 1);
    lemma_next_prefix(s, events, 2);
    lemma_next_prefix(s, events, 3);
    if board is Lora1 {
        lemma_next_prefix(s, events, 4);
    }
}

/// A node that starts well-formed stays so all through a run.
proof fn lemma_run_stays_well_formed(s: NodeState, events: Seq<Event>)
    requires
        s.wf(),
        accepted(s, events),
    ensures
        run(s, events).wf(),
    decreases events.len(),
{
    if events.len() > 0 {
        lemma_run_stays_well_formed(s, events.drop_last());
        law_node_stays_well_formed(s.board, run(s, events.drop_last()), events.last());
    }
}

/// One more event of an accepted run.
proof fn lemma_next_prefix(s: NodeState, events: Seq<Event>, k: int)
    requires
        accepted(s, events),
        0 <= k < events.len(),
    ensures
        run_at(s, events, k).accepts(events[k]),
        run_at(s, events, k + 1) == run_at(s, events, k).next(events[k]),
{
    reveal(run_at);
    lemma_accepted_prefix(s, events, k);
    assert(events.take(k + 1).drop_last() == events.take(k));
}

/// Every beginning of an accepted run is accepted.
proof fn lemma_accepted_prefix(s: NodeState, events: Seq<Event>, k: int)
    requires
        accepted(s, events),
        0 <= k <= events.len(),
    ensures
        accepted(s, events.take(k)),
        k < events.len() ==> run(s, events.take(k)).accepts(events[k]),
    decreases events.len() - k,
{
    if k == events.len() {
        assert(events.take(k) == events);
    } else {
        lemma_accepted_prefix(s, events, k + 1);
        assert(events.take(k + 1).drop_last() == events.take(k));
    }
}

/// A run goes on from wherever it is cut.
proof fn lemma_split_run(s: NodeState, events: Seq<Event>, k: int)
    requires
        0 <= k <= events.len(),
    ensures
        run(s, events) == run(run(s, events.take(k)), events.skip(k)),
{
    let step = |s: NodeState, event: Event| s.next(event);
    lemma_run_folds(s, events);
    lemma_run_folds(s, events.take(k));
    lemma_run_folds(run(s, events.take(k)), events.skip(k));
    events.lemma_fold_left_split(s, step, k);
}

/// From wherever an accepted run is cut, every stretch that follows is accepted.
proof fn lemma_accepted_suffix(s: NodeState, events: Seq<Event>, k: int, m: int)
    requires
        accepted(s, events),
        0 <= k,
        0 <= m <= events.len() - k,
    ensures
        accepted(run(s, events.take(k)), events.skip(k).take(m)),
    decreases m,
{
    if m > 0 {
        let shorter = events.skip(k).take(m - 1);
        lemma_accepted_suffix(s, events, k, m - 1);
        lemma_accepted_prefix(s, events, k + m - 1);
        lemma_split_run(s, events.take(k + m - 1), k);
        assert(events.take(k + m - 1).take(k) == events.take(k));
        assert(events.take(k + m - 1).skip(k) == shorter);
        assert(events.skip(k).take(m).drop_last() == shorter);
    }
}

/// A run is a fold of single steps.
proof fn lemma_run_folds(s: NodeState, events: Seq<Event>)
    ensures
        run(s, events) == events.fold_left(s, |s: NodeState, event: Event| s.next(event)),
    decreases events.len(),
{
    if events.len() > 0 {
        lemma_run_folds(s, events.drop_last());
    }
}

// ---------------------------------------------------------------------------
// Payloads
// ---------------------------------------------------------------------------

/// The number that two bytes stand for in two's complement, high byte first.
pub open spec fn read_be16(bytes: Seq<u8>) -> int {
    let word = 256 * bytes[0] + bytes[1];
    if word >= 32768 {
        word - 65536
    } else {
        word
    }
}

/// The number that four bytes stand for, high byte first.
pub open spec fn read_be32(bytes: Seq<u8>) -> int {
    16777216 * bytes[0] + 65536 * bytes[1] + 256 * bytes[2] + bytes[3]
}

proof fn lemma_be16(v: int)
    requires
        -32768 <= v < 32768,
    ensures
        read_be16(be16(v)) == v,
{
}

/// A receiver gets back from a sensor payload the reading that went into it, in
/// hundredths.
pub proof fn law_climate_payload_reads_back(temp_int: int, hum_int: int)
    requires
        i16::MIN <= 100 * temp_int <= i16::MAX,
        i16::MIN <= 100 * hum_int <= i16::MAX,
    ensures
        climate_bytes(temp_int, hum_int).len() == 4,
        read_be16(climate_bytes(temp_int, hum_int).take(2)) == 100 * temp_int,
        read_be16(climate_bytes(temp_int, hum_int).skip(2)) == 100 * hum_int,
{
    let bytes = climate_bytes(temp_int, hum_int);
    assert(bytes.take(2) == be16(100 * temp_int));
    assert(bytes.skip(2) == be16(100 * hum_int));
    lemma_be16(100 * temp_int);
    lemma_be16(100 * hum_int);
}

/// A receiver gets back from a range-probe payload the packet count that went
/// into it, so it can tell lost packets by the gaps.
pub proof fn law_counter_payload_reads_back(tx_count: u32)
    ensures
        be32(tx_count as int).len() == 4,
        read_be32(be32(tx_count as int)) == tx_count,
{
    let v = tx_count as int;
    assert(v / 65536 / 256 % 256 == v / 16777216);
}

// ---------------------------------------------------------------------------
// The display
// ---------------------------------------------------------------------------

/// The last row says "Connecting..." when and only when the node is not joined.
pub proof fn law_connecting_is_shown_while_not_joined(s: NodeState)
    ensures
        s.rows().len() == 5,
        s.rows()[4] == connecting_row() <==> !s.link.joined,
{
    reveal_strlit("Connecting...");
    reveal_strlit("Connected");
    reveal_strlit("DR");
    assert(connecting_row()[0] == 'C');
    assert(connecting_row()[7] == 'i');
    if s.link.joined {
        match s.board {
            Board::Lora1 => {
                assert(s.rows()[4][0] == 'D');
            },
            Board::Lora2 => {
                assert(s.rows()[4][7] == 'e');
            },
        }
    }
}

/// The data rates on 125 kHz channels are shown with spreading factors 12 down
/// to 7, one step for each; the 500 kHz one with 8.
pub proof fn law_spreading_factors(dr: nat)
    ensures
        dr <= 5 ==> spreading_factor_of(dr) == 12 - dr,
        dr <= 5 ==> 7 <= spreading_factor_of(dr) <= 12,
        spreading_factor_of(6) == 8,
{
}

/// The number that a decimal numeral stands for.
pub open spec fn read_decimal(text: Seq<char>) -> int
    decreases text.len(),
{
    if text.len() == 0 {
        0
    } else {
        10 * read_decimal(text.drop_last()) + (text.last() as int - '0' as int)
    }
}

/// A numeral reads back as the number it was made from.
pub proof fn law_numerals_read_back(n: nat)
    ensures
        read_decimal(decimal(n)) == n,
    decreases n,
{
    reveal_with_fuel(read_decimal, 2);
    if n >= 10 {
        law_numerals_read_back(n / 10);
        assert(decimal(n).drop_last() == decimal(n / 10));
    }
}

/// Rows keep their width from one picture to the next: the title row as long as
/// the packet count stays below 10000 and the attempts below 100, temperature
/// and humidity for every reading that the sensor can report.
pub proof fn law_rows_keep_their_width(s: NodeState)
    requires
        s.wf(),
        s.link.tx_count < 10000,
        s.link.join_attempt < 100,
    ensures
        s.rows()[0].len() == 20,
        s.board is Lora1 ==> s.rows()[1].len() == 21,
        s.board is Lora1 ==> s.rows()[2].len() == 21,
{
    reveal_strlit("LoRa-1");
    reveal_strlit("LoRa-2");
    reveal_strlit("     Tx:");
    reveal_strlit("   Join:");
    reveal_strlit("  ");
    reveal_strlit("    ");
    reveal_strlit("Temp: ");
    reveal_strlit("Hum:  ");
    reveal_strlit(" C");
    reveal_strlit(" %");
    reveal_with_fuel(decimal, 5);
}

} // verus!
