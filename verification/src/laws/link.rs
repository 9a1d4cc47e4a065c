//! What each operation does to the link, outcome by outcome.
use vstd::prelude::*;

use crate::laws::{no_ack, uplinks};
use crate::link::{
    completed, evidence, Board, JoinOutcome, LinkReport, LinkState, SendOutcome, SendResponse,
    Status, TICK_SECONDS,
};
use crate::node::TICK_MILLIS;

verus! {

/// At power-up the node is not joined, has made no attempt, sent nothing, missed
/// nothing and waited for nothing; it waits 16 s before its first retry, and the
/// readings are zero.
pub proof fn law_link_at_power_up()
    ensures
        ({
            let s = LinkState::initial();
            &&& !s.joined
            &&& s.join_attempt == 0
            &&& s.tx_count == 0
            &&& s.uplink_counter == 0
            &&& s.uplink_fail_count == 0
            &&& s.join_backoff_ticks * TICK_SECONDS == 16
            &&& s.join_wait_counter == 0
            &&& s.report.snr == 0 && s.report.rssi == 0 && s.report.dr == 0
        }),
{
}

/// What a well-formed link can rely on: at most two misses, a backoff of 16, 32
/// or 60 s, and a wait that is shorter; while joined no wait and the shortest
/// backoff, while not joined no misses.
pub proof fn law_well_formed_link(s: LinkState)
    requires
        s.wf(),
    ensures
        s.uplink_fail_count <= 2,
        s.join_backoff_ticks * TICK_SECONDS == 16 || s.join_backoff_ticks * TICK_SECONDS == 32
            || s.join_backoff_ticks * TICK_SECONDS == 60,
        s.join_wait_counter < s.join_backoff_ticks,
        s.joined ==> s.join_wait_counter == 0 && s.join_backoff_ticks * TICK_SECONDS == 16,
        !s.joined ==> s.uplink_fail_count == 0,
{
}

/// The counters fit when and only when each is below the 32-bit limit.
pub proof fn law_counters_fit(s: LinkState)
    ensures
        s.fits() <==> s.join_attempt < 0x1_0000_0000 && s.tx_count < 0x1_0000_0000
            && s.uplink_counter < 0x1_0000_0000,
{
}

/// What is read off a link, field by field, is what the link holds.
pub proof fn law_status_shows_the_link(status: Status)
    ensures
        status@.joined == status.is_joined,
        status@.join_attempt == status.join_attempt,
        status@.tx_count == status.tx_count,
        status@.uplink_counter == status.uplink_counter,
        status@.uplink_fail_count == status.uplink_fail_count,
        status@.join_backoff_ticks == status.join_backoff_ticks,
        status@.join_wait_counter == status.join_wait_counter,
        status@.report == status.report,
{
}

/// A tick is two seconds; the sensor node sends every half minute and the range
/// probe every ten seconds.
pub proof fn law_uplink_intervals()
    ensures
        TICK_MILLIS == 1000 * TICK_SECONDS == 2000,
        Board::Lora1.interval() * TICK_SECONDS == 30,
        Board::Lora2.interval() * TICK_SECONDS == 10,
{
}

/// The sensor node confirms its first uplink and every fifth from there, and no
/// other; the range probe confirms all.
pub proof fn law_confirmed_uplinks(k: nat, r: nat)
    requires
        r < 5,
    ensures
        Board::Lora1.confirms(5 * k + r) <==> r == 0,
        Board::Lora2.confirms(5 * k + r),
{
}

/// A new attempt raises the number of attempts by one and changes nothing else.
pub proof fn law_attempts_are_numbered(s: LinkState)
    ensures
        s.attempt().join_attempt == s.join_attempt + 1,
        s.attempt() == (LinkState { join_attempt: s.attempt().join_attempt, ..s }),
{
}

/// One tick of a joined node: an uplink is due when the interval is over, counted
/// from the tick at which the last one was due, and nothing is due otherwise.
/// Only that count changes.
pub proof fn law_tick_while_joined(board: Board, s: LinkState)
    requires
        s.joined,
    ensures
        ({
            let t = s.after_tick(board);
            let interval: nat = if board is Lora1 {
                15
            } else {
                5
            };
            &&& s.uplink_counter + 1 < interval ==> s.due(board) is Nothing && t.uplink_counter
                == s.uplink_counter + 1
            &&& s.uplink_counter + 1 >= interval ==> s.due(board) is Uplink && t.uplink_counter == 0
            &&& t == LinkState { uplink_counter: t.uplink_counter, ..s }
        }),
{
}

/// One tick of a node that is not joined: a join attempt is due, and numbered,
/// when the backoff is over; until then nothing is due and the wait goes on. The
/// ticks since the last uplink are counted on.
pub proof fn law_tick_while_not_joined(board: Board, s: LinkState)
    requires
        !s.joined,
    ensures
        ({
            let t = s.after_tick(board);
            let over = s.join_wait_counter + 1 >= s.join_backoff_ticks;
            &&& over ==> s.due(board) is Join && t.join_wait_counter == 0 && t.join_attempt
                == s.join_attempt + 1
            &&& !over ==> s.due(board) is Nothing && t.join_wait_counter == s.join_wait_counter + 1
                && t.join_attempt == s.join_attempt
            &&& t.uplink_counter == s.uplink_counter + 1
            &&& t == LinkState {
                join_wait_counter: t.join_wait_counter,
                join_attempt: t.join_attempt,
                uplink_counter: t.uplink_counter,
                ..s
            }
        }),
{
}

/// A join that succeeds makes the node joined and the backoff 16 s, at power-up
/// and later; a retry also clears the misses. Nothing else changes.
pub proof fn law_successful_join(s: LinkState)
    ensures
        ({
            let first = s.after_first_join(JoinOutcome::JoinSuccess);
            let retry = s.after_join(JoinOutcome::JoinSuccess);
            &&& first.joined && retry.joined
            &&& first.join_backoff_ticks * TICK_SECONDS == 16
            &&& retry.join_backoff_ticks * TICK_SECONDS == 16
            &&& retry.uplink_fail_count == 0
            &&& first == LinkState {
                joined: true,
                join_backoff_ticks: first.join_backoff_ticks,
                ..s
            }
            &&& retry == LinkState {
                joined: true,
                join_backoff_ticks: retry.join_backoff_ticks,
                uplink_fail_count: 0,
                ..s
            }
        }),
{
}

/// A join that fails, whether by a radio fault or for want of an answer, changes
/// nothing at power-up. Later it makes the backoff twice as long, but no longer
/// than a minute, and changes nothing else.
pub proof fn law_failed_join(s: LinkState, outcome: JoinOutcome)
    requires
        outcome != JoinOutcome::JoinSuccess,
    ensures
        ({
            let t = s.after_join(outcome);
            let twice = 2 * s.join_backoff_ticks * TICK_SECONDS;
            &&& s.after_first_join(outcome) == s
            &&& twice <= 60 ==> t.join_backoff_ticks * TICK_SECONDS == twice
            &&& twice > 60 ==> t.join_backoff_ticks * TICK_SECONDS == 60
            &&& t == LinkState { join_backoff_ticks: t.join_backoff_ticks, ..s }
        }),
{
}

/// On the range probe every response but a missing acknowledgement shows that the
/// gateway is there, however weak the signal and whatever the data rate: the
/// misses are forgotten and the node stays joined.
pub proof fn law_range_probe_hears_every_response(
    s: LinkState,
    response: SendResponse,
    report: LinkReport,
)
    requires
        s.joined,
        response != SendResponse::NoAck,
    ensures
        ({
            let t = s.after_uplink(Board::Lora2, SendOutcome::Response(response, report));
            &&& t.joined
            &&& t.uplink_fail_count == 0
        }),
{
}

/// On the sensor node a downlink or a completed reception after a confirmed
/// uplink shows that the gateway is there, whatever the readings: the misses are
/// forgotten and the node stays joined. After an unconfirmed uplink, and with an
/// expired session, a response leaves the misses as they are.
pub proof fn law_sensor_node_hears_acknowledgements(
    s: LinkState,
    response: SendResponse,
    report: LinkReport,
)
    requires
        s.joined,
        response != SendResponse::NoAck,
    ensures
        ({
            let t = s.after_uplink(Board::Lora1, SendOutcome::Response(response, report));
            &&& t.joined
            &&& s.tx_count % 5 == 0 && response != SendResponse::SessionExpired
                ==> t.uplink_fail_count == 0
            &&& s.tx_count % 5 != 0 || response == SendResponse::SessionExpired
                ==> t.uplink_fail_count == s.uplink_fail_count
        }),
{
}

/// After an answer the range probe stands two misses, of whatever kind, and
/// joins again at the third.
pub proof fn law_range_probe_stands_two_misses(
    s: LinkState,
    response: SendResponse,
    report: LinkReport,
    misses: Seq<SendOutcome>,
)
    requires
        s.joined,
        response != SendResponse::NoAck,
        misses.len() == 3,
        forall|i: int| 0 <= i < 3 ==> no_ack(#[trigger] misses[i]) || misses[i] is RadioFault,
    ensures
        ({
            let answered = s.after_uplink(Board::Lora2, SendOutcome::Response(response, report));
            let one = answered.after_uplink(Board::Lora2, misses[0]);
            let two = one.after_uplink(Board::Lora2, misses[1]);
            &&& one.joined && one.uplink_fail_count == 1
            &&& two.joined && two.uplink_fail_count == 2
            &&& !two.after_uplink(Board::Lora2, misses[2]).joined
        }),
{
    assert(no_ack(misses[0]) || misses[0] is RadioFault);
    assert(no_ack(misses[1]) || misses[1] is RadioFault);
    assert(no_ack(misses[2]) || misses[2] is RadioFault);
}

/// An uplink that gets any response but a missing acknowledgement is counted,
/// and its readings take the place of the earlier ones, on either board and at
/// every uplink. It changes the count of misses at most, and only to none.
pub proof fn law_completed_uplink(
    board: Board,
    s: LinkState,
    response: SendResponse,
    report: LinkReport,
)
    requires
        response != SendResponse::NoAck,
    ensures
        ({
            let t = s.after_uplink(board, SendOutcome::Response(response, report));
            &&& t.report == report
            &&& t.tx_count == s.tx_count + 1
            &&& t.uplink_fail_count == 0 || t.uplink_fail_count == s.uplink_fail_count
            &&& t == LinkState {
                report: t.report,
                tx_count: t.tx_count,
                uplink_fail_count: t.uplink_fail_count,
                ..s
            }
        }),
{
}

/// An uplink without acknowledgement, or one that the radio failed at, is not
/// counted and leaves the readings of the last completed one. It is a miss if an
/// acknowledgement was asked for and did not come; on the range probe a radio
/// fault is one too. The third miss makes the node join again, from attempt none
/// and a backoff of 16 s; an earlier one is only counted, and what is no miss
/// changes nothing.
pub proof fn law_uncompleted_uplink(board: Board, s: LinkState, outcome: SendOutcome)
    requires
        no_ack(outcome) || outcome is RadioFault,
    ensures
        ({
            let t = s.after_uplink(board, outcome);
            let missed = board is Lora2 || no_ack(outcome) && s.tx_count % 5 == 0;
            &&& t.report == s.report
            &&& t.tx_count == s.tx_count
            &&& t.uplink_counter == s.uplink_counter
            &&& !missed ==> t == s
            &&& missed && s.uplink_fail_count < 2 ==> t == (LinkState {
                uplink_fail_count: s.uplink_fail_count + 1,
                ..s
            })
            &&& missed && s.uplink_fail_count >= 2 ==> {
                &&& !t.joined
                &&& t.join_attempt == 0
                &&& t.uplink_fail_count == 0
                &&& t.join_backoff_ticks * TICK_SECONDS == 16
                &&& t.join_wait_counter == 0
            }
        }),
{
}

/// Neither a tick nor a join attempt changes the readings of the last completed
/// uplink or the packet counter, and neither makes a joined node lose the gateway.
pub proof fn law_only_uplinks_change_the_readings(board: Board, s: LinkState, join: JoinOutcome)
    ensures
        s.attempt().report == s.report,
        s.after_tick(board).report == s.report,
        s.after_first_join(join).report == s.report,
        s.after_join(join).report == s.report,
        s.attempt().tx_count == s.tx_count,
        s.after_tick(board).tx_count == s.tx_count,
        s.after_first_join(join).tx_count == s.tx_count,
        s.after_join(join).tx_count == s.tx_count,
        s.attempt().joined == s.joined,
        s.after_tick(board).joined == s.joined,
        s.joined ==> s.after_first_join(join).joined && s.after_join(join).joined,
{
}

/// A lost gateway leaves the packet counter, the readings and the ticks since the
/// last uplink as they were.
pub proof fn law_lost_gateway(s: LinkState)
    ensures
        ({
            let t = s.lost();
            &&& !t.joined
            &&& t.join_attempt == 0
            &&& t.uplink_fail_count == 0
            &&& t.join_wait_counter == 0
            &&& t.join_backoff_ticks * TICK_SECONDS == 16
            &&& t.tx_count == s.tx_count
            &&& t.report == s.report
            &&& t.uplink_counter == s.uplink_counter
        }),
{
}

/// What an outcome tells of the gateway does not depend on the readings that
/// come with it: only on the board, on whether an acknowledgement was asked for
/// and on the response.
pub proof fn law_evidence_is_in_the_response(
    board: Board,
    confirmed: bool,
    response: SendResponse,
    report: LinkReport,
)
    ensures
        ({
            let told = evidence(board, confirmed, SendOutcome::Response(response, report));
            &&& told is Missed <==> confirmed && response == SendResponse::NoAck
            &&& told is Heard <==> confirmed && (response == SendResponse::DownlinkReceived
                || response == SendResponse::RxComplete || response == SendResponse::SessionExpired
                && board is Lora2)
            &&& evidence(board, confirmed, SendOutcome::RadioFault) is Missed <==> board is Lora2
            &&& evidence(board, confirmed, SendOutcome::RadioFault) is Neutral <==> board is Lora1
            &&& completed(SendOutcome::RadioFault) is None
            &&& response == SendResponse::NoAck ==> completed(
                SendOutcome::Response(response, report),
            ) is None
            &&& response != SendResponse::NoAck ==> completed(
                SendOutcome::Response(response, report),
            ) == Some(report)
        }),
{
}

/// How many of `outcomes` are of uplinks that completed.
pub open spec fn completions(outcomes: Seq<SendOutcome>) -> nat
    decreases outcomes.len(),
{
    if outcomes.len() == 0 {
        0
    } else {
        completions(outcomes.drop_last()) + match outcomes.last() {
            SendOutcome::Response(SendResponse::NoAck, _) => 0nat,
            SendOutcome::Response(_, _) => 1,
            SendOutcome::RadioFault => 0,
        }
    }
}

/// The readings of the last of `outcomes` that is of a completed uplink, or
/// `earlier` if there is none.
pub open spec fn last_report(outcomes: Seq<SendOutcome>, earlier: LinkReport) -> LinkReport
    decreases outcomes.len(),
{
    if outcomes.len() == 0 {
        earlier
    } else {
        match outcomes.last() {
            SendOutcome::Response(SendResponse::NoAck, _) => last_report(
                outcomes.drop_last(),
                earlier,
            ),
            SendOutcome::Response(_, report) => report,
            SendOutcome::RadioFault => last_report(outcomes.drop_last(), earlier),
        }
    }
}

/// Misses at the end of `outcomes` with no answer from the gateway after them,
/// on a link that has completed `sent` uplinks and counted `earlier` misses
/// before them.
pub open spec fn misses_in_a_row(
    board: Board,
    sent: nat,
    earlier: nat,
    outcomes: Seq<SendOutcome>,
) -> nat
    decreases outcomes.len(),
{
    if outcomes.len() == 0 {
        earlier
    } else {
        let before = misses_in_a_row(board, sent, earlier, outcomes.drop_last());
        let asked = board is Lora2 || (sent + completions(outcomes.drop_last())) % 5 == 0;
        match outcomes.last() {
            SendOutcome::Response(SendResponse::NoAck, _) => if asked {
                before + 1
            } else {
                before
            },
            SendOutcome::Response(SendResponse::SessionExpired, _) => if board is Lora2 {
                0
            } else {
                before
            },
            SendOutcome::Response(_, _) => if asked {
                0
            } else {
                before
            },
            SendOutcome::RadioFault => if board is Lora2 {
                before + 1
            } else {
                before
            },
        }
    }
}

/// However uplinks end, the node counts those that complete, keeps the readings
/// of the last of them, and stays joined until the third miss with no answer
/// since the first.
pub proof fn law_uplinks_in_a_row(board: Board, s: LinkState, outcomes: Seq<SendOutcome>)
    requires
        s.joined,
        s.uplink_fail_count < 3,
        forall|n: int|
            0 <= n < outcomes.len() ==> #[trigger] misses_in_a_row(
                board,
                s.tx_count,
                s.uplink_fail_count,
                outcomes.take(n),
            ) < 3,
    ensures
        ({
            let t = uplinks(board, s, outcomes);
            let misses = misses_in_a_row(board, s.tx_count, s.uplink_fail_count, outcomes);
            &&& t.tx_count == s.tx_count + completions(outcomes)
            &&& t.report == last_report(outcomes, s.report)
            &&& misses <= 3
            &&& t.joined <==> misses < 3
            &&& t.joined ==> t.uplink_fail_count == misses
        }),
    decreases outcomes.len(),
{
    if outcomes.len() > 0 {
        let rest = outcomes.drop_last();
        let sent = s.tx_count;
        let earlier = s.uplink_fail_count;
        assert(rest == outcomes.take(outcomes.len() - 1));
        assert forall|n: int| 0 <= n < rest.len() implies #[trigger] misses_in_a_row(
            board,
            sent,
            earlier,
            rest.take(n),
        ) < 3 by {
            assert(rest.take(n) == outcomes.take(n));
        }
        law_uplinks_in_a_row(board, s, rest);
    }
}

} // verus!
