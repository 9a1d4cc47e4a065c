//! What each event does to a node, and what the node measures, sends and waits for.
use vstd::prelude::*;

use crate::identity::{written_app_eui, written_dev_eui};
use crate::laws::{
    accepted, law_climate_payload_reads_back, law_counter_payload_reads_back, read_be16,
    read_be32, run,
};
use crate::link::{Board, LinkReport, SendOutcome, SendResponse, TICK_SECONDS};
use crate::node::{Action, ActionView, Event, NodeState, Phase};
use crate::sensor::{celsius, percent, word, Climate};

verus! {

// ---------------------------------------------------------------------------
// Measuring
// ---------------------------------------------------------------------------

/// A raw word spreads 175 degrees from -45 over its range, and 125 percent from
/// -6, each rounded down to a whole number; so a higher word never reads lower,
/// and the ends of the range read as the ends of the scale.
pub proof fn law_sensor_scales(high: u8, low: u8)
    ensures
        ({
            let raw = word(high, low);
            let t = celsius(raw);
            let h = percent(raw);
            &&& raw == 256 * high + low
            &&& 65535 * (t + 45) <= 175 * raw < 65535 * (t + 46)
            &&& 65535 * (h + 6) <= 125 * raw < 65535 * (h + 7)
            &&& -45 <= t <= 130
            &&& -6 <= h <= 119
        }),
        celsius(0) == -45 && celsius(65535) == 130,
        percent(0) == -6 && percent(65535) == 119,
{
}

/// A reading that the sensor can report lies on the scales of the sensor.
pub proof fn law_well_formed_reading(climate: Climate)
    ensures
        climate.wf() <==> -45 <= climate.temp_int <= 130 && -6 <= climate.hum_int <= 119,
{
}

/// A frame from the sensor replaces both readings, at power-up and at every tick,
/// joined or not; a sensor that does not answer leaves them. Neither touches the
/// link.
pub proof fn law_every_frame_is_taken_over(s: NodeState, data: [u8; 6])
    requires
        s.phase is FirstMeasure || s.phase is Measure,
    ensures
        ({
            let t = s.next(Event::Sampled(Some(data)));
            let silent = s.next(Event::Sampled(None));
            let temp_raw = 256 * data@[0] + data@[1];
            let hum_raw = 256 * data@[3] + data@[4];
            &&& t.temp_int == -45 + 175 * temp_raw / 65535
            &&& t.hum_int == -6 + 125 * hum_raw / 65535
            &&& 65535 * (t.temp_int + 45) <= 175 * temp_raw < 65535 * (t.temp_int + 46)
            &&& 65535 * (t.hum_int + 6) <= 125 * hum_raw < 65535 * (t.hum_int + 7)
            &&& silent.temp_int == s.temp_int
            &&& silent.hum_int == s.hum_int
            &&& t.link == s.link && silent.link == s.link
            &&& t.board == s.board && silent.board == s.board
            &&& t.phase == silent.phase
        }),
{
}

/// Nothing but a frame from the sensor changes the readings.
pub proof fn law_only_frames_change_the_reading(s: NodeState, event: Event)
    requires
        !(event matches Event::Sampled(Some(_))),
    ensures
        s.next(event).temp_int == s.temp_int,
        s.next(event).hum_int == s.hum_int,
{
}

/// The last frame among `events`.
pub open spec fn last_frame(events: Seq<Event>) -> Option<[u8; 6]>
    decreases events.len(),
{
    if events.len() == 0 {
        None
    } else {
        match events.last() {
            Event::Sampled(Some(data)) => Some(data),
            _ => last_frame(events.drop_last()),
        }
    }
}

/// However a node runs, its readings are those of the last frame that the sensor
/// gave, or the earlier ones if it gave none.
pub proof fn law_node_holds_the_last_frame(s: NodeState, events: Seq<Event>)
    requires
        accepted(s, events),
    ensures
        match last_frame(events) {
            Some(data) => {
                &&& run(s, events).temp_int == -45 + 175 * (256 * data@[0] + data@[1]) / 65535
                &&& run(s, events).hum_int == -6 + 125 * (256 * data@[3] + data@[4]) / 65535
            },
            None => {
                &&& run(s, events).temp_int == s.temp_int
                &&& run(s, events).hum_int == s.hum_int
            },
        },
    decreases events.len(),
{
    if events.len() > 0 {
        let before = run(s, events.drop_last());
        law_node_holds_the_last_frame(s, events.drop_last());
        match events.last() {
            Event::Sampled(Some(data)) => {
                law_every_frame_is_taken_over(before, data);
            },
            _ => {
                law_only_frames_change_the_reading(before, events.last());
            },
        }
    }
}

// ---------------------------------------------------------------------------
// Sending
// ---------------------------------------------------------------------------

/// A receiver reads off an uplink of the sensor node the node's temperature and
/// humidity in hundredths, below zero as well as above, and off one of the range
/// probe the number of uplinks completed so far.
pub proof fn law_uplink_carries_the_state(s: NodeState)
    requires
        s.wf(),
        s.link.tx_count <= u32::MAX,
    ensures
        s.payload().len() == 4,
        s.board is Lora1 ==> read_be16(s.payload().take(2)) == 100 * s.temp_int,
        s.board is Lora1 ==> read_be16(s.payload().skip(2)) == 100 * s.hum_int,
        s.board is Lora2 ==> read_be32(s.payload()) == s.link.tx_count,
{
    law_climate_payload_reads_back(s.temp_int, s.hum_int);
    law_counter_payload_reads_back(s.link.tx_count as u32);
}

/// What the node sends is that payload, on port 1. The sensor node asks for an
/// acknowledgement at every fifth completed uplink, the range probe always.
pub proof fn law_what_is_sent(s: NodeState)
    requires
        s.wf(),
        s.link.tx_count <= u32::MAX,
        s.pending() is Send,
    ensures
        s.pending() matches ActionView::Send(payload, port, confirmed) && {
            &&& s.board is Lora1 ==> read_be16(payload.take(2)) == 100 * s.temp_int
            &&& s.board is Lora1 ==> read_be16(payload.skip(2)) == 100 * s.hum_int
            &&& s.board is Lora2 ==> read_be32(payload) == s.link.tx_count
            &&& payload.len() == 4
            &&& port == 1
            &&& confirmed <==> s.board is Lora2 || s.link.tx_count % 5 == 0
        },
{
    law_uplink_carries_the_state(s);
}

/// Two states of a node send the same bytes only if what they send is the same.
pub proof fn law_payloads_tell_states_apart(s: NodeState, t: NodeState)
    requires
        s.wf(),
        t.wf(),
        s.board == t.board,
        s.link.tx_count <= u32::MAX,
        t.link.tx_count <= u32::MAX,
        s.payload() == t.payload(),
    ensures
        s.board is Lora1 ==> s.temp_int == t.temp_int && s.hum_int == t.hum_int,
        s.board is Lora2 ==> s.link.tx_count == t.link.tx_count,
{
    law_uplink_carries_the_state(s);
    law_uplink_carries_the_state(t);
}

/// How many uplinks complete during `events`.
pub open spec fn uplinks_completed(events: Seq<Event>) -> nat
    decreases events.len(),
{
    if events.len() == 0 {
        0
    } else {
        uplinks_completed(events.drop_last()) + match events.last() {
            Event::Sent(SendOutcome::Response(SendResponse::NoAck, _)) => 0nat,
            Event::Sent(SendOutcome::Response(_, _)) => 1,
            _ => 0,
        }
    }
}

/// The readings of the last uplink that completes during `events`, or `earlier`.
pub open spec fn last_readings(events: Seq<Event>, earlier: LinkReport) -> LinkReport
    decreases events.len(),
{
    if events.len() == 0 {
        earlier
    } else {
        match events.last() {
            Event::Sent(SendOutcome::Response(SendResponse::NoAck, _)) => last_readings(
                events.drop_last(),
                earlier,
            ),
            Event::Sent(SendOutcome::Response(_, report)) => report,
            _ => last_readings(events.drop_last(), earlier),
        }
    }
}

/// However a node runs, its packet counter has moved by the uplinks that
/// completed, and its radio readings are those of the last of them.
pub proof fn law_node_counts_and_keeps_completed_uplinks(s: NodeState, events: Seq<Event>)
    requires
        accepted(s, events),
    ensures
        run(s, events).link.tx_count == s.link.tx_count + uplinks_completed(events),
        run(s, events).link.report == last_readings(events, s.link.report),
        run(s, events).board == s.board,
    decreases events.len(),
{
    if events.len() > 0 {
        law_node_counts_and_keeps_completed_uplinks(s, events.drop_last());
        lemma_one_event(run(s, events.drop_last()), events.last());
    }
}

/// What one event does to the packet counter and the radio readings.
proof fn lemma_one_event(s: NodeState, event: Event)
    requires
        s.accepts(event),
    ensures
        ({
            let t = s.next(event);
            &&& t.board == s.board
            &&& match event {
                Event::Sent(SendOutcome::Response(response, report)) => if response
                    == SendResponse::NoAck {
                    t.link.tx_count == s.link.tx_count && t.link.report == s.link.report
                } else {
                    t.link.tx_count == s.link.tx_count + 1 && t.link.report == report
                },
                _ => t.link.tx_count == s.link.tx_count && t.link.report == s.link.report,
            }
        }),
{
}

// ---------------------------------------------------------------------------
// The program
// ---------------------------------------------------------------------------

/// At power-up the sensor node measures and the range probe draws; the first join
/// attempt is counted, nothing else has happened.
pub proof fn law_node_at_power_up(board: Board)
    ensures
        ({
            let s = NodeState::initial(board);
            &&& s.board == board
            &&& board is Lora1 ==> s.pending() is Measure && s.phase is FirstMeasure
            &&& board is Lora2 ==> s.pending() == ActionView::Show(s.rows()) && s.phase is FirstShow
            &&& s.temp_int == 0 && s.hum_int == 0
            &&& !s.link.joined
            &&& s.link.join_attempt == 1
            &&& s.link.tx_count == 0
            &&& s.link.uplink_counter == 0
            &&& s.link.uplink_fail_count == 0
            &&& s.link.join_wait_counter == 0
            &&& s.link.join_backoff_ticks * TICK_SECONDS == 16
            &&& s.link.report.snr == 0 && s.link.report.rssi == 0 && s.link.report.dr == 0
        }),
{
}

/// What a well-formed node can rely on.
pub proof fn law_well_formed_node(s: NodeState)
    requires
        s.wf(),
    ensures
        -45 <= s.temp_int <= 130,
        -6 <= s.hum_int <= 119,
        s.link.wf(),
        s.pending() is Join ==> !s.link.joined && s.link.join_wait_counter == 0,
        s.pending() is Send ==> s.link.joined,
        s.pending() == ActionView::Led(true) ==> s.link.joined,
{
}

/// What a driver is told is what the node means: each action stands for itself.
pub proof fn law_actions_stand_for_themselves(action: Action)
    ensures
        match action {
            Action::Measure => action@ is Measure,
            Action::Show(screen) => action@ == ActionView::Show(screen@),
            Action::Join => action@ is Join,
            Action::Led(on) => action@ == ActionView::Led(on),
            Action::Send(uplink) => action@ == ActionView::Send(
                uplink.payload@,
                uplink.port,
                uplink.confirmed,
            ),
            Action::Wait(millis) => action@ == ActionView::Wait(millis as nat),
        },
{
}

/// Which action is pending: a picture always shows the present state, a rest is
/// two seconds, and the pause after an uplink a tenth of a second.
pub proof fn law_pending_actions(s: NodeState)
    ensures
        s.pending() is Measure <==> s.phase is FirstMeasure || s.phase is Measure,
        s.pending() is Show <==> s.phase is FirstShow || s.phase is Greet || s.phase is Show,
        s.pending() is Show ==> s.pending() == ActionView::Show(s.rows()),
        s.pending() is Join <==> s.phase is FirstJoin || s.phase is Retry,
        s.pending() is Send <==> s.phase is Send,
        s.pending() == ActionView::Led(true) <==> s.phase is Light,
        s.pending() == ActionView::Led(false) <==> s.phase is Dark,
        s.pending() == ActionView::Wait(100) <==> s.phase is Settle,
        s.pending() == ActionView::Wait(2000) <==> s.phase is Rest,
{
}

/// Each action is ended by its own kind of event and by no other: a measurement
/// by a frame or its absence, a join attempt and an uplink by their outcomes,
/// everything else by being done.
pub proof fn law_which_event_ends_an_action(s: NodeState, event: Event)
    ensures
        event is Sampled ==> (s.accepts(event) <==> s.pending() is Measure),
        event is Joined ==> (s.accepts(event) <==> s.pending() is Join),
        event is Sent ==> (s.accepts(event) <==> s.pending() is Send),
        event is Done ==> (s.accepts(event) <==> s.pending() is Show || s.pending() is Led
            || s.pending() is Wait),
{
}

/// Whether the end of the pending action is where a tick is counted: the sensor
/// node counts it after the picture, the range probe after the rest and once
/// after the picture that follows the join attempt at power-up.
pub open spec fn counts_a_tick(s: NodeState) -> bool {
    s.phase is Greet || s.phase is Show && s.board is Lora1 || s.phase is Rest && s.board is Lora2
}

/// An event changes the link by what it is about and by nothing else: a join
/// outcome as a join, the outcome of an uplink as an uplink, and the end of an
/// action at most by a tick. The board never changes.
pub proof fn law_what_an_event_does_to_the_link(s: NodeState, event: Event)
    requires
        s.accepts(event),
    ensures
        ({
            let t = s.next(event);
            &&& t.board == s.board
            &&& s.decides() <==> counts_a_tick(s)
            &&& match event {
                Event::Sampled(_) => t.link == s.link,
                Event::Joined(outcome) => t.link == if s.phase is FirstJoin {
                    s.link.after_first_join(outcome)
                } else {
                    s.link.after_join(outcome)
                },
                Event::Sent(outcome) => t.link == s.link.after_uplink(s.board, outcome),
                Event::Done => t.link == if counts_a_tick(s) {
                    s.link.after_tick(s.board)
                } else {
                    s.link
                },
            }
        }),
{
}

/// The order of the actions. The sensor node measures and draws, joins or sends
/// if that is due, pauses after an uplink and rests; the range probe joins or
/// sends if that is due, draws and rests. What is due is decided where the tick
/// is counted.
pub proof fn law_order_of_actions(s: NodeState, event: Event)
    requires
        s.accepts(event),
    ensures
        ({
            let t = s.next(event);
            let due = s.link.due(s.board);
            let closing = if s.board is Lora1 {
                Phase::Rest
            } else {
                Phase::Show
            };
            &&& counts_a_tick(s) && due is Uplink ==> t.phase is Light
            &&& counts_a_tick(s) && due is Join ==> t.phase is Retry
            &&& counts_a_tick(s) && due is Nothing ==> t.phase == closing
            &&& s.phase is FirstMeasure ==> t.phase is FirstShow
            &&& s.phase is FirstShow ==> t.phase is FirstJoin
            &&& s.phase is FirstJoin && s.board is Lora1 ==> t.phase is Measure
            &&& s.phase is FirstJoin && s.board is Lora2 ==> t.phase is Greet
            &&& s.phase is Measure ==> t.phase is Show
            &&& s.phase is Show && s.board is Lora2 ==> t.phase is Rest
            &&& s.phase is Rest && s.board is Lora1 ==> t.phase is Measure
            &&& s.phase is Light ==> t.phase is Send
            &&& s.phase is Send ==> t.phase is Dark
            &&& s.phase is Dark && s.board is Lora1 ==> t.phase is Settle
            &&& s.phase is Dark && s.board is Lora2 ==> t.phase == closing
            &&& s.phase is Settle || s.phase is Retry ==> t.phase == closing
        }),
{
}

/// An event that ends the pending action is refused only for want of room in a
/// counter: the packet counter if an uplink completed, the ticks since the last
/// uplink where one is counted, and the join attempts where one begins.
pub proof fn law_events_are_refused_for_want_of_room_only(s: NodeState, event: Event)
    requires
        s.wf(),
        s.link.fits(),
        s.accepts(event),
    ensures
        s.has_range(event) <==> {
            &&& event matches Event::Sent(SendOutcome::Response(response, _)) ==> response
                == SendResponse::NoAck || s.link.tx_count < 0xFFFF_FFFF
            &&& counts_a_tick(s) ==> s.link.uplink_counter < 0xFFFF_FFFF
            &&& counts_a_tick(s) && !s.link.joined && s.link.join_wait_counter + 1
                >= s.link.join_backoff_ticks ==> s.link.join_attempt < 0xFFFF_FFFF
        },
{
}

// ---------------------------------------------------------------------------
// Identity
// ---------------------------------------------------------------------------

/// The number that bytes stand for, high byte first.
pub open spec fn read_be(bytes: Seq<u8>) -> int
    decreases bytes.len(),
{
    if bytes.len() == 0 {
        0
    } else {
        256 * read_be(bytes.drop_last()) + bytes.last()
    }
}

/// The identifiers are eight bytes long and read as the numbers that the boards
/// are registered under.
pub proof fn law_identifiers()
    ensures
        written_dev_eui(Board::Lora1).len() == 8,
        written_dev_eui(Board::Lora2).len() == 8,
        written_app_eui().len() == 8,
        read_be(written_dev_eui(Board::Lora1)) == 0x23ce_1bfe_ff09_1fac,
        read_be(written_dev_eui(Board::Lora2)) == 0x24ce_1bfe_ff09_1fac,
        read_be(written_app_eui()) == 0xb130_a864_c529_5356,
{
    lemma_read_be8(written_dev_eui(Board::Lora1));
    lemma_read_be8(written_dev_eui(Board::Lora2));
    lemma_read_be8(written_app_eui());
}

/// Eight bytes written out.
proof fn lemma_read_be8(b: Seq<u8>)
    requires
        b.len() == 8,
    ensures
        read_be(b) == 256 * (256 * (256 * (256 * (256 * (256 * (256 * b[0] + b[1]) + b[2]) + b[3])
            + b[4]) + b[5]) + b[6]) + b[7],
{
    reveal_with_fuel(read_be, 9);
}

} // verus!
