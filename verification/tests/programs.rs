use lora_node::link::{Board, JoinOutcome, LinkReport, SendOutcome, SendResponse};
use lora_node::node::{Action, Event, Node, Phase};

const REPORT: LinkReport = LinkReport { snr: 4, rssi: -85, dr: 0 };
const FRAME: [u8; 6] = [0x66, 0x66, 0x93, 0x80, 0x00, 0xA2];

fn done_with(action: &Action, join: JoinOutcome, send: SendResponse) -> Event {
    match action {
        Action::Measure => Event::Sampled(Some(FRAME)),
        Action::Join => Event::Joined(join),
        Action::Send(_) => Event::Sent(SendOutcome::Response(send, REPORT)),
        _ => Event::Done,
    }
}

fn name(action: &Action) -> String {
    match action {
        Action::Measure => "measure".to_string(),
        Action::Show(_) => "show".to_string(),
        Action::Join => "join".to_string(),
        Action::Led(on) => format!("led {}", on),
        Action::Send(_) => "send".to_string(),
        Action::Wait(ms) => format!("wait {}", ms),
    }
}

fn trace(node: &mut Node, join: JoinOutcome, send: SendResponse, steps: usize) -> Vec<String> {
    let mut names = Vec::new();
    let mut action = node.pending();
    for _ in 0..steps {
        names.push(name(&action));
        action = node.step(done_with(&action, join, send));
    }
    names
}

#[test]
fn sensor_node_at_power_up() {
    let mut node = Node::new(Board::Lora1);
    assert_eq!(node.status().join_attempt, 1);
    assert_eq!(node.phase(), Phase::FirstMeasure);
    let names = trace(&mut node, JoinOutcome::JoinSuccess, SendResponse::RxComplete, 6);
    assert_eq!(names, vec!["measure", "show", "join", "measure", "show", "wait 2000"]);
    assert!(node.status().is_joined);
}

#[test]
fn range_probe_at_power_up() {
    let mut node = Node::new(Board::Lora2);
    let names = trace(&mut node, JoinOutcome::JoinSuccess, SendResponse::RxComplete, 6);
    assert_eq!(names, vec!["show", "join", "show", "show", "wait 2000", "show"]);
}

#[test]
fn first_pictures_show_the_join_attempt() {
    let mut node = Node::new(Board::Lora1);
    match node.step(Event::Sampled(Some(FRAME))) {
        Action::Show(screen) => {
            assert_eq!(screen.row(0), "LoRa-1   Join: 1    ");
            assert_eq!(screen.row(1), "Temp:  25 C          ");
            assert_eq!(screen.row(2), "Hum:   56 %          ");
        }
        _ => panic!("no picture"),
    }
    match Node::new(Board::Lora2).pending() {
        Action::Show(screen) => assert_eq!(screen.row(0), "LoRa-2   Join: 1    "),
        _ => panic!("no picture"),
    }
}

#[test]
fn sensor_node_uplink_tick() {
    let mut node = Node::new(Board::Lora1);
    trace(&mut node, JoinOutcome::JoinSuccess, SendResponse::RxComplete, 3);
    trace(&mut node, JoinOutcome::JoinSuccess, SendResponse::RxComplete, 14 * 3);
    let names = trace(&mut node, JoinOutcome::JoinSuccess, SendResponse::RxComplete, 7);
    assert_eq!(
        names,
        vec!["measure", "show", "led true", "send", "led false", "wait 100", "wait 2000"]
    );
    assert_eq!(node.status().tx_count, 1);
}

#[test]
fn range_probe_uplink_tick() {
    let mut node = Node::new(Board::Lora2);
    let names = trace(&mut node, JoinOutcome::JoinSuccess, SendResponse::DownlinkReceived, 16);
    assert_eq!(
        names,
        vec![
            "show", "join", "show", "show", "wait 2000", "show", "wait 2000", "show", "wait 2000",
            "show", "wait 2000", "led true", "send", "led false", "show", "wait 2000",
        ]
    );
}

#[test]
fn sensor_uplink_carries_the_reading() {
    let mut node = Node::new(Board::Lora1);
    let mut action = node.pending();
    let mut confirmed = Vec::new();
    while confirmed.len() < 7 {
        if let Action::Send(uplink) = &action {
            assert_eq!(uplink.payload, [0x09, 0xC4, 0x15, 0xE0]);
            assert_eq!(uplink.port, 1);
            confirmed.push(uplink.confirmed);
        }
        action = node.step(done_with(&action, JoinOutcome::JoinSuccess, SendResponse::RxComplete));
    }
    assert_eq!(confirmed, vec![true, false, false, false, false, true, false]);
}

#[test]
fn probe_uplink_carries_the_packet_count() {
    let mut node = Node::new(Board::Lora2);
    let mut action = node.pending();
    let mut counts = Vec::new();
    while counts.len() < 4 {
        if let Action::Send(uplink) = &action {
            counts.push(u32::from_be_bytes(uplink.payload));
            assert!(uplink.confirmed);
            assert_eq!(uplink.port, 1);
        }
        action =
            node.step(done_with(&action, JoinOutcome::JoinSuccess, SendResponse::DownlinkReceived));
    }
    assert_eq!(counts, vec![0, 1, 2, 3]);
}

#[test]
fn silent_sensor_keeps_the_last_reading() {
    let mut node = Node::new(Board::Lora1);
    node.step(Event::Sampled(None));
    assert_eq!(node.climate().temp_int, 0);
    assert_eq!(node.climate().hum_int, 0);
    node.step(Event::Done);
    node.step(Event::Joined(JoinOutcome::NoJoinAccept));
    node.step(Event::Sampled(Some(FRAME)));
    assert_eq!(node.climate().temp_int, 25);
    node.step(Event::Done);
    node.step(Event::Done);
    node.step(Event::Sampled(None));
    assert_eq!(node.climate().temp_int, 25);
    assert_eq!(node.climate().hum_int, 56);
}

#[test]
fn join_is_retried_after_sixteen_seconds() {
    for board in [Board::Lora1, Board::Lora2] {
        let mut node = Node::new(board);
        let mut action = node.pending();
        let mut waited = 0;
        let mut joins = Vec::new();
        while joins.len() < 4 {
            if let Action::Wait(ms) = &action {
                waited += ms;
            }
            if let Action::Join = &action {
                joins.push(waited / 1000);
            }
            action = node.step(done_with(&action, JoinOutcome::NoJoinAccept, SendResponse::NoAck));
        }
        // The tick that makes the attempt has not rested yet.
        assert_eq!(joins, vec![0, 14, 46, 106]);
    }
}

#[test]
fn lost_gateway_shows_connecting() {
    let mut node = Node::new(Board::Lora2);
    let mut action = node.pending();
    let mut sends = 0;
    loop {
        if let Action::Send(_) = &action {
            sends += 1;
        }
        if let Action::Show(screen) = &action {
            if sends == 3 {
                assert_eq!(screen.row(0), "LoRa-2   Join: 0    ");
                assert_eq!(screen.row(4), "Connecting...       ");
                break;
            }
        }
        action = node.step(done_with(&action, JoinOutcome::JoinSuccess, SendResponse::NoAck));
    }
}

#[test]
fn led_is_lit_during_an_uplink_only() {
    for board in [Board::Lora1, Board::Lora2] {
        let mut node = Node::new(board);
        let mut action = node.pending();
        let mut lit = false;
        let mut sends = 0;
        for _ in 0..500 {
            if let Action::Led(on) = &action {
                lit = *on;
            }
            if let Action::Send(_) = &action {
                assert!(lit);
                sends += 1;
            }
            if let Action::Wait(_) = &action {
                assert!(!lit);
            }
            action =
                node.step(done_with(&action, JoinOutcome::JoinSuccess, SendResponse::RxComplete));
        }
        assert!(sends > 5);
    }
}

#[test]
fn every_tick_draws_once() {
    for board in [Board::Lora1, Board::Lora2] {
        let mut node = Node::new(board);
        let mut action = node.pending();
        let mut pictures = 0;
        let mut rests = 0;
        for _ in 0..500 {
            if let Action::Show(_) = &action {
                pictures += 1;
            }
            if let Action::Wait(2000) = &action {
                rests += 1;
                if rests > 1 {
                    assert_eq!(pictures, 1);
                }
                pictures = 0;
            }
            action = node.step(done_with(&action, JoinOutcome::JoinSuccess, SendResponse::NoAck));
        }
    }
}

#[test]
fn only_the_event_that_ends_the_pending_action_can_be_taken() {
    let mut node = Node::new(Board::Lora1);
    let joined = Event::Joined(JoinOutcome::JoinSuccess);
    let sent = Event::Sent(SendOutcome::RadioFault);
    assert!(node.can_take(&Event::Sampled(None)));
    assert!(!node.can_take(&Event::Done));
    assert!(!node.can_take(&joined));
    node.step(Event::Sampled(None));
    assert!(node.can_take(&Event::Done));
    assert!(!node.can_take(&Event::Sampled(Some(FRAME))));
    node.step(Event::Done);
    assert!(node.can_take(&joined));
    assert!(!node.can_take(&sent));
    assert!(!node.can_take(&Event::Done));
}

#[test]
fn node_never_sends_while_not_joined_nor_joins_while_joined() {
    for board in [Board::Lora1, Board::Lora2] {
        let mut node = Node::new(board);
        let mut action = node.pending();
        let mut joins = 0;
        for i in 0..3000u32 {
            match &action {
                Action::Send(_) => assert!(node.status().is_joined),
                Action::Join => {
                    assert!(!node.status().is_joined);
                    joins += 1;
                }
                _ => {}
            }
            let join = if i % 3 == 0 { JoinOutcome::NoJoinAccept } else { JoinOutcome::JoinSuccess };
            let event = done_with(&action, join, SendResponse::NoAck);
            assert!(node.can_take(&event));
            action = node.step(event);
        }
        assert!(joins > 5);
    }
}

#[test]
fn one_link_tick_goes_with_each_rest() {
    for board in [Board::Lora1, Board::Lora2] {
        let mut node = Node::new(board);
        let mut action = node.pending();
        let mut rests = 0u32;
        let mut waited_from = 0u32;
        // Not joined: the uplink counter counts every tick.
        for _ in 0..2000 {
            let resting = node.phase() == Phase::Rest;
            if resting {
                if rests == 0 {
                    waited_from = node.status().uplink_counter;
                }
                assert_eq!(node.status().uplink_counter - waited_from, rests);
                rests += 1;
            }
            action = node.step(done_with(&action, JoinOutcome::NoJoinAccept, SendResponse::NoAck));
        }
        assert!(rests > 100);
    }
}

#[test]
fn rests_between_joins_and_uplinks() {
    for (board, interval) in [(Board::Lora1, 15), (Board::Lora2, 5)] {
        let mut node = Node::new(board);
        let mut action = node.pending();
        let mut rests = 0;
        let mut between = Vec::new();
        for _ in 0..1000 {
            match &action {
                Action::Send(_) => {
                    between.push(rests);
                    rests = 0;
                }
                Action::Wait(2000) => rests += 1,
                _ => {}
            }
            action =
                node.step(done_with(&action, JoinOutcome::JoinSuccess, SendResponse::RxComplete));
        }
        assert!(between.len() > 3);
        assert!(between[1..].iter().all(|n| *n == interval));
    }
}

#[test]
fn node_tells_the_seconds_to_the_next_attempt() {
    let mut node = Node::new(Board::Lora2);
    let mut action = node.pending();
    let mut seconds = Vec::new();
    while seconds.len() < 4 {
        if let Action::Join = &action {
            seconds.push(node.join_backoff_seconds());
        }
        action = node.step(done_with(&action, JoinOutcome::NoJoinAccept, SendResponse::NoAck));
    }
    assert_eq!(seconds, vec![16, 16, 32, 60]);
}

#[test]
fn power_up_makes_one_join_attempt() {
    for (board, events, join) in [(Board::Lora1, 5, 2), (Board::Lora2, 4, 1)] {
        for outcome in [JoinOutcome::JoinSuccess, JoinOutcome::NoJoinAccept, JoinOutcome::RadioFault]
        {
            let mut node = Node::new(board);
            let mut action = node.pending();
            for k in 0..events {
                assert_ne!(node.phase(), Phase::Rest);
                assert_eq!(matches!(action, Action::Join), k == join);
                assert_eq!(node.status().join_attempt, 1);
                action = node.step(done_with(&action, outcome, SendResponse::RxComplete));
            }
            assert_eq!(node.phase(), Phase::Rest);
            assert_eq!(node.status().is_joined, outcome == JoinOutcome::JoinSuccess);
            assert_eq!(node.status().join_attempt, 1);
            assert_eq!(node.status().uplink_counter, 1);
        }
    }
}

/// Rests of a joined node, after `answered` uplinks that went well, until a rest
/// finds it not joined with the gateway gone.
fn rests_until_noticed(board: Board, answered: u32) -> u32 {
    let mut node = Node::new(board);
    let mut action = node.pending();
    while node.status().tx_count < answered || node.phase() != Phase::Rest {
        action = node.step(done_with(&action, JoinOutcome::JoinSuccess, SendResponse::RxComplete));
    }
    let mut rests = 0;
    while node.status().is_joined || node.phase() != Phase::Rest {
        if node.phase() == Phase::Rest {
            rests += 1;
        }
        let send = match &action {
            Action::Send(uplink) if !uplink.confirmed => SendResponse::RxComplete,
            _ => SendResponse::NoAck,
        };
        action = node.step(done_with(&action, JoinOutcome::NoJoinAccept, send));
    }
    rests
}

#[test]
fn lost_gateway_is_noticed_in_time() {
    // From the rest after an uplink: three intervals of five ticks.
    assert_eq!(rests_until_noticed(Board::Lora2, 1), 15);
    assert_eq!(rests_until_noticed(Board::Lora2, 2), 15);
    // Fifteen ticks to each uplink, of which up to four are unconfirmed.
    assert_eq!(rests_until_noticed(Board::Lora1, 1), 7 * 15);
    assert_eq!(rests_until_noticed(Board::Lora1, 3), 5 * 15);
    assert_eq!(rests_until_noticed(Board::Lora1, 5), 3 * 15);
    // From the first rest, one tick has been counted already.
    assert_eq!(rests_until_noticed(Board::Lora2, 0), 14);
    assert_eq!(rests_until_noticed(Board::Lora1, 0), 3 * 15 - 1);
}
