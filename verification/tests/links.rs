use lora_node::link::{
    Board, Due, JoinOutcome, Link, LinkReport, SendOutcome, SendResponse,
};

const REPORT: LinkReport = LinkReport { snr: 4, rssi: -85, dr: 2 };

fn response(r: SendResponse) -> SendOutcome {
    SendOutcome::Response(r, REPORT)
}

fn joined(board: Board) -> Link {
    let mut link = Link::new(board);
    link.first_attempt();
    link.first_join_ended(JoinOutcome::JoinSuccess);
    link
}

/// Ticks until something is due.
fn wait(link: &mut Link) -> (u32, Due) {
    let mut n = 0;
    loop {
        n += 1;
        let due = link.tick();
        if due != Due::Nothing {
            return (n, due);
        }
    }
}

#[test]
fn power_up() {
    let s = Link::new(Board::Lora1).status();
    assert!(!s.is_joined);
    assert_eq!(s.join_attempt, 0);
    assert_eq!(s.tx_count, 0);
    assert_eq!(s.uplink_counter, 0);
    assert_eq!(s.uplink_fail_count, 0);
    assert_eq!(s.join_backoff_ticks, 8);
    assert_eq!(s.join_wait_counter, 0);
    assert_eq!(s.report, LinkReport { snr: 0, rssi: 0, dr: 0 });
}

#[test]
fn failed_first_join_keeps_the_shortest_backoff() {
    for outcome in [JoinOutcome::NoJoinAccept, JoinOutcome::RadioFault] {
        let mut link = Link::new(Board::Lora2);
        link.first_attempt();
        link.first_join_ended(outcome);
        assert!(!link.status().is_joined);
        assert_eq!(link.join_backoff_seconds(), 16);
        assert_eq!(link.status().join_attempt, 1);
    }
}

#[test]
fn backoff_doubles_up_to_a_minute() {
    let mut link = Link::new(Board::Lora1);
    link.first_attempt();
    link.first_join_ended(JoinOutcome::NoJoinAccept);
    let mut seconds = Vec::new();
    for i in 0..5u32 {
        seconds.push(link.join_backoff_seconds());
        let (n, due) = wait(&mut link);
        assert_eq!(due, Due::Join);
        assert_eq!(2 * n, seconds[i as usize]);
        assert_eq!(link.status().join_attempt, 2 + i);
        link.join_ended(if i % 2 == 0 { JoinOutcome::NoJoinAccept } else { JoinOutcome::RadioFault });
    }
    assert_eq!(seconds, vec![16, 32, 60, 60, 60]);
}

#[test]
fn success_resets_the_backoff() {
    let mut link = Link::new(Board::Lora1);
    link.first_attempt();
    link.first_join_ended(JoinOutcome::RadioFault);
    wait(&mut link);
    link.join_ended(JoinOutcome::NoJoinAccept);
    wait(&mut link);
    link.join_ended(JoinOutcome::JoinSuccess);
    let s = link.status();
    assert!(s.is_joined);
    assert_eq!(s.join_backoff_ticks, 8);
    assert_eq!(s.uplink_fail_count, 0);
    assert_eq!(s.join_attempt, 3);
}

#[test]
fn uplink_cadence() {
    for (board, interval) in [(Board::Lora1, 15), (Board::Lora2, 5)] {
        let mut link = joined(board);
        for _ in 0..3 {
            assert_eq!(wait(&mut link), (interval, Due::Uplink));
            link.uplink_ended(response(SendResponse::DownlinkReceived));
        }
        assert_eq!(link.status().tx_count, 3);
        assert_eq!(link.board(), board);
    }
}

#[test]
fn late_join_sends_at_the_next_tick() {
    let mut link = Link::new(Board::Lora1);
    link.first_attempt();
    link.first_join_ended(JoinOutcome::NoJoinAccept);
    wait(&mut link);
    link.join_ended(JoinOutcome::NoJoinAccept);
    wait(&mut link);
    link.join_ended(JoinOutcome::JoinSuccess);
    assert_eq!(link.status().uplink_counter, 24);
    assert_eq!(wait(&mut link), (1, Due::Uplink));
}

#[test]
fn one_uplink_in_five_is_confirmed() {
    let confirmed: Vec<u32> = (0..15).filter(|n| Board::Lora1.use_confirmed(*n)).collect();
    assert_eq!(confirmed, vec![0, 5, 10]);
    assert!((0..15).all(|n| Board::Lora2.use_confirmed(n)));
}

#[test]
fn completed_uplink_is_counted_with_its_readings() {
    for r in [SendResponse::DownlinkReceived, SendResponse::SessionExpired, SendResponse::RxComplete] {
        for board in [Board::Lora1, Board::Lora2] {
            let mut link = joined(board);
            link.uplink_ended(response(SendResponse::NoAck));
            assert_eq!(link.status().tx_count, 0);
            assert_eq!(link.status().report, LinkReport { snr: 0, rssi: 0, dr: 0 });
            link.uplink_ended(response(r));
            assert_eq!(link.status().tx_count, 1);
            assert_eq!(link.status().report, REPORT);
        }
    }
}

#[test]
fn acknowledgement_clears_the_misses() {
    for r in [SendResponse::DownlinkReceived, SendResponse::RxComplete] {
        for board in [Board::Lora1, Board::Lora2] {
            let mut link = joined(board);
            link.uplink_ended(response(SendResponse::NoAck));
            assert_eq!(link.status().uplink_fail_count, 1);
            link.uplink_ended(response(r));
            assert_eq!(link.status().uplink_fail_count, 0);
        }
    }
}

#[test]
fn expired_session_is_no_answer_on_the_sensor_node() {
    for (board, fails) in [(Board::Lora1, 1u8), (Board::Lora2, 0)] {
        let mut link = joined(board);
        link.uplink_ended(response(SendResponse::NoAck));
        link.uplink_ended(response(SendResponse::SessionExpired));
        assert_eq!(link.status().uplink_fail_count, fails);
        assert!(link.status().is_joined);
    }
}

#[test]
fn three_missed_acknowledgements_lose_the_gateway() {
    for board in [Board::Lora1, Board::Lora2] {
        let mut link = joined(board);
        for _ in 0..5 {
            link.uplink_ended(response(SendResponse::DownlinkReceived));
        }
        link.uplink_ended(response(SendResponse::NoAck));
        link.uplink_ended(response(SendResponse::NoAck));
        assert!(link.status().is_joined);
        link.uplink_ended(response(SendResponse::NoAck));
        let s = link.status();
        assert!(!s.is_joined);
        assert_eq!(s.join_attempt, 0);
        assert_eq!(s.uplink_fail_count, 0);
        assert_eq!(s.join_backoff_ticks, 8);
        assert_eq!(s.join_wait_counter, 0);
        assert_eq!(s.tx_count, 5);
        assert_eq!(s.report, REPORT);
    }
}

#[test]
fn packet_counter_resumes_after_a_rejoin() {
    let mut link = joined(Board::Lora2);
    link.uplink_ended(response(SendResponse::DownlinkReceived));
    for _ in 0..3 {
        link.uplink_ended(response(SendResponse::NoAck));
    }
    assert_eq!(wait(&mut link), (8, Due::Join));
    link.join_ended(JoinOutcome::JoinSuccess);
    assert_eq!(link.status().tx_count, 1);
    assert_eq!(link.status().join_attempt, 1);
}

#[test]
fn unconfirmed_uplinks_do_not_mask_a_lost_gateway() {
    // Two completed uplinks leave three unconfirmed ones before the next confirmed one.
    let mut link = joined(Board::Lora1);
    link.uplink_ended(response(SendResponse::DownlinkReceived));
    link.uplink_ended(response(SendResponse::RxComplete));
    let mut uplinks = 0;
    while link.status().is_joined {
        let confirmed = Board::Lora1.use_confirmed(link.status().tx_count);
        let fails = link.status().uplink_fail_count;
        link.uplink_ended(response(if confirmed { SendResponse::NoAck } else { SendResponse::RxComplete }));
        if !confirmed {
            assert_eq!(link.status().uplink_fail_count, fails);
        }
        uplinks += 1;
    }
    assert_eq!(uplinks, 6);
}

#[test]
fn unconfirmed_missing_acknowledgement_is_neutral() {
    let mut link = joined(Board::Lora1);
    link.uplink_ended(response(SendResponse::DownlinkReceived));
    for _ in 0..5 {
        link.uplink_ended(response(SendResponse::NoAck));
    }
    assert!(link.status().is_joined);
    assert_eq!(link.status().uplink_fail_count, 0);
    assert_eq!(link.status().tx_count, 1);
}

#[test]
fn radio_fault_is_neutral_on_the_sensor_node() {
    let mut link = joined(Board::Lora1);
    link.uplink_ended(response(SendResponse::NoAck));
    let before = link.status();
    for _ in 0..4 {
        link.uplink_ended(SendOutcome::RadioFault);
    }
    assert_eq!(link.status(), before);
}

#[test]
fn radio_fault_counts_on_the_range_probe() {
    let mut link = joined(Board::Lora2);
    link.uplink_ended(SendOutcome::RadioFault);
    link.uplink_ended(response(SendResponse::NoAck));
    assert_eq!(link.status().uplink_fail_count, 2);
    link.uplink_ended(SendOutcome::RadioFault);
    assert!(!link.status().is_joined);
    assert_eq!(link.status().tx_count, 0);
}

#[test]
fn an_answer_clears_the_misses() {
    let mut link = joined(Board::Lora2);
    for _ in 0..4 {
        link.uplink_ended(response(SendResponse::NoAck));
        link.uplink_ended(response(SendResponse::NoAck));
        link.uplink_ended(response(SendResponse::DownlinkReceived));
    }
    assert!(link.status().is_joined);
    assert_eq!(link.status().uplink_fail_count, 0);
    assert_eq!(link.status().tx_count, 4);
}
