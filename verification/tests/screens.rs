use lora_node::screen::{spreading_factor, update_display, update_sensor_display, Screen};

fn rows(screen: &Screen) -> Vec<String> {
    (0..5).map(|i| screen.row(i).to_string()).collect()
}

fn sf(dr: u8) -> u8 {
    if dr == 6 {
        8
    } else {
        12u8.saturating_sub(dr)
    }
}

fn probe(tx_count: u32, snr: i8, rssi: i16, dr: u8) -> Vec<String> {
    vec![
        format!("LoRa-2     Tx:{:>4}  ", tx_count),
        format!("RSSI: {:>4} dBm       ", rssi),
        format!("SNR:  {:>+4} dB        ", snr),
        format!("DR{} SF{}              ", dr, sf(dr)),
        "Connected           ".to_string(),
    ]
}

fn sensor(temp: i16, hum: i16, tx_count: u32, snr: i8, rssi: i16, dr: u8) -> Vec<String> {
    vec![
        format!("LoRa-1     Tx:{:>4}  ", tx_count),
        format!("Temp: {:>3} C          ", temp),
        format!("Hum:  {:>3} %          ", hum),
        format!("RSSI:{:>4} SNR:{}{:>3}  ", rssi, if snr >= 0 { "+" } else { "" }, snr),
        format!("DR{} SF{}            ", dr, sf(dr)),
    ]
}

const COUNTS: [u32; 12] =
    [0, 1, 9, 10, 99, 100, 999, 1000, 9999, 10000, 4294967294, 4294967295];
const SNRS: [i8; 11] = [-128, -100, -99, -20, -1, 0, 1, 4, 9, 10, 127];
const RSSIS: [i16; 11] = [-32768, -1000, -999, -120, -85, -1, 0, 7, 100, 9999, 32767];

#[test]
fn probe_screen_while_joined() {
    for tx in COUNTS {
        for snr in SNRS {
            for rssi in RSSIS {
                for dr in [0u8, 3, 5, 6, 7, 12, 13, 99, 100, 255] {
                    let screen = update_display(tx, true, 3, snr, rssi, dr);
                    assert_eq!(rows(&screen), probe(tx, snr, rssi, dr));
                }
            }
        }
    }
}

#[test]
fn probe_screen_example() {
    let screen = update_display(7, true, 0, 4, -85, 0);
    assert_eq!(screen.row(0), "LoRa-2     Tx:   7  ");
    assert_eq!(screen.row(1), "RSSI:  -85 dBm       ");
    assert_eq!(screen.row(2), "SNR:    +4 dB        ");
    assert_eq!(screen.row(3), "DR0 SF12              ");
    assert_eq!(screen.row(4), "Connected           ");
}

#[test]
fn probe_screen_while_not_joined() {
    for attempt in COUNTS {
        let screen = update_display(12, false, attempt, -3, -90, 2);
        let blank = "                    ".to_string();
        assert_eq!(
            rows(&screen),
            vec![
                format!("LoRa-2   Join:{:>2}    ", attempt),
                blank.clone(),
                blank.clone(),
                blank,
                "Connecting...       ".to_string(),
            ]
        );
    }
}

#[test]
fn sensor_screen_while_joined() {
    for tx in COUNTS {
        for snr in SNRS {
            for rssi in RSSIS {
                for dr in [0u8, 5, 6, 10, 255] {
                    for (temp, hum) in [(0i16, 0i16), (-45, -6), (130, 119), (25, 56), (-32768, 32767)] {
                        let screen =
                            update_sensor_display(temp, hum, tx, true, 1, snr, rssi, dr);
                        assert_eq!(rows(&screen), sensor(temp, hum, tx, snr, rssi, dr));
                    }
                }
            }
        }
    }
}

#[test]
fn sensor_screen_example() {
    let screen = update_sensor_display(25, 56, 3, true, 1, 4, -85, 1);
    assert_eq!(screen.row(0), "LoRa-1     Tx:   3  ");
    assert_eq!(screen.row(1), "Temp:  25 C          ");
    assert_eq!(screen.row(2), "Hum:   56 %          ");
    assert_eq!(screen.row(3), "RSSI: -85 SNR:+  4  ");
    assert_eq!(screen.row(4), "DR1 SF11            ");
}

#[test]
fn sensor_screen_while_not_joined() {
    let screen = update_sensor_display(-7, 101, 3, false, 12, 4, -85, 1);
    assert_eq!(screen.row(0), "LoRa-1   Join:12    ");
    assert_eq!(screen.row(1), "Temp:  -7 C          ");
    assert_eq!(screen.row(2), "Hum:  101 %          ");
    assert_eq!(screen.row(3), "                    ");
    assert_eq!(screen.row(4), "Connecting...       ");
}

#[test]
fn connecting_is_shown_when_and_only_when_not_joined() {
    for joined in [false, true] {
        let a = update_display(1, joined, 1, 0, 0, 0);
        let b = update_sensor_display(1, 1, 1, joined, 1, 0, 0, 0);
        assert_eq!(a.row(4).starts_with("Connecting..."), !joined);
        assert_eq!(b.row(4).starts_with("Connecting..."), !joined);
    }
}

#[test]
fn rows_keep_their_width() {
    for tx in [0u32, 42, 9999] {
        for temp in -45i16..131 {
            let screen = update_sensor_display(temp, 50, tx, true, 1, 4, -85, 0);
            assert_eq!(screen.row(0).len(), 20);
            assert_eq!(screen.row(1).len(), 21);
        }
        for hum in -6i16..120 {
            let screen = update_sensor_display(20, hum, tx, false, 99, 4, -85, 0);
            assert_eq!(screen.row(0).len(), 20);
            assert_eq!(screen.row(2).len(), 21);
        }
    }
}

#[test]
fn spreading_factors_of_the_data_rates() {
    let table: [(u8, u8); 7] = [(0, 12), (1, 11), (2, 10), (3, 9), (4, 8), (5, 7), (6, 8)];
    for (dr, sf) in table {
        assert_eq!(spreading_factor(dr), sf);
    }
    assert_eq!(spreading_factor(7), 5);
    assert_eq!(spreading_factor(12), 0);
    assert_eq!(spreading_factor(255), 0);
}

#[test]
fn rows_stand_twelve_pixels_apart() {
    let heights: Vec<i32> = (0..5).map(Screen::baseline).collect();
    assert_eq!(heights, vec![10, 22, 34, 46, 58]);
}
