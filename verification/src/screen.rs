//! The five text rows of the OLED display.
use vstd::prelude::*;
use vstd::utf8::is_ascii_chars;

use crate::link::Board;
use crate::text::{
    as_str, decimal, lemma_decimal_len, lemma_signed_len, line_text, new_line, plus_signed, put,
    put_decimal, put_plus_signed, put_signed, put_spaces, put_unsigned, right, signed, spaces,
    LINE_CAPACITY,
};

verus! {

/// Rows on the display.
pub const ROWS: usize = 5;

/// What the display shows, row by row.
pub struct Screen {
    rows: [heapless::String<32>; 5],
}

impl View for Screen {
    type V = Seq<Seq<char>>;

    closed spec fn view(&self) -> Seq<Seq<char>> {
        Seq::new(ROWS as nat, |i: int| line_text(self.rows@[i]))
    }
}

impl Screen {
    /// The text of one row.
    pub fn row(&self, index: usize) -> (text: &str)
        requires
            index < ROWS,
        ensures
            text@ == self@[index as int],
    {
        as_str(&self.rows[index])
    }

    /// Height of a row's base line in pixels from the top.
    pub fn baseline(index: usize) -> (y: i32)
        requires
            index < ROWS,
        ensures
            y == 10 + 12 * index,
    {
        10 + 12 * index as i32
    }
}

/// Spreading factor of an AU915 data rate: one step down from 12 for each data
/// rate, but for data rate 6, the 500 kHz one, which is at 8 again.
pub open spec fn spreading_factor_of(dr: nat) -> nat {
    if dr == 6 {
        8
    } else if dr <= 12 {
        (12 - dr) as nat
    } else {
        0
    }
}

/// Spreading factor of an AU915 data rate.
pub fn spreading_factor(dr: u8) -> (sf: u8)
    ensures
        sf == spreading_factor_of(dr as nat),
{
    if dr == 6 {
        8
    } else {
        12u8.saturating_sub(dr)
    }
}

/// First row: the board, then the packet count or the join attempt.
pub open spec fn title_row(
    board: Board,
    is_joined: bool,
    tx_count: nat,
    join_attempt: nat,
) -> Seq<char> {
    let name = match board {
        Board::Lora1 => "LoRa-1"@,
        Board::Lora2 => "LoRa-2"@,
    };
    if is_joined {
        name + "     Tx:"@ + right(decimal(tx_count), 4) + "  "@
    } else {
        name + "   Join:"@ + right(decimal(join_attempt), 2) + "    "@
    }
}

/// Row with a value between a label and a unit, and `padding` spaces behind them.
pub open spec fn value_row(
    label: Seq<char>,
    value: Seq<char>,
    width: nat,
    unit: Seq<char>,
    padding: nat,
) -> Seq<char> {
    label + right(value, width) + unit + spaces(padding)
}

/// Signal row of the sensor node. The plus sign stands in front of the field,
/// not of the number.
pub open spec fn signal_row(rssi: int, snr: int) -> Seq<char> {
    let plus = if snr >= 0 {
        "+"@
    } else {
        ""@
    };
    "RSSI:"@ + right(signed(rssi), 4) + " SNR:"@ + plus + right(signed(snr), 3) + "  "@
}

/// Row with the data rate and the spreading factor, and `padding` spaces behind them.
pub open spec fn rate_row(dr: nat, padding: nat) -> Seq<char> {
    "DR"@ + decimal(dr) + " SF"@ + decimal(spreading_factor_of(dr)) + spaces(padding)
}

/// Row that says that the node is not joined.
pub open spec fn connecting_row() -> Seq<char> {
    "Connecting..."@ + spaces(7)
}

/// Row that overwrites an earlier one with nothing.
pub open spec fn blank_row() -> Seq<char> {
    spaces(20)
}

/// The rows of the sensor node: title, temperature, humidity, and while joined
/// signal and data rate.
pub open spec fn sensor_rows(
    temp_int: int,
    hum_int: int,
    tx_count: nat,
    is_joined: bool,
    join_attempt: nat,
    snr: int,
    rssi: int,
    dr: nat,
) -> Seq<Seq<char>> {
    seq![
        title_row(Board::Lora1, is_joined, tx_count, join_attempt),
        value_row("Temp: "@, signed(temp_int), 3, " C"@, 10),
        value_row("Hum:  "@, signed(hum_int), 3, " %"@, 10),
        if is_joined {
            signal_row(rssi, snr)
        } else {
            blank_row()
        },
        if is_joined {
            rate_row(dr, 12)
        } else {
            connecting_row()
        },
    ]
}

/// The rows of the range probe: title, then while joined signal strength,
/// signal-to-noise ratio and data rate, and whether the node is joined.
pub open spec fn probe_rows(
    tx_count: nat,
    is_joined: bool,
    join_attempt: nat,
    snr: int,
    rssi: int,
    dr: nat,
) -> Seq<Seq<char>> {
    if is_joined {
        seq![
            title_row(Board::Lora2, is_joined, tx_count, join_attempt),
            value_row("RSSI: "@, signed(rssi), 4, " dBm"@, 7),
            value_row("SNR:  "@, plus_signed(snr), 4, " dB"@, 8),
            rate_row(dr, 14),
            "Connected"@ + spaces(11),
        ]
    } else {
        seq![
            title_row(Board::Lora2, is_joined, tx_count, join_attempt),
            blank_row(),
            blank_row(),
            blank_row(),
            connecting_row(),
        ]
    }
}

/// A row that begins with `text`.
fn begin(text: &str) -> (line: heapless::String<32>)
    requires
        is_ascii_chars(text@),
        text@.len() <= LINE_CAPACITY,
    ensures
        line_text(line) == text@,
        is_ascii_chars(line_text(line)),
{
    let mut line = new_line();
    put(&mut line, text);
    assert(line_text(line) == text@);
    line
}

fn title(board: Board, is_joined: bool, tx_count: u32, join_attempt: u32) -> (line:
    heapless::String<32>)
    ensures
        line_text(line) == title_row(board, is_joined, tx_count as nat, join_attempt as nat),
{
    proof {
        reveal_strlit("LoRa-1");
        reveal_strlit("LoRa-2");
        reveal_strlit("     Tx:");
        reveal_strlit("  ");
        reveal_strlit("   Join:");
        reveal_strlit("    ");
        lemma_decimal_len(tx_count as nat);
        lemma_decimal_len(join_attempt as nat);
    }
    let mut line = match board {
        Board::Lora1 => begin("LoRa-1"),
        Board::Lora2 => begin("LoRa-2"),
    };
    if is_joined {
        put(&mut line, "     Tx:");
        put_unsigned(&mut line, tx_count, 4);
        put(&mut line, "  ");
    } else {
        put(&mut line, "   Join:");
        put_unsigned(&mut line, join_attempt, 2);
        put(&mut line, "    ");
    }
    line
}

fn celsius(temp_int: i16) -> (line: heapless::String<32>)
    ensures
        line_text(line) == value_row("Temp: "@, signed(temp_int as int), 3, " C"@, 10),
{
    proof {
        reveal_strlit("Temp: ");
        reveal_strlit(" C");
        lemma_signed_len(temp_int as int);
    }
    let mut line = begin("Temp: ");
    put_signed(&mut line, temp_int, 3);
    put(&mut line, " C");
    put_spaces(&mut line, 10);
    line
}

fn percent(hum_int: i16) -> (line: heapless::String<32>)
    ensures
        line_text(line) == value_row("Hum:  "@, signed(hum_int as int), 3, " %"@, 10),
{
    proof {
        reveal_strlit("Hum:  ");
        reveal_strlit(" %");
        lemma_signed_len(hum_int as int);
    }
    let mut line = begin("Hum:  ");
    put_signed(&mut line, hum_int, 3);
    put(&mut line, " %");
    put_spaces(&mut line, 10);
    line
}

fn signal(rssi: i16, snr: i8) -> (line: heapless::String<32>)
    ensures
        line_text(line) == signal_row(rssi as int, snr as int),
{
    proof {
        reveal_strlit("RSSI:");
        reveal_strlit(" SNR:");
        reveal_strlit("+");
        reveal_strlit("");
        reveal_strlit("  ");
        lemma_signed_len(rssi as int);
        lemma_signed_len(snr as int);
    }
    let mut line = begin("RSSI:");
    put_signed(&mut line, rssi, 4);
    put(&mut line, " SNR:");
    if snr >= 0 {
        put(&mut line, "+");
    } else {
        put(&mut line, "");
    }
    put_signed(&mut line, snr as i16, 3);
    put(&mut line, "  ");
    line
}

fn strength(rssi: i16) -> (line: heapless::String<32>)
    ensures
        line_text(line) == value_row("RSSI: "@, signed(rssi as int), 4, " dBm"@, 7),
{
    proof {
        reveal_strlit("RSSI: ");
        reveal_strlit(" dBm");
        lemma_signed_len(rssi as int);
    }
    let mut line = begin("RSSI: ");
    put_signed(&mut line, rssi, 4);
    put(&mut line, " dBm");
    put_spaces(&mut line, 7);
    line
}

fn noise_ratio(snr: i8) -> (line: heapless::String<32>)
    ensures
        line_text(line) == value_row("SNR:  "@, plus_signed(snr as int), 4, " dB"@, 8),
{
    proof {
        reveal_strlit("SNR:  ");
        reveal_strlit(" dB");
        lemma_signed_len(snr as int);
    }
    let mut line = begin("SNR:  ");
    put_plus_signed(&mut line, snr as i16, 4);
    put(&mut line, " dB");
    put_spaces(&mut line, 8);
    line
}

fn rate(dr: u8, padding: usize) -> (line: heapless::String<32>)
    requires
        padding <= 14,
    ensures
        line_text(line) == rate_row(dr as nat, padding as nat),
{
    let sf: u8 = spreading_factor(dr);
    proof {
        reveal_strlit("DR");
        reveal_strlit(" SF");
        lemma_decimal_len(dr as nat);
        lemma_decimal_len(sf as nat);
    }
    let mut line = begin("DR");
    put_decimal(&mut line, dr as u32);
    put(&mut line, " SF");
    put_decimal(&mut line, sf as u32);
    put_spaces(&mut line, padding);
    line
}

fn connecting() -> (line: heapless::String<32>)
    ensures
        line_text(line) == connecting_row(),
{
    proof {
        reveal_strlit("Connecting...");
    }
    let mut line = begin("Connecting...");
    put_spaces(&mut line, 7);
    line
}

fn connected() -> (line: heapless::String<32>)
    ensures
        line_text(line) == "Connected"@ + spaces(11),
{
    proof {
        reveal_strlit("Connected");
    }
    let mut line = begin("Connected");
    put_spaces(&mut line, 11);
    line
}

fn blank() -> (line: heapless::String<32>)
    ensures
        line_text(line) == blank_row(),
{
    let mut line = new_line();
    put_spaces(&mut line, 20);
    assert(line_text(line) == blank_row());
    line
}

/// The display of the sensor node.
pub fn update_sensor_display(
    temp_int: i16,
    hum_int: i16,
    tx_count: u32,
    is_joined: bool,
    join_attempt: u32,
    snr: i8,
    rssi: i16,
    dr: u8,
) -> (screen: Screen)
    ensures
        screen@ == sensor_rows(
            temp_int as int,
            hum_int as int,
            tx_count as nat,
            is_joined,
            join_attempt as nat,
            snr as int,
            rssi as int,
            dr as nat,
        ),
{
    Screen {
        rows: [
            title(Board::Lora1, is_joined, tx_count, join_attempt),
            celsius(temp_int),
            percent(hum_int),
            if is_joined {
                signal(rssi, snr)
            } else {
                blank()
            },
            if is_joined {
                rate(dr, 12)
            } else {
                connecting()
            },
        ],
    }
}

/// The display of the range probe.
pub fn update_display(
    tx_count: u32,
    is_joined: bool,
    join_attempt: u32,
    snr: i8,
    rssi: i16,
    dr: u8,
) -> (screen: Screen)
    ensures
        screen@ == probe_rows(
            tx_count as nat,
            is_joined,
            join_attempt as nat,
            snr as int,
            rssi as int,
            dr as nat,
        ),
{
    let first = title(Board::Lora2, is_joined, tx_count, join_attempt);
    if is_joined {
        Screen { rows: [first, strength(rssi), noise_ratio(snr), rate(dr, 14), connected()] }
    } else {
        Screen { rows: [first, blank(), blank(), blank(), connecting()] }
    }
}

} // verus!
