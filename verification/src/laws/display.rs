//! What the display shows, row by row, and that it can be read back.
use vstd::prelude::*;

use crate::laws::{law_numerals_read_back, read_decimal};
use crate::link::Board;
use crate::node::NodeState;
use crate::screen::{probe_rows, sensor_rows, spreading_factor_of};
use crate::text::{decimal, plus_signed, right, signed, spaces};

verus! {

// ---------------------------------------------------------------------------
// Numbers and fields
// ---------------------------------------------------------------------------

/// A numeral consists of decimal digits only and does not begin with a zero,
/// but for zero itself, which is the one digit.
pub proof fn law_numerals_are_plain(n: nat)
    ensures
        decimal(n).len() >= 1,
        forall|i: int| 0 <= i < decimal(n).len() ==> '0' <= #[trigger] decimal(n)[i] <= '9',
        n > 0 ==> decimal(n)[0] != '0',
        n < 10 ==> decimal(n).len() == 1,
        read_decimal(decimal(n)) == n,
    decreases n,
{
    law_numerals_read_back(n);
    if n >= 10 {
        law_numerals_are_plain(n / 10);
        let shorter = decimal(n / 10);
        assert forall|i: int| 0 <= i < decimal(n).len() implies '0' <= #[trigger] decimal(n)[i]
            <= '9' by {
            if i < shorter.len() {
                assert(decimal(n)[i] == shorter[i]);
            }
        }
        assert(decimal(n)[0] == shorter[0]);
    }
}

/// The number that a numeral with or without a sign stands for.
pub open spec fn read_number(text: Seq<char>) -> int {
    if text.len() > 0 && text[0] == '-' {
        -read_decimal(text.skip(1))
    } else if text.len() > 0 && text[0] == '+' {
        read_decimal(text.skip(1))
    } else {
        read_decimal(text)
    }
}

/// A number reads back from its numeral. A minus sign stands in front of the
/// negative ones; where the sign is always written, a plus sign stands in front
/// of the others. Behind the sign stand the digits of the magnitude.
pub proof fn law_signed_numerals(n: int)
    ensures
        read_number(signed(n)) == n,
        read_number(plus_signed(n)) == n,
        n >= 0 ==> signed(n) == decimal(n as nat),
        n < 0 ==> signed(n)[0] == '-' && signed(n).skip(1) == decimal((-n) as nat),
        n >= 0 ==> plus_signed(n)[0] == '+' && plus_signed(n).skip(1) == decimal(n as nat),
        n < 0 ==> plus_signed(n) == signed(n),
        signed(n).len() > 0 && signed(n)[0] != ' ',
        plus_signed(n).len() > 0 && plus_signed(n)[0] != ' ',
{
    let magnitude: nat = if n < 0 {
        (-n) as nat
    } else {
        n as nat
    };
    law_numerals_are_plain(magnitude);
    assert('0' <= decimal(magnitude)[0] <= '9');
    assert((seq!['-'] + decimal(magnitude)).skip(1) == decimal(magnitude));
    assert((seq!['+'] + decimal(magnitude)).skip(1) == decimal(magnitude));
}

/// A run of spaces is as long as asked for and holds nothing else.
pub proof fn law_spaces(width: nat)
    ensures
        spaces(width).len() == width,
        forall|i: int| 0 <= i < width ==> #[trigger] spaces(width)[i] == ' ',
{
}

/// A field is as wide as asked for, or as its text if that is longer; the text
/// stands at its right end, whole, with spaces before it.
pub proof fn law_fields_are_right_aligned(text: Seq<char>, width: nat)
    ensures
        ({
            let field = right(text, width);
            let pad = field.len() - text.len();
            &&& text.len() <= width ==> field.len() == width
            &&& text.len() > width ==> field.len() == text.len()
            &&& field.skip(pad) == text
            &&& forall|i: int| 0 <= i < pad ==> #[trigger] field[i] == ' '
        }),
{
    let field = right(text, width);
    assert(field.skip(field.len() - text.len()) == text);
}

/// `text` without the spaces in front of it.
pub open spec fn unpadded(text: Seq<char>) -> Seq<char>
    decreases text.len(),
{
    if text.len() > 0 && text[0] == ' ' {
        unpadded(text.skip(1))
    } else {
        text
    }
}

proof fn lemma_unpadded(width: nat, text: Seq<char>)
    requires
        text.len() > 0,
        text[0] != ' ',
    ensures
        unpadded(spaces(width) + text) == text,
    decreases width,
{
    if width == 0 {
        assert(spaces(width) + text == text);
    } else {
        let shorter = spaces((width - 1) as nat) + text;
        assert((spaces(width) + text).skip(1) == shorter);
        lemma_unpadded((width - 1) as nat, text);
    }
}

/// The number between the first `front` and the last `back` characters of a row.
pub open spec fn read_field(row: Seq<char>, front: int, back: int) -> int {
    read_number(unpadded(row.subrange(front, row.len() - back)))
}

/// A field between a label and what follows it reads as the number in it.
proof fn lemma_read_field(label: Seq<char>, numeral: Seq<char>, width: nat, tail: Seq<char>)
    requires
        numeral.len() > 0,
        numeral[0] != ' ',
    ensures
        read_field(label + right(numeral, width) + tail, label.len() as int, tail.len() as int)
            == read_number(numeral),
{
    let field = right(numeral, width);
    let row = label + field + tail;
    assert(row.subrange(label.len() as int, row.len() - tail.len()) == field);
    if numeral.len() < width {
        lemma_unpadded((width - numeral.len()) as nat, numeral);
    }
}

/// The same for a number without a sign.
proof fn lemma_read_count(label: Seq<char>, n: nat, width: nat, tail: Seq<char>)
    ensures
        read_field(
            label + right(decimal(n), width) + tail,
            label.len() as int,
            tail.len() as int,
        ) == n,
{
    law_signed_numerals(n as int);
    lemma_read_field(label, decimal(n), width, tail);
}

// ---------------------------------------------------------------------------
// Rows
// ---------------------------------------------------------------------------

/// Every data rate has its spreading factor: one step down from 12 for each, 8
/// for data rate 6, and none below zero.
pub proof fn law_spreading_factor_of_every_rate(dr: nat)
    ensures
        dr == 6 ==> spreading_factor_of(dr) == 8,
        dr != 6 && dr <= 12 ==> spreading_factor_of(dr) + dr == 12,
        dr > 12 ==> spreading_factor_of(dr) == 0,
{
}

/// Whether a title row shows the board `name` and, while joined, the packet
/// count in four places, and otherwise the join attempt in two.
pub open spec fn shows_title(
    row: Seq<char>,
    name: Seq<char>,
    tx_count: nat,
    is_joined: bool,
    join_attempt: nat,
) -> bool {
    &&& is_joined ==> row == name + "     Tx:"@ + right(decimal(tx_count), 4) + "  "@
    &&& !is_joined ==> row == name + "   Join:"@ + right(decimal(join_attempt), 2) + "    "@
}

/// Whether the rows are the picture of a range probe with these values.
pub open spec fn shows_probe(
    rows: Seq<Seq<char>>,
    tx_count: nat,
    is_joined: bool,
    join_attempt: nat,
    snr: int,
    rssi: int,
    dr: nat,
) -> bool {
    let sf: nat = if dr == 6 {
        8
    } else if dr <= 12 {
        (12 - dr) as nat
    } else {
        0
    };
    &&& rows.len() == 5
    &&& shows_title(rows[0], "LoRa-2"@, tx_count, is_joined, join_attempt)
    &&& is_joined ==> {
        &&& rows[1] == "RSSI: "@ + right(signed(rssi), 4) + " dBm"@ + spaces(7)
        &&& rows[2] == "SNR:  "@ + right(plus_signed(snr), 4) + " dB"@ + spaces(8)
        &&& rows[3] == "DR"@ + decimal(dr) + " SF"@ + decimal(sf) + spaces(14)
        &&& rows[4] == "Connected"@ + spaces(11)
    }
    &&& !is_joined ==> {
        &&& rows[1] == spaces(20)
        &&& rows[2] == spaces(20)
        &&& rows[3] == spaces(20)
        &&& rows[4] == "Connecting..."@ + spaces(7)
    }
}

/// Whether the rows are the picture of a sensor node with these values.
pub open spec fn shows_sensor(
    rows: Seq<Seq<char>>,
    temp_int: int,
    hum_int: int,
    tx_count: nat,
    is_joined: bool,
    join_attempt: nat,
    snr: int,
    rssi: int,
    dr: nat,
) -> bool {
    let sf: nat = if dr == 6 {
        8
    } else if dr <= 12 {
        (12 - dr) as nat
    } else {
        0
    };
    let plus = if snr >= 0 {
        "+"@
    } else {
        ""@
    };
    &&& rows.len() == 5
    &&& shows_title(rows[0], "LoRa-1"@, tx_count, is_joined, join_attempt)
    &&& rows[1] == "Temp: "@ + right(signed(temp_int), 3) + " C"@ + spaces(10)
    &&& rows[2] == "Hum:  "@ + right(signed(hum_int), 3) + " %"@ + spaces(10)
    &&& is_joined ==> {
        &&& rows[3] == "RSSI:"@ + right(signed(rssi), 4) + " SNR:"@ + plus + right(signed(snr), 3)
            + "  "@
        &&& rows[4] == "DR"@ + decimal(dr) + " SF"@ + decimal(sf) + spaces(12)
    }
    &&& !is_joined ==> {
        &&& rows[3] == spaces(20)
        &&& rows[4] == "Connecting..."@ + spaces(7)
    }
}

/// The rows for given values are the picture with those values: each value in
/// its own row, behind its own label.
pub proof fn law_rows_for_given_values(
    temp_int: int,
    hum_int: int,
    tx_count: nat,
    is_joined: bool,
    join_attempt: nat,
    snr: int,
    rssi: int,
    dr: nat,
)
    ensures
        shows_probe(
            probe_rows(tx_count, is_joined, join_attempt, snr, rssi, dr),
            tx_count,
            is_joined,
            join_attempt,
            snr,
            rssi,
            dr,
        ),
        shows_sensor(
            sensor_rows(temp_int, hum_int, tx_count, is_joined, join_attempt, snr, rssi, dr),
            temp_int,
            hum_int,
            tx_count,
            is_joined,
            join_attempt,
            snr,
            rssi,
            dr,
        ),
{
}

/// What a node shows is the picture of its own board with its own values: signal
/// strength as signal strength, and so on.
pub proof fn law_node_shows_its_state(s: NodeState)
    ensures
        s.board is Lora2 ==> shows_probe(
            s.rows(),
            s.link.tx_count,
            s.link.joined,
            s.link.join_attempt,
            s.link.report.snr as int,
            s.link.report.rssi as int,
            s.link.report.dr as nat,
        ),
        s.board is Lora1 ==> shows_sensor(
            s.rows(),
            s.temp_int,
            s.hum_int,
            s.link.tx_count,
            s.link.joined,
            s.link.join_attempt,
            s.link.report.snr as int,
            s.link.report.rssi as int,
            s.link.report.dr as nat,
        ),
{
}

/// The numbers on the display read back as the node's: the packet count or the
/// join attempt in the title, temperature and humidity on the sensor node, and
/// on the range probe signal strength and signal-to-noise ratio while joined.
pub proof fn law_display_reads_back(s: NodeState)
    ensures
        s.link.joined ==> read_field(s.rows()[0], 14, 2) == s.link.tx_count,
        !s.link.joined ==> read_field(s.rows()[0], 14, 4) == s.link.join_attempt,
        s.board is Lora1 ==> read_field(s.rows()[1], 6, 12) == s.temp_int,
        s.board is Lora1 ==> read_field(s.rows()[2], 6, 12) == s.hum_int,
        s.board is Lora2 && s.link.joined ==> read_field(s.rows()[1], 6, 11) == s.link.report.rssi,
        s.board is Lora2 && s.link.joined ==> read_field(s.rows()[2], 6, 11) == s.link.report.snr,
{
    lemma_title_reads_back(s);
    match s.board {
        Board::Lora1 => lemma_sensor_reads_back(s),
        Board::Lora2 => lemma_probe_reads_back(s),
    }
}

proof fn lemma_title_reads_back(s: NodeState)
    ensures
        s.link.joined ==> read_field(s.rows()[0], 14, 2) == s.link.tx_count,
        !s.link.joined ==> read_field(s.rows()[0], 14, 4) == s.link.join_attempt,
{
    reveal_strlit("LoRa-1");
    reveal_strlit("LoRa-2");
    reveal_strlit("     Tx:");
    reveal_strlit("   Join:");
    reveal_strlit("  ");
    reveal_strlit("    ");
    let name = match s.board {
        Board::Lora1 => "LoRa-1"@,
        Board::Lora2 => "LoRa-2"@,
    };
    law_node_shows_its_state(s);
    if s.link.joined {
        lemma_read_count(name + "     Tx:"@, s.link.tx_count, 4, "  "@);
    } else {
        lemma_read_count(name + "   Join:"@, s.link.join_attempt, 2, "    "@);
    }
}

proof fn lemma_sensor_reads_back(s: NodeState)
    requires
        s.board is Lora1,
    ensures
        read_field(s.rows()[1], 6, 12) == s.temp_int,
        read_field(s.rows()[2], 6, 12) == s.hum_int,
{
    reveal_strlit("Temp: ");
    reveal_strlit("Hum:  ");
    reveal_strlit(" C");
    reveal_strlit(" %");
    let temp = signed(s.temp_int);
    let hum = signed(s.hum_int);
    law_signed_numerals(s.temp_int);
    law_signed_numerals(s.hum_int);
    lemma_read_field("Temp: "@, temp, 3, " C"@ + spaces(10));
    lemma_read_field("Hum:  "@, hum, 3, " %"@ + spaces(10));
    assert(s.rows()[1] == "Temp: "@ + right(temp, 3) + (" C"@ + spaces(10)));
    assert(s.rows()[2] == "Hum:  "@ + right(hum, 3) + (" %"@ + spaces(10)));
}

proof fn lemma_probe_reads_back(s: NodeState)
    requires
        s.board is Lora2,
    ensures
        s.link.joined ==> read_field(s.rows()[1], 6, 11) == s.link.report.rssi,
        s.link.joined ==> read_field(s.rows()[2], 6, 11) == s.link.report.snr,
{
    reveal_strlit("RSSI: ");
    reveal_strlit("SNR:  ");
    reveal_strlit(" dBm");
    reveal_strlit(" dB");
    let rssi = signed(s.link.report.rssi as int);
    let snr = plus_signed(s.link.report.snr as int);
    law_signed_numerals(s.link.report.rssi as int);
    law_signed_numerals(s.link.report.snr as int);
    lemma_read_field("RSSI: "@, rssi, 4, " dBm"@ + spaces(7));
    lemma_read_field("SNR:  "@, snr, 4, " dB"@ + spaces(8));
    if s.link.joined {
        assert(s.rows()[1] == "RSSI: "@ + right(rssi, 4) + (" dBm"@ + spaces(7)));
        assert(s.rows()[2] == "SNR:  "@ + right(snr, 4) + (" dB"@ + spaces(8)));
    }
}

/// Two states of a board look different in the row of any value that differs.
pub proof fn law_pictures_tell_states_apart(s: NodeState, t: NodeState)
    requires
        s.board == t.board,
        s.link.joined == t.link.joined,
    ensures
        s.link.joined && s.link.tx_count != t.link.tx_count ==> s.rows()[0] != t.rows()[0],
        !s.link.joined && s.link.join_attempt != t.link.join_attempt ==> s.rows()[0] != t.rows()[0],
        s.board is Lora1 && s.temp_int != t.temp_int ==> s.rows()[1] != t.rows()[1],
        s.board is Lora1 && s.hum_int != t.hum_int ==> s.rows()[2] != t.rows()[2],
        s.board is Lora2 && s.link.joined && s.link.report.rssi != t.link.report.rssi
            ==> s.rows()[1] != t.rows()[1],
        s.board is Lora2 && s.link.joined && s.link.report.snr != t.link.report.snr
            ==> s.rows()[2] != t.rows()[2],
{
    law_display_reads_back(s);
    law_display_reads_back(t);
}

} // verus!
