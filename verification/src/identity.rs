//! Who a board is on the network.
use vstd::prelude::*;

use crate::link::Board;

verus! {

/// Device EUI of a board as it is written, most significant byte first.
pub open spec fn written_dev_eui(board: Board) -> Seq<u8> {
    match board {
        Board::Lora1 => seq![0x23u8, 0xce, 0x1b, 0xfe, 0xff, 0x09, 0x1f, 0xac],
        Board::Lora2 => seq![0x24u8, 0xce, 0x1b, 0xfe, 0xff, 0x09, 0x1f, 0xac],
    }
}

/// Application EUI as it is written, most significant byte first.
pub open spec fn written_app_eui() -> Seq<u8> {
    seq![0xb1u8, 0x30, 0xa8, 0x64, 0xc5, 0x29, 0x53, 0x56]
}

/// Device EUI of a board as it goes over the air, least significant byte first.
pub fn dev_eui(board: Board) -> (eui: [u8; 8])
    ensures
        eui@ == written_dev_eui(board).reverse(),
{
    match board {
        Board::Lora1 => [0xAC, 0x1F, 0x09, 0xFF, 0xFE, 0x1B, 0xCE, 0x23],
        Board::Lora2 => [0xAC, 0x1F, 0x09, 0xFF, 0xFE, 0x1B, 0xCE, 0x24],
    }
}

/// Application EUI as it goes over the air, least significant byte first.
pub fn app_eui() -> (eui: [u8; 8])
    ensures
        eui@ == written_app_eui().reverse(),
{
    [0x56, 0x53, 0x29, 0xC5, 0x64, 0xA8, 0x30, 0xB1]
}

} // verus!
