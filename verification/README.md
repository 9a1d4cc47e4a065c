# lora_node

Verified decision logic of two LoRaWAN field nodes on the NUCLEO-WL55JC1 board:

- **LoRa-1**, a temperature and humidity sensor node. It sends every 15 ticks of
  two seconds and asks for an acknowledgement once in five uplinks.
- **LoRa-2**, a range probe. It sends its packet counter every 5 ticks and asks
  for an acknowledgement every time.

`src/` is the library, verified with Verus:

| module     | holds                                                                     |
|------------|---------------------------------------------------------------------------|
| `link`     | join and rejoin: backoff, uplink cadence, detection of a lost gateway     |
| `node`     | the program of a node: which action follows which event                   |
| `sensor`   | decoding of SHT41 frames                                                  |
| `payload`  | bytes of an uplink                                                        |
| `screen`   | the five rows of the display                                              |
| `text`     | decimal numerals, padding, and the `heapless` string that holds a row     |
| `identity` | device and application EUIs                                               |
| `laws`     | what holds across calls                                                   |

What is believed without proof is the behaviour of four functions of
`heapless::String`, stated at the top of `text`.

`app/` is the firmware around the library: clocks, radio, I2C bus, display, LED
and timers. `PROGRAM` in `app/main.rs` selects the board. `Cargo.toml` builds the
executor for the host; on the board it takes the `arch-cortex-m` feature in place
of `arch-std`, and `cortex-m` its `critical-section-single-core` feature. Log
lines are written on the board only.

A node never waits longer than a minute between two join attempts, because field
tests power-cycle the boards often. Only a confirmed uplink says anything about
the gateway, so only those count towards losing it.
