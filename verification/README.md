# ptz_rotator

Firmware logic of a remote pan/tilt rotator station: an STM32 board receives
target angles by radio (an EBYTE E220 LoRa module), drives a Pelco-D rotator
over a serial line, switches two power relays and answers with the current
position.

- `src/` is the library, verified with Verus:
  - `pelcod`: Pelco-D commands, checksum, speeds and angles;
  - `relays`: the relay state;
  - `protocols`: command packets received by radio and the answers sent back
    (CRC-8/LTE from the `crc` crate);
  - `answer`: the `heapless` buffer of an answer packet;
  - `ptzdriver`: movement decisions, speeds, rotator commands and replies;
  - `e220`: the radio module's modes, registers, requests and reply checks;
  - `link`: decisions of the byte-by-byte serial receive loops;
  - `text`: unpacking font glyphs into display pixels;
  - `context`: the state shared by the tasks.
- `app/` is the embassy firmware around it: tasks, serial ports, pins and the
  display.
- `tests/` exercise the library on concrete values.
