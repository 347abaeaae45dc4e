# rsezsp

A host driver for Silicon Labs Ember network co-processors (NCPs), written and
verified in Verus. It speaks EZSP, versions 13 to 19, over ASH.

Everything that decides anything is a verified function over plain values:
bytes in, typed values out, no I/O and no clock.

| module | what it holds |
|---|---|
| `ash::frame`, `ash::codec` | ASH frames, CRC, randomisation, stuffing, the incremental decoder |
| `ash::state` | the sliding window: numbering, acknowledgement, retransmission, the reset handshake |
| `ezsp::version` | the negotiated version and the widths that follow from it |
| `ezsp::codec`, `ezsp::frame` | byte-level reading and writing, both header formats |
| `ezsp::command`, `ezsp::callback` | the layouts of commands, responses and callbacks |
| `ezsp::correlation` | which frame answers which command |
| `types` | statuses, addresses, APS headers, keys |
| `transport` | transport errors, port settings, a scripted transport |
| `ncp` | one conversation, as steps that a driver performs |

Each type has a mathematical model, and each function says what it does to the
model. What holds across functions is stated as public proof functions beside
them: that what is encoded decodes, that read boundaries do not matter, that a
delimiter resynchronises, that only its own answer answers a command, and so
on.

`app/` holds the asynchronous driver: serial port, deadlines, logging.
