# sddc

Driver for RX888-family software-defined radios, with its rules verified in
Verus.

The library (`src/`) decides everything: which device on the bus is a radio and
which one waits for firmware, what each setting does to the radio and which
register writes it takes, how often a refused write is tried again and what is
left when it is given up, what a stream does about each transfer, and what each
function of the C interface returns. It performs no I/O. An operation comes back
as a `Task` whose transfers the caller makes and reports; discovery and the
reader of a stream work the same way, as machines from events to actions.

| module      | holds                                                            |
|-------------|------------------------------------------------------------------|
| `interface` | models, registers, and the constants of a board and its firmware |
| `gain`      | gain tables per model and sampling mode                          |
| `error`     | errors and what they say                                         |
| `usb`       | devices on the bus, control transfers, the retry rule            |
| `discovery` | finding radios, bringing up those that wait for firmware         |
| `task`      | planned register writes and how far they have come               |
| `sdr`       | the radio                                                        |
| `run`       | laws about whole operations on a device that may refuse writes   |
| `stream`    | the reader: decoding, de-randomizing, giving a stream up         |
| `lanes`     | what is believed of the eight-lane vectors of the `wide` crate   |
| `sddc`      | the C interface: handles, output arguments, error codes          |
| `text`      | decimal numbers in messages                                      |

`app/` is the driver around it: USB through `nusb`, the reader thread, and the
exported C functions. The register numbers, USB identities, gain tables and
firmware image of a board are installed by the program that uses the driver
(`board::install`).
