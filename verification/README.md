# simulator

A simulator for firmware written for the STM32F303x8 microcontroller.  The
firmware runs as an ordinary Linux process; every access it makes to a
peripheral traps, is forwarded over a pipe to the simulator process, and is
answered from a model of the peripheral.

The library (`src/`) is verified with Verus:

- `ipc_protocol`, `protocol`, `parent`: the 32-byte requests and 16-byte
  responses exchanged between the two processes, the start-up handshake,
  the answer to each request, and the firmware side's wait for the answer
  with the matching sequence number.
- `regions`: the peripheral blocks (flash interface, RCC, GPIO ports, USART,
  bxCAN controller with its mailboxes and acceptance filters, NVIC, SCB,
  basic timer, the emulator control block), each with what a read returns
  and what a write changes, and the read-after-write laws of their
  registers.
- `simulator`: the bus (the first block whose range holds an address
  serves it), the interrupt bookkeeping and the console link's decisions.
- `decode`, `context`, `emulate`: the trapped instruction as the `iced-x86`
  decoder reads it, brought into the library's operand model; the saved
  register file; and what OR, XOR, AND, MOV and TEST do to it.
- `bits`, `hex`, `bump`: bit-level vocabulary, hexadecimal rendering and
  the bump allocator's placement arithmetic.

`app/` holds the processes around it: the simulator's `main` (child
process, pipes, console connection, threads) and the firmware-side hook
(signal handlers, system calls, the pipe to the simulator).
