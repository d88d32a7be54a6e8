# tfc

The core of the TFC industrial control framework, verified with Verus.

`src/` is the library, and Verus verifies all of it: the public functions
state their results in their contracts, and the laws of the library stand as
proof functions. It holds:

- `ipc`: value types on the wire, packet framing and reading (with the
  round-trip law), endpoint naming, the slot's receive decision, and the
  OPC UA naming and type mapping.
- `ipc_ruler`: the registry of signals, slots and their connections.
- `operations`: the operation-mode state machine, its effects and the
  decisions of its D-Bus service.
- `ethercat`: CiA 402 control and status words and the drive state machine,
  the Beckhoff and Lenze device logic, device identification and bus checks.
- `median_filter`: a running median over a window kept in a `ringbuf` ring
  buffer.
- `banner`, `button`, `confman`, `filter`, `progbase`, `text`, `time`:
  stack-light colors, button gestures, configuration values, value filters,
  program options, path and string helpers, and typed durations.

`app/` is the program around it: command line, logging, configuration files
and D-Bus, ZeroMQ sockets, the IPC ruler service, the operation-mode service
and its client, the EtherCAT bus driven through ethercrab, and the
floating-point side of the median filter and the inverter's speed setpoint.

Not carried over: the EL3356 load-cell driver (floating-point mass
computation and its D-Bus calibration commands; it runs as an unimplemented
device, while its control and status words, write lists and calibration
steps are in `src/`), the optional D-Bus exposure of signals and slots, and
the OPC UA server, whose crate is not available here.
