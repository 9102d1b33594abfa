# magic_modbus

A terminal client for Modbus TCP and RTU devices, built around a verified core.

* `src/` is the library, verified with Verus:
  * `enums` – the value types of the interface state (tabs, modes, cell contents, log lines);
  * `event` – key presses in, effects out;
  * `input` – the popup text fields and the reading of typed numbers;
  * `app` – the interface state machine (`App::on_key` and the handlers for link
    and log events), specified by `AppView::key_step`, with the proof that every
    key keeps the state well-formed;
  * `queue` – queued writes, the Modbus requests they become, and the stable
    ordering of the queue tab;
  * `layout` – table geometry and the page reads;
  * `table` – the cell tables of the four top tabs: contents read, contents
    queued, and the cursor with its page;
  * `link` – what the Modbus link does with the device's answers: updates from
    reads, the order and stopping of a batch of writes, what a failure reports,
    and which link opens at start-up;
  * `logtext` – the lines the link writes to the log;
  * `clock` – time stamps of log lines;
  * `laws` – properties that span several operations.
* `app/` is the program: command line, terminal events and drawing, and the
  Modbus requests over TCP or a serial port. It hands key presses and link
  events to the library and carries out the effects it returns.
* `tests/` exercises the library on concrete values.
