# SkyRizz E32 board support, verified

Pin map and HAL-agnostic self-test harness for the SkyRizz E32 board
(ESP32-S3-WROOM-1-N16R8 with an SE050 secure element), written in Verus.

- `src/board.rs`: the pin map (native GPIOs, XL9535 expander nets, header
  groups) and proofs that it is consistent: every routed net has its own
  GPIO in GPIO0..GPIO48, the unrouted pads are free, the expander nets are
  distinct except the documented SW3 / `IO 3.P7` share, and all devices on
  the shared I2C bus use GPIO47 / GPIO48.
- `src/self_test.rs`: the self-test run. Firmware supplies a `Platform`
  (board operations) and a `Reporter` (progress and operator dialogue).
  Both traits carry a ghost record (`Platform::calls`, `Reporter::events`)
  to which each method appends what it was asked and what it answered; an
  implementation outside Verus defines these with a body that is never
  reached. The contracts state, over these records, that a run notes its
  start and then performs the planned cases one after the other: each case
  makes exactly its scripted board requests (stopping at the first error),
  gives the reporter exactly its notes, run-time notes and questions for
  each outcome of those requests, in order, is skipped exactly when the
  options disable it, and records the verdict that the board's and
  operator's answers give. The two records are separate, so where a
  question falls among the board requests is not stated. Laws cover the whole run:
  it fails nothing exactly when every performed case passed, it always
  starts with the five required I2C probes, and a lower microphone
  threshold never turns a pass into a failure; the operator's answer never
  decides a switch or button case.
- `src/transcript.rs`: the vocabulary of those records (requests, replies,
  report events, scripts).
- `src/text.rs`: the text of the run-time notes (decimal numbers, booleans,
  measured values), proved equal to its specification.
- `tests/`: scenario tests with mock boards and operators.
