# nrf70

Verified host-side logic of a driver for the nRF70 Wi-Fi companion chip.

- `src/action.rs`: the state machine through which the control side hands one
  action at a time to the bus runner, the runner's answers, and streamed
  responses. Each function is one step or one poll; contracts are stated over
  `ActionStateView`.
- `src/scan.rs`: the scan command built from scan options, signal strength
  conversion, and the access points read out of a scan report.
- `src/bounded.rs`: the `heapless` vectors and the `embassy-sync` channel that
  hold the driver's data, with the contracts taken from their sources.
- `src/laws.rs`: properties that span several calls.
- `app/`: the async plumbing (wakers, futures, the `Stream` of responses),
  the control side's scan requests over a user-supplied encoding of the chip's
  messages, and the floating-point frequency of an access point.
