# btop_beautifier

A load generator that drives CPU, memory and loopback network traffic in
sine-shaped patterns so that system monitors such as btop draw smooth waves.

- `src/` is the verified library (Verus): the busy-spin kernel and tick
  timing (`cpu`), page-touch shaping of resident memory (`memory`), the
  sender's per-tick byte budget and the receiver's decisions (`net`), the
  control loop's stop / re-roll / status decisions (`control`), parsing of
  durations and byte sizes (`cli`), the per-channel sine counts
  (`pattern`) and clock readings (`clock`).
- `app/` is the program around it: command-line handling, threads, sockets,
  `madvise`, signal handling, and the floating-point sine and token-bucket
  arithmetic.
- `tests/` exercises the library on concrete values.
