# llamavision

A live audio spectrogram: captured audio goes from the capture thread to the
FFT thread through a ping-pong double buffer, spectrum rows go on to the
display thread.

- `src/` is the verified library:
  - `state` — the buffer's atomic state word (writer's slot bit, ready bit);
  - `protocol` — the writer's and reader's decisions on an observed word, and
    the laws of that word-level protocol: a word and two slots behave as a
    one-place mailbox, a read returns the last write, the two sides never
    decide on the same slot at once, words reached from zero use two bits;
  - `pingpong` — the shared buffer, its writing and reading ends. Its
    contracts fix the word each attempt saw and the slot and stored word the
    protocol decides on it; that the code then locks that slot and stores
    that word is not stated. What the atomic and the slot locks hold over
    time is beyond what Verus can state of std's atomics, so the laws above
    are proved of the protocol, not of the running buffer;
  - `audio` — S16LE samples cut out of a captured buffer;
  - `window` — the half-overlapping analysis window;
  - `history` — the display's newest-first row history;
  - `display` — painting a row of pixels into an RGB24 texture;
  - `cli` — log verbosity from the `-v` count.
- `app/` is the program: argument parsing, threads, PipeWire capture, the
  floating-point FFT and colouring, the SDL window, and the blocking loops
  around the buffer's single attempts, which sleep on its state word.
