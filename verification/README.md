# piscatio

A companion for Terraria that fishes for the player. It lives inside the process of the game:
a worker thread decides, the thread of the game carries out, and an overlay shows and switches.

- `src/` is the library. It holds everything that decides, with contracts that Verus proves: the
  fishing automaton, the presses on the thread of the game, what is read from the game and how
  it is found, the panel with its windows, the atlases of pictures and letters, and the rounds of
  the worker. Where the game or the system has to be asked in between, a function is a machine:
  it is told what came back and says what to do next.
- `app/` is the program around it, for 32-bit Windows: late binding to the managed runtime,
  Direct3D 9, hooks, fonts, files.
- `tests/` holds the tests of the library.

What has a fraction in the game (the state of a bobber, the scale of its interface) is held by its
bits, see `src/single.rs`. Time is a count of nanoseconds of a clock that only goes forward.

The functions named `law_...` in `src/` state what holds of several functions together.
