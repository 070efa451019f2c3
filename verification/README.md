# snake_ai

A snake game on a 20 x 20 board, played by a population of small neural
controllers that evolve from one generation to the next.

- `src/` is the verified library: the board and its free cells (`grid`), the
  snake's movement (`snake`), the apple (`apple`), the rules of a round
  (`game`), the yes-or-no senses the controller reads (`senses`) and the choice
  of parents for the next generation (`evolution`). Random draws go through
  `random`, which calls the `rand` crate.
- `app/` is the program around it: the window and drawing (piston), the neural
  network and the fitness (floating point), and the training loop.
- `tests/` exercises the library.
