# pong

A Pong game against a computer opponent, first to 5 points wins.

- `src/` is the verified library: the match rules (`rules`), the end screen
  (`end_screen`), the decisions on the court (`court`), the opponent's
  reaction timer (`clock`), the scoreboard text (`scoreboard`) and the random
  draws (`random`).
- `app/` is the Bevy game around it: entities, rendering, input and the
  floating-point physics, which hand their measurements to the library and
  apply its decisions.
- `tests/` runs the library on concrete values.
