# assassin

The core of a Motorola 6809 assembler, written in Verus with its behaviour
stated in contracts and proved.

- `src/parser.rs` splits a source line into tokens (names, numbers in
  decimal, `$`hex, `@`binary and `'c'` form, strings, symbols, comments).
- `src/recogniser.rs` recognises a line of tokens as an instruction, a data
  or origin directive, or nothing, and binds the label that starts the line.
- `src/namelist.rs` maps labels to addresses.
- `src/generation.rs` encodes instructions as machine-code bytes.
- `src/representation.rs` holds the instruction and operand types.
- `app/` is the program around the library: it reads a source file and
  prints what each line is recognised as.
