# deepclone

Deep clone that copies shared data once: two references to one `Rc` in the source become two
references to one *new* `Rc` in the copy, and the copy shares nothing with the source.

- `src/` is the verified library: the forwarding table of one clone operation (`memo`), with
  what each strong or weak edge must do when it is reached; the report for a cycle of strong
  edges (`cycle`); the rules of `#[derive(DeepClone)]`'s attributes (`attrs`); and the token
  that seals the trait-object hook (`sealed`).
- `app/` is the ordinary Rust around it: the `DeepClone` trait and its impls for the standard
  library, the `Rc`/`Arc` plumbing that stores type-erased copies in the table, the
  trait-object clone, and the derive's syntax-tree walk.
- `tests/` exercises the library.
