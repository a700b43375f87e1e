# rtic-code-skeleton

One RTIC application body shared by three STM32F4 chip families (F401, F405,
F411) and by the systems built on them, with the decisions behind it proved
in Verus.

## Layout

```
src/                      the verified library
├── catalog/              chip families, exact parts, boards and systems, with
│                         the properties every registered entry keeps
├── reducer/              chip reduction of the application body (the logic of
│                         the `for_chip` attribute) over a plain model of its
│                         syntax, and the lenient reduction by enabled Cargo
│                         features used by the text-composed fixtures
├── firmware/             build selection (chip, system, linked part, memory
│                         layout), clock plan, default serial routing, per-port
│                         serial settings, boot plan, output polarity, and what
│                         each interrupt handler does with its resources
├── roles/                timer roles (motor PWM, beeper, RC capture) bound to
│                         interrupt vectors
├── skeleton/             the type-alias application skeleton that binds roles
│                         to TIM2/TIM3 per board configuration
└── text.rs               string comparison and decimal rendering
tests/                    tests of the library on concrete values
app/                      the firmware around the library: RTIC application,
                          HAL conversions, board wiring, the token-level side
                          of `for_chip`, and the build script's work
```

Everything that decides lives in `src/` with a contract; `app/` reads and
writes syntax, files, environment variables and hardware registers, and hands
the library plain values.

## Checking

The library verifies with Verus (`verus --crate-type lib src/lib.rs` with the
outside crates of `Cargo.toml` on the path); `cargo test` runs `tests/`.
