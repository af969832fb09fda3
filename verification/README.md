# vin_decode

Decoding of vehicle identification numbers (VINs) against the NHTSA vPIC
database, written in Verus: the rules that read a VIN, choose among the
database's candidate decodings and lay out the result are verified against
their contracts; the database itself is reached by a small driver.

## Layout

- `src/` — the verified library.
  - `vin.rs`: descriptor, WMI and model-year code of a VIN.
  - `core_rules.rs`, `ranking.rs`: the rules of one decoding pass (pattern
    keys, the engine pattern to follow, keeping one item per element, makes,
    vehicle-specification patterns, default values).
  - `core_pass.rs`: one decoding pass as a state machine that asks for one
    database query at a time.
  - `decode.rs`: the whole decoding (descriptor year, pass, attribute names,
    output rows), again as a state machine.
  - `element_attribute.rs`: which table names the attributes of an element.
  - `laws.rs`: properties that span several functions.
  - `text.rs`, `patterns.rs`, `clock.rs`: strings, regular expressions and
    the clock, with the contracts assumed of the standard library, `regex`,
    `itertools` and `chrono`.
- `tests/` — tests of the library on concrete values.
- `app/` — the command-line program and HTTP handlers: they run the queries
  that the state machines ask for with `sqlx` and write CSV or JSON.
