# UnaOS kernel decisions, verified

The UnaOS kernel binary drives hardware; the choices it makes along the way are
functions of plain values, and those live in `src/` with Verus contracts:

- `keys`, `wake`, `route`, `forward`, `fold`, `frame`, `click`: what the input
  and render services do with each event (line editing, serial wake tokens,
  focus routing, the x86 forwarding policy that never loses or reorders a
  keystroke, pointer coalescing, per-pass render plans, click dispatch).
- `gate`, `rollup`, `verdicts`: witness throttles, the pointer debug rollup and
  the boot self-check verdicts.
- `rehome`: re-homing the render role off a dead core.
- `tegra`, `seams`, `bootlog`, `placement`, `geometry`, `sat`: register-field
  decoding, build-configured boot rungs, core placement and panel arithmetic.

`app/` is the kernel itself (entry points, drivers, the service loops), which
hands the library plain values and acts on its answers. `tests/` exercises the
library on concrete values.
