# tamagotchi

A small animated pet for a terminal's plugin dock, as a verified library and
a thin plugin process around it.

The pet idles, blinks, hops and naps when left alone; its food and joy gauges
drift over time; a terminal bell startles it, a focus change cheers it up and
a click on its card pets and feeds it. On a host that can draw it is a pixel
creature with segmented gauges; on an older host a text face with two bars.
A frame is sent only when the picture changed.

## Layout

- `src/mood.rs` — the moods, their ranks, title words and text faces.
- `src/pet.rs` — the pet's state and its transitions (tick, bell, focus,
  click), the generator, the mood rules, the gauges, the vertical offset and
  the frame signature.
- `src/scene.rs` — the drawing as a list of primitives and its JSON rendering.
- `src/widget.rs` — the two widget updates (text card and drawn canvas).
- `src/text.rs` — JSON string escaping and number formatting.
- `src/handshake.rs` — reading the host's api version from its `hello` line.
- `src/events.rs` — what the plugin does with a host line or a timer tick.
- `src/laws.rs` — properties that span several operations.
- `app/main.rs` — the process: clock, threads, stdin and stdout.

Offsets and drawing coordinates are fixed-point numbers in ten-thousandths of
the canvas, written with four decimals.
