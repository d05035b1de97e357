# mew

A fast, zero-daemon terminal companion and git workspace dashboard: on
every `cd` it prints a small framed card with a cat whose mood follows the
repository (conflicts, changes, staged work, unpushed commits), the
workspace path, git status, environment, clock and day progress; `--full`
adds system health, the active context and project telemetry.

## Layout

- `src/` is the card's core, written and proved with Verus.
  - `text.rs`: the column model of ANSI-coloured text (`width`, `closed`),
    `visible_width`, `pad_to_visible`, `truncate_visible`, splitting,
    trimming, decimal numbers.
  - `theme.rs`: themes and the palette resolved from them, labels,
    palette swatches, `#rrggbb` colours.
  - `git.rs`: the repository snapshot, the mascot's mood, the remote line
    and the git pill.
  - `env.rs`: the workspace path and environment values.
  - `widgets.rs`: painting a text in per-character colours, and the
    gauges.
  - `frame.rs`: borders, section dividers and framed rows.
  - `render.rs`, `dashboard.rs`: the compact and the full card, and
    `render_compact_framed` / `render_full_framed`, which check the
    lowercased texts a card shows before drawing it with its frame
    guaranteed.
  - `system.rs`, `telemetry.rs`: the readings the full card shows.
  - `laws.rs`: the properties the cards keep, proved: when the palette
    only styles and every text a card shows (lowercased where the card
    lowercases it) holds no escape and no line break, every line of the
    compact card is 72 columns wide and every line of the full card 79;
    the cells of the git, context and telemetry rows stand whole in their
    lines when their values fit their slots; truncation, padding, painted
    text, gauges and the mascot keep their widths; the telemetry grid adds
    up to the inner width.
- `app/` is the program around it: the command line, the readers of the
  repository, clock, host and project, colour detection, and the float
  arithmetic that turns percentages into gauge cells and interpolates the
  clock gradient's colours.
- `tests/` exercises the library on concrete cards.
