# thematic

A bidirectional converter between VSCode and Zed color and icon themes,
written in Verus: the conversions, the grouping of themes into families, the
icon bookkeeping and the manifest handling are verified against their
contracts; reading and writing files, searching the editors' extension
directories and the command line are ordinary Rust.

Paths are joined and split by the platform's rules, so where a contract
speaks of a path (the file an icon is copied from, the directory a theme was
read from) it states what holds on every platform: a joined path is the
base, a separator where one is needed (`/` or `\`), then the rest; and for
paths of plain components joined by `/`, their parent, file name and
extension.

## Layout

- `src/` — the verified library.
  - `convert/` — VSCode ⇄ Zed color theme and icon theme conversions, and
    the properties that span both directions (`laws.rs`, `icon_laws.rs`).
  - `editors/vscode/`, `editors/zed/` — the theme, icon theme, manifest and
    extension types of each editor, and how extensions are assembled.
  - `grouping.rs` — grouping theme names into families, and naming them.
  - `icon_files/` — tracking icon files and where they are copied to.
  - `strmap.rs` — a string-keyed map that keeps insertion order.
  - `text.rs`, `order.rs`, `slugs.rs`, `paths.rs` — strings, their order,
    slugs and paths.
  - `themes/` — VSCode extensions kept as a directory of
    `<name>-color-theme.json` files, and theme file paths.
  - `cli.rs` — the choices the command line makes.
- `tests/` — tests of the library.
- `app/` — the `thematic` command: file formats (serde), disk access,
  searching, and the command line.

## Usage

```text
thematic vz catppuccin     # VSCode extension -> Zed extension
thematic zv rose-pine      # Zed extension -> VSCode extension
thematic zed rose          # list Zed extensions matching "rose"
thematic vsc blu           # list VSCode extensions matching "blu"
```

Options: `-q` (quiet), `-v` (verbose), `--dry-run`.
