# epub-stream-render

Rendering support for the `epub-stream` reader stack, with its logic
specified and proved in Verus.

## Layout

- `src/` — the verified library.
  - `page_map`: chapter-level page map of a rendered book; href, TOC,
    locator and reading-position resolution.
  - `toc`: flattening the table of contents and resolving its targets.
  - `line_breaking`: least-badness paragraph line breaking.
  - `layout`: line placement and justification, inline image blocks.
  - `page_layers`: layered command streams and their legacy merged form.
  - `render_ir`, `persisted`: render IR types and their persisted forms;
    the chrome markers a layout adds to its pages.
  - `engine`: page ranges, pagination profile ids, cache paths, write caps,
    anchor lookup in chapter markup, and the chapter run's own decisions
    (cancellation, the in-memory page limit, empty ranges).
  - `graphics`, `fonts`: image registry, bitmaps, page chrome geometry,
    renderer capabilities, monospace and TrueType font selection and
    metrics.
  - `hyphenation`, `text`, `paths`: text and path helpers.
  - `preview`, `preview_args`, `preview_settings`, `preview_page`, `http`:
    the web preview's keywords, payload pieces, command line, settings,
    page template and HTTP request/response heads.
  - `visualize`: the snapshot tool's command line, bitmap and file names.
  - `profile`: heap-profile phases and file names.
- `tests/` — tests of the library.
- `app/` — the runtime shell: I/O, serde forms, the embedded-graphics
  renderer, the preview payload assembled from a book source, and the parts
  that compute with floating-point values.

## Not in this crate

The chapter engine (`RenderEngine` and its `prepare_chapter*` entry points,
its streaming `LayoutSession`, `OverlayComposer`) and the layout engine's
event handling and word placement (`LayoutEngine`, its `LayoutSession`,
`push_word_direct`, `EgTextMeasurer`) are not here: they consume the book's
styled events through `epub-stream`/`mu-epub` types, which this crate does
not build, and word placement turns on floating-point width overflow.

What is here of them:
- `src/layout`: where a finished line goes (page breaks, short-line moves,
  baseline, next cursor), whether and how much it is justified, and where
  an inline image block goes and what it draws; `app/layout` measures text
  and carries out these plans.
- `src/engine`: a chapter run's cancellation, empty ranges, range
  selection, in-memory page limit and diagnostics; `app/chapter_run`
  collects a run's pages through them.
- `src/line_breaking`, `src/hyphenation`, `src/render_ir`
  (chrome markers), `src/page_map`: paragraph breaking, hyphenation points,
  chrome markers and page-map resolution.
