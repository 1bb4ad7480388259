# resume_site

A terminal-style resume website rendered in the browser with ratzilla. The
library under `src/` is verified with Verus; `app/` is the program that runs
it in the page.

- `src/text.rs`: whitespace, trimming, joining; the model of text used by the
  contracts.
- `src/resume.rs`: the resume's data model, lists, the download button.
- `src/sections.rs`: the text of each section in the navigation panel.
- `src/markdown.rs`: the resume as Markdown, the source of the generated PDF.
- `src/filename.rs`: the file name of the generated PDF.
- `src/state.rs`: the site's state, how it is loaded, how the selection moves.
- `src/input.rs`: what keys and clicks do, and what the download action asks
  of the page.
- `app/`: loading the content file with toml, drawing with ratatui, browser
  calls, the zoom factor.

The program compiles in the content file `resume.toml`, which it expects
beside `Cargo.toml`; the content is the site owner's and is not part of this
crate, so it has to be put there before `app/` builds.
