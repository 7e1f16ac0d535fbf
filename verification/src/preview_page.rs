use vstd::prelude::*;

use crate::text::{chars_of, string_from_chars};

verus! {

const PAGE_PART_00: &'static str = r#"<!doctype html>
<html lang="en">
<head>
  <meta charset="utf-8" />
  <meta name="viewport" content="width=device-width, initial-scale=1" />
  <title>epub-stream interactive preview</title>
  <style>
    :root {
      --bg: #f2efe8;
      --panel: #fdfbf7;
      --panel-alt: #f8f4eb;
      --ink: #252016;
      --muted: #675f50;
      --accent: #226a52;
      --accent-strong: #164b3a;
      --line: #d7cebc;
      --line-strong: #c4b79f;
      --shadow: rgba(28, 21, 9, 0.14);
    }

    * { box-sizing: border-box; }
    body {
      margin: 0;
      min-height: 100vh;
      color: var(--ink);
      background:
        radial-gradient(circle at 18% -24%, #f7dfb9 0%, transparent 44%),
        radial-gradient(circle at 92% -10%, #d9e7dc 0%, transparent 38%),
        var(--bg);
      font-family: "Alegreya Sans", "Source Sans 3", "Segoe UI", sans-serif;
"#;

const PAGE_PART_01: &'static str = r#"    }

    .layout {
      display: grid;
      grid-template-columns: minmax(360px, 420px) minmax(0, 1fr);
      gap: 20px;
      padding: 20px;
      min-height: 100vh;
      align-items: start;
    }

    .panel {
      background: var(--panel);
      border: 1px solid var(--line);
      border-radius: 18px;
      box-shadow: 0 12px 30px var(--shadow);
    }

    .sidebar {
      padding: 16px;
      display: flex;
      flex-direction: column;
      gap: 12px;
      max-height: calc(100vh - 40px);
      overflow: auto;
      position: sticky;
      top: 20px;
    }

    .section-card {
"#;

const PAGE_PART_02: &'static str = r#"      border: 1px solid var(--line);
      border-radius: 12px;
      background: var(--panel-alt);
      padding: 10px;
      display: grid;
      gap: 8px;
    }

    .title {
      margin: 0;
      font-size: 2rem;
      line-height: 1.08;
      letter-spacing: -0.01em;
      font-family: "Alegreya", "Source Serif 4", Georgia, serif;
    }

    .meta {
      color: var(--muted);
      font-size: 0.95rem;
      margin-top: 2px;
    }

    .quick-grid {
      display: grid;
      grid-template-columns: 1fr;
      gap: 8px;
    }

    label {
      display: grid;
"#;

const PAGE_PART_03: &'static str = r#"      gap: 6px;
      font-size: 0.85rem;
      color: var(--muted);
      padding: 8px;
      border: 1px solid var(--line);
      border-radius: 10px;
      background: #fff;
    }

    .label-title {
      font-size: 0.74rem;
      text-transform: uppercase;
      letter-spacing: 0.04em;
      color: #5f5646;
      font-weight: 600;
    }

    .range-row {
      display: flex;
      align-items: center;
      gap: 8px;
    }

    .range-row input[type="range"] {
      flex: 1;
    }

    .range-value {
      min-width: 52px;
      text-align: right;
"#;

const PAGE_PART_04: &'static str = r#"      font-variant-numeric: tabular-nums;
      color: var(--accent-strong);
      font-weight: 600;
      font-size: 0.84rem;
    }

    input, select, textarea, button {
      font: inherit;
      color: var(--ink);
    }

    input, select, textarea {
      border: 1px solid var(--line);
      border-radius: 8px;
      padding: 6px 8px;
      background: #fff;
      width: 100%;
    }

    textarea {
      min-height: 240px;
      resize: vertical;
      font-family: ui-monospace, SFMono-Regular, Menlo, Monaco, Consolas, monospace;
      font-size: 12px;
      line-height: 1.4;
      white-space: pre;
      overflow-wrap: normal;
      overflow-x: auto;
    }

"#;

const PAGE_PART_05: &'static str = r#"    .control-row {
      display: flex;
      align-items: center;
      gap: 8px;
      flex-wrap: wrap;
    }

    .btn {
      border: 1px solid var(--line-strong);
      border-radius: 999px;
      padding: 7px 14px;
      background: #fff;
      cursor: pointer;
      font-size: 0.92rem;
      transition: 120ms ease;
    }

    .btn:hover {
      border-color: var(--accent);
      color: var(--accent);
      transform: translateY(-1px);
    }

    .btn.btn-primary {
      background: var(--accent);
      color: #fff;
      border-color: var(--accent);
    }

    .btn.btn-primary:hover {
"#;

const PAGE_PART_06: &'static str = r#"      background: var(--accent-strong);
      border-color: var(--accent-strong);
      color: #fff;
    }

    .status {
      font-size: 0.87rem;
      color: #1e5f49;
      border: 1px dashed #bddccf;
      border-radius: 8px;
      padding: 7px 8px;
      min-height: 2.2em;
      background: #eef8f3;
    }

    details {
      border: 1px solid var(--line);
      border-radius: 10px;
      padding: 6px 8px;
      background: #fff;
    }

    summary {
      cursor: pointer;
      font-size: 0.92rem;
      color: var(--ink);
      font-weight: 600;
    }

    .toc {
"#;

const PAGE_PART_07: &'static str = r#"      overflow: auto;
      max-height: min(34vh, 360px);
      padding: 4px;
      border: 1px solid var(--line);
      border-radius: 12px;
      background: #fff;
    }

    .toc-item {
      width: 100%;
      text-align: left;
      border: 1px solid transparent;
      background: transparent;
      border-radius: 8px;
      cursor: pointer;
      padding: 6px 8px;
      font-size: 0.9rem;
      color: var(--ink);
    }

    .toc-item:hover {
      border-color: var(--line);
      background: #f8f6ef;
    }

    .toc-item[data-missing="true"] {
      color: #9c7f45;
    }

    .warnings {
"#;

const PAGE_PART_08: &'static str = r#"      font-size: 0.84rem;
      color: #7b2f2f;
      max-height: 140px;
      overflow: auto;
      border: 1px solid #e8c9c9;
      border-radius: 10px;
      padding: 8px;
      background: #fff5f5;
      display: grid;
      gap: 4px;
    }

    .viewer {
      padding: 16px;
      display: grid;
      grid-template-rows: auto minmax(0, 1fr);
      gap: 12px;
    }

    .toolbar {
      display: flex;
      align-items: center;
      justify-content: space-between;
      flex-wrap: wrap;
      gap: 10px;
      border-bottom: 1px solid var(--line);
      padding-bottom: 10px;
    }

    .canvas-wrap {
"#;

const PAGE_PART_09: &'static str = r#"      display: grid;
      place-items: center;
      overflow: auto;
      border: 1px solid var(--line);
      border-radius: 14px;
      background: linear-gradient(180deg, #fefcf8, #f5efe2);
      padding: 20px;
    }

    canvas {
      display: block;
      background: #fff;
      box-shadow: 0 16px 40px var(--shadow);
      max-width: 100%;
      height: auto;
      border-radius: 4px;
    }

    #page-hint {
      color: #6f4f12;
      font-weight: 600;
    }

    @media (max-width: 1200px) {
      .layout {
        grid-template-columns: minmax(320px, 370px) minmax(0, 1fr);
        gap: 14px;
        padding: 14px;
      }
      .sidebar {
"#;

const PAGE_PART_10: &'static str = r#"        max-height: calc(100vh - 28px);
        top: 14px;
      }
    }

    @media (max-width: 1040px) {
      .layout { grid-template-columns: 1fr; }
      .sidebar {
        position: static;
        max-height: none;
      }
      .toc { max-height: 260px; }
      .title { font-size: 1.5rem; }
    }
  </style>
</head>
<body>
  <div class="layout">
    <aside class="panel sidebar">
      <section class="section-card">
        <h1 id="book-title" class="title"></h1>
        <div id="book-meta" class="meta"></div>
      </section>

      <section class="section-card">
        <div class="quick-grid">
          <label><span class="label-title">Chapter</span>
            <select id="quick-chapter"></select>
          </label>
          <label><span class="label-title">Viewport width</span>
"#;

const PAGE_PART_11: &'static str = r#"            <input id="quick-width" type="number" min="64" max="4096" />
          </label>
          <label><span class="label-title">Viewport height</span>
            <input id="quick-height" type="number" min="64" max="4096" />
          </label>
          <label><span class="label-title">Base font size</span>
            <input id="quick-base-font" type="number" min="1" step="0.1" />
          </label>
          <label><span class="label-title">Text scale</span>
            <input id="quick-text-scale" type="number" min="0.25" max="4" step="0.05" />
          </label>
          <label><span class="label-title">Font family override</span>
            <select id="quick-ui-font-family"></select>
          </label>
          <label><span class="label-title">UI font scale</span>
            <div class="range-row">
              <input id="quick-ui-font-scale" type="range" min="0.25" max="4" step="0.05" />
              <output id="quick-ui-font-scale-value" class="range-value">1.00x</output>
            </div>
          </label>
          <label><span class="label-title">Justification</span>
            <select id="quick-justify">
              <option value="true">enabled</option>
              <option value="false">disabled</option>
            </select>
          </label>
          <label><span class="label-title">Justify strategy</span>
            <select id="quick-justify-mode"></select>
          </label>
          <label><span class="label-title">Cover page mode</span>
"#;

const PAGE_PART_12: &'static str = r#"            <select id="quick-cover-mode"></select>
          </label>
        </div>
        <div class="control-row" style="margin-top:8px;">
          <button id="apply-btn" class="btn btn-primary">Apply (Re-render)</button>
          <button id="reset-btn" class="btn">Reset Defaults</button>
        </div>
        <div id="status" class="status"></div>
      </section>

      <section class="section-card">
        <details>
          <summary>Advanced Config JSON (all options)</summary>
          <label style="margin-top:8px;"><span class="label-title">Render config</span>
            <textarea id="config-json"></textarea>
          </label>
          <div class="meta">Any field in this JSON can be changed. Apply will re-render using exactly this payload.</div>
        </details>
      </section>

      <section class="section-card">
        <div class="meta">Table of contents</div>
        <div class="toc" id="toc-list"></div>
      </section>
      <section class="warnings" id="warnings"></section>
    </aside>

    <main class="panel viewer">
      <div class="toolbar">
        <div class="control-row">
"#;

const PAGE_PART_13: &'static str = r#"          <button id="prev-btn" class="btn">Previous</button>
          <button id="next-btn" class="btn">Next</button>
        </div>
        <div class="control-row">
          <div id="page-hint" class="meta"></div>
          <div id="page-label" class="meta"></div>
        </div>
      </div>
      <div class="canvas-wrap">
        <canvas id="page-canvas"></canvas>
      </div>
    </main>
  </div>

  <script>
    const SERVER_MODE = __SERVER_MODE__;
    const INITIAL_PAYLOAD = __INITIAL_PAYLOAD__;

    const state = {
      payload: INITIAL_PAYLOAD,
      pageOffset: 0,
      defaults: JSON.parse(JSON.stringify(INITIAL_PAYLOAD.config || {})),
      imageCache: new Map(),
      styleTag: null,
    };

    const el = {
      title: document.getElementById('book-title'),
      meta: document.getElementById('book-meta'),
      status: document.getElementById('status'),
"#;

const PAGE_PART_14: &'static str = r#"      chapter: document.getElementById('quick-chapter'),
      width: document.getElementById('quick-width'),
      height: document.getElementById('quick-height'),
      baseFont: document.getElementById('quick-base-font'),
      textScale: document.getElementById('quick-text-scale'),
      uiFontFamily: document.getElementById('quick-ui-font-family'),
      uiFontScale: document.getElementById('quick-ui-font-scale'),
      uiFontScaleValue: document.getElementById('quick-ui-font-scale-value'),
      justify: document.getElementById('quick-justify'),
      justifyMode: document.getElementById('quick-justify-mode'),
      coverMode: document.getElementById('quick-cover-mode'),
      apply: document.getElementById('apply-btn'),
      reset: document.getElementById('reset-btn'),
      configJson: document.getElementById('config-json'),
      toc: document.getElementById('toc-list'),
      warnings: document.getElementById('warnings'),
      pageLabel: document.getElementById('page-label'),
      pageHint: document.getElementById('page-hint'),
      prev: document.getElementById('prev-btn'),
      next: document.getElementById('next-btn'),
      canvas: document.getElementById('page-canvas'),
    };
    const ctx = el.canvas.getContext('2d');

    wireEvents();
    hydrateUIFromPayload();
    applyPayload(INITIAL_PAYLOAD, true);

    function wireEvents() {
      el.apply.addEventListener('click', async () => {
"#;

const PAGE_PART_15: &'static str = r#"        const cfg = readConfigFromEditorAndQuick();
        if (!cfg) return;

        if (!SERVER_MODE) {
          state.payload.config = cfg;
          updateConfigEditor(cfg);
          renderCurrentPage();
          setStatus('Static mode: UI-only options applied locally. Run with --serve for full reflow.');
          return;
        }

        await rerenderFromServer(cfg);
      });

      el.reset.addEventListener('click', async () => {
        const cfg = JSON.parse(JSON.stringify(state.defaults));
        updateQuickControls(cfg);
        updateConfigEditor(cfg);
        if (!SERVER_MODE) {
          state.payload.config = cfg;
          renderCurrentPage();
          setStatus('Reset to defaults in static mode.');
          return;
        }
        await rerenderFromServer(cfg);
      });

      el.prev.addEventListener('click', () => {
        const pages = visiblePages();
        if (pages.length === 0) return;
"#;

const PAGE_PART_16: &'static str = r#"        state.pageOffset = Math.max(0, state.pageOffset - 1);
        renderCurrentPage();
      });

      el.next.addEventListener('click', () => {
        const pages = visiblePages();
        if (pages.length === 0) return;
        state.pageOffset = Math.min(pages.length - 1, state.pageOffset + 1);
        renderCurrentPage();
      });

      el.uiFontFamily.addEventListener('change', () => {
        const cfg = state.payload.config || {};
        cfg.ui_font_family = String(el.uiFontFamily.value || 'auto');
        state.payload.config = cfg;
        updateConfigEditor(cfg);
        if (SERVER_MODE) {
          setStatus('Font family updated. Click Apply (Re-render) to re-layout with this family.');
          return;
        }
        renderCurrentPage();
      });
      el.uiFontScale.addEventListener('input', () => {
        const cfg = state.payload.config || {};
        cfg.ui_font_scale = Number(el.uiFontScale.value || 1);
        state.payload.config = cfg;
        updateUiFontScaleValue(cfg.ui_font_scale);
        updateConfigEditor(cfg);
        if (SERVER_MODE) {
          setStatus('UI font scale updated. Click Apply (Re-render) to re-layout at this scale.');
"#;

const PAGE_PART_17: &'static str = r#"          return;
        }
        renderCurrentPage();
      });
    }

    function hydrateUIFromPayload() {
      el.title.textContent = state.payload.meta?.title || 'Untitled EPUB';
      const author = state.payload.meta?.author || 'Unknown author';
      const lang = state.payload.meta?.language || 'unknown language';
      const pageCount = Number(state.payload.meta?.page_count || 0);
      el.meta.textContent = `${author} • ${lang} • ${pageCount} rendered page(s)`;

      const cfg = state.payload.config || {};
      rebuildChapterSelect(cfg.chapter);
      rebuildFontFamilySelect(cfg.ui_font_family);
      rebuildJustifyStrategySelect(cfg.justify_strategy);
      rebuildCoverModeSelect(cfg.object_cover_page_mode);
      updateQuickControls(cfg);
      updateConfigEditor(cfg);
      renderToc();
      renderWarnings();
      setStatus(SERVER_MODE ? 'Ready. Change settings and apply to re-render.' : 'Static mode loaded.');
    }

    function rebuildChapterSelect(selectedChapter) {
      el.chapter.innerHTML = '';
      const all = document.createElement('option');
      all.value = 'all';
      all.textContent = 'All chapters';
"#;

const PAGE_PART_18: &'static str = r#"      el.chapter.appendChild(all);

      for (const chapter of state.payload.chapters || []) {
        const option = document.createElement('option');
        option.value = String(chapter.index);
        const label = String(chapter.title || chapter.href || '').trim();
        option.textContent = `#${chapter.index + 1} ${label || '(untitled chapter)'}`;
        el.chapter.appendChild(option);
      }

      if (Number.isInteger(selectedChapter)) {
        el.chapter.value = String(selectedChapter);
      } else {
        el.chapter.value = 'all';
      }
    }

    function rebuildFontFamilySelect(selectedFamily) {
      const families = new Set(['auto', 'serif', 'sans-serif', 'monospace']);
      for (const f of state.payload.style_families || []) families.add(f);
      for (const face of state.payload.fonts || []) if (face?.family) families.add(face.family);

      el.uiFontFamily.innerHTML = '';
      const ordered = [
        'auto',
        ...Array.from(families)
          .filter((family) => family !== 'auto')
          .sort((a, b) => String(a).localeCompare(String(b))),
      ];
      for (const family of ordered) {
"#;

const PAGE_PART_19: &'static str = r#"        const option = document.createElement('option');
        option.value = family;
        option.textContent = family === 'auto' ? 'Book-resolved (auto)' : family;
        el.uiFontFamily.appendChild(option);
      }

      el.uiFontFamily.value = selectedFamily && families.has(selectedFamily) ? selectedFamily : 'auto';
    }

    function rebuildJustifyStrategySelect(selectedStrategy) {
      const options = (state.payload.option_lists && state.payload.option_lists.justification_strategy) || [
        'adaptive-inter-word',
        'full-inter-word',
        'align-left',
        'align-right',
        'align-center',
      ];
      el.justifyMode.innerHTML = '';
      for (const value of options) {
        const option = document.createElement('option');
        option.value = String(value);
        option.textContent = String(value);
        el.justifyMode.appendChild(option);
      }
      const fallback = 'adaptive-inter-word';
      el.justifyMode.value = options.includes(selectedStrategy) ? selectedStrategy : fallback;
    }

    function rebuildCoverModeSelect(selectedMode) {
      const options = (state.payload.option_lists && state.payload.option_lists.cover_page_mode) || [
"#;

const PAGE_PART_20: &'static str = r#"        'contain',
        'full-bleed',
        'respect-css',
      ];
      el.coverMode.innerHTML = '';
      for (const value of options) {
        const option = document.createElement('option');
        option.value = String(value);
        option.textContent = String(value);
        el.coverMode.appendChild(option);
      }
      const fallback = 'contain';
      el.coverMode.value = options.includes(selectedMode) ? selectedMode : fallback;
    }

    function updateQuickControls(cfg) {
      el.width.value = cfg.display_width;
      el.height.value = cfg.display_height;
      el.baseFont.value = cfg.prep_base_font_size_px;
      el.textScale.value = cfg.prep_text_scale;
      el.justify.value = String(Boolean(cfg.justify_enabled));
      el.justifyMode.value = cfg.justify_strategy || 'adaptive-inter-word';
      el.coverMode.value = cfg.object_cover_page_mode || 'contain';
      el.uiFontScale.value = cfg.ui_font_scale;
      updateUiFontScaleValue(cfg.ui_font_scale);
      if (Number.isInteger(cfg.chapter)) {
        el.chapter.value = String(cfg.chapter);
      } else {
        el.chapter.value = 'all';
      }
"#;

const PAGE_PART_21: &'static str = r#"      if (cfg.ui_font_family) {
        el.uiFontFamily.value = cfg.ui_font_family;
      }
    }

    function updateUiFontScaleValue(value) {
      const numeric = Number(value || 1);
      el.uiFontScaleValue.textContent = `${numeric.toFixed(2)}x`;
    }

    function updateConfigEditor(cfg) {
      el.configJson.value = JSON.stringify(cfg, null, 2);
    }

    function readConfigFromEditorAndQuick() {
      let cfg;
      try {
        cfg = JSON.parse(el.configJson.value);
      } catch (err) {
        setStatus(`Invalid JSON: ${err.message}`);
        return null;
      }

      cfg.display_width = Number(el.width.value || cfg.display_width || 900);
      cfg.display_height = Number(el.height.value || cfg.display_height || 1200);
      cfg.prep_base_font_size_px = Number(el.baseFont.value || cfg.prep_base_font_size_px || 22);
      cfg.prep_text_scale = Number(el.textScale.value || cfg.prep_text_scale || 1);
      cfg.justify_enabled = el.justify.value === 'true';
      cfg.justify_strategy = String(el.justifyMode.value || cfg.justify_strategy || 'adaptive-inter-word');
      cfg.object_cover_page_mode = String(el.coverMode.value || cfg.object_cover_page_mode || 'contain');
"#;

const PAGE_PART_22: &'static str = r#"      cfg.ui_font_scale = Number(el.uiFontScale.value || cfg.ui_font_scale || 1);
      cfg.ui_font_family = String(el.uiFontFamily.value || cfg.ui_font_family || 'auto');
      cfg.chapter = el.chapter.value === 'all' ? null : Number(el.chapter.value);

      updateConfigEditor(cfg);
      return cfg;
    }

    async function rerenderFromServer(cfg) {
      setStatus('Rendering...');
      const anchor = currentPageAnchor();
      const fallback = currentPageFallback();
      try {
        const res = await fetch('/api/render', {
          method: 'POST',
          headers: { 'content-type': 'application/json' },
          body: JSON.stringify(cfg),
        });
        if (!res.ok) {
          const text = await res.text();
          throw new Error(`HTTP ${res.status}: ${text}`);
        }
        const payload = await res.json();
        applyPayload(payload, false, anchor, fallback);
        setStatus(`Rendered ${payload.meta?.page_count || 0} page(s).`);
      } catch (err) {
        setStatus(`Render failed: ${err.message}`);
      }
    }

"#;

const PAGE_PART_23: &'static str = r#"    function applyPayload(payload, isInitial, anchor = null, fallback = null) {
      state.payload = payload;
      hydrateUIFromPayload();
      applyEmbeddedFonts();
      preloadImages().finally(() => {
        restorePageOffset(anchor, fallback);
        renderCurrentPage();
      });
      if (!isInitial) {
        updateConfigEditor(payload.config || {});
      }
    }

    function renderToc() {
      el.toc.innerHTML = '';
      const entries = Array.isArray(state.payload.toc) ? state.payload.toc : [];
      if (entries.length === 0) {
        const note = document.createElement('div');
        note.className = 'meta';
        note.style.padding = '0 8px';
        note.textContent = 'No TOC entries found.';
        el.toc.appendChild(note);
        return;
      }

      for (const entry of entries) {
        const btn = document.createElement('button');
        btn.className = 'toc-item';
        btn.style.paddingLeft = `${8 + (Number(entry.depth || 0) * 14)}px`;
        btn.textContent = entry.label || entry.href || '(untitled)';
"#;

const PAGE_PART_24: &'static str = r#"        const hasTarget = Number.isInteger(entry.target_chapter) && Number.isInteger(entry.target_page_global);
        if (!hasTarget) {
          btn.dataset.missing = 'true';
        }
        btn.addEventListener('click', () => {
          if (!hasTarget) return;
          const page = visiblePages().find((p) => p._globalIndex === entry.target_page_global);
          if (!page) return;
          const idx = visiblePages().findIndex((p) => p._globalIndex === entry.target_page_global);
          if (idx < 0) return;
          state.pageOffset = idx;
          renderCurrentPage();
        });
        el.toc.appendChild(btn);
      }
    }

    function renderWarnings() {
      el.warnings.innerHTML = '';
      const warnings = Array.isArray(state.payload.warnings) ? state.payload.warnings : [];
      if (warnings.length === 0) {
        const msg = document.createElement('div');
        msg.style.color = 'var(--muted)';
        msg.textContent = 'No preview warnings.';
        el.warnings.appendChild(msg);
        return;
      }
      const heading = document.createElement('strong');
      heading.textContent = `Warnings (${warnings.length})`;
      el.warnings.appendChild(heading);
"#;

const PAGE_PART_25: &'static str = r#"      for (const w of warnings) {
        const line = document.createElement('div');
        line.textContent = w;
        el.warnings.appendChild(line);
      }
    }

    function setStatus(text) {
      el.status.textContent = text;
    }

    function applyEmbeddedFonts() {
      if (state.styleTag) state.styleTag.remove();
      const fonts = Array.isArray(state.payload.fonts) ? state.payload.fonts : [];
      if (fonts.length === 0) {
        state.styleTag = null;
        return;
      }
      let css = '';
      for (const font of fonts) {
        if (!font?.family || !font?.data_uri) continue;
        const fmt = font.format ? ` format('${String(font.format).replace(/'/g, '')}')` : '';
        css += `@font-face { font-family: "${escapeCss(font.family)}"; src: url('${font.data_uri}')${fmt}; font-style: ${font.style || 'normal'}; font-weight: ${Number(font.weight || 400)}; font-display: swap; }\n`;
      }
      if (!css) return;
      state.styleTag = document.createElement('style');
      state.styleTag.textContent = css;
      document.head.appendChild(state.styleTag);
    }

"#;

const PAGE_PART_26: &'static str = r#"    async function preloadImages() {
      state.imageCache.clear();
      const entries = Object.entries(state.payload.images || {});
      await Promise.all(entries.map(([src, uri]) => {
        return new Promise((resolve) => {
          const img = new Image();
          img.onload = () => {
            state.imageCache.set(src, img);
            resolve();
          };
          img.onerror = () => resolve();
          img.src = uri;
        });
      }));
    }

    function visiblePages() {
      const pages = Array.isArray(state.payload.pages) ? state.payload.pages : [];
      return pages.map((p, idx) => ({ ...p, _globalIndex: idx }));
    }

    function currentPageAnchor() {
      const pages = visiblePages();
      if (pages.length === 0) return null;
      const idx = Math.max(0, Math.min(state.pageOffset, pages.length - 1));
      const page = pages[idx];
      return {
        chapter_index: page.chapter_index,
        page_index: page.page_index,
        page_number: page.page_number,
"#;

const PAGE_PART_27: &'static str = r#"      };
    }

    function currentPageFallback() {
      const pages = visiblePages();
      if (pages.length === 0) return null;
      const idx = Math.max(0, Math.min(state.pageOffset, pages.length - 1));
      const page = pages[idx];
      const chapterPages = pages.filter((p) => p.chapter_index === page.chapter_index);
      const chapterOffset = chapterPages.findIndex((p) => p._globalIndex === page._globalIndex);
      return {
        global_offset: idx,
        global_count: pages.length,
        chapter_index: page.chapter_index,
        chapter_offset: Math.max(0, chapterOffset),
        chapter_count: chapterPages.length,
      };
    }

    function restorePageOffset(anchor, fallback = null) {
      const pages = visiblePages();
      if (pages.length === 0) {
        state.pageOffset = 0;
        return;
      }
      if (!anchor) {
        state.pageOffset = Math.max(0, Math.min(state.pageOffset, pages.length - 1));
        return;
      }

"#;

const PAGE_PART_28: &'static str = r#"      let idx = pages.findIndex((p) =>
        p.chapter_index === anchor.chapter_index &&
        p.page_index === anchor.page_index
      );
      if (idx < 0) {
        idx = pages.findIndex((p) =>
          p.chapter_index === anchor.chapter_index &&
          p.page_number === anchor.page_number
        );
      }
      if (idx < 0) {
        idx = pages.findIndex((p) => p.chapter_index === anchor.chapter_index);
      }
      if (idx < 0) {
        idx = fallbackIndexFromProgress(pages, fallback);
      }
      if (idx < 0) {
        idx = Math.max(0, Math.min(state.pageOffset, pages.length - 1));
      }
      state.pageOffset = idx;
    }

    function fallbackIndexFromProgress(pages, fallback) {
      if (!fallback || pages.length === 0) return -1;

      if (Number.isInteger(fallback.chapter_index)) {
        const chapterPages = pages.filter((p) => p.chapter_index === fallback.chapter_index);
        if (chapterPages.length > 0) {
          let chapterOffset = Number(fallback.chapter_offset || 0);
          if (Number(fallback.chapter_count || 0) > 1 && chapterPages.length > 1) {
"#;

const PAGE_PART_29: &'static str = r#"            const ratio = chapterOffset / Math.max(1, Number(fallback.chapter_count) - 1);
            chapterOffset = Math.round(ratio * (chapterPages.length - 1));
          }
          chapterOffset = Math.max(0, Math.min(chapterOffset, chapterPages.length - 1));
          return chapterPages[chapterOffset]._globalIndex;
        }
      }

      const oldCount = Number(fallback.global_count || 0);
      const oldOffset = Number(fallback.global_offset || 0);
      if (oldCount > 0) {
        let idx;
        if (oldCount === 1 || pages.length === 1) {
          idx = 0;
        } else {
          const ratio = oldOffset / Math.max(1, oldCount - 1);
          idx = Math.round(ratio * (pages.length - 1));
        }
        return Math.max(0, Math.min(idx, pages.length - 1));
      }
      return -1;
    }

    function renderCurrentPage() {
      const pages = visiblePages();
      if (pages.length === 0) {
        drawEmpty();
        return;
      }
      state.pageOffset = Math.max(0, Math.min(state.pageOffset, pages.length - 1));
"#;

const PAGE_PART_30: &'static str = r#"      const page = pages[state.pageOffset];
      const cfg = state.payload.config || {};

      el.canvas.width = Number(cfg.display_width || state.payload.meta?.viewport?.width || 800);
      el.canvas.height = Number(cfg.display_height || state.payload.meta?.viewport?.height || 1200);

      ctx.clearRect(0, 0, el.canvas.width, el.canvas.height);
      ctx.fillStyle = '#fff';
      ctx.fillRect(0, 0, el.canvas.width, el.canvas.height);

      for (const cmd of page.commands || []) {
        drawCommand(cmd, page, cfg);
      }

      applyRenderIntent(cfg);

      const hasText = (page.commands || []).some((cmd) => cmd.kind === 'text');
      el.pageHint.textContent = hasText
        ? ''
        : 'Image-only page: font changes show on text pages.';
      el.pageLabel.textContent = `page ${page.page_number} (${state.pageOffset + 1}/${pages.length}) • chapter ${page.chapter_index + 1}`;
    }

    function drawEmpty() {
      el.canvas.width = Number(state.payload.meta?.viewport?.width || 800);
      el.canvas.height = Number(state.payload.meta?.viewport?.height || 1200);
      ctx.clearRect(0, 0, el.canvas.width, el.canvas.height);
      ctx.fillStyle = '#f8f8f8';
      ctx.fillRect(0, 0, el.canvas.width, el.canvas.height);
      ctx.fillStyle = '#666';
"#;

const PAGE_PART_31: &'static str = r#"      ctx.font = '16px sans-serif';
      ctx.fillText('No pages available for current configuration.', 16, 36);
      el.pageLabel.textContent = 'No pages';
    }

    function drawCommand(cmd, page, cfg) {
      switch (cmd.kind) {
        case 'text':
          drawText(cmd, cfg);
          break;
        case 'rule':
          drawRule(cmd);
          break;
        case 'rect':
          drawRect(cmd);
          break;
        case 'image_object':
          drawImage(cmd);
          break;
        case 'page_chrome':
          drawPageChrome(cmd, page, cfg);
          break;
        default:
          break;
      }
    }

    function drawText(cmd, cfg) {
      const style = cmd.style || {};
      const scale = SERVER_MODE ? 1 : Number(cfg.ui_font_scale || 1);
"#;

const PAGE_PART_32: &'static str = r#"      const size = Math.max(8, Number(style.size_px || 16) * scale);
      const family = (cfg.ui_font_family && cfg.ui_font_family !== 'auto')
        ? cfg.ui_font_family
        : (style.family || 'serif');
      const familySpec = canvasFamilySpec(family, 'serif');
      const italic = style.italic ? 'italic' : 'normal';
      const weight = Number(style.weight || 400);
      const letterSpacing = Number(style.letter_spacing || 0) * scale;

      ctx.fillStyle = '#111';
      ctx.textBaseline = 'alphabetic';
      ctx.font = `${italic} ${weight} ${size}px ${familySpec}`;

      const text = String(cmd.text || '');
      const justify = style.justify || { mode: 'none', extra_px_total: null, offset_px: null };
      const applyJustify = Boolean(cfg.justify_enabled) && justify.mode === 'inter-word' && Number.isFinite(justify.extra_px_total);
      let x = Number(cmd.x || 0);
      const y = Number(cmd.baseline_y || 0);
      const contentRight = el.canvas.width - Number(cfg.margin_right || 0);
      const availableWidth = Math.max(0, contentRight - x);
      const chars = Array.from(text);
      const measuredBaseWidth = ctx.measureText(text).width + (Math.max(0, chars.length - 1) * letterSpacing);
      const spaces = chars.filter((ch) => ch === ' ').length;

      if (Boolean(cfg.justify_enabled) && (justify.mode === 'align-right' || justify.mode === 'align-center')) {
        if (Number.isFinite(justify.offset_px)) {
          x += Math.max(0, Number(justify.offset_px));
        } else {
          const slack = Math.max(0, availableWidth - measuredBaseWidth);
          x += justify.mode === 'align-center' ? slack / 2 : slack;
"#;

const PAGE_PART_33: &'static str = r#"        }
      }

      if (!applyJustify && letterSpacing <= 0.01) {
        ctx.fillText(text, x, y);
        return;
      }

      let extraSpace = 0;
      if (applyJustify) {
        if (spaces > 0) {
          const requestedExtraTotal = Math.max(0, Number(justify.extra_px_total || 0) * scale);
          extraSpace = requestedExtraTotal / spaces;
        }
      }

      const renderedWidth = measuredBaseWidth + (spaces * extraSpace);
      const squeeze = availableWidth > 0 && renderedWidth > availableWidth
        ? Math.max(0.85, availableWidth / renderedWidth)
        : 1;
      if (squeeze < 0.999) {
        ctx.save();
        ctx.translate(x, y);
        ctx.scale(squeeze, 1);
        if (applyJustify && letterSpacing <= 0.01) {
          drawJustifiedText(text, 0, 0, extraSpace);
        } else {
          drawTrackedText(text, 0, 0, letterSpacing, extraSpace);
        }
        ctx.restore();
"#;

const PAGE_PART_34: &'static str = r#"        return;
      }

      if (applyJustify && letterSpacing <= 0.01) {
        drawJustifiedText(text, x, y, extraSpace);
        return;
      }

      drawTrackedText(text, x, y, letterSpacing, extraSpace);
    }

    function drawTrackedText(text, x, y, letterSpacing, extraSpace) {
      let cursor = x;
      for (const ch of Array.from(text)) {
        ctx.fillText(ch, cursor, y);
        cursor += ctx.measureText(ch).width + letterSpacing + (ch === ' ' ? extraSpace : 0);
      }
    }

    function drawJustifiedText(text, x, y, extraPerSpace) {
      let cursor = x;
      const tokens = String(text).split(/(\s+)/).filter((token) => token.length > 0);
      for (const token of tokens) {
        if (/^\s+$/.test(token)) {
          const spaces = Array.from(token).filter((ch) => ch === ' ').length;
          cursor += ctx.measureText(token).width + (spaces * extraPerSpace);
          continue;
        }
        ctx.fillText(token, cursor, y);
        cursor += ctx.measureText(token).width;
"#;

const PAGE_PART_35: &'static str = r#"      }
    }

    function drawRule(cmd) {
      const x = Number(cmd.x || 0);
      const y = Number(cmd.y || 0);
      const length = Number(cmd.length || 0);
      const thickness = Math.max(1, Number(cmd.thickness || 1));
      ctx.strokeStyle = '#171717';
      ctx.lineWidth = thickness;
      ctx.beginPath();
      if (cmd.horizontal) {
        ctx.moveTo(x, y);
        ctx.lineTo(x + length, y);
      } else {
        ctx.moveTo(x, y);
        ctx.lineTo(x, y + length);
      }
      ctx.stroke();
    }

    function drawRect(cmd) {
      const x = Number(cmd.x || 0);
      const y = Number(cmd.y || 0);
      const width = Number(cmd.width || 0);
      const height = Number(cmd.height || 0);
      if (cmd.fill) {
        ctx.fillStyle = '#111';
        ctx.fillRect(x, y, width, height);
      } else {
"#;

const PAGE_PART_36: &'static str = r#"        ctx.strokeStyle = '#111';
        ctx.lineWidth = 1;
        ctx.strokeRect(x, y, width, height);
      }
    }

    function drawImage(cmd) {
      const x = Number(cmd.x || 0);
      const y = Number(cmd.y || 0);
      const width = Number(cmd.width || 0);
      const height = Number(cmd.height || 0);
      const img = state.imageCache.get(cmd.src);
      if (img) {
        ctx.drawImage(img, x, y, width, height);
        return;
      }
      ctx.fillStyle = '#efefef';
      ctx.fillRect(x, y, width, height);
      ctx.strokeStyle = '#bbb';
      ctx.strokeRect(x, y, width, height);
      ctx.fillStyle = '#666';
      ctx.font = '12px sans-serif';
      ctx.fillText(cmd.alt || cmd.src || 'image', x + 6, y + 18);
    }

    function drawPageChrome(cmd, page, cfg) {
      const kind = cmd.kind_detail || cmd.kind;
      const family = (cfg.ui_font_family && cfg.ui_font_family !== 'auto') ? cfg.ui_font_family : 'serif';
      const h = el.canvas.height;
      const w = el.canvas.width;
"#;

const PAGE_PART_37: &'static str = r#"
      if (kind === 'header' && cfg.page_chrome_header_enabled) {
        const style = String(cfg.page_chrome_header_style || 'bold');
        const font = chromeFont(style, 14, family);
        ctx.fillStyle = '#444';
        ctx.font = font;
        ctx.textBaseline = 'alphabetic';
        const text = cmd.text || '';
        ctx.fillText(String(text), Number(cfg.page_chrome_header_x || 8), Number(cfg.page_chrome_header_baseline_y || 16));
      }

      if (kind === 'footer' && cfg.page_chrome_footer_enabled) {
        const style = String(cfg.page_chrome_footer_style || 'regular');
        const font = chromeFont(style, 12, family);
        ctx.fillStyle = '#444';
        ctx.font = font;
        ctx.textBaseline = 'alphabetic';
        const text = cmd.text || `Page ${page.page_number}`;
        const y = h - Number(cfg.page_chrome_footer_baseline_from_bottom || 8);
        ctx.fillText(String(text), Number(cfg.page_chrome_footer_x || 8), y);
      }

      if (kind === 'progress' && cfg.page_chrome_progress_enabled) {
        const current = Number(cmd.current || 0);
        const total = Math.max(1, Number(cmd.total || page.metrics?.chapter_page_count || 1));
        const ratio = Math.max(0, Math.min(1, current / total));
        const xInset = Number(cfg.page_chrome_progress_x_inset || 8);
        const yFromBottom = Number(cfg.page_chrome_progress_y_from_bottom || 20);
        const y = h - yFromBottom;
        const barWidth = Math.max(12, w - xInset * 2);
"#;

const PAGE_PART_38: &'static str = r#"        const barHeight = Math.max(1, Number(cfg.page_chrome_progress_height || 4));
        const stroke = Math.max(1, Number(cfg.page_chrome_progress_stroke_width || 1));

        ctx.lineWidth = stroke;
        ctx.strokeStyle = '#555';
        ctx.strokeRect(xInset, y, barWidth, barHeight);
        ctx.fillStyle = '#1f8f6a';
        ctx.fillRect(xInset, y, barWidth * ratio, barHeight);
      }
    }

    function chromeFont(style, size, family) {
      const familySpec = canvasFamilySpec(family, 'serif');
      const lower = String(style || 'regular').toLowerCase();
      if (lower === 'bold') return `normal 700 ${size}px ${familySpec}`;
      if (lower === 'italic') return `italic 400 ${size}px ${familySpec}`;
      if (lower === 'bold-italic') return `italic 700 ${size}px ${familySpec}`;
      return `normal 400 ${size}px ${familySpec}`;
    }

    function canvasFamilySpec(family, fallback = 'serif') {
      const raw = String(family || '').trim();
      const parts = (raw ? raw.split(',') : [fallback])
        .map((part) => stripOuterQuotes(part.trim()))
        .filter((part) => part.length > 0);

      const normalized = parts.length > 0 ? parts : [fallback];
      if (!normalized.some((part) => isGenericFamily(part))) {
        normalized.push(fallback);
      }
"#;

const PAGE_PART_39: &'static str = r#"
      return normalized
        .map((part) => (isGenericFamily(part) ? part : `"${escapeCss(part)}"`))
        .join(', ');
    }

    function stripOuterQuotes(value) {
      if (value.length < 2) return value;
      const first = value[0];
      const last = value[value.length - 1];
      if ((first === '"' && last === '"') || (first === "'" && last === "'")) {
        return value.slice(1, -1);
      }
      return value;
    }

    function isGenericFamily(value) {
      const lower = String(value || '').toLowerCase();
      return (
        lower === 'serif' ||
        lower === 'sans-serif' ||
        lower === 'monospace' ||
        lower === 'cursive' ||
        lower === 'fantasy' ||
        lower === 'system-ui' ||
        lower === 'ui-serif' ||
        lower === 'ui-sans-serif' ||
        lower === 'ui-monospace' ||
        lower === 'emoji' ||
        lower === 'math' ||
"#;

const PAGE_PART_40: &'static str = r#"        lower === 'fangsong'
      );
    }

    function applyRenderIntent(cfg) {
      const grayscale = String(cfg.render_grayscale_mode || 'off').toLowerCase();
      const dither = String(cfg.render_dither_mode || 'none').toLowerCase();
      const contrast = Number(cfg.render_contrast_boost || 100);

      if (grayscale === 'off' && dither === 'none' && contrast === 100) {
        return;
      }

      const image = ctx.getImageData(0, 0, el.canvas.width, el.canvas.height);
      const data = image.data;

      for (let i = 0; i < data.length; i += 4) {
        let r = data[i + 0];
        let g = data[i + 1];
        let b = data[i + 2];

        if (grayscale === 'luminosity') {
          const y = (0.2126 * r) + (0.7152 * g) + (0.0722 * b);
          r = y; g = y; b = y;
        }

        if (contrast !== 100) {
          const factor = contrast / 100;
          r = Math.max(0, Math.min(255, ((r - 128) * factor) + 128));
          g = Math.max(0, Math.min(255, ((g - 128) * factor) + 128));
"#;

const PAGE_PART_41: &'static str = r#"          b = Math.max(0, Math.min(255, ((b - 128) * factor) + 128));
        }

        data[i + 0] = r;
        data[i + 1] = g;
        data[i + 2] = b;
      }

      if (dither === 'ordered') {
        const matrix = [
          [0, 8, 2, 10],
          [12, 4, 14, 6],
          [3, 11, 1, 9],
          [15, 7, 13, 5],
        ];
        for (let y = 0; y < el.canvas.height; y++) {
          for (let x = 0; x < el.canvas.width; x++) {
            const idx = (y * el.canvas.width + x) * 4;
            const lum = data[idx];
            const threshold = (matrix[y % 4][x % 4] / 16) * 255;
            const v = lum >= threshold ? 255 : 0;
            data[idx + 0] = v;
            data[idx + 1] = v;
            data[idx + 2] = v;
          }
        }
      } else if (dither === 'error-diffusion') {
        for (let y = 0; y < el.canvas.height; y++) {
          for (let x = 0; x < el.canvas.width; x++) {
            const idx = (y * el.canvas.width + x) * 4;
"#;

const PAGE_PART_42: &'static str = r#"            const old = data[idx];
            const nw = old < 128 ? 0 : 255;
            const err = old - nw;
            data[idx + 0] = nw;
            data[idx + 1] = nw;
            data[idx + 2] = nw;

            diffuse(x + 1, y, err * 7 / 16);
            diffuse(x - 1, y + 1, err * 3 / 16);
            diffuse(x, y + 1, err * 5 / 16);
            diffuse(x + 1, y + 1, err * 1 / 16);
          }
        }

        function diffuse(x, y, delta) {
          if (x < 0 || y < 0 || x >= el.canvas.width || y >= el.canvas.height) return;
          const idx = (y * el.canvas.width + x) * 4;
          const v = Math.max(0, Math.min(255, data[idx] + delta));
          data[idx + 0] = v;
          data[idx + 1] = v;
          data[idx + 2] = v;
        }
      }

      ctx.putImageData(image, 0, 0);
    }

    function escapeCss(value) {
      return String(value).replace(/\\/g, '\\\\').replace(/"/g, '\\"');
    }
"#;

const PAGE_PART_43: &'static str = r#"  </script>
</body>
</html>
"#;

/// The preview page before its payload and mode are filled in; the
/// markers `__INITIAL_PAYLOAD__` and `__SERVER_MODE__` show where they go.
pub closed spec fn preview_template() -> Seq<char> {
    PAGE_PART_00@ + PAGE_PART_01@ + PAGE_PART_02@ + PAGE_PART_03@ + PAGE_PART_04@ + PAGE_PART_05@ + PAGE_PART_06@ + PAGE_PART_07@ + PAGE_PART_08@ + PAGE_PART_09@ + PAGE_PART_10@ + PAGE_PART_11@ + PAGE_PART_12@ + PAGE_PART_13@ + PAGE_PART_14@ + PAGE_PART_15@ + PAGE_PART_16@ + PAGE_PART_17@ + PAGE_PART_18@ + PAGE_PART_19@ + PAGE_PART_20@ + PAGE_PART_21@ + PAGE_PART_22@ + PAGE_PART_23@ + PAGE_PART_24@ + PAGE_PART_25@ + PAGE_PART_26@ + PAGE_PART_27@ + PAGE_PART_28@ + PAGE_PART_29@ + PAGE_PART_30@ + PAGE_PART_31@ + PAGE_PART_32@ + PAGE_PART_33@ + PAGE_PART_34@ + PAGE_PART_35@ + PAGE_PART_36@ + PAGE_PART_37@ + PAGE_PART_38@ + PAGE_PART_39@ + PAGE_PART_40@ + PAGE_PART_41@ + PAGE_PART_42@ + PAGE_PART_43@
}

/// `s[i..]` with every occurrence of `pat` replaced by `rep`, scanning left
/// to right and resuming after each replacement (`str::replace`).
pub open spec fn replace_from(s: Seq<char>, pat: Seq<char>, rep: Seq<char>, i: int) -> Seq<char>
    decreases s.len() - i,
{
    if i < 0 || i >= s.len() {
        seq![]
    } else if pat.len() > 0 && i + pat.len() <= s.len() && s.subrange(i, i + pat.len()) == pat {
        rep + replace_from(s, pat, rep, i + pat.len())
    } else {
        seq![s[i]] + replace_from(s, pat, rep, i + 1)
    }
}

/// `s` with every occurrence of `pat` replaced by `rep` (`str::replace`).
pub open spec fn replace_seq(s: Seq<char>, pat: Seq<char>, rep: Seq<char>) -> Seq<char> {
    replace_from(s, pat, rep, 0)
}

/// The self-contained preview page: the payload, with `</script>` escaped
/// as `<\/script>`, in place of `__INITIAL_PAYLOAD__`, then `true` or
/// `false` in place of `__SERVER_MODE__`.
pub open spec fn preview_html(payload_json: Seq<char>, server_mode: bool) -> Seq<char> {
    let safe_json = replace_seq(payload_json, "</script>"@, "<\\/script>"@);
    let filled = replace_seq(preview_template(), "__INITIAL_PAYLOAD__"@, safe_json);
    replace_seq(
        filled,
        "__SERVER_MODE__"@,
        if server_mode {
            "true"@
        } else {
            "false"@
        },
    )
}

fn push_str_chars(out: &mut Vec<char>, s: &str)
    ensures
        final(out)@ == old(out)@ + s@,
{
    let v = chars_of(s);
    let ghost start = out@;
    let mut i: usize = 0;
    while i < v.len()
        invariant
            i <= v.len(),
            out@ == start + v@.take(i as int),
        decreases v.len() - i,
    {
        out.push(v[i]);
        i += 1;
        assert(out@ =~= start + v@.take(i as int));
    }
    assert(v@.take(v.len() as int) =~= v@);
}

fn template_chars() -> (v: Vec<char>)
    ensures
        v@ == preview_template(),
{
    let mut v: Vec<char> = Vec::new();
    push_str_chars(&mut v, PAGE_PART_00);
    push_str_chars(&mut v, PAGE_PART_01);
    push_str_chars(&mut v, PAGE_PART_02);
    push_str_chars(&mut v, PAGE_PART_03);
    push_str_chars(&mut v, PAGE_PART_04);
    push_str_chars(&mut v, PAGE_PART_05);
    push_str_chars(&mut v, PAGE_PART_06);
    push_str_chars(&mut v, PAGE_PART_07);
    push_str_chars(&mut v, PAGE_PART_08);
    push_str_chars(&mut v, PAGE_PART_09);
    push_str_chars(&mut v, PAGE_PART_10);
    push_str_chars(&mut v, PAGE_PART_11);
    push_str_chars(&mut v, PAGE_PART_12);
    push_str_chars(&mut v, PAGE_PART_13);
    push_str_chars(&mut v, PAGE_PART_14);
    push_str_chars(&mut v, PAGE_PART_15);
    push_str_chars(&mut v, PAGE_PART_16);
    push_str_chars(&mut v, PAGE_PART_17);
    push_str_chars(&mut v, PAGE_PART_18);
    push_str_chars(&mut v, PAGE_PART_19);
    push_str_chars(&mut v, PAGE_PART_20);
    push_str_chars(&mut v, PAGE_PART_21);
    push_str_chars(&mut v, PAGE_PART_22);
    push_str_chars(&mut v, PAGE_PART_23);
    push_str_chars(&mut v, PAGE_PART_24);
    push_str_chars(&mut v, PAGE_PART_25);
    push_str_chars(&mut v, PAGE_PART_26);
    push_str_chars(&mut v, PAGE_PART_27);
    push_str_chars(&mut v, PAGE_PART_28);
    push_str_chars(&mut v, PAGE_PART_29);
    push_str_chars(&mut v, PAGE_PART_30);
    push_str_chars(&mut v, PAGE_PART_31);
    push_str_chars(&mut v, PAGE_PART_32);
    push_str_chars(&mut v, PAGE_PART_33);
    push_str_chars(&mut v, PAGE_PART_34);
    push_str_chars(&mut v, PAGE_PART_35);
    push_str_chars(&mut v, PAGE_PART_36);
    push_str_chars(&mut v, PAGE_PART_37);
    push_str_chars(&mut v, PAGE_PART_38);
    push_str_chars(&mut v, PAGE_PART_39);
    push_str_chars(&mut v, PAGE_PART_40);
    push_str_chars(&mut v, PAGE_PART_41);
    push_str_chars(&mut v, PAGE_PART_42);
    push_str_chars(&mut v, PAGE_PART_43);
    assert(v@ =~= preview_template());
    v
}

fn matches_at(s: &Vec<char>, i: usize, pat: &Vec<char>) -> (r: bool)
    requires
        i <= s.len(),
    ensures
        r == (i + pat.len() <= s.len() && s@.subrange(i as int, i + pat.len()) == pat@),
{
    if pat.len() > s.len() - i {
        return false;
    }
    let mut k: usize = 0;
    while k < pat.len()
        invariant
            i + pat.len() <= s.len(),
            k <= pat.len(),
            forall|j: int| 0 <= j < k ==> s@[i + j] == pat@[j],
        decreases pat.len() - k,
    {
        if s[i + k] != pat[k] {
            assert(s@.subrange(i as int, i + pat.len())[k as int] != pat@[k as int]);
            return false;
        }
        k += 1;
    }
    assert(s@.subrange(i as int, i + pat.len()) =~= pat@);
    true
}

fn replace_all(s: &Vec<char>, pat: &Vec<char>, rep: &Vec<char>) -> (r: Vec<char>)
    requires
        pat.len() > 0,
    ensures
        r@ == replace_seq(s@, pat@, rep@),
{
    let mut out: Vec<char> = Vec::new();
    let mut i: usize = 0;
    while i < s.len()
        invariant
            pat.len() > 0,
            i <= s.len(),
            out@ + replace_from(s@, pat@, rep@, i as int) == replace_seq(s@, pat@, rep@),
        decreases s.len() - i,
    {
        let ghost before = out@;
        if matches_at(s, i, pat) {
            let mut k: usize = 0;
            while k < rep.len()
                invariant
                    k <= rep.len(),
                    out@ == before + rep@.take(k as int),
                decreases rep.len() - k,
            {
                out.push(rep[k]);
                k += 1;
                assert(out@ =~= before + rep@.take(k as int));
            }
            assert(rep@.take(rep.len() as int) =~= rep@);
            assert(before + replace_from(s@, pat@, rep@, i as int) =~= out@ + replace_from(
                s@,
                pat@,
                rep@,
                i + pat.len(),
            ));
            i += pat.len();
        } else {
            out.push(s[i]);
            assert(before + replace_from(s@, pat@, rep@, i as int) =~= out@ + replace_from(
                s@,
                pat@,
                rep@,
                i + 1,
            ));
            i += 1;
        }
    }
    assert(out@ + Seq::<char>::empty() =~= out@);
    out
}

/// The self-contained preview page for a JSON payload (see
/// [`preview_html`]).
pub fn build_html(initial_payload_json: &str, server_mode: bool) -> (r: String)
    ensures
        r@ == preview_html(initial_payload_json@, server_mode),
{
    proof {
        reveal_strlit("</script>");
        reveal_strlit("__INITIAL_PAYLOAD__");
        reveal_strlit("__SERVER_MODE__");
    }
    let json = chars_of(initial_payload_json);
    let safe_json = replace_all(&json, &chars_of("</script>"), &chars_of("<\\/script>"));
    let template = template_chars();
    let filled = replace_all(&template, &chars_of("__INITIAL_PAYLOAD__"), &safe_json);
    let mode = if server_mode {
        chars_of("true")
    } else {
        chars_of("false")
    };
    let page = replace_all(&filled, &chars_of("__SERVER_MODE__"), &mode);
    string_from_chars(&page)
}

} // verus!
