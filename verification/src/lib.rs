use vstd::prelude::*;

pub mod text;
pub mod paths;
pub mod page_map;
pub mod render_ir;
pub mod persisted;
pub mod engine;
pub mod preview;
pub mod preview_args;
pub mod preview_settings;
pub mod graphics;
pub mod fonts;
pub mod hyphenation;
pub mod profile;
pub mod page_layers;
pub mod http;
pub mod toc;
pub mod visualize;
pub mod line_breaking;
pub mod layout;
pub mod preview_page;

verus! {

} // verus!
