use vstd::prelude::*;

use crate::render_ir::{
    BlockRole, ImageObjectCommand, JustifyMode, OverlayRect, OverlaySlot, PageAnnotation,
    PageAnnotationKind, PageChromeCommand, PageChromeKind, RectCommand, RuleCommand,
};
use vstd::std_specs::convert::FromSpecImpl;

verus! {

/// Persisted form of [`OverlayRect`].
#[derive(Clone, Copy, Debug, Default, PartialEq, Eq)]
pub struct PersistedOverlayRect {
    pub x: i32,
    pub y: i32,
    pub width: u32,
    pub height: u32,
}

impl From<OverlayRect> for PersistedOverlayRect {
    fn from(value: OverlayRect) -> (r: Self) {
        PersistedOverlayRect { x: value.x, y: value.y, width: value.width, height: value.height }
    }
}

/// `PersistedOverlayRect` built from a `OverlayRect`.
pub open spec fn persist_overlay_rect(v: OverlayRect) -> PersistedOverlayRect {
    PersistedOverlayRect { x: v.x, y: v.y, width: v.width, height: v.height }
}

impl FromSpecImpl<OverlayRect> for PersistedOverlayRect {
    open spec fn obeys_from_spec() -> bool {
        true
    }

    open spec fn from_spec(v: OverlayRect) -> Self {
        persist_overlay_rect(v)
    }
}

impl From<PersistedOverlayRect> for OverlayRect {
    fn from(value: PersistedOverlayRect) -> (r: Self) {
        OverlayRect { x: value.x, y: value.y, width: value.width, height: value.height }
    }
}

/// `OverlayRect` built from a `PersistedOverlayRect`.
pub open spec fn restore_overlay_rect(v: PersistedOverlayRect) -> OverlayRect {
    OverlayRect { x: v.x, y: v.y, width: v.width, height: v.height }
}

impl FromSpecImpl<PersistedOverlayRect> for OverlayRect {
    open spec fn obeys_from_spec() -> bool {
        true
    }

    open spec fn from_spec(v: PersistedOverlayRect) -> Self {
        restore_overlay_rect(v)
    }
}

/// Persisted form of [`OverlaySlot`].
#[derive(Clone, Debug, PartialEq, Eq)]
pub enum PersistedOverlaySlot {
    TopLeft,
    TopCenter,
    TopRight,
    BottomLeft,
    BottomCenter,
    BottomRight,
    Custom(PersistedOverlayRect),
}

/// Persisted form of an overlay slot.
pub open spec fn persist_slot(v: OverlaySlot) -> PersistedOverlaySlot {
    match v {
        OverlaySlot::TopLeft => PersistedOverlaySlot::TopLeft,
        OverlaySlot::TopCenter => PersistedOverlaySlot::TopCenter,
        OverlaySlot::TopRight => PersistedOverlaySlot::TopRight,
        OverlaySlot::BottomLeft => PersistedOverlaySlot::BottomLeft,
        OverlaySlot::BottomCenter => PersistedOverlaySlot::BottomCenter,
        OverlaySlot::BottomRight => PersistedOverlaySlot::BottomRight,
        OverlaySlot::Custom(r) => PersistedOverlaySlot::Custom(persist_overlay_rect(r)),
    }
}

/// Overlay slot restored from its persisted form.
pub open spec fn restore_slot(v: PersistedOverlaySlot) -> OverlaySlot {
    match v {
        PersistedOverlaySlot::TopLeft => OverlaySlot::TopLeft,
        PersistedOverlaySlot::TopCenter => OverlaySlot::TopCenter,
        PersistedOverlaySlot::TopRight => OverlaySlot::TopRight,
        PersistedOverlaySlot::BottomLeft => OverlaySlot::BottomLeft,
        PersistedOverlaySlot::BottomCenter => OverlaySlot::BottomCenter,
        PersistedOverlaySlot::BottomRight => OverlaySlot::BottomRight,
        PersistedOverlaySlot::Custom(r) => OverlaySlot::Custom(restore_overlay_rect(r)),
    }
}

impl From<&OverlaySlot> for PersistedOverlaySlot {
    fn from(value: &OverlaySlot) -> (r: Self) {
        match value {
            OverlaySlot::TopLeft => PersistedOverlaySlot::TopLeft,
            OverlaySlot::TopCenter => PersistedOverlaySlot::TopCenter,
            OverlaySlot::TopRight => PersistedOverlaySlot::TopRight,
            OverlaySlot::BottomLeft => PersistedOverlaySlot::BottomLeft,
            OverlaySlot::BottomCenter => PersistedOverlaySlot::BottomCenter,
            OverlaySlot::BottomRight => PersistedOverlaySlot::BottomRight,
            OverlaySlot::Custom(rect) => PersistedOverlaySlot::Custom(
                PersistedOverlayRect::from(*rect),
            ),
        }
    }
}

impl FromSpecImpl<&OverlaySlot> for PersistedOverlaySlot {
    open spec fn obeys_from_spec() -> bool {
        true
    }

    open spec fn from_spec(v: &OverlaySlot) -> Self {
        persist_slot(*v)
    }
}

impl From<PersistedOverlaySlot> for OverlaySlot {
    fn from(value: PersistedOverlaySlot) -> (r: Self) {
        match value {
            PersistedOverlaySlot::TopLeft => OverlaySlot::TopLeft,
            PersistedOverlaySlot::TopCenter => OverlaySlot::TopCenter,
            PersistedOverlaySlot::TopRight => OverlaySlot::TopRight,
            PersistedOverlaySlot::BottomLeft => OverlaySlot::BottomLeft,
            PersistedOverlaySlot::BottomCenter => OverlaySlot::BottomCenter,
            PersistedOverlaySlot::BottomRight => OverlaySlot::BottomRight,
            PersistedOverlaySlot::Custom(rect) => OverlaySlot::Custom(OverlayRect::from(rect)),
        }
    }
}

impl FromSpecImpl<PersistedOverlaySlot> for OverlaySlot {
    open spec fn obeys_from_spec() -> bool {
        true
    }

    open spec fn from_spec(v: PersistedOverlaySlot) -> Self {
        restore_slot(v)
    }
}

/// Persisted form of [`PageAnnotation`]: the kind is stored by its tag.
#[derive(Clone, Debug, Default, PartialEq, Eq)]
pub struct PersistedPageAnnotation {
    pub kind: String,
    pub value: Option<String>,
}

/// Optional string views.
pub open spec fn opt_view(v: Option<String>) -> Option<Seq<char>> {
    match v {
        Some(s) => Some(s@),
        None => None,
    }
}

fn clone_opt_string(v: &Option<String>) -> (r: Option<String>)
    ensures
        r == *v,
{
    match v {
        Some(s) => Some(s.clone()),
        None => None,
    }
}

impl From<&PageAnnotation> for PersistedPageAnnotation {
    fn from(value: &PageAnnotation) -> (r: Self)
        ensures
            r.kind@ == value.kind.tag(),
            r.value == value.value,
    {
        PersistedPageAnnotation {
            kind: value.kind.to_string(),
            value: clone_opt_string(&value.value),
        }
    }
}

impl FromSpecImpl<&PageAnnotation> for PersistedPageAnnotation {
    open spec fn obeys_from_spec() -> bool {
        false
    }

    open spec fn from_spec(v: &PageAnnotation) -> Self {
        arbitrary()
    }
}

impl From<PersistedPageAnnotation> for PageAnnotation {
    fn from(value: PersistedPageAnnotation) -> (r: Self)
        ensures
            r.kind.decodes_to(value.kind@),
            r.value == value.value,
    {
        PageAnnotation { kind: PageAnnotationKind::from_tag(value.kind.as_str()), value: value.value }
    }
}

impl FromSpecImpl<PersistedPageAnnotation> for PageAnnotation {
    open spec fn obeys_from_spec() -> bool {
        false
    }

    open spec fn from_spec(v: PersistedPageAnnotation) -> Self {
        arbitrary()
    }
}

/// Persisted form of [`BlockRole`].
#[derive(Clone, Copy, Debug, PartialEq, Eq)]
pub enum PersistedBlockRole {
    Body,
    Paragraph,
    Heading(u8),
    ListItem,
    FigureCaption,
    Preformatted,
}

impl From<BlockRole> for PersistedBlockRole {
    fn from(value: BlockRole) -> (r: Self) {
        match value {
            BlockRole::Body => PersistedBlockRole::Body,
            BlockRole::Paragraph => PersistedBlockRole::Paragraph,
            BlockRole::Heading(level) => PersistedBlockRole::Heading(level),
            BlockRole::ListItem => PersistedBlockRole::ListItem,
            BlockRole::FigureCaption => PersistedBlockRole::FigureCaption,
            BlockRole::Preformatted => PersistedBlockRole::Preformatted,
        }
    }
}

/// `PersistedBlockRole` built from a `BlockRole`.
pub open spec fn persist_block_role(v: BlockRole) -> PersistedBlockRole {
    match v {
        BlockRole::Body => PersistedBlockRole::Body,
        BlockRole::Paragraph => PersistedBlockRole::Paragraph,
        BlockRole::Heading(level) => PersistedBlockRole::Heading(level),
        BlockRole::ListItem => PersistedBlockRole::ListItem,
        BlockRole::FigureCaption => PersistedBlockRole::FigureCaption,
        BlockRole::Preformatted => PersistedBlockRole::Preformatted,
    }
}

impl FromSpecImpl<BlockRole> for PersistedBlockRole {
    open spec fn obeys_from_spec() -> bool {
        true
    }

    open spec fn from_spec(v: BlockRole) -> Self {
        persist_block_role(v)
    }
}

impl From<PersistedBlockRole> for BlockRole {
    fn from(value: PersistedBlockRole) -> (r: Self) {
        match value {
            PersistedBlockRole::Body => BlockRole::Body,
            PersistedBlockRole::Paragraph => BlockRole::Paragraph,
            PersistedBlockRole::Heading(level) => BlockRole::Heading(level),
            PersistedBlockRole::ListItem => BlockRole::ListItem,
            PersistedBlockRole::FigureCaption => BlockRole::FigureCaption,
            PersistedBlockRole::Preformatted => BlockRole::Preformatted,
        }
    }
}

/// `BlockRole` built from a `PersistedBlockRole`.
pub open spec fn restore_block_role(v: PersistedBlockRole) -> BlockRole {
    match v {
        PersistedBlockRole::Body => BlockRole::Body,
        PersistedBlockRole::Paragraph => BlockRole::Paragraph,
        PersistedBlockRole::Heading(level) => BlockRole::Heading(level),
        PersistedBlockRole::ListItem => BlockRole::ListItem,
        PersistedBlockRole::FigureCaption => BlockRole::FigureCaption,
        PersistedBlockRole::Preformatted => BlockRole::Preformatted,
    }
}

impl FromSpecImpl<PersistedBlockRole> for BlockRole {
    open spec fn obeys_from_spec() -> bool {
        true
    }

    open spec fn from_spec(v: PersistedBlockRole) -> Self {
        restore_block_role(v)
    }
}

/// Persisted form of [`JustifyMode`].
#[derive(Clone, Copy, Debug, PartialEq, Eq)]
pub enum PersistedJustifyMode {
    NoJustify,
    InterWord { extra_px_total: i32 },
    AlignRight { offset_px: i32 },
    AlignCenter { offset_px: i32 },
}

impl From<JustifyMode> for PersistedJustifyMode {
    fn from(value: JustifyMode) -> (r: Self) {
        match value {
            JustifyMode::NoJustify => PersistedJustifyMode::NoJustify,
            JustifyMode::InterWord { extra_px_total } => PersistedJustifyMode::InterWord {
                extra_px_total,
            },
            JustifyMode::AlignRight { offset_px } => PersistedJustifyMode::AlignRight { offset_px },
            JustifyMode::AlignCenter { offset_px } => PersistedJustifyMode::AlignCenter {
                offset_px,
            },
        }
    }
}

/// `PersistedJustifyMode` built from a `JustifyMode`.
pub open spec fn persist_justify_mode(v: JustifyMode) -> PersistedJustifyMode {
    match v {
        JustifyMode::NoJustify => PersistedJustifyMode::NoJustify,
        JustifyMode::InterWord { extra_px_total } => PersistedJustifyMode::InterWord {
            extra_px_total,
        },
        JustifyMode::AlignRight { offset_px } => PersistedJustifyMode::AlignRight { offset_px },
        JustifyMode::AlignCenter { offset_px } => PersistedJustifyMode::AlignCenter {
            offset_px,
        },
    }
}

impl FromSpecImpl<JustifyMode> for PersistedJustifyMode {
    open spec fn obeys_from_spec() -> bool {
        true
    }

    open spec fn from_spec(v: JustifyMode) -> Self {
        persist_justify_mode(v)
    }
}

impl From<PersistedJustifyMode> for JustifyMode {
    fn from(value: PersistedJustifyMode) -> (r: Self) {
        match value {
            PersistedJustifyMode::NoJustify => JustifyMode::NoJustify,
            PersistedJustifyMode::InterWord { extra_px_total } => JustifyMode::InterWord {
                extra_px_total,
            },
            PersistedJustifyMode::AlignRight { offset_px } => JustifyMode::AlignRight { offset_px },
            PersistedJustifyMode::AlignCenter { offset_px } => JustifyMode::AlignCenter {
                offset_px,
            },
        }
    }
}

/// `JustifyMode` built from a `PersistedJustifyMode`.
pub open spec fn restore_justify_mode(v: PersistedJustifyMode) -> JustifyMode {
    match v {
        PersistedJustifyMode::NoJustify => JustifyMode::NoJustify,
        PersistedJustifyMode::InterWord { extra_px_total } => JustifyMode::InterWord {
            extra_px_total,
        },
        PersistedJustifyMode::AlignRight { offset_px } => JustifyMode::AlignRight { offset_px },
        PersistedJustifyMode::AlignCenter { offset_px } => JustifyMode::AlignCenter {
            offset_px,
        },
    }
}

impl FromSpecImpl<PersistedJustifyMode> for JustifyMode {
    open spec fn obeys_from_spec() -> bool {
        true
    }

    open spec fn from_spec(v: PersistedJustifyMode) -> Self {
        restore_justify_mode(v)
    }
}

/// Persisted form of [`RuleCommand`].
#[derive(Clone, Copy, Debug, PartialEq, Eq)]
pub struct PersistedRuleCommand {
    pub x: i32,
    pub y: i32,
    pub length: u32,
    pub thickness: u32,
    pub horizontal: bool,
}

impl From<RuleCommand> for PersistedRuleCommand {
    fn from(value: RuleCommand) -> (r: Self) {
        PersistedRuleCommand {
            x: value.x,
            y: value.y,
            length: value.length,
            thickness: value.thickness,
            horizontal: value.horizontal,
        }
    }
}

/// `PersistedRuleCommand` built from a `RuleCommand`.
pub open spec fn persist_rule_command(v: RuleCommand) -> PersistedRuleCommand {
    PersistedRuleCommand {
        x: v.x,
        y: v.y,
        length: v.length,
        thickness: v.thickness,
        horizontal: v.horizontal,
    }
}

impl FromSpecImpl<RuleCommand> for PersistedRuleCommand {
    open spec fn obeys_from_spec() -> bool {
        true
    }

    open spec fn from_spec(v: RuleCommand) -> Self {
        persist_rule_command(v)
    }
}

impl From<PersistedRuleCommand> for RuleCommand {
    fn from(value: PersistedRuleCommand) -> (r: Self) {
        RuleCommand {
            x: value.x,
            y: value.y,
            length: value.length,
            thickness: value.thickness,
            horizontal: value.horizontal,
        }
    }
}

/// `RuleCommand` built from a `PersistedRuleCommand`.
pub open spec fn restore_rule_command(v: PersistedRuleCommand) -> RuleCommand {
    RuleCommand {
        x: v.x,
        y: v.y,
        length: v.length,
        thickness: v.thickness,
        horizontal: v.horizontal,
    }
}

impl FromSpecImpl<PersistedRuleCommand> for RuleCommand {
    open spec fn obeys_from_spec() -> bool {
        true
    }

    open spec fn from_spec(v: PersistedRuleCommand) -> Self {
        restore_rule_command(v)
    }
}

/// Persisted form of [`ImageObjectCommand`].
#[derive(Clone, Debug, PartialEq, Eq)]
pub struct PersistedImageObjectCommand {
    pub src: String,
    pub alt: String,
    pub x: i32,
    pub y: i32,
    pub width: u32,
    pub height: u32,
}

impl From<&ImageObjectCommand> for PersistedImageObjectCommand {
    fn from(value: &ImageObjectCommand) -> (r: Self) {
        PersistedImageObjectCommand {
            src: value.src.clone(),
            alt: value.alt.clone(),
            x: value.x,
            y: value.y,
            width: value.width,
            height: value.height,
        }
    }
}

/// `PersistedImageObjectCommand` built from a `ImageObjectCommand`.
pub open spec fn persist_image_object_command(v: ImageObjectCommand) -> PersistedImageObjectCommand {
    PersistedImageObjectCommand {
        src: v.src,
        alt: v.alt,
        x: v.x,
        y: v.y,
        width: v.width,
        height: v.height,
    }
}

impl FromSpecImpl<&ImageObjectCommand> for PersistedImageObjectCommand {
    open spec fn obeys_from_spec() -> bool {
        true
    }

    open spec fn from_spec(v: &ImageObjectCommand) -> Self {
        persist_image_object_command(*v)
    }
}

impl From<PersistedImageObjectCommand> for ImageObjectCommand {
    fn from(value: PersistedImageObjectCommand) -> (r: Self) {
        ImageObjectCommand {
            src: value.src,
            alt: value.alt,
            x: value.x,
            y: value.y,
            width: value.width,
            height: value.height,
        }
    }
}

/// `ImageObjectCommand` built from a `PersistedImageObjectCommand`.
pub open spec fn restore_image_object_command(v: PersistedImageObjectCommand) -> ImageObjectCommand {
    ImageObjectCommand {
        src: v.src,
        alt: v.alt,
        x: v.x,
        y: v.y,
        width: v.width,
        height: v.height,
    }
}

impl FromSpecImpl<PersistedImageObjectCommand> for ImageObjectCommand {
    open spec fn obeys_from_spec() -> bool {
        true
    }

    open spec fn from_spec(v: PersistedImageObjectCommand) -> Self {
        restore_image_object_command(v)
    }
}

/// Persisted form of [`RectCommand`].
#[derive(Clone, Copy, Debug, PartialEq, Eq)]
pub struct PersistedRectCommand {
    pub x: i32,
    pub y: i32,
    pub width: u32,
    pub height: u32,
    pub fill: bool,
}

impl From<RectCommand> for PersistedRectCommand {
    fn from(value: RectCommand) -> (r: Self) {
        PersistedRectCommand {
            x: value.x,
            y: value.y,
            width: value.width,
            height: value.height,
            fill: value.fill,
        }
    }
}

/// `PersistedRectCommand` built from a `RectCommand`.
pub open spec fn persist_rect_command(v: RectCommand) -> PersistedRectCommand {
    PersistedRectCommand { x: v.x, y: v.y, width: v.width, height: v.height, fill: v.fill }
}

impl FromSpecImpl<RectCommand> for PersistedRectCommand {
    open spec fn obeys_from_spec() -> bool {
        true
    }

    open spec fn from_spec(v: RectCommand) -> Self {
        persist_rect_command(v)
    }
}

impl From<PersistedRectCommand> for RectCommand {
    fn from(value: PersistedRectCommand) -> (r: Self) {
        RectCommand {
            x: value.x,
            y: value.y,
            width: value.width,
            height: value.height,
            fill: value.fill,
        }
    }
}

/// `RectCommand` built from a `PersistedRectCommand`.
pub open spec fn restore_rect_command(v: PersistedRectCommand) -> RectCommand {
    RectCommand { x: v.x, y: v.y, width: v.width, height: v.height, fill: v.fill }
}

impl FromSpecImpl<PersistedRectCommand> for RectCommand {
    open spec fn obeys_from_spec() -> bool {
        true
    }

    open spec fn from_spec(v: PersistedRectCommand) -> Self {
        restore_rect_command(v)
    }
}

/// Persisted form of [`PageChromeKind`].
#[derive(Clone, Copy, Debug, PartialEq, Eq)]
pub enum PersistedPageChromeKind {
    Header,
    Footer,
    Progress,
}

impl From<PageChromeKind> for PersistedPageChromeKind {
    fn from(value: PageChromeKind) -> (r: Self) {
        match value {
            PageChromeKind::Header => PersistedPageChromeKind::Header,
            PageChromeKind::Footer => PersistedPageChromeKind::Footer,
            PageChromeKind::Progress => PersistedPageChromeKind::Progress,
        }
    }
}

/// `PersistedPageChromeKind` built from a `PageChromeKind`.
pub open spec fn persist_page_chrome_kind(v: PageChromeKind) -> PersistedPageChromeKind {
    match v {
        PageChromeKind::Header => PersistedPageChromeKind::Header,
        PageChromeKind::Footer => PersistedPageChromeKind::Footer,
        PageChromeKind::Progress => PersistedPageChromeKind::Progress,
    }
}

impl FromSpecImpl<PageChromeKind> for PersistedPageChromeKind {
    open spec fn obeys_from_spec() -> bool {
        true
    }

    open spec fn from_spec(v: PageChromeKind) -> Self {
        persist_page_chrome_kind(v)
    }
}

impl From<PersistedPageChromeKind> for PageChromeKind {
    fn from(value: PersistedPageChromeKind) -> (r: Self) {
        match value {
            PersistedPageChromeKind::Header => PageChromeKind::Header,
            PersistedPageChromeKind::Footer => PageChromeKind::Footer,
            PersistedPageChromeKind::Progress => PageChromeKind::Progress,
        }
    }
}

/// `PageChromeKind` built from a `PersistedPageChromeKind`.
pub open spec fn restore_page_chrome_kind(v: PersistedPageChromeKind) -> PageChromeKind {
    match v {
        PersistedPageChromeKind::Header => PageChromeKind::Header,
        PersistedPageChromeKind::Footer => PageChromeKind::Footer,
        PersistedPageChromeKind::Progress => PageChromeKind::Progress,
    }
}

impl FromSpecImpl<PersistedPageChromeKind> for PageChromeKind {
    open spec fn obeys_from_spec() -> bool {
        true
    }

    open spec fn from_spec(v: PersistedPageChromeKind) -> Self {
        restore_page_chrome_kind(v)
    }
}

/// Persisted form of [`PageChromeCommand`].
#[derive(Clone, Debug, PartialEq, Eq)]
pub struct PersistedPageChromeCommand {
    pub kind: PersistedPageChromeKind,
    pub text: Option<String>,
    pub current: Option<usize>,
    pub total: Option<usize>,
}

impl From<&PageChromeCommand> for PersistedPageChromeCommand {
    fn from(value: &PageChromeCommand) -> (r: Self) {
        PersistedPageChromeCommand {
            kind: PersistedPageChromeKind::from(value.kind),
            text: clone_opt_string(&value.text),
            current: value.current,
            total: value.total,
        }
    }
}

/// `PersistedPageChromeCommand` built from a `PageChromeCommand`.
pub open spec fn persist_page_chrome_command(v: PageChromeCommand) -> PersistedPageChromeCommand {
    PersistedPageChromeCommand {
        kind: persist_page_chrome_kind(v.kind),
        text: v.text,
        current: v.current,
        total: v.total,
    }
}

impl FromSpecImpl<&PageChromeCommand> for PersistedPageChromeCommand {
    open spec fn obeys_from_spec() -> bool {
        true
    }

    open spec fn from_spec(v: &PageChromeCommand) -> Self {
        persist_page_chrome_command(*v)
    }
}

impl From<PersistedPageChromeCommand> for PageChromeCommand {
    fn from(value: PersistedPageChromeCommand) -> (r: Self) {
        PageChromeCommand {
            kind: PageChromeKind::from(value.kind),
            text: value.text,
            current: value.current,
            total: value.total,
        }
    }
}

/// `PageChromeCommand` built from a `PersistedPageChromeCommand`.
pub open spec fn restore_page_chrome_command(v: PersistedPageChromeCommand) -> PageChromeCommand {
    PageChromeCommand {
        kind: restore_page_chrome_kind(v.kind),
        text: v.text,
        current: v.current,
        total: v.total,
    }
}

impl FromSpecImpl<PersistedPageChromeCommand> for PageChromeCommand {
    open spec fn obeys_from_spec() -> bool {
        true
    }

    open spec fn from_spec(v: PersistedPageChromeCommand) -> Self {
        restore_page_chrome_command(v)
    }
}

/// Persisting a value and restoring it gives the value back, for every
/// integer-only draw primitive, overlay slot, role and justification mode.
pub proof fn law_persist_restore_roundtrip(
    rule: RuleCommand,
    rect: RectCommand,
    orect: OverlayRect,
    slot: OverlaySlot,
    role: BlockRole,
    justify: JustifyMode,
    kind: PageChromeKind,
)
    ensures
        restore_rule_command(persist_rule_command(rule)) == rule,
        restore_rect_command(persist_rect_command(rect)) == rect,
        restore_overlay_rect(persist_overlay_rect(orect)) == orect,
        restore_slot(persist_slot(slot)) == slot,
        restore_block_role(persist_block_role(role)) == role,
        restore_justify_mode(persist_justify_mode(justify)) == justify,
        restore_page_chrome_kind(persist_page_chrome_kind(kind)) == kind,
{
}

/// Restoring a persisted value and persisting it again gives the persisted value back.
pub proof fn law_restore_persist_roundtrip(
    rule: PersistedRuleCommand,
    rect: PersistedRectCommand,
    orect: PersistedOverlayRect,
    slot: PersistedOverlaySlot,
    role: PersistedBlockRole,
    justify: PersistedJustifyMode,
    kind: PersistedPageChromeKind,
)
    ensures
        persist_rule_command(restore_rule_command(rule)) == rule,
        persist_rect_command(restore_rect_command(rect)) == rect,
        persist_overlay_rect(restore_overlay_rect(orect)) == orect,
        persist_slot(restore_slot(slot)) == slot,
        persist_block_role(restore_block_role(role)) == role,
        persist_justify_mode(restore_justify_mode(justify)) == justify,
        persist_page_chrome_kind(restore_page_chrome_kind(kind)) == kind,
{
}

/// Image and chrome commands survive a persist/restore round trip unchanged.
pub proof fn law_command_roundtrip(image: ImageObjectCommand, chrome: PageChromeCommand)
    ensures
        restore_image_object_command(persist_image_object_command(image)) == image,
        restore_page_chrome_command(persist_page_chrome_command(chrome)) == chrome,
{
}

/// A persisted annotation kind tag survives restoring and persisting again.
pub proof fn law_annotation_kind_string_compatibility(
    persisted_kind: Seq<char>,
    restored: PageAnnotationKind,
)
    requires
        restored.decodes_to(persisted_kind),
    ensures
        restored.tag() == persisted_kind,
{
}

/// Persisting keeps every field and maps each variant to its namesake:
/// positions, sizes, flags, texts and counts carry over unchanged, and a
/// slot, role, justification mode or chrome kind becomes the persisted
/// variant of the same name with the same payload.
pub proof fn law_persisted_forms_keep_values(
    rule: RuleCommand,
    rect: RectCommand,
    orect: OverlayRect,
    image: ImageObjectCommand,
    chrome: PageChromeCommand,
    level: u8,
    extra: i32,
    offset: i32,
)
    ensures
        persist_rule_command(rule) == (PersistedRuleCommand { x: rule.x, y: rule.y, length: rule.length, thickness: rule.thickness, horizontal: rule.horizontal }),
        persist_rect_command(rect) == (PersistedRectCommand { x: rect.x, y: rect.y, width: rect.width, height: rect.height, fill: rect.fill }),
        persist_overlay_rect(orect) == (PersistedOverlayRect { x: orect.x, y: orect.y, width: orect.width, height: orect.height }),
        persist_image_object_command(image) == (PersistedImageObjectCommand { src: image.src, alt: image.alt, x: image.x, y: image.y, width: image.width, height: image.height }),
        persist_page_chrome_command(chrome).text == chrome.text,
        persist_page_chrome_command(chrome).current == chrome.current,
        persist_page_chrome_command(chrome).total == chrome.total,
        persist_page_chrome_kind(PageChromeKind::Header) == PersistedPageChromeKind::Header,
        persist_page_chrome_kind(PageChromeKind::Footer) == PersistedPageChromeKind::Footer,
        persist_page_chrome_kind(PageChromeKind::Progress) == PersistedPageChromeKind::Progress,
        persist_slot(OverlaySlot::TopLeft) == PersistedOverlaySlot::TopLeft,
        persist_slot(OverlaySlot::TopCenter) == PersistedOverlaySlot::TopCenter,
        persist_slot(OverlaySlot::TopRight) == PersistedOverlaySlot::TopRight,
        persist_slot(OverlaySlot::BottomLeft) == PersistedOverlaySlot::BottomLeft,
        persist_slot(OverlaySlot::BottomCenter) == PersistedOverlaySlot::BottomCenter,
        persist_slot(OverlaySlot::BottomRight) == PersistedOverlaySlot::BottomRight,
        persist_slot(OverlaySlot::Custom(orect)) == PersistedOverlaySlot::Custom(persist_overlay_rect(orect)),
        persist_block_role(BlockRole::Body) == PersistedBlockRole::Body,
        persist_block_role(BlockRole::Paragraph) == PersistedBlockRole::Paragraph,
        persist_block_role(BlockRole::Heading(level)) == PersistedBlockRole::Heading(level),
        persist_block_role(BlockRole::ListItem) == PersistedBlockRole::ListItem,
        persist_block_role(BlockRole::FigureCaption) == PersistedBlockRole::FigureCaption,
        persist_block_role(BlockRole::Preformatted) == PersistedBlockRole::Preformatted,
        persist_justify_mode(JustifyMode::NoJustify) == PersistedJustifyMode::NoJustify,
        persist_justify_mode(JustifyMode::InterWord { extra_px_total: extra }) == (PersistedJustifyMode::InterWord { extra_px_total: extra }),
        persist_justify_mode(JustifyMode::AlignRight { offset_px: offset }) == (PersistedJustifyMode::AlignRight { offset_px: offset }),
        persist_justify_mode(JustifyMode::AlignCenter { offset_px: offset }) == (PersistedJustifyMode::AlignCenter { offset_px: offset }),
{
}

} // verus!
