use vstd::prelude::*;

verus! {

/// Command layer of a rendered page.
#[derive(Clone, Copy, Debug, PartialEq, Eq)]
pub enum CommandLayer {
    Content,
    Chrome,
    Overlay,
}

/// Number of commands a page shows: the split layers when any holds a
/// command, the legacy merged stream otherwise.
pub fn merged_commands_len(content: usize, chrome: usize, overlay: usize, legacy: usize) -> (r: usize)
    requires
        content + chrome + overlay <= usize::MAX,
    ensures
        r == (if content + chrome + overlay > 0 {
            content + chrome + overlay
        } else {
            legacy as int
        }),
{
    let split = content + chrome + overlay;
    if split > 0 {
        split
    } else {
        legacy
    }
}

/// Where merged command `idx` lives when the layers are read in order:
/// content, then chrome, then overlay.
pub open spec fn merged_location(idx: int, content: int, chrome: int, overlay: int) -> Option<(CommandLayer, int)> {
    if idx < 0 {
        None
    } else if idx < content {
        Some((CommandLayer::Content, idx))
    } else if idx < content + chrome {
        Some((CommandLayer::Chrome, idx - content))
    } else if idx < content + chrome + overlay {
        Some((CommandLayer::Overlay, idx - content - chrome))
    } else {
        None
    }
}

/// Layer and position of merged command `idx` (content, then chrome, then
/// overlay), or `None` past the last command.
pub fn merged_command_location(idx: usize, content: usize, chrome: usize, overlay: usize) -> (r: Option<(CommandLayer, usize)>)
    ensures
        match merged_location(idx as int, content as int, chrome as int, overlay as int) {
            Some((layer, pos)) => r == Some((layer, pos as usize)),
            None => r is None,
        },
{
    if idx < content {
        return Some((CommandLayer::Content, idx));
    }
    let chrome_idx = idx - content;
    if chrome_idx < chrome {
        return Some((CommandLayer::Chrome, chrome_idx));
    }
    let overlay_idx = chrome_idx - chrome;
    if overlay_idx < overlay {
        Some((CommandLayer::Overlay, overlay_idx))
    } else {
        None
    }
}

/// How to bring the legacy merged stream up to date with the layers.
#[derive(Clone, Copy, Debug, PartialEq, Eq)]
pub enum SyncPlan {
    /// The stream already equals the merged layers.
    UpToDate,
    /// The stream is a prefix of the merged layers: append the merged
    /// commands from this index.
    AppendFrom(usize),
    /// Clear the stream and copy every layer.
    Rebuild,
}

/// The merged stream of a page: content, then chrome, then overlay.
pub open spec fn merged_stream<A>(content: Seq<A>, chrome: Seq<A>, overlay: Seq<A>) -> Seq<A> {
    content + chrome + overlay
}

/// Whether `stream` holds exactly the first `stream.len()` commands of `merged`.
pub open spec fn is_merged_prefix<A>(stream: Seq<A>, merged: Seq<A>) -> bool {
    stream.len() <= merged.len() && stream == merged.take(stream.len() as int)
}

/// Plan for a stream of `merged_len` commands against `total` merged
/// commands: keep it when it already equals them, extend it when it is a
/// prefix of them, else rebuild it.
pub open spec fn plan_for(merged_len: int, total: int, prefix_matches: bool) -> SyncPlan {
    if prefix_matches && merged_len == total {
        SyncPlan::UpToDate
    } else if prefix_matches && merged_len < total {
        SyncPlan::AppendFrom(merged_len as usize)
    } else {
        SyncPlan::Rebuild
    }
}

/// The stream after carrying out `plan` on `stream` with the merged
/// commands `merged`.
pub open spec fn synced_stream<A>(plan: SyncPlan, stream: Seq<A>, merged: Seq<A>) -> Seq<A> {
    match plan {
        SyncPlan::UpToDate => stream,
        SyncPlan::AppendFrom(from) => stream + merged.skip(from as int),
        SyncPlan::Rebuild => merged,
    }
}

/// Plan for syncing a merged stream of `merged_len` commands with layers of
/// the given sizes; `prefix_matches` tells whether every command of the
/// stream equals the merged command at its position.
pub fn sync_plan(merged_len: usize, content: usize, chrome: usize, overlay: usize, prefix_matches: bool) -> (r: SyncPlan)
    requires
        content + chrome + overlay <= usize::MAX,
    ensures
        r == plan_for(merged_len as int, content + chrome + overlay, prefix_matches),
        prefix_matches && merged_len == content + chrome + overlay ==> r == SyncPlan::UpToDate,
        prefix_matches && merged_len < content + chrome + overlay ==> r == SyncPlan::AppendFrom(
            merged_len,
        ),
        !prefix_matches || merged_len > content + chrome + overlay ==> r == SyncPlan::Rebuild,
{
    let expected = content + chrome + overlay;
    if prefix_matches && merged_len == expected {
        SyncPlan::UpToDate
    } else if prefix_matches && merged_len < expected {
        SyncPlan::AppendFrom(merged_len)
    } else {
        SyncPlan::Rebuild
    }
}

/// Syncing rebuilds the legacy stream from the layers: whatever the stream
/// held, carrying out the plan for it leaves exactly content, then chrome,
/// then overlay.
pub proof fn law_sync_yields_merged_stream<A>(stream: Seq<A>, content: Seq<A>, chrome: Seq<A>, overlay: Seq<A>)
    requires
        content.len() + chrome.len() + overlay.len() <= usize::MAX,
    ensures
        ({
            let merged = merged_stream(content, chrome, overlay);
            synced_stream(
                plan_for(stream.len() as int, merged.len() as int, is_merged_prefix(stream, merged)),
                stream,
                merged,
            ) == merged
        }),
{
    let merged = merged_stream(content, chrome, overlay);
    let plan = plan_for(stream.len() as int, merged.len() as int, is_merged_prefix(stream, merged));
    if is_merged_prefix(stream, merged) {
        if stream.len() < merged.len() {
            assert(plan == SyncPlan::AppendFrom(stream.len() as usize));
            assert(stream + merged.skip(stream.len() as int) =~= merged);
        } else {
            assert(stream =~= merged);
        }
    }
}

/// Start, in each layer, of the commands a stream holding the first `cursor`
/// merged commands still lacks.
pub open spec fn tail_starts(cursor: int, content: int, chrome: int, overlay: int) -> (int, int, int) {
    if cursor <= content {
        (cursor, 0, 0)
    } else if cursor <= content + chrome {
        (content, cursor - content, 0)
    } else if cursor <= content + chrome + overlay {
        (content, chrome, cursor - content - chrome)
    } else {
        (content, chrome, overlay)
    }
}

/// Layer and position of the `q`-th command appended when each layer's
/// commands from the given starts are appended in layer order.
pub open spec fn appended_location(
    starts: (int, int, int),
    q: int,
    content: int,
    chrome: int,
) -> (CommandLayer, int) {
    let from_content = content - starts.0;
    let from_chrome = chrome - starts.1;
    if q < from_content {
        (CommandLayer::Content, starts.0 + q)
    } else if q < from_content + from_chrome {
        (CommandLayer::Chrome, starts.1 + q - from_content)
    } else {
        (CommandLayer::Overlay, starts.2 + q - from_content - from_chrome)
    }
}

/// Syncing from a valid prefix appends exactly the missing merged commands,
/// in merged order: the `q`-th appended command is merged command
/// `cursor + q`.
pub proof fn law_synced_tail_is_merged_suffix(cursor: int, content: int, chrome: int, overlay: int, q: int)
    requires
        0 <= cursor,
        0 <= content,
        0 <= chrome,
        0 <= overlay,
        0 <= q < content + chrome + overlay - cursor,
    ensures
        merged_location(cursor + q, content, chrome, overlay) == Some(
            appended_location(tail_starts(cursor, content, chrome, overlay), q, content, chrome),
        ),
{
}

/// Ranges of each layer to append so that a stream holding the first
/// `cursor` merged commands ends up holding all of them.
pub fn synced_tail_ranges(cursor: usize, content: usize, chrome: usize, overlay: usize) -> (r: (
    (usize, usize),
    (usize, usize),
    (usize, usize),
))
    requires
        content + chrome + overlay <= usize::MAX,
    ensures
        (r.0.0 as int, r.1.0 as int, r.2.0 as int) == tail_starts(
            cursor as int,
            content as int,
            chrome as int,
            overlay as int,
        ),
        r.0.0 <= r.0.1 == content,
        r.1.0 <= r.1.1 == chrome,
        r.2.0 <= r.2.1 == overlay,
        cursor <= content ==> r.0.0 == cursor && r.1.0 == 0 && r.2.0 == 0,
        content < cursor <= content + chrome ==> r.0.0 == content && r.1.0 == cursor - content
            && r.2.0 == 0,
        content + chrome < cursor <= content + chrome + overlay ==> r.0.0 == content && r.1.0
            == chrome && r.2.0 == cursor - content - chrome,
        cursor <= content + chrome + overlay ==> (r.0.1 - r.0.0) + (r.1.1 - r.1.0) + (r.2.1
            - r.2.0) == content + chrome + overlay - cursor,
        cursor > content + chrome + overlay ==> r.0.0 == content && r.1.0 == chrome && r.2.0
            == overlay,
{
    let content_and_chrome = content + chrome;
    let mut cur = cursor;
    let content_start = if cur < content {
        let s = cur;
        cur = content;
        s
    } else {
        content
    };
    let chrome_start = if cur < content_and_chrome {
        let s = cur - content;
        cur = content_and_chrome;
        s
    } else {
        chrome
    };
    let overlay_start_raw = if cur > content_and_chrome {
        cur - content_and_chrome
    } else {
        0
    };
    let overlay_start = if overlay_start_raw < overlay {
        overlay_start_raw
    } else {
        overlay
    };
    ((content_start, content), (chrome_start, chrome), (overlay_start, overlay))
}

} // verus!
