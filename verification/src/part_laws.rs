//! What the small parts do that the larger ones are made of.

use vstd::prelude::*;

use crate::geometry::Point;
use crate::pty::session::{Span, SshError, SshErrorCode};
use crate::pty::ssh::{is_would_block, ExitRecord};
use crate::quick_launch::errors::QuickLaunchError;
use crate::quick_launch::services::{
    is_executable_path, validate_program_path, FileMode, PathFacts,
};
use crate::quick_launch::state::{
    ContextMenuState, ContextMenuTarget, DragState, DropTarget, InlineEditState, QuickLaunchState,
};
use crate::settings::{
    ensure_settings_file, json_of, judge_written, settings_fields,
    SettingsData, SettingsError, SettingsLoad, SettingsLoadStatus,
};
use crate::term::surface::{GridPoint, TerminalSize};
use crate::terminal_workspace::state::TerminalTabState;
use crate::terminal_workspace::types::{TerminalEntry, TerminalKind};
use crate::text::{joined, same_text, texts};
use crate::ui_engine::{has_cells, Engine};

verus! {

/// A second has a thousand milliseconds, and a millisecond a million nanoseconds.
pub proof fn spans_are_counted_in_nanoseconds(n: u64, of_secs: Span, of_millis: Span)
    requires
        call_ensures(Span::from_secs, (n,), of_secs),
        call_ensures(Span::from_millis, (n,), of_millis),
    ensures
        of_secs.nanos == of_millis.nanos * 1000,
        of_millis.nanos == n * 1_000_000,
{
}

/// Only the number by which the SSH library says that it would block asks for
/// another try.
pub proof fn blocked_library_is_recognised(error: SshError, again: bool)
    requires
        call_ensures(is_would_block, (&error,), again),
    ensures
        again == (error.code matches SshErrorCode::Session(number) && number == -37),
{
}

/// The status of a remote child is asked for at its end, once; its exit is told
/// until that was done.
pub proof fn exit_is_asked_for_once(record: ExitRecord, eof: bool, needed: bool, owed: bool)
    requires
        call_ensures(ExitRecord::needs_status, (&record, eof), needed),
        call_ensures(ExitRecord::must_notify, (&record,), owed),
    ensures
        needed == (eof && record.exit_status is None),
        owed == !record.exit_notified,
{
}

/// What was loaded comes apart into the settings and how they were found.
pub proof fn loaded_settings_come_apart(
    load: SettingsLoad,
    parts: (SettingsData, SettingsLoadStatus),
)
    requires
        call_ensures(SettingsLoad::into_parts, (load,), parts),
    ensures
        parts.0 == load.data,
        parts.1 == load.status,
{
}

/// Settings that could not be written give the reason; written ones are handed on
/// as they are.
pub proof fn writing_is_judged(
    written: Result<String, String>,
    r: Result<String, SettingsError>,
)
    requires
        call_ensures(judge_written, (written,), r),
    ensures
        written matches Ok(text) ==> r == Ok::<_, SettingsError>(text),
        written matches Err(problem) ==> r == Err::<String, _>(SettingsError::Json(problem)),
{
}

/// The settings are stored under three names: the shell, the editor and the
/// palette.
pub proof fn settings_have_their_fields(
    settings: SettingsData,
    r: (Vec<(String, String)>, Vec<(String, Vec<String>)>),
)
    requires
        call_ensures(settings_fields, (&settings,), r),
    ensures
        r.0@.len() == 2,
        r.0@[0].0@ == "terminal_shell"@ && r.0@[0].1@ == settings@.terminal_shell,
        r.0@[1].0@ == "terminal_editor"@ && r.0@[1].1@ == settings@.terminal_editor,
        r.1@.len() == 1,
        r.1@[0].0@ == "theme_palette"@ && texts(r.1@[0].1@) == settings@.theme_palette,
{
}

/// On a launch a file of the settings that is there is left alone; where there is
/// none, one is written that can be read.
pub proof fn missing_settings_are_written(exists: bool, r: Result<Option<String>, SettingsError>)
    requires
        call_ensures(ensure_settings_file, (exists,), r),
    ensures
        exists ==> r == Ok::<Option<String>, SettingsError>(None),
        !exists ==> (r matches Ok(Some(text)) && json_of(text@) is Ok),
{
}

/// A program is a file that someone may execute; where there are no rights to
/// execute, any file is one.
pub proof fn programs_can_be_executed(facts: PathFacts, program: bool)
    requires
        call_ensures(is_executable_path, (&facts,), program),
    ensures
        program ==> facts.is_file,
        facts.is_file && facts.mode is Unused ==> program,
        facts.mode is Unreadable ==> !program,
        facts.mode matches FileMode::Bits(bits) ==> (facts.is_file ==> program == (bits & 0o111
            != 0)),
{
}

/// A path to a program is refused where there is nothing, where there is a
/// directory, and where there is no program, in this order.
pub proof fn program_path_is_judged(
    facts: PathFacts,
    label: &str,
    program: bool,
    r: Result<(), QuickLaunchError>,
)
    requires
        call_ensures(is_executable_path, (&facts,), program),
        call_ensures(validate_program_path, (&facts, label), r),
    ensures
        r is Ok == (facts.exists && !facts.is_dir && program),
        !facts.exists ==> (r matches Err(QuickLaunchError::Validation { message }) && message@
            == "Program not found: "@ + label@),
        facts.exists && facts.is_dir ==> (r matches Err(QuickLaunchError::Validation { message })
            && message@ == "Program is a directory: "@ + label@),
        facts.exists && !facts.is_dir && !program ==> (r matches Err(
            QuickLaunchError::Validation { message },
        ) && message@ == "Program is not executable: "@ + label@),
{
}

/// A tab knows its terminals and its kind.
pub proof fn tab_knows_its_terminals(
    tab: TerminalTabState,
    id: u64,
    entry: Option<&TerminalEntry>,
    focused: Option<&TerminalEntry>,
    shell: bool,
)
    requires
        tab.wf(),
        call_ensures(TerminalTabState::terminal_entry, (&tab, id), entry),
        call_ensures(TerminalTabState::focused_terminal_entry, (&tab,), focused),
        call_ensures(TerminalTabState::is_shell, (&tab,), shell),
    ensures
        entry is Some == tab@.terminals.contains_key(id),
        entry matches Some(found) ==> found@ == tab@.terminals[id],
        focused matches Some(found) && found@ == tab@.terminals[tab@.panes[tab@.focus->0]],
        shell == (tab@.kind == TerminalKind::Shell),
{
    tab.wf_tab_ok();
}

/// Two texts that are joined follow each other, and texts are the same where their
/// characters are.
pub proof fn texts_are_joined_and_compared(a: &str, b: &str, both: String, same: bool)
    requires
        call_ensures(joined, (a, b), both),
        call_ensures(same_text, (a, b), same),
    ensures
        both@.len() == a@.len() + b@.len(),
        both@.take(a@.len() as int) == a@,
        both@.skip(a@.len() as int) == b@,
        same == (a@ == b@),
{
    assert(both@.take(a@.len() as int) =~= a@);
    assert(both@.skip(a@.len() as int) =~= b@);
}

/// The place of the mouse is the cell under it: as many whole cells fit before it
/// as its column and its line say, and the last ones take what lies beyond.
pub proof fn mouse_is_over_its_cell(
    x: usize,
    y: usize,
    size: TerminalSize,
    display_offset: usize,
    point: GridPoint,
)
    requires
        has_cells(size),
        display_offset <= i32::MAX,
        call_ensures(Engine::selection_point, (x, y, &size, display_offset), point),
    ensures
        point.column < size.cols,
        -(display_offset as int) <= point.line < size.rows - display_offset,
        point.column * size.cell_width <= x,
        point.column + 1 < size.cols ==> x < (point.column + 1) * size.cell_width,
        (point.line + display_offset) * size.cell_height <= y,
        point.line + display_offset + 1 < size.rows ==> y < (point.line + display_offset + 1)
            * size.cell_height,
{
    lemma_whole_cells(x as int, size.cell_width as int, size.cols as int);
    lemma_whole_cells(y as int, size.cell_height as int, size.rows as int);
}

proof fn lemma_whole_cells(place: int, cell: int, count: int)
    requires
        place >= 0,
        cell > 0,
        count > 0,
    ensures
        place / cell >= 0,
        (place / cell) * cell <= place < (place / cell + 1) * cell,
        place / cell > count - 1 ==> (count - 1) * cell <= place,
{
    assert(place / cell >= 0 && (place / cell) * cell <= place < (place / cell + 1) * cell)
        by (nonlinear_arith)
        requires
            place >= 0,
            cell > 0,
    ;
    if place / cell > count - 1 {
        assert((count - 1) * cell <= (place / cell) * cell) by (nonlinear_arith)
            requires
                place / cell > count - 1,
                cell > 0,
        ;
    }
}

/// What the widget was given to keep is what it hands out, and it hands it out
/// once; the tree is not touched by it.
pub proof fn widget_hands_out_what_it_keeps(
    first: &mut QuickLaunchState,
    edit: InlineEditState,
    second: &mut QuickLaunchState,
    taken: Option<InlineEditState>,
)
    requires
        call_ensures(QuickLaunchState::set_inline_edit, (first, Some(edit)), ()),
        call_ensures(QuickLaunchState::take_inline_edit, (second,), taken),
        *final(first) == *old(second),
    ensures
        taken matches Some(handed) && handed@ == edit@,
        final(second)@.inline_edit is None,
        final(second)@.data == old(first)@.data,
        final(second)@.drag == old(first)@.drag,
{
}

/// A drag and where it aims are kept, and handed out once.
pub proof fn widget_hands_out_the_drag(
    first: &mut QuickLaunchState,
    drag: DragState,
    second: &mut QuickLaunchState,
    taken: Option<DragState>,
    third: &mut QuickLaunchState,
    target: DropTarget,
    fourth: &mut QuickLaunchState,
    aimed: Option<DropTarget>,
)
    requires
        call_ensures(QuickLaunchState::set_drag, (first, Some(drag)), ()),
        call_ensures(QuickLaunchState::take_drag, (second,), taken),
        *final(first) == *old(second),
        call_ensures(QuickLaunchState::set_drop_target, (third, Some(target)), ()),
        call_ensures(QuickLaunchState::take_drop_target, (fourth,), aimed),
        *final(third) == *old(fourth),
    ensures
        taken matches Some(handed) && handed@ == drag@,
        final(second)@.drag is None,
        aimed matches Some(handed) && handed@ == target@,
        final(fourth)@.drop_target is None,
        final(second)@.data == old(first)@.data,
        final(fourth)@.data == old(third)@.data,
{
}

/// A context menu is on what it was opened for, where it was opened, and the
/// widget keeps it until it is closed.
pub proof fn widget_keeps_its_menu(
    menu: ContextMenuState,
    target: ContextMenuTarget,
    cursor: Point,
    on_target: ContextMenuState,
    at_cursor: ContextMenuState,
    state: &mut QuickLaunchState,
    closed: &mut QuickLaunchState,
)
    requires
        call_ensures(ContextMenuState::with_target, (menu, target), on_target),
        call_ensures(ContextMenuState::with_cursor, (menu, cursor), at_cursor),
        call_ensures(QuickLaunchState::set_context_menu, (state, Some(menu)), ()),
        call_ensures(QuickLaunchState::clear_context_menu, (closed,), ()),
    ensures
        on_target@.target == target@ && on_target@.cursor == menu@.cursor,
        at_cursor@.cursor == cursor && at_cursor@.target == menu@.target,
        final(state)@.context_menu == Some(menu@),
        final(closed)@.context_menu is None,
        final(state)@.data == old(state)@.data,
{
}

/// The tree is stored once it has changed: while it is being stored and until that
/// has worked, it counts as changed.
pub proof fn changes_are_kept_in_mind(
    marked: &mut QuickLaunchState,
    begun: &mut QuickLaunchState,
    stored: &mut QuickLaunchState,
    failed: &mut QuickLaunchState,
)
    requires
        call_ensures(QuickLaunchState::mark_dirty, (marked,), ()),
        call_ensures(QuickLaunchState::begin_persist, (begun,), ()),
        call_ensures(QuickLaunchState::complete_persist, (stored,), ()),
        call_ensures(QuickLaunchState::fail_persist, (failed,), ()),
    ensures
        final(marked)@.dirty,
        final(marked)@.persist_in_flight == old(marked)@.persist_in_flight,
        final(begun)@.persist_in_flight,
        final(begun)@.dirty == old(begun)@.dirty,
        !final(stored)@.dirty && !final(stored)@.persist_in_flight,
        !final(failed)@.persist_in_flight,
        final(failed)@.dirty == old(failed)@.dirty,
        final(marked)@.data == old(marked)@.data,
        final(stored)@.data == old(stored)@.data,
{
}

} // verus!
