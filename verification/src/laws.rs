use vstd::prelude::*;
use crate::entry::{EntryModel, is_dir_name, parent_path};
use crate::plan::{CmdModel, NarrModel, entry_cmds, entry_narr};
use crate::zip_io::parse_zip;

verus! {

/// The member index a narration line names.
pub open spec fn narr_index(n: NarrModel) -> int {
    match n {
        NarrModel::Comment { index, .. } => index,
        NarrModel::Dir { index, .. } => index,
        NarrModel::File { index, .. } => index,
    }
}

/// Whether a narration line announces an extraction (a directory marker or
/// a file line), rather than a comment.
pub open spec fn is_extract_line(n: NarrModel) -> bool {
    !(n is Comment)
}

/// The narration of extracting a whole archive: each member's lines, in
/// index order.
pub open spec fn archive_narration(entries: Seq<EntryModel>) -> Seq<NarrModel>
    decreases entries.len(),
{
    if entries.len() == 0 {
        Seq::<NarrModel>::empty()
    } else {
        archive_narration(entries.drop_last()) + entry_narr(
            entries.len() - 1,
            entries.last(),
        )
    }
}

/// The commands of extracting a whole archive: each member's commands, in
/// index order.
pub open spec fn archive_commands(entries: Seq<EntryModel>) -> Seq<CmdModel>
    decreases entries.len(),
{
    if entries.len() == 0 {
        Seq::<CmdModel>::empty()
    } else {
        archive_commands(entries.drop_last()) + entry_cmds(entries.last())
    }
}

/// Where member `k`'s commands begin in the archive's command sequence.
pub open spec fn cmd_offset(entries: Seq<EntryModel>, k: int) -> int {
    archive_commands(entries.take(k)).len() as int
}

/// Every line member `i` narrates carries index `i`.
pub proof fn lemma_entry_narr_index(i: int, e: EntryModel)
    ensures
        forall|j: int|
            0 <= j < entry_narr(i, e).len() ==> narr_index(#[trigger] entry_narr(i, e)[j]) == i,
{
}

/// A member narrates at most one extraction line, and it stands last.
pub proof fn lemma_entry_narr_extract_last(i: int, e: EntryModel)
    ensures
        forall|j: int|
            0 <= j < entry_narr(i, e).len() && is_extract_line(#[trigger] entry_narr(i, e)[j])
                ==> j == entry_narr(i, e).len() - 1,
{
}

/// Every line of the archive narration names a member of the archive.
pub proof fn lemma_narration_index_range(entries: Seq<EntryModel>, j: int)
    requires
        0 <= j < archive_narration(entries).len(),
    ensures
        0 <= narr_index(archive_narration(entries)[j]) < entries.len(),
    decreases entries.len(),
{
    if entries.len() > 0 {
        let pre = archive_narration(entries.drop_last());
        if j < pre.len() {
            lemma_narration_index_range(entries.drop_last(), j);
        } else {
            lemma_entry_narr_index(entries.len() - 1, entries.last());
        }
    }
}

/// Law (order): in the narration of a whole archive the member indices the
/// lines name never decrease. A later line can repeat an index only where
/// one member emits two lines: its comment line and its extraction line.
pub proof fn lemma_narration_order(entries: Seq<EntryModel>, a: int, b: int)
    requires
        0 <= a < b < archive_narration(entries).len(),
    ensures
        narr_index(archive_narration(entries)[a]) <= narr_index(archive_narration(entries)[b]),
    decreases entries.len(),
{
    let pre = archive_narration(entries.drop_last());
    if b < pre.len() {
        lemma_narration_order(entries.drop_last(), a, b);
    } else if a < pre.len() {
        lemma_narration_index_range(entries.drop_last(), a);
        lemma_entry_narr_index(entries.len() - 1, entries.last());
    } else {
        lemma_entry_narr_index(entries.len() - 1, entries.last());
    }
}

/// Law (strict order of extraction lines): two extraction lines always name
/// distinct members, and the later line names the strictly larger index.
pub proof fn lemma_extraction_lines_strictly_ascend(entries: Seq<EntryModel>, a: int, b: int)
    requires
        0 <= a < b < archive_narration(entries).len(),
        is_extract_line(archive_narration(entries)[a]),
        is_extract_line(archive_narration(entries)[b]),
    ensures
        narr_index(archive_narration(entries)[a]) < narr_index(archive_narration(entries)[b]),
    decreases entries.len(),
{
    let pre = archive_narration(entries.drop_last());
    if b < pre.len() {
        lemma_extraction_lines_strictly_ascend(entries.drop_last(), a, b);
    } else if a < pre.len() {
        lemma_narration_index_range(entries.drop_last(), a);
        lemma_entry_narr_index(entries.len() - 1, entries.last());
    } else {
        lemma_entry_narr_extract_last(entries.len() - 1, entries.last());
        assert(false);
    }
}

/// Member `k`'s commands follow directly on the commands of the members
/// before it.
pub proof fn lemma_cmd_offset_step(entries: Seq<EntryModel>, k: int)
    requires
        0 <= k < entries.len(),
    ensures
        cmd_offset(entries, k + 1) == cmd_offset(entries, k) + entry_cmds(entries[k]).len(),
{
    assert(entries.take(k + 1).drop_last() =~= entries.take(k));
    assert(entries.take(k + 1).last() == entries[k]);
}

/// Command offsets never decrease along the archive.
pub proof fn lemma_cmd_offset_mono(entries: Seq<EntryModel>, i: int, j: int)
    requires
        0 <= i <= j <= entries.len(),
    ensures
        cmd_offset(entries, i) <= cmd_offset(entries, j),
    decreases j - i,
{
    if i < j {
        lemma_cmd_offset_step(entries, i);
        lemma_cmd_offset_mono(entries, i + 1, j);
    }
}

/// Member `k`'s commands stand contiguously in the archive's command
/// sequence, starting at `cmd_offset(entries, k)`.
pub proof fn lemma_commands_block(entries: Seq<EntryModel>, k: int)
    requires
        0 <= k < entries.len(),
    ensures
        cmd_offset(entries, k) + entry_cmds(entries[k]).len() <= archive_commands(entries).len(),
        archive_commands(entries).subrange(
            cmd_offset(entries, k),
            cmd_offset(entries, k) + entry_cmds(entries[k]).len() as int,
        ) == entry_cmds(entries[k]),
    decreases entries.len(),
{
    let n = entries.len() as int;
    let o = cmd_offset(entries, k);
    let l = entry_cmds(entries[k]).len() as int;
    if k == n - 1 {
        assert(entries.take(k) =~= entries.drop_last());
        assert(entries.last() == entries[k]);
        assert(archive_commands(entries).subrange(o, o + l) =~= entry_cmds(entries[k]));
    } else {
        lemma_commands_block(entries.drop_last(), k);
        assert(entries.drop_last().take(k) =~= entries.take(k));
        assert(entries.drop_last()[k] == entries[k]);
        let pre = archive_commands(entries.drop_last());
        assert(pre.subrange(o, o + l) == entry_cmds(entries[k]));
        assert(archive_commands(entries).subrange(o, o + l) =~= pre.subrange(o, o + l));
    }
}

/// Law (path safety): a member whose raw name cannot be resolved to a safe,
/// root-enclosed path is skipped entirely, it narrates nothing and commands
/// no filesystem work, and, the walk not having failed, extraction goes on
/// with the next member.
pub proof fn lemma_skipped_member_is_inert(i: int, e: EntryModel)
    requires
        e.resolved is None,
    ensures
        entry_narr(i, e) == Seq::<NarrModel>::empty(),
        entry_cmds(e) == Seq::<CmdModel>::empty(),
{
}

/// Law (reproducibility): what extraction does is a function of the archive
/// bytes alone. Two walks over archives opened from the same bytes plan the
/// same commands and narrate the same lines, so re-running extraction into
/// the same destination rebuilds the same tree: every directory command is
/// idempotent by its meaning, and every write replaces the destination
/// file's whole content with the same bytes as before.
pub proof fn lemma_extraction_reproducible(
    bytes: Seq<u8>,
    e1: Seq<EntryModel>,
    e2: Seq<EntryModel>,
)
    requires
        parse_zip(bytes) == Some(e1),
        parse_zip(bytes) == Some(e2),
    ensures
        archive_commands(e1) == archive_commands(e2),
        archive_narration(e1) == archive_narration(e2),
{
}

/// The position of a file member's write command inside its own plan: after
/// the command that creates the parent chain, when the path has a parent.
pub open spec fn write_slot(e: EntryModel) -> int {
    match e.resolved {
        Some(path) => if parent_path(path) is Some {
            1int
        } else {
            0int
        },
        None => 0int,
    }
}

/// Law (overwrite): when two file members resolve to the same destination
/// path, each plans a write of its full content to that path, and the later
/// member's write stands strictly later in the archive's command sequence.
/// With the commands carried out in order, and a write replacing the
/// destination file's whole content, the destination ends up holding the
/// later member's bytes.
pub proof fn lemma_later_entry_wins(entries: Seq<EntryModel>, i: int, j: int, p: Seq<u8>)
    requires
        0 <= i < j < entries.len(),
        entries[i].resolved == Some(p),
        entries[j].resolved == Some(p),
        !is_dir_name(entries[i].name),
        !is_dir_name(entries[j].name),
    ensures
        ({
            let wi = cmd_offset(entries, i) + write_slot(entries[i]);
            let wj = cmd_offset(entries, j) + write_slot(entries[j]);
            &&& wi < wj < archive_commands(entries).len()
            &&& archive_commands(entries)[wi] == (CmdModel::WriteFile {
                path: p,
                data: entries[i].data,
            })
            &&& archive_commands(entries)[wj] == (CmdModel::WriteFile {
                path: p,
                data: entries[j].data,
            })
        }),
{
    lemma_commands_block(entries, i);
    lemma_commands_block(entries, j);
    lemma_cmd_offset_step(entries, i);
    lemma_cmd_offset_mono(entries, i + 1, j);
    assert(entry_cmds(entries[i])[write_slot(entries[i])] == (CmdModel::WriteFile {
        path: p,
        data: entries[i].data,
    }));
    assert(entry_cmds(entries[j])[write_slot(entries[j])] == (CmdModel::WriteFile {
        path: p,
        data: entries[j].data,
    }));
    assert(write_slot(entries[i]) < entry_cmds(entries[i]).len());
    assert(write_slot(entries[j]) < entry_cmds(entries[j]).len());
}

} // verus!
