use vstd::prelude::*;
use crate::entry::{EntryInfo, EntryModel, check_dir_name, copy_bytes, is_dir_name, parent_of, parent_path};

verus! {

/// Model of one narration line. All lines carry the member's index.
pub enum NarrModel {
    /// The member's non-empty comment.
    Comment { index: int, text: Seq<u8> },
    /// A directory member was extracted to `path`.
    Dir { index: int, path: Seq<u8> },
    /// A file member of `size` bytes was extracted to `path`.
    File { index: int, path: Seq<u8>, size: u64 },
}

/// One line of the extraction narration.
#[derive(Debug, PartialEq, Eq)]
pub enum Narration {
    /// The member's non-empty comment.
    Comment { index: usize, text: Vec<u8> },
    /// A directory member was extracted to `path`.
    Dir { index: usize, path: Vec<u8> },
    /// A file member of `size` bytes was extracted to `path`.
    File { index: usize, path: Vec<u8>, size: u64 },
}

impl View for Narration {
    type V = NarrModel;

    open spec fn view(&self) -> NarrModel {
        match *self {
            Narration::Comment { index, text } => NarrModel::Comment {
                index: index as int,
                text: text@,
            },
            Narration::Dir { index, path } => NarrModel::Dir { index: index as int, path: path@ },
            Narration::File { index, path, size } => NarrModel::File {
                index: index as int,
                path: path@,
                size,
            },
        }
    }
}

/// Model of one filesystem command.
pub enum CmdModel {
    /// Create the directory `path` and every missing ancestor; succeed
    /// silently where the tree already exists.
    MakeDirs { path: Seq<u8> },
    /// Create or truncate the file at `path` and write `data` into it.
    WriteFile { path: Seq<u8>, data: Seq<u8> },
    /// Set the POSIX permission bits of `path` to `mode`; a no-op where
    /// the filesystem has no such bits.
    SetMode { path: Seq<u8>, mode: u32 },
}

/// One filesystem command, to be carried out in sequence by the caller.
#[derive(Debug, PartialEq, Eq)]
pub enum FsCommand {
    /// Create the directory `path` and every missing ancestor; succeed
    /// silently where the tree already exists.
    MakeDirs { path: Vec<u8> },
    /// Create or truncate the file at `path` and write `data` into it.
    WriteFile { path: Vec<u8>, data: Vec<u8> },
    /// Set the POSIX permission bits of `path` to `mode`; a no-op where
    /// the filesystem has no such bits.
    SetMode { path: Vec<u8>, mode: u32 },
}

impl View for FsCommand {
    type V = CmdModel;

    open spec fn view(&self) -> CmdModel {
        match *self {
            FsCommand::MakeDirs { path } => CmdModel::MakeDirs { path: path@ },
            FsCommand::WriteFile { path, data } => CmdModel::WriteFile {
                path: path@,
                data: data@,
            },
            FsCommand::SetMode { path, mode } => CmdModel::SetMode { path: path@, mode },
        }
    }
}

/// What extracting one member does: the lines it narrates and the
/// filesystem commands it requires, both in order.
#[derive(Debug, PartialEq, Eq)]
pub struct EntryPlan {
    /// The narration lines, to be printed in order before the commands run.
    pub narration: Vec<Narration>,
    /// The filesystem commands, to be carried out in order.
    pub commands: Vec<FsCommand>,
}

impl EntryPlan {
    /// The models of the plan's narration lines.
    pub open spec fn narr(&self) -> Seq<NarrModel> {
        self.narration@.map_values(|n: Narration| n@)
    }

    /// The models of the plan's commands.
    pub open spec fn cmds(&self) -> Seq<CmdModel> {
        self.commands@.map_values(|c: FsCommand| c@)
    }
}

/// The narration member `i` produces: nothing for a skipped member;
/// otherwise its comment line when the comment is non-empty, then one line
/// naming the destination (a directory marker, or a file with its declared
/// size).
pub open spec fn entry_narr(i: int, e: EntryModel) -> Seq<NarrModel> {
    match e.resolved {
        None => Seq::<NarrModel>::empty(),
        Some(path) => {
            let head = if e.comment.len() > 0 {
                seq![NarrModel::Comment { index: i, text: e.comment }]
            } else {
                Seq::<NarrModel>::empty()
            };
            let line = if is_dir_name(e.name) {
                NarrModel::Dir { index: i, path }
            } else {
                NarrModel::File { index: i, path, size: e.size }
            };
            head.push(line)
        },
    }
}

/// The filesystem commands a member requires, in execution order: none for
/// a skipped member; for a directory member, create the directory tree;
/// for a file member, create the parent chain when the path has one, then
/// write the full content; in either case, finally restore the recorded
/// permission bits when the member carries them.
pub open spec fn entry_cmds(e: EntryModel) -> Seq<CmdModel> {
    match e.resolved {
        None => Seq::<CmdModel>::empty(),
        Some(path) => {
            let make = if is_dir_name(e.name) {
                seq![CmdModel::MakeDirs { path }]
            } else {
                let pre = match parent_path(path) {
                    Some(par) => seq![CmdModel::MakeDirs { path: par }],
                    None => Seq::<CmdModel>::empty(),
                };
                pre.push(CmdModel::WriteFile { path, data: e.data })
            };
            match e.mode {
                Some(m) => make.push(CmdModel::SetMode { path, mode: m }),
                None => make,
            }
        },
    }
}

/// Decide what extracting one member does. A member without a safe resolved
/// path is skipped: it yields no narration and no command, and extraction
/// goes on with the next member.
pub fn entry_plan(index: usize, e: &EntryInfo) -> (r: EntryPlan)
    ensures
        r.narr() == entry_narr(index as int, e@),
        r.cmds() == entry_cmds(e@),
{
    let mut narration: Vec<Narration> = Vec::new();
    let mut commands: Vec<FsCommand> = Vec::new();
    match &e.resolved {
        None => {},
        Some(path) => {
            if e.comment.len() > 0 {
                narration.push(Narration::Comment { index, text: copy_bytes(&e.comment) });
            }
            if check_dir_name(&e.name) {
                narration.push(Narration::Dir { index, path: copy_bytes(path) });
                commands.push(FsCommand::MakeDirs { path: copy_bytes(path) });
            } else {
                narration.push(Narration::File { index, path: copy_bytes(path), size: e.size });
                match parent_of(path) {
                    Some(par) => {
                        commands.push(FsCommand::MakeDirs { path: par });
                    },
                    None => {},
                }
                commands.push(FsCommand::WriteFile { path: copy_bytes(path), data: copy_bytes(&e.data) });
            }
            match e.mode {
                Some(m) => {
                    commands.push(FsCommand::SetMode { path: copy_bytes(path), mode: m });
                },
                None => {},
            }
        },
    }
    let r = EntryPlan { narration, commands };
    proof {
        assert(r.narr() =~= entry_narr(index as int, e@));
        assert(r.cmds() =~= entry_cmds(e@));
    }
    r
}

} // verus!

