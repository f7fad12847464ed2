use vstd::prelude::*;
use crate::entry::EntryModel;
use crate::plan::{EntryPlan, entry_cmds, entry_narr, entry_plan};
use crate::zip_io::{archive_len, entry_readable, open_archive, parse_zip, read_entry, zip_entries};

verus! {

/// What one step of extraction hands to the caller.
pub enum Step {
    /// Every member has been handed out: extraction is complete.
    Done,
    /// A failure was reported earlier: nothing further is handed out.
    Aborted,
    /// The member at `index` cannot be decoded (a fixed property of the
    /// opened archive): extraction stops here and every later step yields
    /// `Aborted`.
    ReadError { index: usize },
    /// The plan for the member at `index`: narrate its lines, then carry
    /// out its commands in order.
    Entry { index: usize, plan: EntryPlan },
}

/// Walks an opened archive in strict ascending index order and plans each
/// member's extraction. The caller carries out each plan's commands and
/// reports a failure back; after a failure (reported, or met while reading
/// a member) the walk aborts: no later member is planned.
pub struct Extractor {
    archive: zip::ZipArchive<std::io::Cursor<Vec<u8>>>,
    next: usize,
    failed: bool,
}

impl Extractor {
    /// The archive's members, in index order.
    pub closed spec fn entries(&self) -> Seq<EntryModel> {
        zip_entries(self.archive)
    }

    /// The index of the next member to hand out.
    pub closed spec fn pos(&self) -> int {
        self.next as int
    }

    /// Whether a failure has been met or reported.
    pub closed spec fn has_failed(&self) -> bool {
        self.failed
    }

    /// Whether the member at index `i` can be decoded at all: a fixed
    /// property of the opened archive, which decides whether the walk hands
    /// the member out or stops with `ReadError`.
    pub closed spec fn member_readable(&self, i: int) -> bool {
        entry_readable(self.archive, i)
    }

    /// Open an archive from its full byte contents. Succeeds exactly when
    /// the bytes form a valid container; the walk then starts at index 0.
    pub fn open(bytes: Vec<u8>) -> (r: Option<Extractor>)
        ensures
            (r is Some) == (parse_zip(bytes@) is Some),
            r matches Some(ex) ==> {
                &&& parse_zip(bytes@) == Some(ex.entries())
                &&& ex.pos() == 0
                &&& !ex.has_failed()
            },
    {
        match open_archive(bytes) {
            Some(a) => Some(Extractor { archive: a, next: 0, failed: false }),
            None => None,
        }
    }

    /// Hand out the next member's plan. Members come in strict ascending
    /// index order; a member is handed out exactly when it can be decoded,
    /// a member the archive cannot decode stops the walk with `ReadError`,
    /// and after any failure only `Aborted` comes back.
    pub fn next_entry(&mut self) -> (r: Step)
        ensures
            final(self).entries() == old(self).entries(),
            forall|k: int|
                final(self).member_readable(k) == #[trigger] old(self).member_readable(k),
            old(self).has_failed() ==> {
                &&& r is Aborted
                &&& final(self).pos() == old(self).pos()
                &&& final(self).has_failed()
            },
            !old(self).has_failed() && old(self).pos() >= old(self).entries().len() ==> {
                &&& r is Done
                &&& final(self).pos() == old(self).pos()
                &&& !final(self).has_failed()
            },
            !old(self).has_failed() && old(self).pos() < old(self).entries().len() ==> {
                &&& final(self).pos() == old(self).pos() + 1
                &&& (r is ReadError || r is Entry)
                &&& (r is Entry) == old(self).member_readable(old(self).pos())
                &&& (r is ReadError) == !old(self).member_readable(old(self).pos())
                &&& (r matches Step::ReadError { index } ==> {
                    &&& index as int == old(self).pos()
                    &&& final(self).has_failed()
                })
                &&& (r matches Step::Entry { index, plan } ==> {
                    &&& index as int == old(self).pos()
                    &&& plan.narr() == entry_narr(
                        old(self).pos(),
                        old(self).entries()[old(self).pos()],
                    )
                    &&& plan.cmds() == entry_cmds(old(self).entries()[old(self).pos()])
                    &&& !final(self).has_failed()
                })
            },
    {
        if self.failed {
            return Step::Aborted;
        }
        let n = archive_len(&self.archive);
        if self.next >= n {
            return Step::Done;
        }
        let index = self.next;
        self.next = index + 1;
        match read_entry(&mut self.archive, index) {
            Some(info) => {
                let plan = entry_plan(index, &info);
                Step::Entry { index, plan }
            },
            None => {
                self.failed = true;
                Step::ReadError { index }
            },
        }
    }

    /// Record that a command of the member just handed out could not be
    /// carried out: every later `next_entry` yields `Aborted`, so no member
    /// after the failing one is ever planned.
    pub fn report_failure(&mut self)
        ensures
            final(self).entries() == old(self).entries(),
            final(self).pos() == old(self).pos(),
            final(self).has_failed(),
    {
        self.failed = true;
    }
}

} // verus!
