use vstd::prelude::*;

verus! {

/// Mathematical model of one archive member: everything the extraction
/// logic reads of an entry, as plain values.
pub struct EntryModel {
    /// The raw, archive-internal name (a directory name ends with `/`).
    pub name: Seq<u8>,
    /// The sanitized, root-enclosed relative path, absent when the raw
    /// name cannot be made safe.
    pub resolved: Option<Seq<u8>>,
    /// The member's comment, possibly empty.
    pub comment: Seq<u8>,
    /// The declared uncompressed size in bytes.
    pub size: u64,
    /// The recorded POSIX mode bits, when the archive carries them.
    pub mode: Option<u32>,
    /// The decompressed content.
    pub data: Seq<u8>,
}

/// One archive member, as plain values. Paths and names are byte strings
/// with `/` as the separator.
pub struct EntryInfo {
    /// The raw, archive-internal name.
    pub name: Vec<u8>,
    /// The sanitized, root-enclosed relative path, absent when the raw
    /// name cannot be made safe.
    pub resolved: Option<Vec<u8>>,
    /// The member's comment, possibly empty.
    pub comment: Vec<u8>,
    /// The declared uncompressed size in bytes.
    pub size: u64,
    /// The recorded POSIX mode bits, when the archive carries them.
    pub mode: Option<u32>,
    /// The decompressed content.
    pub data: Vec<u8>,
}

impl View for EntryInfo {
    type V = EntryModel;

    open spec fn view(&self) -> EntryModel {
        EntryModel {
            name: self.name@,
            resolved: match self.resolved {
                Some(p) => Some(p@),
                None => None,
            },
            comment: self.comment@,
            size: self.size,
            mode: self.mode,
            data: self.data@,
        }
    }
}

/// The byte value of the path separator `/`.
pub const SEPARATOR: u8 = 47;

/// A raw entry name marks a directory when it ends with the separator.
pub open spec fn is_dir_name(name: Seq<u8>) -> bool {
    name.len() > 0 && name.last() == SEPARATOR
}

/// Whether `name` marks a directory member.
pub fn check_dir_name(name: &Vec<u8>) -> (r: bool)
    ensures
        r == is_dir_name(name@),
{
    name.len() > 0 && name[name.len() - 1] == SEPARATOR
}

/// Copy a byte string.
pub fn copy_bytes(v: &Vec<u8>) -> (r: Vec<u8>)
    ensures
        r@ == v@,
{
    let mut out: Vec<u8> = Vec::new();
    let mut i: usize = 0;
    while i < v.len()
        invariant
            i <= v.len(),
            out@ == v@.subrange(0, i as int),
        decreases v.len() - i,
    {
        out.push(v[i]);
        i = i + 1;
        proof {
            assert(out@ =~= v@.subrange(0, i as int));
        }
    }
    proof {
        assert(out@ =~= v@);
    }
    out
}

/// The position of the last separator in `p`, or `-1` when `p` holds none.
pub open spec fn last_separator(p: Seq<u8>) -> int
    decreases p.len(),
{
    if p.len() == 0 {
        -1
    } else if p.last() == SEPARATOR {
        p.len() - 1
    } else {
        last_separator(p.drop_last())
    }
}

/// The parent of a relative path: everything before the last separator,
/// or nothing when the path is a single component.
pub open spec fn parent_path(p: Seq<u8>) -> Option<Seq<u8>> {
    if last_separator(p) >= 0 {
        Some(p.take(last_separator(p)))
    } else {
        None
    }
}

/// Compute the parent of a relative path, exactly as `parent_path` states.
pub fn parent_of(p: &Vec<u8>) -> (r: Option<Vec<u8>>)
    ensures
        (r is Some) == (parent_path(p@) is Some),
        r matches Some(q) ==> parent_path(p@) == Some(q@),
{
    let mut j: usize = p.len();
    proof {
        assert(p@.take(j as int) =~= p@);
    }
    while j > 0
        invariant
            j <= p.len(),
            last_separator(p@) == last_separator(p@.take(j as int)),
        decreases j,
    {
        if p[j - 1] == SEPARATOR {
            proof {
                assert(p@.take(j as int).last() == p@[j as int - 1]);
                assert(last_separator(p@.take(j as int)) == j - 1);
            }
            let k = j - 1;
            let mut out: Vec<u8> = Vec::new();
            let mut i: usize = 0;
            while i < k
                invariant
                    i <= k,
                    k <= p.len(),
                    out@ == p@.subrange(0, i as int),
                decreases k - i,
            {
                out.push(p[i]);
                i = i + 1;
                proof {
                    assert(out@ =~= p@.subrange(0, i as int));
                }
            }
            proof {
                assert(out@ =~= p@.take(k as int));
            }
            return Some(out);
        }
        proof {
            assert(p@.take(j as int).drop_last() =~= p@.take(j as int - 1));
            assert(p@.take(j as int).last() != SEPARATOR);
        }
        j = j - 1;
    }
    proof {
        assert(p@.take(0int) =~= Seq::<u8>::empty());
        assert(last_separator(p@) == -1);
    }
    None
}

} // verus!
