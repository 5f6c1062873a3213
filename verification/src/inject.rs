//! Injector: choosing the target process and preparing the module path that
//! the remote loader thread receives.
//!
//! The injector walks a snapshot of the running processes once and picks the
//! first whose image name contains the target name (case-insensitively),
//! whose parent is the searched-for process, and which is not that parent
//! itself. Taking the snapshot, opening the match, allocating and writing the
//! remote buffer and running the remote thread are operating-system calls and
//! live outside this crate; which process is picked, and the exact buffer
//! contents, are decided here.

use vstd::prelude::*;

verus! {

/// Why injection failed.
#[derive(Clone, Copy, PartialEq, Eq, Structural, Debug)]
pub enum InjectError {
    /// The snapshot held no matching process.
    NotFound,
    /// The matched process could not be opened with the needed rights.
    AccessDenied,
    /// The remote allocation failed.
    OutOfMemory,
    /// Some other process, memory or thread call failed.
    OsError,
}

/// One process as the snapshot reports it: its id, its parent's id, and its
/// image name as the snapshot's wide characters (trailing padding included).
pub struct ProcessRecord {
    pub pid: u32,
    pub parent_pid: u32,
    pub name: Vec<u16>,
}

/// ASCII lowercasing of one wide character; everything else is unchanged.
pub open spec fn lower_u16(c: u16) -> u16 {
    if 65 <= c && c <= 90 {
        (c + 32) as u16
    } else {
        c
    }
}

/// `needle` occurs in `hay` at position `i`, comparing ASCII
/// case-insensitively.
pub open spec fn match_at(hay: Seq<u16>, needle: Seq<u16>, i: int) -> bool {
    &&& 0 <= i
    &&& i + needle.len() <= hay.len()
    &&& forall|j: int|
        0 <= j < needle.len() ==> lower_u16(hay[i + j]) == lower_u16(#[trigger] needle[j])
}

/// `needle` occurs somewhere in `hay`, comparing ASCII case-insensitively.
pub open spec fn name_contains(hay: Seq<u16>, needle: Seq<u16>) -> bool {
    exists|i: int| #[trigger] match_at(hay, needle, i)
}

fn lower16(c: u16) -> (r: u16)
    ensures
        r == lower_u16(c),
{
    if 65 <= c && c <= 90 {
        c + 32
    } else {
        c
    }
}

/// Whether `needle` occurs in `hay`, comparing ASCII case-insensitively.
/// Trailing padding in `hay` cannot produce a match for a padding-free
/// `needle`, so snapshot names need no trimming first.
pub fn name_matches(hay: &Vec<u16>, needle: &Vec<u16>) -> (r: bool)
    ensures
        r == name_contains(hay@, needle@),
{
    let nh = hay.len();
    let nn = needle.len();
    if nn > nh {
        proof {
            assert forall|i: int| !match_at(hay@, needle@, i) by {}
        }
        return false;
    }
    let mut i: usize = 0;
    while i <= nh - nn
        invariant
            nn <= nh,
            nh == hay@.len(),
            nn == needle@.len(),
            i <= nh - nn + 1,
            forall|k: int| 0 <= k < i ==> !match_at(hay@, needle@, k),
        decreases nh - nn + 1 - i,
    {
        let mut j: usize = 0;
        let mut ok = true;
        while ok && j < nn
            invariant
                nn <= nh,
                nh == hay@.len(),
                nn == needle@.len(),
                i + nn <= nh,
                j <= nn,
                ok ==> forall|l: int|
                    0 <= l < j ==> lower_u16(hay@[i + l]) == lower_u16(#[trigger] needle@[l]),
                !ok ==> !match_at(hay@, needle@, i as int),
            decreases nn - j + (if ok { 1int } else { 0int }),
        {
            if lower16(hay[i + j]) != lower16(needle[j]) {
                proof {
                    assert(!match_at(hay@, needle@, i as int));
                }
                ok = false;
            } else {
                j = j + 1;
            }
        }
        if ok {
            proof {
                assert(match_at(hay@, needle@, i as int));
            }
            return true;
        }
        i = i + 1;
    }
    proof {
        assert forall|k: int| !match_at(hay@, needle@, k) by {
            if 0 <= k < i {
            }
        }
    }
    false
}

/// The record names a process to inject into: its image name contains the
/// target name, its parent is the searched-for process, and it is not that
/// parent itself.
pub open spec fn is_target(rec: ProcessRecord, search_parent: u32, needle: Seq<u16>) -> bool {
    &&& name_contains(rec.name@, needle)
    &&& rec.parent_pid == search_parent
    &&& rec.pid != search_parent
}

/// What `select_target` may return on a given snapshot: the first matching
/// record's pid in enumeration order, or `NotFound` when no record matches.
pub open spec fn selection_ok(
    snapshot: Seq<ProcessRecord>,
    search_parent: u32,
    needle: Seq<u16>,
    r: Result<u32, InjectError>,
) -> bool {
    match r {
        Ok(pid) => exists|i: int|
            0 <= i < snapshot.len() && #[trigger] is_target(snapshot[i], search_parent, needle)
                && snapshot[i].pid == pid && (forall|j: int|
                0 <= j < i ==> !is_target(snapshot[j], search_parent, needle)),
        Err(e) => e == InjectError::NotFound && forall|i: int|
            0 <= i < snapshot.len() ==> !(#[trigger] is_target(snapshot[i], search_parent, needle)),
    }
}

/// Picks the process to inject into: the first record, in enumeration order,
/// whose image name contains `needle` (case-insensitively), whose parent is
/// `search_parent`, and whose own id differs from `search_parent`. Returns
/// `NotFound` exactly when the whole snapshot holds no such record.
pub fn select_target(snapshot: &Vec<ProcessRecord>, search_parent: u32, needle: &Vec<u16>) -> (r:
    Result<u32, InjectError>)
    ensures
        selection_ok(snapshot@, search_parent, needle@, r),
{
    let n = snapshot.len();
    let mut i: usize = 0;
    while i < n
        invariant
            n == snapshot@.len(),
            i <= n,
            forall|j: int| 0 <= j < i ==> !is_target(snapshot@[j], search_parent, #[trigger] needle@),
        decreases n - i,
    {
        let rec = &snapshot[i];
        if rec.parent_pid == search_parent && rec.pid != search_parent && name_matches(
            &rec.name,
            needle,
        ) {
            proof {
                assert(is_target(snapshot@[i as int], search_parent, needle@));
            }
            return Ok(rec.pid);
        }
        i = i + 1;
    }
    Err(InjectError::NotFound)
}

/// Law: a snapshot with exactly one matching record — a record whose own id
/// equals the searched-for parent id never matches — forces any result the
/// selection contract allows to name exactly that record's pid.
pub proof fn lemma_unique_match_selected(
    snapshot: Seq<ProcessRecord>,
    search_parent: u32,
    needle: Seq<u16>,
    k: int,
    r: Result<u32, InjectError>,
)
    requires
        0 <= k < snapshot.len(),
        is_target(snapshot[k], search_parent, needle),
        forall|j: int|
            0 <= j < snapshot.len() && j != k ==> !is_target(snapshot[j], search_parent, needle),
        selection_ok(snapshot, search_parent, needle, r),
    ensures
        r == Ok::<u32, InjectError>(snapshot[k].pid),
{
    match r {
        Ok(pid) => {
            let i = choose|i: int|
                0 <= i < snapshot.len() && #[trigger] is_target(snapshot[i], search_parent, needle)
                    && snapshot[i].pid == pid && (forall|j: int|
                    0 <= j < i ==> !is_target(snapshot[j], search_parent, needle));
            assert(i == k);
        },
        Err(_) => {
            assert(!is_target(snapshot[k], search_parent, needle));
        },
    }
}

/// Law: a snapshot with no matching record forces the `NotFound` error.
pub proof fn lemma_no_match_not_found(
    snapshot: Seq<ProcessRecord>,
    search_parent: u32,
    needle: Seq<u16>,
    r: Result<u32, InjectError>,
)
    requires
        forall|i: int|
            0 <= i < snapshot.len() ==> !(#[trigger] is_target(snapshot[i], search_parent, needle)),
        selection_ok(snapshot, search_parent, needle, r),
    ensures
        r == Err::<u32, InjectError>(InjectError::NotFound),
{
    match r {
        Ok(pid) => {
            let i = choose|i: int|
                0 <= i < snapshot.len() && #[trigger] is_target(snapshot[i], search_parent, needle)
                    && snapshot[i].pid == pid && (forall|j: int|
                    0 <= j < i ==> !is_target(snapshot[j], search_parent, needle));
            assert(false);
        },
        Err(_) => {},
    }
}

/// The UTF-16 code units of a string.
pub uninterp spec fn utf16_units(s: Seq<char>) -> Seq<u16>;

/// Relies on str::encode_utf16: the UTF-16 code units of the string, a
/// function of its characters alone; an empty string yields no units.
#[verifier::external_body]
fn encode_utf16_units(s: &str) -> (r: Vec<u16>)
    ensures
        r@ == utf16_units(s@),
        s@.len() == 0 ==> r@.len() == 0,
{
    s.encode_utf16().collect()
}

/// The module path exactly as the remote loader thread receives it: the
/// path's UTF-16 code units with one terminating null unit.
pub fn wide_null_terminated(s: &str) -> (r: Vec<u16>)
    ensures
        r@ == utf16_units(s@).push(0u16),
        r@.len() == utf16_units(s@).len() + 1,
        r@[r@.len() - 1] == 0u16,
{
    let mut units = encode_utf16_units(s);
    units.push(0);
    units
}

/// The size in bytes of a wide-character buffer, as handed to the remote
/// allocation and the remote write.
pub fn wide_byte_len(units: &Vec<u16>) -> (n: usize)
    requires
        units@.len() * 2 <= usize::MAX,
    ensures
        n == units@.len() * 2,
{
    units.len() * 2
}

} // verus!
