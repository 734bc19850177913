//! Discovery of the numlock LED among the entries of the LED class
//! directory.
//!
//! The directory is modelled as a snapshot: one [`ScanEntry`] per
//! immediate entry, in iteration order, carrying the entry's name,
//! whether it is a directory (resolved through a symbolic link where
//! the entry is one), and the raw content of its brightness file. The
//! scan accepts the first entry whose name contains the substring
//! `numlock` and which is a directory; first match wins, with no
//! sorting and no tie-break.

use vstd::prelude::*;

use crate::led::spec_led_state;
use crate::led::Error;
use crate::led::Res;
use crate::led::State;

verus! {

/// Length of the pattern `numlock`.
pub const NUMLOCK_PATTERN_LEN: usize = 7;

/// The bytes of the pattern `numlock`.
pub open spec fn numlock_pattern() -> Seq<u8> {
    seq![110u8, 117u8, 109u8, 108u8, 111u8, 99u8, 107u8]
}

/// The pattern `numlock` occurs in `name` starting at position `i`.
pub open spec fn match_at(name: Seq<u8>, i: int) -> bool {
    &&& 0 <= i
    &&& i + NUMLOCK_PATTERN_LEN <= name.len()
    &&& forall|k: int|
        0 <= k < NUMLOCK_PATTERN_LEN ==> name[i + k] == numlock_pattern()[k]
}

/// The name contains the substring `numlock` (case-sensitive).
pub open spec fn contains_numlock(name: Seq<u8>) -> bool {
    exists|i: int| match_at(name, i)
}

/// Whether the pattern `numlock` occurs at position `i` of `name`.
fn matches_at(name: &Vec<u8>, i: usize) -> (r: bool)
    requires
        i + NUMLOCK_PATTERN_LEN <= name@.len(),
    ensures
        r == match_at(name@, i as int),
{
    // Binds the length so the solver sees that it, and with it every
    // index read below, fits in usize.
    let n = name.len();
    let r = name[i] == 110 && name[i + 1] == 117 && name[i + 2] == 109 && name[i + 3] == 108
        && name[i + 4] == 111 && name[i + 5] == 99 && name[i + 6] == 107;
    assert(r == match_at(name@, i as int)) by {
        if r {
            assert forall|k: int| 0 <= k < NUMLOCK_PATTERN_LEN implies name@[i + k]
                == numlock_pattern()[k] by {
                if k == 0 {
                } else if k == 1 {
                } else if k == 2 {
                } else if k == 3 {
                } else if k == 4 {
                } else if k == 5 {
                } else {
                    assert(k == 6);
                }
            }
        } else {
            if match_at(name@, i as int) {
                assert(name@[i + 0] == numlock_pattern()[0]);
                assert(name@[i + 1] == numlock_pattern()[1]);
                assert(name@[i + 2] == numlock_pattern()[2]);
                assert(name@[i + 3] == numlock_pattern()[3]);
                assert(name@[i + 4] == numlock_pattern()[4]);
                assert(name@[i + 5] == numlock_pattern()[5]);
                assert(name@[i + 6] == numlock_pattern()[6]);
            }
        }
    }
    r
}

/// Whether an entry name contains the substring `numlock`. The match is
/// deliberately a plain case-sensitive substring test.
pub fn is_numlock_name(name: &Vec<u8>) -> (r: bool)
    ensures
        r == contains_numlock(name@),
{
    if name.len() < NUMLOCK_PATTERN_LEN {
        assert(!contains_numlock(name@)) by {
            assert forall|i: int| !match_at(name@, i) by {}
        }
        return false;
    }
    let n = name.len();
    let mut i: usize = 0;
    while i <= n - NUMLOCK_PATTERN_LEN
        invariant
            n == name@.len(),
            n >= NUMLOCK_PATTERN_LEN,
            i <= n - NUMLOCK_PATTERN_LEN + 1,
            forall|j: int| 0 <= j < i ==> !match_at(name@, j),
        decreases name@.len() - i,
    {
        if matches_at(name, i) {
            assert(contains_numlock(name@));
            return true;
        }
        i = i + 1;
    }
    assert(!contains_numlock(name@)) by {
        assert forall|j: int| !match_at(name@, j) by {
            if 0 <= j < i {
            } else if j >= i {
                assert(j + NUMLOCK_PATTERN_LEN > name@.len());
            }
        }
    }
    false
}

/// The bytes of the suffix `/brightness` appended to a candidate's
/// name to reach its brightness attribute.
pub open spec fn brightness_suffix() -> Seq<u8> {
    seq![47u8, 98u8, 114u8, 105u8, 103u8, 104u8, 116u8, 110u8, 101u8, 115u8, 115u8]
}

/// The path of a candidate's brightness attribute: its name followed
/// by `/brightness`.
pub open spec fn spec_brightness_path(name: Seq<u8>) -> Seq<u8> {
    name + brightness_suffix()
}

/// Builds the path of the brightness attribute under the entry named
/// `name`.
pub fn brightness_path_of(name: &Vec<u8>) -> (r: Vec<u8>)
    ensures
        r@ == spec_brightness_path(name@),
{
    let mut r: Vec<u8> = Vec::new();
    let n = name.len();
    let mut i: usize = 0;
    while i < n
        invariant
            n == name@.len(),
            i <= n,
            r@ == name@.subrange(0, i as int),
        decreases n - i,
    {
        r.push(name[i]);
        assert(r@ =~= name@.subrange(0, i + 1));
        i = i + 1;
    }
    assert(r@ =~= name@);
    r.push(47);
    r.push(98);
    r.push(114);
    r.push(105);
    r.push(103);
    r.push(104);
    r.push(116);
    r.push(110);
    r.push(101);
    r.push(115);
    r.push(115);
    assert(r@ =~= spec_brightness_path(name@));
    r
}

/// One immediate entry of the LED class directory, as the scan sees
/// it: the entry's file name, whether it is a directory once metadata
/// is resolved through a symbolic link, and the raw content of its
/// brightness file.
pub struct ScanEntry {
    /// The entry's file name.
    pub name: Vec<u8>,
    /// Whether the entry, after symlink resolution, is a directory.
    pub is_dir: bool,
    /// The raw bytes of the entry's brightness file.
    pub brightness: Vec<u8>,
}

/// What to do when an accepted candidate's brightness file does not
/// parse: propagate the failure, or skip the candidate and keep
/// scanning.
#[derive(Debug, Copy, Clone, Eq, PartialEq, Structural)]
pub enum ScanPolicy {
    /// Propagate the parse failure of the first qualifying candidate.
    Strict,
    /// Skip a candidate whose brightness does not parse.
    Lenient,
}

/// An entry qualifies when its name contains `numlock` and it is a
/// directory.
pub open spec fn qualifies(e: ScanEntry) -> bool {
    contains_numlock(e.name@) && e.is_dir
}

/// Outcome of scanning the entries from position `i` on: the first
/// accepted candidate and its parsed state, or the first qualifying
/// candidate whose brightness is invalid (under the strict policy), or
/// no candidate at all.
pub enum ScanOutcome {
    /// The entry at `index` was accepted with the parsed `state`.
    Found { index: int, state: State },
    /// The entry at `index` qualifies but its brightness is invalid.
    Invalid { index: int },
    /// No entry was accepted.
    NotFound,
}

/// The outcome of the scan over `entries`, starting at position `i`:
/// the first qualifying entry decides, except that under the lenient
/// policy one with invalid brightness is skipped.
pub open spec fn spec_scan_from(entries: Seq<ScanEntry>, i: int, policy: ScanPolicy) -> ScanOutcome
    decreases entries.len() - i,
{
    if i < 0 || i >= entries.len() {
        ScanOutcome::NotFound
    } else if !qualifies(entries[i]) {
        spec_scan_from(entries, i + 1, policy)
    } else {
        match spec_led_state(entries[i].brightness@) {
            Some(s) => ScanOutcome::Found { index: i, state: s },
            None => match policy {
                ScanPolicy::Strict => ScanOutcome::Invalid { index: i },
                ScanPolicy::Lenient => spec_scan_from(entries, i + 1, policy),
            },
        }
    }
}

/// The outcome of the whole scan.
pub open spec fn spec_scan(entries: Seq<ScanEntry>, policy: ScanPolicy) -> ScanOutcome {
    spec_scan_from(entries, 0, policy)
}

/// The accepted candidate: its position among the scanned entries, the
/// path of its brightness attribute, and the state parsed from it.
#[derive(Debug)]
pub struct Discovery {
    /// Position of the accepted entry in iteration order.
    pub index: usize,
    /// Path of the accepted entry's brightness attribute.
    pub path: Vec<u8>,
    /// The parsed LED state.
    pub state: State,
}

/// Scans the entries of the LED class directory, in iteration order,
/// for the numlock LED. The first entry whose name contains `numlock`
/// and which is a directory is accepted; its brightness content is
/// parsed. Under the strict policy an accepted candidate with invalid
/// brightness fails the scan with `Error::InvalidLedState` carrying the
/// candidate's brightness path; under the lenient policy it is skipped.
/// When no candidate is accepted the scan fails with
/// `Error::NoLedsFound`.
pub fn scan_entries(entries: &Vec<ScanEntry>, policy: ScanPolicy) -> (r: Res<Discovery>)
    ensures
        match spec_scan(entries@, policy) {
            ScanOutcome::Found { index, state } => r matches Ok(d) && d.index == index && d.state
                == state && d.path@ == spec_brightness_path(entries@[index].name@),
            ScanOutcome::Invalid { index } => r matches Err(e) && e matches
                Error::InvalidLedState(p) && p@ == spec_brightness_path(entries@[index].name@),
            ScanOutcome::NotFound => r == Err::<Discovery, Error>(Error::NoLedsFound),
        },
{
    let n = entries.len();
    let mut i: usize = 0;
    while i < n
        invariant
            n == entries@.len(),
            i <= n,
            spec_scan(entries@, policy) == spec_scan_from(entries@, i as int, policy),
        decreases n - i,
    {
        let e = &entries[i];
        if is_numlock_name(&e.name) && e.is_dir {
            match crate::led::parse_led_bytes(&e.brightness) {
                Some(s) => {
                    return Ok(Discovery { index: i, path: brightness_path_of(&e.name), state: s });
                },
                None => {
                    match policy {
                        ScanPolicy::Strict => {
                            return Err(Error::InvalidLedState(brightness_path_of(&e.name)));
                        },
                        ScanPolicy::Lenient => {},
                    }
                },
            }
        }
        i = i + 1;
    }
    Err(Error::NoLedsFound)
}

/// The scan accepts the first qualifying candidate: when it finds one,
/// every earlier entry failed to qualify (or, under the lenient
/// policy, qualified with invalid brightness and was skipped); when it
/// reports an invalid candidate, that one is the first to qualify; and
/// it reports no candidate exactly when no entry qualifies (under the
/// lenient policy: none with valid brightness).
pub proof fn lemma_scan_finds_first(entries: Seq<ScanEntry>, policy: ScanPolicy)
    ensures
        match spec_scan(entries, policy) {
            ScanOutcome::Found { index, state } => {
                &&& 0 <= index < entries.len()
                &&& qualifies(entries[index])
                &&& spec_led_state(entries[index].brightness@) == Some(state)
                &&& forall|j: int|
                    0 <= j < index ==> !qualifies(entries[j]) || (policy is Lenient
                        && spec_led_state(entries[j].brightness@) is None)
            },
            ScanOutcome::Invalid { index } => {
                &&& policy is Strict
                &&& 0 <= index < entries.len()
                &&& qualifies(entries[index])
                &&& spec_led_state(entries[index].brightness@) is None
                &&& forall|j: int| 0 <= j < index ==> !qualifies(entries[j])
            },
            ScanOutcome::NotFound => forall|j: int|
                0 <= j < entries.len() ==> !qualifies(entries[j]) || (policy is Lenient
                    && spec_led_state(entries[j].brightness@) is None),
        },
{
    lemma_scan_from_finds_first(entries, 0, policy);
}

proof fn lemma_scan_from_finds_first(entries: Seq<ScanEntry>, i: int, policy: ScanPolicy)
    requires
        0 <= i <= entries.len(),
    ensures
        match spec_scan_from(entries, i, policy) {
            ScanOutcome::Found { index, state } => {
                &&& i <= index < entries.len()
                &&& qualifies(entries[index])
                &&& spec_led_state(entries[index].brightness@) == Some(state)
                &&& forall|j: int|
                    i <= j < index ==> !qualifies(entries[j]) || (policy is Lenient
                        && spec_led_state(entries[j].brightness@) is None)
            },
            ScanOutcome::Invalid { index } => {
                &&& policy is Strict
                &&& i <= index < entries.len()
                &&& qualifies(entries[index])
                &&& spec_led_state(entries[index].brightness@) is None
                &&& forall|j: int| i <= j < index ==> !qualifies(entries[j])
            },
            ScanOutcome::NotFound => forall|j: int|
                i <= j < entries.len() ==> !qualifies(entries[j]) || (policy is Lenient
                    && spec_led_state(entries[j].brightness@) is None),
        },
    decreases entries.len() - i,
{
    if i < entries.len() {
        lemma_scan_from_finds_first(entries, i + 1, policy);
    }
}

} // verus!
