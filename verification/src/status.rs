//! Packed download-status codec.
//!
//! A status word packs five per-subtask slots into the low 15 bits of a
//! `u32`, three bits per slot, slot 0 in the least significant bits.  A
//! slot value of 0 means "not started", 1 through 6 count consecutive
//! failed attempts, and 7 is terminal (succeeded, skipped, or an error
//! classified as permanent).

use vstd::prelude::*;

verus! {

/// Terminal slot value: the subtask succeeded, was skipped, or hit a
/// permanent, non-retryable condition.
pub const STATUS_OK: u32 = 7;

/// Largest retry counter a slot may hold; `Failed` saturates here.
pub const STATUS_MAX_RETRY: u32 = 6;

/// A persistable status word is valid when its reserved upper bits are
/// zero; the five base-8 digits of such a word are each at most 7 by
/// construction.
pub open spec fn valid_status_word(word: u32) -> bool {
    word < 0x8000
}

/// The word encoded by five slot values, slot 0 as the lowest base-8 digit.
pub open spec fn word_of_slots(s: Seq<u32>) -> int {
    s[0] + 8 * s[1] + 64 * s[2] + 512 * s[3] + 4096 * s[4]
}

/// Outcome of one subtask attempt.
pub enum ExecutionStatus {
    /// Disabled by configuration, or the slot was already terminal.
    Skipped,
    /// The attempt completed.
    Succeeded,
    /// A common, permanent error: nothing further to do for this slot.
    Ignored(DownloadErrorKind),
    /// A transient error; the attempt counter advances.
    Failed(DownloadErrorKind),
    /// Sentinel carrying a pre-existing slot value; injected by retry
    /// paths to leave the other slots untouched.
    Fixed(u32),
}

/// Abstract classification of errors seen by the download pipeline.
pub enum DownloadErrorKind {
    /// The remote item is gone (404 and friends).
    NotFound,
    /// The remote platform's anti-abuse throttle fired; aborts the cycle.
    RiskControl,
    /// Network failure, server error or timeout; worth retrying.
    Transient,
    /// Local filesystem failure.
    LocalIo,
    /// A path or payload template failed to render.
    TemplateRender,
}

/// How a slot advances when a subtask reports `r` over previous value `prev`.
pub open spec fn slot_after(prev: u32, r: ExecutionStatus) -> u32 {
    match r {
        ExecutionStatus::Skipped => STATUS_OK,
        ExecutionStatus::Succeeded => STATUS_OK,
        ExecutionStatus::Ignored(_) => STATUS_OK,
        ExecutionStatus::Failed(_) => if prev < STATUS_MAX_RETRY {
            (prev + 1) as u32
        } else {
            STATUS_MAX_RETRY
        },
        ExecutionStatus::Fixed(v) => v,
    }
}

/// Classifies an error into the subtask outcome demanded by the error
/// taxonomy: permanent remote absences are ignored (terminal slot), while
/// transient, local and template errors count as retryable failures.
/// Risk control is never a per-subtask outcome; callers abort the cycle
/// before reporting it here, so it maps to `Failed` only defensively.
pub fn classify_error(e: DownloadErrorKind) -> (r: ExecutionStatus)
    ensures
        e is NotFound ==> r == ExecutionStatus::Ignored(e),
        !(e is NotFound) ==> r == ExecutionStatus::Failed(e),
{
    match e {
        DownloadErrorKind::NotFound => ExecutionStatus::Ignored(e),
        _ => ExecutionStatus::Failed(e),
    }
}

/// Five packed subtask slots of one video or one page.
pub struct DownloadStatus {
    slots: [u32; 5],
}

impl DownloadStatus {
    /// The slot values, lowest index first.
    pub closed spec fn view(&self) -> Seq<u32> {
        self.slots@
    }

    /// Every slot is a 3-bit value.
    pub open spec fn well_formed(&self) -> bool {
        &&& self@.len() == 5
        &&& forall|i: int| 0 <= i < 5 ==> self@[i] <= 7
    }

    /// All five subtasks are terminal.
    pub open spec fn spec_succeeded(&self) -> bool {
        forall|i: int| 0 <= i < 5 ==> self@[i] == STATUS_OK
    }

    /// Some subtask holds a retryable failure counter.
    pub open spec fn spec_failed(&self) -> bool {
        exists|i: int| 0 <= i < 5 && 1 <= #[trigger] self@[i] <= STATUS_MAX_RETRY
    }

    /// No subtask has started.
    pub open spec fn spec_waiting(&self) -> bool {
        forall|i: int| 0 <= i < 5 ==> self@[i] == 0
    }

    /// Decodes a persisted word into its five slots.  Reserved upper bits
    /// are discarded, so the result always encodes `word % 0x8000`; on a
    /// valid word that is the word itself.
    pub fn from_word(word: u32) -> (r: DownloadStatus)
        ensures
            r.well_formed(),
            word_of_slots(r@) == word % 0x8000,
            valid_status_word(word) ==> word_of_slots(r@) == word,
    {
        let s0 = word % 8;
        let s1 = (word / 8) % 8;
        let s2 = (word / 64) % 8;
        let s3 = (word / 512) % 8;
        let s4 = (word / 4096) % 8;
        let r = DownloadStatus { slots: [s0, s1, s2, s3, s4] };
        proof {
            assert(word % 8 + 8 * ((word / 8) % 8) + 64 * ((word / 64) % 8) + 512 * ((word / 512)
                % 8) + 4096 * ((word / 4096) % 8) == word % 0x8000) by (bit_vector);
        }
        r
    }

    /// Builds the status with every slot not started.
    pub fn new() -> (r: DownloadStatus)
        ensures
            r.well_formed(),
            r.spec_waiting(),
            word_of_slots(r@) == 0,
    {
        DownloadStatus { slots: [0, 0, 0, 0, 0] }
    }

    /// Re-encodes the five slots into a persistable word.
    pub fn to_word(&self) -> (word: u32)
        requires
            self.well_formed(),
        ensures
            word == word_of_slots(self@),
            valid_status_word(word),
    {
        self.slots[0] + 8 * self.slots[1] + 64 * self.slots[2] + 512 * self.slots[3] + 4096
            * self.slots[4]
    }

    /// Reads one slot.
    pub fn get(&self, index: usize) -> (v: u32)
        requires
            index < 5,
        ensures
            v == self@[index as int],
    {
        self.slots[index]
    }

    /// Overwrites one slot.
    pub fn set(&mut self, index: usize, value: u32)
        requires
            index < 5,
            value <= 7,
        ensures
            final(self)@ == old(self)@.update(index as int, value),
    {
        self.slots[index] = value;
    }

    /// Requeues transient failures: every slot holding a retry counter in
    /// 1..=6 returns to "not started".  Returns whether anything changed.
    pub fn reset_failed(&mut self) -> (changed: bool)
        ensures
            final(self)@.len() == old(self)@.len(),
            forall|i: int|
                0 <= i < old(self)@.len() ==> final(self)@[i] == (
                if 1 <= old(self)@[i] <= STATUS_MAX_RETRY {
                    0u32
                } else {
                    old(self)@[i]
                }),
            changed == exists|i: int|
                0 <= i < old(self)@.len() && 1 <= #[trigger] old(self)@[i] <= STATUS_MAX_RETRY,
    {
        let mut changed = false;
        let mut i: usize = 0;
        while i < 5
            invariant
                i <= 5,
                old(self)@.len() == 5,
                self@.len() == 5,
                forall|j: int|
                    0 <= j < i ==> self@[j] == (if 1 <= old(self)@[j] <= STATUS_MAX_RETRY {
                        0u32
                    } else {
                        old(self)@[j]
                    }),
                forall|j: int| i <= j < 5 ==> self@[j] == old(self)@[j],
                changed == exists|j: int| 0 <= j < i && 1 <= #[trigger] old(self)@[j] <= STATUS_MAX_RETRY,
            decreases 5 - i,
        {
            let v = self.slots[i];
            if 1 <= v && v <= STATUS_MAX_RETRY {
                self.slots[i] = 0;
                changed = true;
            }
            i = i + 1;
        }
        changed
    }

    /// Operator-forced requeue: the explicit reset overrides terminal
    /// markers too, so every started slot — retry counters and terminal
    /// values alike — returns to "not started".
    pub fn force_reset_failed(&mut self) -> (changed: bool)
        ensures
            final(self)@.len() == old(self)@.len(),
            forall|i: int| 0 <= i < old(self)@.len() ==> final(self)@[i] == 0u32,
            changed == exists|i: int| 0 <= i < old(self)@.len() && #[trigger] old(self)@[i] != 0,
    {
        let mut changed = false;
        let mut i: usize = 0;
        while i < 5
            invariant
                i <= 5,
                old(self)@.len() == 5,
                self@.len() == 5,
                forall|j: int| 0 <= j < i ==> self@[j] == 0u32,
                forall|j: int| i <= j < 5 ==> self@[j] == old(self)@[j],
                changed == exists|j: int| 0 <= j < i && #[trigger] old(self)@[j] != 0,
            decreases 5 - i,
        {
            if self.slots[i] != 0 {
                self.slots[i] = 0;
                changed = true;
            }
            i = i + 1;
        }
        changed
    }

    /// Consumes one per-subtask result vector: each slot advances by the
    /// state-machine rules (`Skipped`/`Succeeded`/`Ignored` make the slot
    /// terminal, `Failed` advances the saturating attempt counter, and
    /// `Fixed(v)` writes back a preserved value).
    pub fn update_status(&mut self, results: &[ExecutionStatus; 5])
        requires
            old(self).well_formed(),
            forall|i: int|
                0 <= i < 5 ==> (#[trigger] results@[i] matches ExecutionStatus::Fixed(v) ==> v
                    <= 7),
        ensures
            final(self).well_formed(),
            final(self)@.len() == 5,
            forall|i: int| 0 <= i < 5 ==> final(self)@[i] == slot_after(old(self)@[i], results@[i]),
    {
        let mut i: usize = 0;
        while i < 5
            invariant
                i <= 5,
                old(self).well_formed(),
                self@.len() == 5,
                forall|j: int|
                    0 <= j < 5 ==> (#[trigger] results@[j] matches ExecutionStatus::Fixed(v) ==> v
                        <= 7),
                forall|j: int| 0 <= j < i ==> self@[j] == slot_after(old(self)@[j], results@[j]),
                forall|j: int| 0 <= j < i ==> self@[j] <= 7,
                forall|j: int| i <= j < 5 ==> self@[j] == old(self)@[j],
            decreases 5 - i,
        {
            let prev = self.slots[i];
            let next = match &results[i] {
                ExecutionStatus::Skipped => STATUS_OK,
                ExecutionStatus::Succeeded => STATUS_OK,
                ExecutionStatus::Ignored(_) => STATUS_OK,
                ExecutionStatus::Failed(_) => if prev < STATUS_MAX_RETRY {
                    prev + 1
                } else {
                    STATUS_MAX_RETRY
                },
                ExecutionStatus::Fixed(v) => *v,
            };
            self.slots[i] = next;
            i = i + 1;
        }
    }

    /// Whether every subtask is terminal.
    pub fn is_succeeded(&self) -> (r: bool)
        requires
            self.well_formed(),
        ensures
            r == self.spec_succeeded(),
    {
        self.slots[0] == STATUS_OK && self.slots[1] == STATUS_OK && self.slots[2] == STATUS_OK
            && self.slots[3] == STATUS_OK && self.slots[4] == STATUS_OK
    }

    /// Whether some subtask holds a retryable failure.
    pub fn is_failed(&self) -> (r: bool)
        requires
            self.well_formed(),
        ensures
            r == self.spec_failed(),
    {
        let mut i: usize = 0;
        let mut found = false;
        while i < 5
            invariant
                i <= 5,
                self@.len() == 5,
                found == exists|j: int| 0 <= j < i && 1 <= #[trigger] self@[j] <= STATUS_MAX_RETRY,
            decreases 5 - i,
        {
            let v = self.slots[i];
            if 1 <= v && v <= STATUS_MAX_RETRY {
                found = true;
            }
            i = i + 1;
        }
        found
    }

    /// Whether no subtask has started.
    pub fn is_waiting(&self) -> (r: bool)
        requires
            self.well_formed(),
        ensures
            r == self.spec_waiting(),
    {
        self.slots[0] == 0 && self.slots[1] == 0 && self.slots[2] == 0 && self.slots[3] == 0
            && self.slots[4] == 0
    }
}

/// The value of slot `i` inside a valid packed word.
pub open spec fn spec_slot_of_word(word: u32, i: int) -> u32 {
    if i == 0 {
        word % 8
    } else if i == 1 {
        (word / 8) % 8
    } else if i == 2 {
        (word / 64) % 8
    } else if i == 3 {
        (word / 512) % 8
    } else {
        (word / 4096) % 8
    }
}

/// All five subtasks of the word are terminal.
pub open spec fn spec_word_succeeded(word: u32) -> bool {
    forall|i: int| 0 <= i < 5 ==> spec_slot_of_word(word, i) == STATUS_OK
}

/// Some subtask of the word holds a retryable failure counter.
pub open spec fn spec_word_failed(word: u32) -> bool {
    exists|i: int| 0 <= i < 5 && 1 <= #[trigger] spec_slot_of_word(word, i) <= STATUS_MAX_RETRY
}

/// No subtask of the word has started.
pub open spec fn spec_word_waiting(word: u32) -> bool {
    forall|i: int| 0 <= i < 5 ==> spec_slot_of_word(word, i) == 0
}

/// Well-formed slots encoding a word are exactly its base-8 digits.
pub proof fn lemma_slots_of_word(s: Seq<u32>, word: u32)
    requires
        s.len() == 5,
        forall|i: int| 0 <= i < 5 ==> s[i] <= 7,
        word_of_slots(s) == word,
    ensures
        forall|i: int| 0 <= i < 5 ==> s[i] == spec_slot_of_word(word, i),
{
    let a = s[0];
    let b = s[1];
    let c = s[2];
    let d = s[3];
    let e = s[4];
    assert(a <= 7 && b <= 7 && c <= 7 && d <= 7 && e <= 7 && a + 8 * b + 64 * c + 512 * d + 4096 * e
        == word ==> a == word % 8 && b == (word / 8) % 8 && c == (word / 64) % 8 && d == (word
        / 512) % 8 && e == (word / 4096) % 8) by (bit_vector);
    assert forall|i: int| 0 <= i < 5 implies s[i] == spec_slot_of_word(word, i) by {
        if i == 0 {
        } else if i == 1 {
        } else if i == 2 {
        } else if i == 3 {
        } else {
            assert(i == 4);
        }
    }
}

/// Well-formed slots encoding the truncated word are the digits of the
/// full word: the discarded upper bits reach no slot.
pub proof fn lemma_from_word_slots(s: Seq<u32>, word: u32)
    requires
        s.len() == 5,
        forall|i: int| 0 <= i < 5 ==> s[i] <= 7,
        word_of_slots(s) == word % 0x8000,
    ensures
        forall|i: int| 0 <= i < 5 ==> s[i] == spec_slot_of_word(word, i),
{
    let t = (word % 0x8000) as u32;
    lemma_slots_of_word(s, t);
    assert(t == word % 0x8000 ==> t % 8 == word % 8 && (t / 8) % 8 == (word / 8) % 8 && (t / 64) % 8
        == (word / 64) % 8 && (t / 512) % 8 == (word / 512) % 8 && (t / 4096) % 8 == (word / 4096)
        % 8) by (bit_vector);
    assert forall|i: int| 0 <= i < 5 implies s[i] == spec_slot_of_word(word, i) by {
        assert(s[i] == spec_slot_of_word(t, i));
    }
}

/// Whether every subtask of the packed word is terminal; the listing
/// API's `succeeded` predicate.
pub fn word_succeeded(word: u32) -> (r: bool)
    ensures
        r == spec_word_succeeded(word),
{
    let s = DownloadStatus::from_word(word);
    proof {
        lemma_from_word_slots(s@, word);
    }
    s.is_succeeded()
}

/// Whether some subtask of the packed word holds a retryable failure; the
/// listing API's `failed` predicate.
pub fn word_failed(word: u32) -> (r: bool)
    ensures
        r == spec_word_failed(word),
{
    let s = DownloadStatus::from_word(word);
    proof {
        lemma_from_word_slots(s@, word);
    }
    s.is_failed()
}

/// Whether no subtask of the packed word has started; the listing API's
/// `waiting` predicate.
pub fn word_waiting(word: u32) -> (r: bool)
    ensures
        r == spec_word_waiting(word),
{
    let s = DownloadStatus::from_word(word);
    proof {
        lemma_from_word_slots(s@, word);
    }
    s.is_waiting()
}

/// A valid status word re-encodes to itself: decoding any `word` below
/// `0x8000` and re-encoding returns `word`, so persistence round-trips.
pub proof fn lemma_word_round_trip(word: u32)
    requires
        valid_status_word(word),
    ensures
        ({
            let s = seq![word % 8, (word / 8) % 8, (word / 64) % 8, (word / 512) % 8, (word / 4096)
                % 8];
            word_of_slots(s) == word
        }),
{
    assert(word < 0x8000 ==> word % 8 + 8 * ((word / 8) % 8) + 64 * ((word / 64) % 8) + 512 * ((word
        / 512) % 8) + 4096 * ((word / 4096) % 8) == word) by (bit_vector);
}

/// Every status word a well-formed codec value encodes is valid: the
/// reserved upper bits of a persisted word are zero and each base-8 digit
/// is at most 7.
pub proof fn lemma_encoded_word_valid(s: DownloadStatus)
    requires
        s.well_formed(),
    ensures
        valid_status_word(word_of_slots(s@) as u32),
        0 <= word_of_slots(s@) < 0x8000,
{
    assert(word_of_slots(s@) <= 7 + 8 * 7 + 64 * 7 + 512 * 7 + 4096 * 7);
}

/// A requeued slot failing once more lands on exactly one recorded
/// failure: `reset_failed` takes a retry counter to 0, and a subsequent
/// `Failed` outcome advances it to 1, whatever the counter held before.
pub proof fn lemma_reset_then_failed_counts_one(prev: u32, e: DownloadErrorKind)
    requires
        1 <= prev <= STATUS_MAX_RETRY,
    ensures
        slot_after(0, ExecutionStatus::Failed(e)) == 1u32,
{
}

} // verus!
