use vstd::prelude::*;

verus! {

/// Lock word value of a free lock.
pub const UNLOCKED: usize = 0;

/// Lock word value added by a writer; a word at or above it means a writer
/// holds the lock, a word below it counts the readers.
pub const WRITER_LOCKED: usize = usize::MAX / 2;

/// A reader whose increment observed `observed` may enter.
pub open spec fn reader_admits(observed: int) -> bool {
    observed < WRITER_LOCKED - 1
}

/// A writer whose exchange observed `observed` may enter.
pub open spec fn writer_admits(observed: int) -> bool {
    observed == UNLOCKED
}

/// Decides, from the value its increment of the lock word returned, whether a
/// reader got shared access.
pub fn reader_admitted(observed: usize) -> (admitted: bool)
    ensures
        admitted == reader_admits(observed as int),
{
    observed < WRITER_LOCKED - 1
}

/// Decides, from what the exchange of a free word for `WRITER_LOCKED`
/// returned, whether a writer got exclusive access: it did exactly when the
/// exchange took place.
pub fn writer_admitted(exchange: &Result<usize, usize>) -> (admitted: bool)
    ensures
        admitted == exchange is Ok,
{
    exchange.is_ok()
}

/// The lock word together with who contributes to it.
///
/// `admitted` and `rejected` count readers that have incremented the word and
/// have not yet acted on what they observed: the first will enter, the second
/// will take their increment back.
pub struct LockModel {
    pub word: int,
    pub writer: bool,
    pub readers: nat,
    pub admitted: nat,
    pub rejected: nat,
}

/// The lock word accounts for every participant, a writer excludes readers,
/// and the word never wraps.
pub open spec fn lock_inv(m: LockModel) -> bool {
    &&& m.word == (if m.writer { WRITER_LOCKED as int } else { 0 }) + m.readers + m.admitted + m.rejected
    &&& m.writer ==> m.readers == 0 && m.admitted == 0
    &&& m.readers + m.admitted < WRITER_LOCKED
    &&& m.word <= usize::MAX
}

/// The lock before anyone touched it.
pub open spec fn unlocked_model() -> LockModel {
    LockModel { word: 0, writer: false, readers: 0, admitted: 0, rejected: 0 }
}

/// A writer exchanges a free word for `WRITER_LOCKED`; otherwise nothing changes.
pub open spec fn after_write_attempt(m: LockModel) -> LockModel {
    if writer_admits(m.word) {
        LockModel { word: WRITER_LOCKED as int, writer: true, ..m }
    } else {
        m
    }
}

/// A reader increments the word and, by the value it saw, will enter or back off.
pub open spec fn after_read_announce(m: LockModel) -> LockModel {
    if reader_admits(m.word) {
        LockModel { word: m.word + 1, admitted: m.admitted + 1, ..m }
    } else {
        LockModel { word: m.word + 1, rejected: m.rejected + 1, ..m }
    }
}

/// An admitted reader holds the lock; the word is unchanged.
pub open spec fn after_read_enter(m: LockModel) -> LockModel {
    LockModel { readers: m.readers + 1, admitted: (m.admitted - 1) as nat, ..m }
}

/// A rejected reader takes its increment back.
pub open spec fn after_read_back_off(m: LockModel) -> LockModel {
    LockModel { word: m.word - 1, rejected: (m.rejected - 1) as nat, ..m }
}

/// A reader leaves.
pub open spec fn after_read_release(m: LockModel) -> LockModel {
    LockModel { word: m.word - 1, readers: (m.readers - 1) as nat, ..m }
}

/// The writer leaves.
pub open spec fn after_write_release(m: LockModel) -> LockModel {
    LockModel { word: m.word - WRITER_LOCKED, writer: false, ..m }
}

/// The free lock satisfies the invariant.
pub proof fn lemma_unlocked_inv()
    ensures
        lock_inv(unlocked_model()),
{
}

/// Every step of the protocol keeps the invariant, as long as no more readers
/// arrive than the word can count.
pub proof fn lemma_lock_inv_inductive(m: LockModel)
    requires
        lock_inv(m),
    ensures
        lock_inv(after_write_attempt(m)),
        m.word < usize::MAX ==> lock_inv(after_read_announce(m)),
        m.admitted > 0 ==> lock_inv(after_read_enter(m)),
        m.rejected > 0 ==> lock_inv(after_read_back_off(m)),
        m.readers > 0 ==> lock_inv(after_read_release(m)),
        m.writer ==> lock_inv(after_write_release(m)),
{
}

/// What the word says: zero when nobody holds the lock or is about to act on
/// it; at or above `WRITER_LOCKED` exactly when a writer holds it, as long as
/// fewer participants than `WRITER_LOCKED` touch the word at once; otherwise it
/// counts the readers, held and pending.
pub proof fn lemma_word_meaning(m: LockModel)
    requires
        lock_inv(m),
    ensures
        m.word == 0 <==> (!m.writer && m.readers == 0 && m.admitted == 0 && m.rejected == 0),
        m.readers + m.admitted + m.rejected < WRITER_LOCKED ==> (m.word >= WRITER_LOCKED <==> m.writer),
        !m.writer ==> m.word == m.readers + m.admitted + m.rejected,
{
}

/// A writer never shares the lock with a reader, neither one that holds it nor
/// one that is about to enter.
pub proof fn lemma_mutual_exclusion(m: LockModel)
    requires
        lock_inv(m),
    ensures
        m.writer ==> m.readers == 0 && m.admitted == 0,
{
}

/// A writer gets in exactly when nobody holds the lock and no reader is between
/// its increment and its decision.
pub proof fn lemma_writer_admission(m: LockModel)
    requires
        lock_inv(m),
    ensures
        writer_admits(m.word) <==> (!m.writer && m.readers == 0 && m.admitted == 0 && m.rejected
            == 0),
{
}

/// A reader never gets in while a writer holds the lock, and always gets in
/// when no writer holds it and the reader count is far from its limit.
pub proof fn lemma_reader_admission(m: LockModel)
    requires
        lock_inv(m),
    ensures
        reader_admits(m.word) ==> !m.writer,
        !m.writer && m.readers + m.admitted + m.rejected < WRITER_LOCKED - 1 ==> reader_admits(
            m.word,
        ),
{
}

/// A whole read attempt (increment, then enter or take the increment back):
/// the reader gets in exactly when the word it found is below
/// `WRITER_LOCKED - 1`, and then the word is one higher and it is counted among
/// the readers; otherwise the lock is left as it was. In particular a reader
/// is never refused while no writer holds the lock and the reader count is far
/// from its limit, and never let in while a writer holds it.
pub proof fn lemma_read_attempt(m: LockModel)
    requires
        lock_inv(m),
        m.word < usize::MAX,
    ensures
        reader_admits(m.word) <==> m.word < WRITER_LOCKED - 1,
        reader_admits(m.word) ==> {
            let n = after_read_enter(after_read_announce(m));
            &&& n.word == m.word + 1
            &&& n.readers == m.readers + 1
            &&& !n.writer
            &&& lock_inv(n)
        },
        !reader_admits(m.word) ==> after_read_back_off(after_read_announce(m)) == m,
        !m.writer && m.readers + m.admitted + m.rejected < WRITER_LOCKED - 1 ==> reader_admits(m.word),
        m.writer ==> !reader_admits(m.word),
{
    lemma_lock_inv_inductive(m);
    lemma_lock_inv_inductive(after_read_announce(m));
}

/// A write attempt: the writer gets in exactly when the word it found is free,
/// and then the word is `WRITER_LOCKED` and the writer holds the lock alone;
/// otherwise the lock is left as it was. In particular a writer is never let
/// in beside a reader, held or pending, nor beside another writer.
pub proof fn lemma_write_attempt(m: LockModel)
    requires
        lock_inv(m),
    ensures
        writer_admits(m.word) <==> m.word == 0,
        writer_admits(m.word) ==> {
            let n = after_write_attempt(m);
            &&& n.word == WRITER_LOCKED
            &&& n.writer
            &&& n.readers == 0 && n.admitted == 0 && n.rejected == 0
        },
        !writer_admits(m.word) ==> after_write_attempt(m) == m,
        m.writer || m.readers > 0 || m.admitted > 0 || m.rejected > 0 ==> !writer_admits(m.word),
{
}

/// Releasing undoes acquiring: a writer that got in and left, a reader that got
/// in and left, and a reader that backed off each leave the lock as they found it.
pub proof fn lemma_release_undoes_acquire(m: LockModel)
    requires
        lock_inv(m),
    ensures
        writer_admits(m.word) ==> after_write_release(after_write_attempt(m)) == m,
        m.word < usize::MAX && reader_admits(m.word) ==> after_read_release(
            after_read_enter(after_read_announce(m)),
        ) == m,
        m.word < usize::MAX && !reader_admits(m.word) ==> after_read_back_off(
            after_read_announce(m),
        ) == m,
{
}

} // verus!
