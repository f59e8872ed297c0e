//! Pending callback entries and the trampoline layer.
//!
//! Every asynchronous operation leaves behind one [`PendingCallback`]: a
//! correlation token plus the receiving half of a single-capacity channel.
//! The native driver thread completes the operation by calling one of the
//! trampolines below, which projects the raw status code and payload into a
//! [`Completion`] and pushes it onto the entry's channel without blocking and
//! without panicking. The dispatch pump later drains ready entries in
//! insertion order; the order-preserving-split predicate [`is_interleaving`]
//! and the lemmas beside it state and prove the dispatch laws.

use vstd::prelude::*;

use crate::channel::try_send_completion;
use crate::error::{spec_error_of, DiscordResult, STATUS_OK};

verus! {

/// The typed payload a completed asynchronous operation delivers: nothing but
/// the status, an owned text value, an owned byte sequence, or a plain data
/// value converted at the boundary.
#[derive(Clone, Debug, PartialEq, Eq)]
pub enum CallbackValue {
    Unit,
    Text(String),
    Bytes(Vec<u8>),
    Value(i64),
}

/// Which result shape an entry's trampoline delivers.
#[derive(Clone, Copy, Debug, PartialEq, Eq, Structural)]
pub enum CallbackShape {
    Unit,
    Text,
    Bytes,
    Value,
}

/// What one asynchronous operation ultimately delivers: the projected status,
/// carrying the typed payload exactly on success.
pub type Completion = DiscordResult<CallbackValue>;

/// Bookkeeping record for one outstanding asynchronous operation: its
/// correlation token, the result shape it was registered for, and the
/// receiving half of its single-capacity channel.
pub struct PendingCallback {
    pub(crate) token: u64,
    pub(crate) shape: CallbackShape,
    pub(crate) receiver: crossbeam_channel::Receiver<Completion>,
}

impl PendingCallback {
    /// The entry's correlation token.
    pub closed spec fn spec_token(self) -> u64 {
        self.token
    }

    /// The result shape the entry was registered for.
    pub closed spec fn spec_shape(self) -> CallbackShape {
        self.shape
    }
}

/// One continuation invocation owed to the host: the entry's token and shape,
/// and the completion its channel delivered.
#[derive(Debug, PartialEq, Eq)]
pub struct Firing {
    pub token: u64,
    pub shape: CallbackShape,
    pub outcome: Completion,
}

// ------------------------------------------------------------------
// Trampoline projections: what each trampoline shape delivers for a
// given raw status code and payload.
// ------------------------------------------------------------------

/// What the bare-status trampoline delivers for a native status code.
pub open spec fn spec_completion_of_result(code: i32) -> Completion {
    if code == STATUS_OK {
        Ok(CallbackValue::Unit)
    } else {
        Err(spec_error_of(code))
    }
}

/// What the text trampoline delivers: the owned text on success, and the
/// projected error, with the payload omitted, otherwise.
pub open spec fn spec_completion_of_text(code: i32, text: String) -> Completion {
    if code == STATUS_OK {
        Ok(CallbackValue::Text(text))
    } else {
        Err(spec_error_of(code))
    }
}

/// What the byte-buffer trampoline delivers: the owned bytes on success, and
/// the projected error, with the payload omitted, otherwise.
pub open spec fn spec_completion_of_bytes(code: i32, bytes: Vec<u8>) -> Completion {
    if code == STATUS_OK {
        Ok(CallbackValue::Bytes(bytes))
    } else {
        Err(spec_error_of(code))
    }
}

/// What the plain-value trampoline delivers.
pub open spec fn spec_completion_of_value(code: i32, value: i64) -> Completion {
    if code == STATUS_OK {
        Ok(CallbackValue::Value(value))
    } else {
        Err(spec_error_of(code))
    }
}

/// Projects a bare-status completion.
pub fn completion_of_result(code: i32) -> (r: Completion)
    ensures
        r == spec_completion_of_result(code),
{
    match crate::error::project_result(code) {
        Ok(()) => Ok(CallbackValue::Unit),
        Err(e) => Err(e),
    }
}

/// Projects a text completion: the payload is kept exactly on success.
pub fn completion_of_text(code: i32, text: String) -> (r: Completion)
    ensures
        r == spec_completion_of_text(code, text),
{
    match crate::error::project_result(code) {
        Ok(()) => Ok(CallbackValue::Text(text)),
        Err(e) => Err(e),
    }
}

/// Projects a byte-buffer completion: the payload is kept exactly on success.
pub fn completion_of_bytes(code: i32, bytes: Vec<u8>) -> (r: Completion)
    ensures
        r == spec_completion_of_bytes(code, bytes),
{
    match crate::error::project_result(code) {
        Ok(()) => Ok(CallbackValue::Bytes(bytes)),
        Err(e) => Err(e),
    }
}

/// Projects a plain-value completion.
pub fn completion_of_value(code: i32, value: i64) -> (r: Completion)
    ensures
        r == spec_completion_of_value(code, value),
{
    match crate::error::project_result(code) {
        Ok(()) => Ok(CallbackValue::Value(value)),
        Err(e) => Err(e),
    }
}

// ------------------------------------------------------------------
// Trampolines. Native code calls these from its own driver thread with
// the sending half it was handed when the operation was issued. Each one
// projects its raw arguments and performs one non-blocking send; a send
// that fails because the owning handle is already gone is swallowed, as
// the destination for the result no longer exists. They never block and,
// being verified, never panic, so the driver thread is never stalled.
// ------------------------------------------------------------------

/// Bare-status trampoline: delivers `spec_completion_of_result(code)`.
pub fn complete_result(sender: &crossbeam_channel::Sender<Completion>, code: i32) {
    let c = completion_of_result(code);
    try_send_completion(sender, c);
}

/// Text trampoline: delivers `spec_completion_of_text(code, text)`.
pub fn complete_result_text(sender: &crossbeam_channel::Sender<Completion>, code: i32, text: String) {
    let c = completion_of_text(code, text);
    try_send_completion(sender, c);
}

/// Byte-buffer trampoline: delivers `spec_completion_of_bytes(code, bytes)`.
pub fn complete_result_bytes(sender: &crossbeam_channel::Sender<Completion>, code: i32, bytes: Vec<u8>) {
    let c = completion_of_bytes(code, bytes);
    try_send_completion(sender, c);
}

/// Plain-value trampoline: delivers `spec_completion_of_value(code, value)`.
pub fn complete_result_value(sender: &crossbeam_channel::Sender<Completion>, code: i32, value: i64) {
    let c = completion_of_value(code, value);
    try_send_completion(sender, c);
}

// ------------------------------------------------------------------
// The order-preserving split a dispatch pass performs on the pending
// collection, and the laws that follow from it.
// ------------------------------------------------------------------

/// Holds when `orig` can be split, preserving relative order, into the
/// entries `kept` in place and the entries `fired` during one dispatch pass.
pub open spec fn is_interleaving(orig: Seq<u64>, kept: Seq<u64>, fired: Seq<u64>) -> bool
    decreases orig.len(),
{
    if orig.len() == 0 {
        kept.len() == 0 && fired.len() == 0
    } else {
        ||| (kept.len() > 0 && kept[0] == orig[0] && is_interleaving(
            orig.drop_first(),
            kept.drop_first(),
            fired,
        ))
        ||| (fired.len() > 0 && fired[0] == orig[0] && is_interleaving(
            orig.drop_first(),
            kept,
            fired.drop_first(),
        ))
    }
}

/// How many times a token occurs in a token sequence.
pub open spec fn occurrences(s: Seq<u64>, t: u64) -> nat
    decreases s.len(),
{
    if s.len() == 0 {
        0
    } else {
        (if s[0] == t {
            1nat
        } else {
            0nat
        }) + occurrences(s.drop_first(), t)
    }
}

/// Every token occurs at most once.
pub open spec fn distinct_tokens(s: Seq<u64>) -> bool {
    forall|t: u64| occurrences(s, t) <= 1
}

proof fn lemma_occurrences_push(s: Seq<u64>, x: u64, t: u64)
    ensures
        occurrences(s.push(x), t) == occurrences(s, t) + (if x == t {
            1nat
        } else {
            0nat
        }),
    decreases s.len(),
{
    if s.len() == 0 {
        assert(s.push(x).drop_first() =~= s);
    } else {
        assert(s.push(x).drop_first() =~= s.drop_first().push(x));
        lemma_occurrences_push(s.drop_first(), x, t);
    }
}

/// A token at some position occurs at least once; shared with the handle's
/// dispatch proof.
pub(crate) proof fn lemma_elem_occurs(s: Seq<u64>, i: int)
    requires
        0 <= i < s.len(),
    ensures
        occurrences(s, s[i]) >= 1,
    decreases s.len(),
{
    if i > 0 {
        lemma_elem_occurs(s.drop_first(), i - 1);
    }
}

proof fn lemma_interleaving_len(orig: Seq<u64>, kept: Seq<u64>, fired: Seq<u64>)
    requires
        is_interleaving(orig, kept, fired),
    ensures
        orig.len() == kept.len() + fired.len(),
    decreases orig.len(),
{
    if orig.len() > 0 {
        if kept.len() > 0 && kept[0] == orig[0] && is_interleaving(
            orig.drop_first(),
            kept.drop_first(),
            fired,
        ) {
            lemma_interleaving_len(orig.drop_first(), kept.drop_first(), fired);
        } else {
            lemma_interleaving_len(orig.drop_first(), kept, fired.drop_first());
        }
    }
}

proof fn lemma_interleaving_occurrences(orig: Seq<u64>, kept: Seq<u64>, fired: Seq<u64>, t: u64)
    requires
        is_interleaving(orig, kept, fired),
    ensures
        occurrences(orig, t) == occurrences(kept, t) + occurrences(fired, t),
    decreases orig.len(),
{
    if orig.len() > 0 {
        if kept.len() > 0 && kept[0] == orig[0] && is_interleaving(
            orig.drop_first(),
            kept.drop_first(),
            fired,
        ) {
            lemma_interleaving_occurrences(orig.drop_first(), kept.drop_first(), fired, t);
        } else {
            lemma_interleaving_occurrences(orig.drop_first(), kept, fired.drop_first(), t);
        }
    }
}

/// Extending a split on the right with one more entry that stays in place.
pub(crate) proof fn lemma_interleaving_push_kept(
    orig: Seq<u64>,
    kept: Seq<u64>,
    fired: Seq<u64>,
    x: u64,
)
    requires
        is_interleaving(orig, kept, fired),
    ensures
        is_interleaving(orig.push(x), kept.push(x), fired),
    decreases orig.len(),
{
    if orig.len() == 0 {
        assert(orig.push(x)[0] == x);
        assert(orig.push(x).drop_first() =~= orig);
        assert(kept.push(x).drop_first() =~= kept);
    } else {
        assert(orig.push(x).drop_first() =~= orig.drop_first().push(x));
        if kept.len() > 0 && kept[0] == orig[0] && is_interleaving(
            orig.drop_first(),
            kept.drop_first(),
            fired,
        ) {
            lemma_interleaving_push_kept(orig.drop_first(), kept.drop_first(), fired, x);
            assert(kept.push(x).drop_first() =~= kept.drop_first().push(x));
            assert(kept.push(x)[0] == orig.push(x)[0]);
        } else {
            lemma_interleaving_push_kept(orig.drop_first(), kept, fired.drop_first(), x);
        }
    }
}

/// Extending a split on the right with one more entry that fires.
pub(crate) proof fn lemma_interleaving_push_fired(
    orig: Seq<u64>,
    kept: Seq<u64>,
    fired: Seq<u64>,
    x: u64,
)
    requires
        is_interleaving(orig, kept, fired),
    ensures
        is_interleaving(orig.push(x), kept, fired.push(x)),
    decreases orig.len(),
{
    if orig.len() == 0 {
        assert(orig.push(x)[0] == x);
        assert(orig.push(x).drop_first() =~= orig);
        assert(fired.push(x).drop_first() =~= fired);
    } else {
        assert(orig.push(x).drop_first() =~= orig.drop_first().push(x));
        if kept.len() > 0 && kept[0] == orig[0] && is_interleaving(
            orig.drop_first(),
            kept.drop_first(),
            fired,
        ) {
            lemma_interleaving_push_fired(orig.drop_first(), kept.drop_first(), fired, x);
        } else {
            lemma_interleaving_push_fired(orig.drop_first(), kept, fired.drop_first(), x);
            assert(fired.push(x).drop_first() =~= fired.drop_first().push(x));
            assert(fired.push(x)[0] == orig.push(x)[0]);
        }
    }
}

/// Law: one dispatch pass partitions the pending entries. Every token of the
/// old collection ends up either still pending or fired, never both and never
/// twice: the occurrence counts add up, and when the old collection held each
/// token at most once, so do the kept and the fired parts, and no token is in
/// both.
pub proof fn lemma_scan_partitions(orig: Seq<u64>, kept: Seq<u64>, fired: Seq<u64>)
    requires
        is_interleaving(orig, kept, fired),
        distinct_tokens(orig),
    ensures
        orig.len() == kept.len() + fired.len(),
        forall|t: u64| occurrences(orig, t) == occurrences(kept, t) + occurrences(fired, t),
        distinct_tokens(kept),
        distinct_tokens(fired),
        forall|t: u64| occurrences(fired, t) > 0 ==> occurrences(kept, t) == 0,
{
    lemma_interleaving_len(orig, kept, fired);
    assert forall|t: u64|
        occurrences(orig, t) == occurrences(kept, t) + occurrences(fired, t) by {
        lemma_interleaving_occurrences(orig, kept, fired, t);
    }
    assert forall|t: u64| occurrences(kept, t) <= 1 by {
        lemma_interleaving_occurrences(orig, kept, fired, t);
        assert(occurrences(orig, t) <= 1);
    }
    assert forall|t: u64| occurrences(fired, t) <= 1 by {
        lemma_interleaving_occurrences(orig, kept, fired, t);
        assert(occurrences(orig, t) <= 1);
    }
    assert forall|t: u64| occurrences(fired, t) > 0 implies occurrences(kept, t) == 0 by {
        lemma_interleaving_occurrences(orig, kept, fired, t);
        assert(occurrences(orig, t) <= 1);
    }
}

/// Law: no continuation is ever invoked twice. Over two successive dispatch
/// passes — the second scanning exactly what the first kept — each token
/// fires at most once in total, even if its channel was delivered to again:
/// the entry was removed by the first pass, so the second can no longer see
/// it.
pub proof fn lemma_no_second_invocation(
    orig: Seq<u64>,
    kept1: Seq<u64>,
    fired1: Seq<u64>,
    kept2: Seq<u64>,
    fired2: Seq<u64>,
)
    requires
        distinct_tokens(orig),
        is_interleaving(orig, kept1, fired1),
        is_interleaving(kept1, kept2, fired2),
    ensures
        forall|t: u64| occurrences(fired1, t) + occurrences(fired2, t) <= 1,
        forall|t: u64|
            occurrences(orig, t) == occurrences(kept2, t) + occurrences(fired1, t) + occurrences(
                fired2,
                t,
            ),
{
    assert forall|t: u64|
        occurrences(orig, t) == occurrences(kept2, t) + occurrences(fired1, t) + occurrences(
            fired2,
            t,
        ) by {
        lemma_interleaving_occurrences(orig, kept1, fired1, t);
        lemma_interleaving_occurrences(kept1, kept2, fired2, t);
    }
    assert forall|t: u64| occurrences(fired1, t) + occurrences(fired2, t) <= 1 by {
        lemma_interleaving_occurrences(orig, kept1, fired1, t);
        lemma_interleaving_occurrences(kept1, kept2, fired2, t);
        assert(occurrences(orig, t) <= 1);
    }
}

/// Law: when a chain of dispatch passes ends with nothing pending, every
/// operation that was pending at the start has fired exactly once across the
/// passes — here stated for two passes, whose shape every longer chain
/// repeats step by step.
pub proof fn lemma_pending_all_fire(
    orig: Seq<u64>,
    kept1: Seq<u64>,
    fired1: Seq<u64>,
    fired2: Seq<u64>,
)
    requires
        distinct_tokens(orig),
        is_interleaving(orig, kept1, fired1),
        is_interleaving(kept1, Seq::<u64>::empty(), fired2),
    ensures
        orig.len() == fired1.len() + fired2.len(),
        forall|t: u64| occurrences(orig, t) == occurrences(fired1, t) + occurrences(fired2, t),
{
    lemma_interleaving_len(orig, kept1, fired1);
    lemma_interleaving_len(kept1, Seq::<u64>::empty(), fired2);
    assert forall|t: u64|
        occurrences(orig, t) == occurrences(fired1, t) + occurrences(fired2, t) by {
        lemma_interleaving_occurrences(orig, kept1, fired1, t);
        lemma_interleaving_occurrences(kept1, Seq::<u64>::empty(), fired2, t);
    }
}

/// Appending a fresh token keeps a distinct token sequence distinct.
pub(crate) proof fn lemma_distinct_push_fresh(s: Seq<u64>, x: u64)
    requires
        distinct_tokens(s),
        forall|i: int| 0 <= i < s.len() ==> s[i] != x,
    ensures
        distinct_tokens(s.push(x)),
{
    assert forall|t: u64| occurrences(s.push(x), t) <= 1 by {
        lemma_occurrences_push(s, x, t);
        if t == x {
            lemma_occurrences_none(s, x);
        }
    }
}

/// A token that occurs does so at some position; shared with the handle's
/// dispatch proof.
pub(crate) proof fn lemma_occurs_index(s: Seq<u64>, t: u64)
    requires
        occurrences(s, t) >= 1,
    ensures
        exists|i: int| 0 <= i < s.len() && s[i] == t,
    decreases s.len(),
{
    if s.len() > 0 {
        if s[0] == t {
            assert(0 <= 0 < s.len() && s[0] == t);
        } else {
            lemma_occurs_index(s.drop_first(), t);
            let i = choose|i: int| 0 <= i < s.drop_first().len() && s.drop_first()[i] == t;
            assert(s[i + 1] == t);
        }
    }
}

/// A token absent from every position occurs zero times.
proof fn lemma_occurrences_none(s: Seq<u64>, t: u64)
    requires
        forall|i: int| 0 <= i < s.len() ==> s[i] != t,
    ensures
        occurrences(s, t) == 0,
    decreases s.len(),
{
    if s.len() > 0 {
        assert(forall|i: int|
            0 <= i < s.drop_first().len() ==> s.drop_first()[i] == s[i + 1] && s[i + 1] != t);
        lemma_occurrences_none(s.drop_first(), t);
    }
}

} // verus!

