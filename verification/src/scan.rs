//! The search for a stack's high-water mark.
//!
//! A task's stack is filled with a fixed word before the task first runs, and
//! stacks grow downward. The words that still hold the fill value, counted
//! from the low end of the stack, were never touched.

use vstd::prelude::*;

verus! {

/// The word a stack is filled with before its task starts.
pub const STACK_SENTINEL: u32 = 0xbaddcafe;

/// The number of bytes in a target word.
pub const WORD_BYTES: usize = 4;

/// The little-endian word that starts at offset `at`.
pub open spec fn word_at(bytes: Seq<u8>, at: int) -> int {
    bytes[at] + 0x100 * bytes[at + 1] + 0x1_0000 * bytes[at + 2] + 0x100_0000 * bytes[at + 3]
}

/// Byte `k` (0 the lowest) of a word in memory order.
pub open spec fn word_byte(word: u32, k: int) -> int {
    if k == 0 {
        word as int % 0x100
    } else if k == 1 {
        (word as int / 0x100) % 0x100
    } else if k == 2 {
        (word as int / 0x1_0000) % 0x100
    } else {
        word as int / 0x100_0000
    }
}

/// A whole word lies at offset `at` and holds `pattern`.
pub open spec fn untouched_word(stack: Seq<u8>, at: int, pattern: u32) -> bool {
    0 <= at && at + 4 <= stack.len() && word_at(stack, at) == pattern
}

/// The first `m` bytes are whole words that all hold `pattern`.
pub open spec fn untouched_prefix(stack: Seq<u8>, m: int, pattern: u32) -> bool {
    &&& 0 <= m <= stack.len()
    &&& m % 4 == 0
    &&& forall|k: int| 0 <= k < m && k % 4 == 0 ==> #[trigger] untouched_word(stack, k, pattern)
}

/// `m` is where the scan stops: everything below holds `pattern`, and the
/// word at `m` does not, or is not a whole word.
pub open spec fn is_margin(stack: Seq<u8>, m: int, pattern: u32) -> bool {
    untouched_prefix(stack, m, pattern) && !untouched_word(stack, m, pattern)
}

/// The number of bytes at the low end of `stack` that were never touched.
pub open spec fn margin_of(stack: Seq<u8>, pattern: u32) -> int {
    choose|m: int| is_margin(stack, m, pattern)
}

/// The number of bytes of `stack` that count as used.
pub open spec fn depth_of(stack: Seq<u8>, pattern: u32) -> int {
    stack.len() - margin_of(stack, pattern)
}

/// Every byte of `stack` holds the byte of `pattern` that belongs at its place.
pub open spec fn filled_with(stack: Seq<u8>, pattern: u32) -> bool {
    forall|i: int| 0 <= i < stack.len() ==> #[trigger] stack[i] == word_byte(pattern, i % 4)
}

/// The scan can stop at one offset only.
pub proof fn margin_is_unique(stack: Seq<u8>, pattern: u32, m: int)
    requires
        is_margin(stack, m, pattern),
    ensures
        margin_of(stack, pattern) == m,
{
    let c = margin_of(stack, pattern);
    assert(is_margin(stack, c, pattern));
    assert(c == m);
}

proof fn margin_exists_from(stack: Seq<u8>, pattern: u32, at: int)
    requires
        untouched_prefix(stack, at, pattern),
    ensures
        is_margin(stack, margin_of(stack, pattern), pattern),
    decreases stack.len() - at,
{
    if untouched_word(stack, at, pattern) {
        assert forall|k: int| 0 <= k < at + 4 && k % 4 == 0 implies #[trigger] untouched_word(
            stack,
            k,
            pattern,
        ) by {}
        margin_exists_from(stack, pattern, at + 4);
    } else {
        assert(is_margin(stack, at, pattern));
    }
}

/// Every stack has a margin: a multiple of the word size, no larger than the
/// stack, below which every word holds the pattern and at which the scan stops.
pub proof fn margin_exists(stack: Seq<u8>, pattern: u32)
    ensures
        is_margin(stack, margin_of(stack, pattern), pattern),
{
    margin_exists_from(stack, pattern, 0);
}

/// Margin and depth split the stack between them, and neither is negative.
pub proof fn margin_and_depth_bounds(stack: Seq<u8>, pattern: u32)
    ensures
        0 <= depth_of(stack, pattern) <= stack.len(),
        0 <= margin_of(stack, pattern) <= stack.len(),
        margin_of(stack, pattern) == stack.len() - depth_of(stack, pattern),
{
    margin_exists(stack, pattern);
}

/// Bytes past the last whole word never count as untouched, whatever they
/// hold: they belong to the depth, and the margin does not depend on them.
pub proof fn tail_is_never_margin(stack: Seq<u8>, pattern: u32)
    ensures
        margin_of(stack, pattern) % 4 == 0,
        margin_of(stack, pattern) <= stack.len() - stack.len() % 4,
        depth_of(stack, pattern) >= stack.len() % 4,
        margin_of(stack, pattern) == margin_of(
            stack.subrange(0, stack.len() - stack.len() % 4),
            pattern,
        ),
{
    margin_exists(stack, pattern);
    let m = margin_of(stack, pattern);
    let whole = stack.subrange(0, stack.len() - stack.len() % 4);
    assert forall|k: int| 0 <= k < m && k % 4 == 0 implies #[trigger] untouched_word(
        whole,
        k,
        pattern,
    ) by {
        assert(untouched_word(stack, k, pattern));
    }
    margin_is_unique(whole, pattern, m);
}

proof fn split_low_byte(value: int, low: int, high: int)
    requires
        value == low + 0x100 * high,
        0 <= low < 0x100,
    ensures
        value % 0x100 == low,
        value / 0x100 == high,
{
}

/// A word holds `pattern` exactly when its four bytes are those of `pattern`.
pub proof fn word_matches_bytewise(stack: Seq<u8>, at: int, pattern: u32)
    requires
        0 <= at,
        at + 4 <= stack.len(),
    ensures
        word_at(stack, at) == pattern <==> (forall|k: int|
            0 <= k < 4 ==> stack[at + k] == #[trigger] word_byte(pattern, k)),
{
    let b0 = stack[at] as int;
    let b1 = stack[at + 1] as int;
    let b2 = stack[at + 2] as int;
    let b3 = stack[at + 3] as int;
    let w = word_at(stack, at);
    split_low_byte(w, b0, b1 + 0x100 * b2 + 0x1_0000 * b3);
    split_low_byte(w / 0x100, b1, b2 + 0x100 * b3);
    split_low_byte(w / 0x100 / 0x100, b2, b3);
    if forall|k: int| 0 <= k < 4 ==> stack[at + k] == #[trigger] word_byte(pattern, k) {
        assert(stack[at + 0] == word_byte(pattern, 0));
        assert(stack[at + 1] == word_byte(pattern, 1));
        assert(stack[at + 2] == word_byte(pattern, 2));
        assert(stack[at + 3] == word_byte(pattern, 3));
    }
}

/// In a stack filled with the pattern throughout, every whole word is
/// untouched: the margin is the stack without its tail, the depth is the tail.
pub proof fn filled_stack_is_all_margin(stack: Seq<u8>, pattern: u32)
    requires
        filled_with(stack, pattern),
    ensures
        margin_of(stack, pattern) == stack.len() - stack.len() % 4,
        depth_of(stack, pattern) == stack.len() % 4,
{
    let whole = stack.len() - stack.len() % 4;
    assert forall|k: int| 0 <= k < whole && k % 4 == 0 implies #[trigger] untouched_word(
        stack,
        k,
        pattern,
    ) by {
        assert forall|j: int| 0 <= j < 4 implies stack[k + j] == #[trigger] word_byte(
            pattern,
            j,
        ) by {}
        word_matches_bytewise(stack, k, pattern);
    }
    margin_is_unique(stack, pattern, whole);
}

/// A stack too short to hold one word counts as used throughout, filled with
/// the pattern or not.
pub proof fn short_filled_stack_is_all_depth(stack: Seq<u8>, pattern: u32)
    requires
        filled_with(stack, pattern),
        stack.len() < 4,
    ensures
        depth_of(stack, pattern) == stack.len(),
{
    filled_stack_is_all_margin(stack, pattern);
}

/// Reads the little-endian word at offset `at`.
pub fn word(bytes: &[u8], at: usize) -> (w: u32)
    requires
        at + 4 <= bytes@.len(),
    ensures
        w == word_at(bytes@, at as int),
{
    let b0: u32 = bytes[at] as u32;
    let b1: u32 = bytes[at + 1] as u32;
    let b2: u32 = bytes[at + 2] as u32;
    let b3: u32 = bytes[at + 3] as u32;
    b0 + 0x100 * b1 + 0x1_0000 * b2 + 0x100_0000 * b3
}

/// Reads the little-endian word at offset `at`, if a whole word lies there.
pub fn load_word(bytes: &[u8], at: usize) -> (w: Option<u32>)
    ensures
        match w {
            Some(v) => at + 4 <= bytes@.len() && v == word_at(bytes@, at as int),
            None => at + 4 > bytes@.len(),
        },
{
    if bytes.len() < WORD_BYTES || at > bytes.len() - WORD_BYTES {
        None
    } else {
        Some(word(bytes, at))
    }
}

/// Scans `stack` upward in whole words and returns the number of bytes that
/// still hold `pattern`.
pub fn scan_margin(stack: &[u8], pattern: u32) -> (m: usize)
    ensures
        is_margin(stack@, m as int, pattern),
        m == margin_of(stack@, pattern),
{
    let len = stack.len();
    let mut at: usize = 0;
    loop
        invariant
            len == stack@.len(),
            untouched_prefix(stack@, at as int, pattern),
        ensures
            is_margin(stack@, at as int, pattern),
        decreases stack@.len() - at,
    {
        match load_word(stack, at) {
            Some(word) => {
                if word != pattern {
                    break ;
                }
                assert forall|k: int| 0 <= k < at + 4 && k % 4 == 0 implies #[trigger] untouched_word(
                    stack@,
                    k,
                    pattern,
                ) by {}
                at += WORD_BYTES;
            },
            None => {
                break ;
            },
        }
    }
    proof {
        margin_is_unique(stack@, pattern, at as int);
    }
    at
}

} // verus!
