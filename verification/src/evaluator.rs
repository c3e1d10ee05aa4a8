//! Marking a guess against the hidden word.
//!
//! A letter of the guess that stands where the hidden word has it is
//! `RES_CORRECT`. The letters of the hidden word that were not met in place
//! form a pool; going through the guess from the left, a letter out of place
//! is `RES_PRESENT` while the pool still holds a copy of it, which it then
//! uses up, and `RES_WRONG` after that.

use vstd::prelude::*;
use crate::clue::{RES_CORRECT, RES_PRESENT, RES_WRONG};

verus! {

/// The number of positions `k < n` where `s` holds `c`.
pub open spec fn occurrences(s: Seq<char>, c: char, n: int) -> nat
    decreases n,
{
    if n <= 0 {
        0
    } else {
        occurrences(s, c, n - 1) + if s[n - 1] == c {
            1nat
        } else {
            0nat
        }
    }
}

/// The number of positions `k < n` where `a` holds `c` and `b` does not.
pub open spec fn unmatched(a: Seq<char>, b: Seq<char>, c: char, n: int) -> nat
    decreases n,
{
    if n <= 0 {
        0
    } else {
        unmatched(a, b, c, n - 1) + if a[n - 1] == c && b[n - 1] != c {
            1nat
        } else {
            0nat
        }
    }
}

/// How often `c` occurs in the whole of `s`.
pub open spec fn count_in(s: Seq<char>, c: char) -> nat {
    occurrences(s, c, s.len() as int)
}

/// The clue for position `i` of `guess`.
///
/// Out of place, the letter is `RES_PRESENT` exactly when fewer copies of it
/// stand out of place to its left in the guess than the hidden word holds
/// unmet.
pub open spec fn clue_at(target: Seq<char>, guess: Seq<char>, i: int) -> u8 {
    if target[i] == guess[i] {
        RES_CORRECT
    } else if unmatched(guess, target, guess[i], i) < unmatched(
        target,
        guess,
        guess[i],
        target.len() as int,
    ) {
        RES_PRESENT
    } else {
        RES_WRONG
    }
}

/// The clues for every position of `guess`.
pub open spec fn evaluation(target: Seq<char>, guess: Seq<char>) -> Seq<u8> {
    Seq::new(guess.len(), |i: int| clue_at(target, guess, i))
}

/// The number of positions `i < n` where `guess` holds `c` and the clue is
/// `RES_CORRECT` or `RES_PRESENT`.
pub open spec fn credited(target: Seq<char>, guess: Seq<char>, c: char, n: int) -> nat
    decreases n,
{
    if n <= 0 {
        0
    } else {
        credited(target, guess, c, n - 1) + if guess[n - 1] == c && clue_at(target, guess, n - 1)
            >= RES_PRESENT {
            1nat
        } else {
            0nat
        }
    }
}

/// The smaller of two counts.
pub open spec fn least(a: nat, b: nat) -> nat {
    if a <= b {
        a
    } else {
        b
    }
}

proof fn lemma_occurrences_agree(s1: Seq<char>, s2: Seq<char>, c: char, n: int)
    requires
        n <= s1.len(),
        n <= s2.len(),
        forall|k: int| 0 <= k < n ==> s1[k] == s2[k],
    ensures
        occurrences(s1, c, n) == occurrences(s2, c, n),
    decreases n,
{
    if n > 0 {
        lemma_occurrences_agree(s1, s2, c, n - 1);
    }
}

proof fn lemma_occurrences_update(s: Seq<char>, i: int, v: char, c: char, n: int)
    requires
        0 <= i < n <= s.len(),
    ensures
        occurrences(s.update(i, v), c, n) + (if s[i] == c {
            1nat
        } else {
            0nat
        }) == occurrences(s, c, n) + (if v == c {
            1nat
        } else {
            0nat
        }),
    decreases n,
{
    if i == n - 1 {
        lemma_occurrences_agree(s.update(i, v), s, c, n - 1);
    } else {
        lemma_occurrences_update(s, i, v, c, n - 1);
    }
}

/// Taking the item at `i` out by moving the last item into its place lowers
/// the count of that item by one and no other count.
proof fn lemma_count_swap_remove(s: Seq<char>, i: int, c: char)
    requires
        0 <= i < s.len(),
    ensures
        count_in(s.update(i, s.last()).drop_last(), c) + (if s[i] == c {
            1nat
        } else {
            0nat
        }) == count_in(s, c),
{
    let n = s.len() as int;
    let moved = s.update(i, s.last());
    lemma_occurrences_agree(moved.drop_last(), moved, c, n - 1);
    if i == n - 1 {
        lemma_occurrences_agree(moved, s, c, n - 1);
    } else {
        lemma_occurrences_update(s, i, s.last(), c, n - 1);
    }
}

proof fn lemma_count_push(s: Seq<char>, v: char, c: char)
    ensures
        count_in(s.push(v), c) == count_in(s, c) + (if v == c {
            1nat
        } else {
            0nat
        }),
{
    lemma_occurrences_agree(s.push(v), s, c, s.len() as int);
}

proof fn lemma_occurrences_none(s: Seq<char>, c: char, n: int)
    requires
        n <= s.len(),
        forall|k: int| 0 <= k < n ==> s[k] != c,
    ensures
        occurrences(s, c, n) == 0,
    decreases n,
{
    if n > 0 {
        lemma_occurrences_none(s, c, n - 1);
    }
}

proof fn lemma_occurrences_some(s: Seq<char>, c: char, n: int, k: int)
    requires
        0 <= k < n <= s.len(),
        s[k] == c,
    ensures
        occurrences(s, c, n) > 0,
    decreases n,
{
    if k < n - 1 {
        lemma_occurrences_some(s, c, n - 1, k);
    }
}

/// Takes the first item equal to `val` out of `pool`, moving the last item
/// into its place, and says whether there was one.
pub fn remove_item(pool: &mut Vec<char>, val: char) -> (found: bool)
    ensures
        found == old(pool)@.contains(val),
        found == (count_in(old(pool)@, val) > 0),
        !found ==> final(pool)@ == old(pool)@,
        found ==> ({
            let at = old(pool)@.index_of_first(val).unwrap();
            final(pool)@ == old(pool)@.update(at, old(pool)@.last()).drop_last()
        }),
        forall|c: char|
            #[trigger] count_in(final(pool)@, c) + (if found && c == val {
                1nat
            } else {
                0nat
            }) == count_in(old(pool)@, c),
{
    let n = pool.len();
    let mut idx: usize = 0;
    while idx < n
        invariant
            idx <= n,
            n == pool@.len(),
            *pool == *old(pool),
            forall|k: int| 0 <= k < idx ==> pool@[k] != val,
        decreases n - idx,
    {
        if pool[idx] == val {
            proof {
                let before = pool@;
                before.index_of_first_ensures(val);
                lemma_occurrences_some(before, val, n as int, idx as int);
                assert forall|c: char|
                    #[trigger] count_in(before.update(idx as int, before.last()).drop_last(), c)
                        + (if c == val {
                        1nat
                    } else {
                        0nat
                    }) == count_in(before, c) by {
                    lemma_count_swap_remove(before, idx as int, c);
                }
            }
            pool.swap_remove(idx);
            return true;
        }
        idx += 1;
    }
    proof {
        lemma_occurrences_none(pool@, val, n as int);
    }
    false
}

/// Marks `guess` against `target`, position by position.
pub fn evaluate(target: &Vec<char>, guess: &Vec<char>) -> (result: [u8; 5])
    requires
        target@.len() == 5,
        guess@.len() == 5,
    ensures
        result@ == evaluation(target@, guess@),
{
    let mut pool: Vec<char> = Vec::new();
    for i in 0..5usize
        invariant
            target@.len() == 5,
            guess@.len() == 5,
            forall|c: char|
                #[trigger] count_in(pool@, c) == unmatched(target@, guess@, c, i as int),
    {
        if target[i] != guess[i] {
            proof {
                assert forall|c: char| #[trigger]
                    count_in(pool@.push(target@[i as int]), c) == unmatched(
                        target@,
                        guess@,
                        c,
                        i + 1,
                    ) by {
                    lemma_count_push(pool@, target@[i as int], c);
                }
            }
            pool.push(target[i]);
        }
    }
    let mut result: [u8; 5] = [RES_WRONG;5];
    for i in 0..5usize
        invariant
            target@.len() == 5,
            guess@.len() == 5,
            forall|c: char| #[trigger]
                count_in(pool@, c) + unmatched(guess@, target@, c, i as int) >= unmatched(
                    target@,
                    guess@,
                    c,
                    5,
                ),
            forall|c: char|
                count_in(pool@, c) > 0 ==> #[trigger] count_in(pool@, c) + unmatched(
                    guess@,
                    target@,
                    c,
                    i as int,
                ) == unmatched(target@, guess@, c, 5),
            forall|j: int| 0 <= j < i ==> result@[j] == clue_at(target@, guess@, j),
    {
        let c = guess[i];
        if c == target[i] {
            result[i] = RES_CORRECT;
        } else if remove_item(&mut pool, c) {
            result[i] = RES_PRESENT;
        } else {
            result[i] = RES_WRONG;
        }
    }
    assert(result@ =~= evaluation(target@, guess@));
    result
}

/// A word marked against itself is correct at every position.
pub proof fn law_self_match(word: Seq<char>)
    ensures
        evaluation(word, word) =~= Seq::new(word.len(), |i: int| RES_CORRECT),
{
}

/// Where the guess repeats the hidden word in place, the clue is
/// `RES_CORRECT`, and nowhere else.
pub proof fn law_correct_in_place(target: Seq<char>, guess: Seq<char>, i: int)
    requires
        0 <= i < guess.len(),
    ensures
        target[i] == guess[i] <==> evaluation(target, guess)[i] == RES_CORRECT,
        evaluation(target, guess)[i] == RES_WRONG || evaluation(target, guess)[i] == RES_PRESENT
            || evaluation(target, guess)[i] == RES_CORRECT,
{
}

proof fn lemma_split_by_place(a: Seq<char>, b: Seq<char>, c: char, n: int)
    ensures
        occurrences(a, c, n) == unmatched(a, b, c, n) + (occurrences(b, c, n) - unmatched(
            b,
            a,
            c,
            n,
        )),
        unmatched(b, a, c, n) <= occurrences(b, c, n),
    decreases n,
{
    if n > 0 {
        lemma_split_by_place(a, b, c, n - 1);
    }
}

proof fn lemma_credited_prefix(target: Seq<char>, guess: Seq<char>, c: char, n: int)
    ensures
        credited(target, guess, c, n) + unmatched(guess, target, c, n) == occurrences(guess, c, n)
            + least(
            unmatched(guess, target, c, n),
            unmatched(target, guess, c, target.len() as int),
        ),
    decreases n,
{
    if n > 0 {
        lemma_credited_prefix(target, guess, c, n - 1);
        lemma_split_by_place(guess, target, c, n - 1);
    }
}

/// Letter accounting: for every letter, the positions of the guess that hold
/// it and are marked `RES_CORRECT` or `RES_PRESENT` are as many as the
/// smaller of its counts in the guess and in the hidden word.
pub proof fn law_letter_accounting(target: Seq<char>, guess: Seq<char>, c: char)
    requires
        target.len() == guess.len(),
    ensures
        credited(target, guess, c, guess.len() as int) == least(
            count_in(guess, c),
            count_in(target, c),
        ),
{
    let n = guess.len() as int;
    lemma_credited_prefix(target, guess, c, n);
    lemma_split_by_place(guess, target, c, n);
    lemma_split_by_place(target, guess, c, n);
}

} // verus!
