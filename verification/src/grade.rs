use vstd::prelude::*;

use crate::text::owned;

verus! {

/// The letter that a numeric grade earns: 90 and above is an A, 80 an B,
/// 60 a C, 50 a D, anything lower an F.
pub open spec fn letter_for(grade: int) -> Seq<char> {
    if grade >= 90 {
        seq!['A']
    } else if grade >= 80 {
        seq!['B']
    } else if grade >= 60 {
        seq!['C']
    } else if grade >= 50 {
        seq!['D']
    } else {
        seq!['F']
    }
}

/// Rank of a letter, from F (0) to A (4); any other text ranks below F.
pub open spec fn letter_rank(letter: Seq<char>) -> int {
    if letter == seq!['A'] {
        4
    } else if letter == seq!['B'] {
        3
    } else if letter == seq!['C'] {
        2
    } else if letter == seq!['D'] {
        1
    } else if letter == seq!['F'] {
        0
    } else {
        -1
    }
}

/// Turns a numeric grade into its letter.
pub fn gradething(grade: i32) -> (result: String)
    ensures
        result@ == letter_for(grade as int),
        grade >= 90 ==> result@ == seq!['A'],
        80 <= grade < 90 ==> result@ == seq!['B'],
        60 <= grade < 80 ==> result@ == seq!['C'],
        50 <= grade < 60 ==> result@ == seq!['D'],
        grade < 50 ==> result@ == seq!['F'],
{
    let result: String;
    if grade >= 90 {
        result = owned("A");
        proof { reveal_strlit("A"); }
    } else if grade >= 80 {
        result = owned("B");
        proof { reveal_strlit("B"); }
    } else if grade >= 60 {
        result = owned("C");
        proof { reveal_strlit("C"); }
    } else if grade >= 50 {
        result = owned("D");
        proof { reveal_strlit("D"); }
    } else {
        result = owned("F");
        proof { reveal_strlit("F"); }
    }
    result
}

proof fn lemma_letter_ranks()
    ensures
        letter_rank(seq!['A']) == 4,
        letter_rank(seq!['B']) == 3,
        letter_rank(seq!['C']) == 2,
        letter_rank(seq!['D']) == 1,
        letter_rank(seq!['F']) == 0,
{
    assert(seq!['A'][0] == 'A');
    assert(seq!['B'][0] == 'B');
    assert(seq!['C'][0] == 'C');
    assert(seq!['D'][0] == 'D');
    assert(seq!['F'][0] == 'F');
}

/// The letters' thresholds: 90 for an A, 80 for a B, 60 for a C, 50 for a
/// D; below 50 an F.
pub proof fn lemma_letter_thresholds(grade: int)
    ensures
        grade >= 90 <==> letter_for(grade) == seq!['A'],
        80 <= grade < 90 <==> letter_for(grade) == seq!['B'],
        60 <= grade < 80 <==> letter_for(grade) == seq!['C'],
        50 <= grade < 60 <==> letter_for(grade) == seq!['D'],
        grade < 50 <==> letter_for(grade) == seq!['F'],
{
    lemma_letter_ranks();
}

/// Every grade earns one of the five letters A, B, C, D, F: never anything else.
pub proof fn lemma_letter_is_one_of_five(grade: int)
    ensures
        0 <= letter_rank(letter_for(grade)) <= 4,
{
    lemma_letter_ranks();
}

/// A higher grade never earns a worse letter.
pub proof fn lemma_letter_monotone(low: int, high: int)
    requires
        low <= high,
    ensures
        letter_rank(letter_for(low)) <= letter_rank(letter_for(high)),
{
    lemma_letter_ranks();
}

} // verus!
