use vstd::prelude::*;

verus! {

/// Points awarded for one accepted answer.
pub const POINTS_PER_ANSWER: u32 = 10;

/// The score board as a map from player key to points (a later entry for a
/// key would shadow an earlier one; a well-formed board has none).
pub open spec fn board_of(s: Seq<(String, u32)>) -> Map<Seq<char>, u32>
    decreases s.len(),
{
    if s.len() == 0 {
        Map::empty()
    } else {
        board_of(s.drop_last()).insert(s.last().0@, s.last().1)
    }
}

/// No player key occurs twice on the board.
pub open spec fn keys_unique(s: Seq<(String, u32)>) -> bool {
    forall|i: int, j: int| 0 <= i < j < s.len() ==> #[trigger] s[i].0@ != #[trigger] s[j].0@
}

/// A player's points on a board: 0 where the player has no entry yet.
pub open spec fn points_of(b: Map<Seq<char>, u32>, p: Seq<char>) -> u32 {
    if b.contains_key(p) {
        b[p]
    } else {
        0
    }
}

/// The points that one accepted answer earns. Every answer earns the same flat
/// award: whether it is correct is not judged here.
pub open spec fn points_for_answer(player: Seq<char>, question_index: u8, answer: Seq<char>) -> u32 {
    POINTS_PER_ANSWER
}

/// The scoring rule: how many points `player` earns for `answer` to question
/// `question_index`.
pub fn answer_points(player: &String, question_index: u8, answer: &String) -> (d: u32)
    ensures
        d == points_for_answer(player@, question_index, answer@),
{
    POINTS_PER_ANSWER
}

/// Points after an award of `delta`, capped at `u32::MAX`.
pub open spec fn awarded(points: u32, delta: u32) -> u32 {
    if points + delta <= u32::MAX {
        (points + delta) as u32
    } else {
        u32::MAX
    }
}

/// The board after `p` is awarded `delta` more points.
pub open spec fn board_after_answer(b: Map<Seq<char>, u32>, p: Seq<char>, delta: u32) -> Map<Seq<char>, u32> {
    b.insert(p, awarded(points_of(b, p), delta))
}

proof fn lemma_board_entry(s: Seq<(String, u32)>, i: int)
    requires
        keys_unique(s),
        0 <= i < s.len(),
    ensures
        board_of(s).contains_key(s[i].0@),
        board_of(s)[s[i].0@] == s[i].1,
    decreases s.len(),
{
    if i < s.len() - 1 {
        let d = s.drop_last();
        assert(d[i] == s[i]);
        assert(s.last() == s[s.len() - 1]);
        lemma_board_entry(d, i);
    }
}

proof fn lemma_board_absent(s: Seq<(String, u32)>, k: Seq<char>)
    requires
        forall|j: int| 0 <= j < s.len() ==> (#[trigger] s[j]).0@ != k,
    ensures
        !board_of(s).contains_key(k),
    decreases s.len(),
{
    if s.len() > 0 {
        let d = s.drop_last();
        assert forall|j: int| 0 <= j < d.len() implies (#[trigger] d[j]).0@ != k by {
            assert(d[j] == s[j]);
        }
        assert(s.last() == s[s.len() - 1]);
        lemma_board_absent(d, k);
    }
}

proof fn lemma_board_update(s: Seq<(String, u32)>, i: int, x: (String, u32))
    requires
        keys_unique(s),
        0 <= i < s.len(),
        x.0@ == s[i].0@,
    ensures
        board_of(s.update(i, x)) == board_of(s).insert(x.0@, x.1),
    decreases s.len(),
{
    let u = s.update(i, x);
    let d = s.drop_last();
    assert(s.last() == s[s.len() - 1]);
    if i == s.len() - 1 {
        assert(u.drop_last() =~= d);
        assert(board_of(u) =~= board_of(s).insert(x.0@, x.1));
    } else {
        assert(u.drop_last() =~= d.update(i, x));
        assert(d[i] == s[i]);
        lemma_board_update(d, i, x);
        assert(s.last().0@ != s[i].0@);
        assert(board_of(u) =~= board_of(s).insert(x.0@, x.1));
    }
}

/// Adds `delta` points to `player`'s entry, creating the entry (at 0) when the
/// player has none yet.
pub fn record_answer(board: &mut Vec<(String, u32)>, player: &String, delta: u32)
    requires
        keys_unique(old(board)@),
    ensures
        keys_unique(final(board)@),
        board_of(final(board)@) == board_after_answer(board_of(old(board)@), player@, delta),
{
    let ghost start = board@;
    let mut i: usize = 0;
    while i < board.len()
        invariant
            0 <= i <= board.len(),
            board@ == start,
            old(board)@ == start,
            keys_unique(start),
            forall|j: int| 0 <= j < i ==> (#[trigger] start[j]).0@ != player@,
        decreases board.len() - i,
    {
        if board[i].0 == *player {
            let next = board[i].1.saturating_add(delta);
            let entry = (player.clone(), next);
            proof {
                lemma_board_entry(start, i as int);
                lemma_board_update(start, i as int, entry);
            }
            board[i] = entry;
            return;
        }
        i += 1;
    }
    proof {
        lemma_board_absent(start, player@);
    }
    board.push((player.clone(), delta));
    assert(board@.drop_last() =~= start);
}

} // verus!
