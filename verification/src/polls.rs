//! Polls: the checks made when one is created or voted on, and the tally of
//! its votes.

use vstd::prelude::*;
use crate::errors::AppError;
use crate::models::PollVote;
use crate::text::{int_text, i64_to_text, push_i64, text_of};

verus! {

/// The fewest and the most options a poll may have.
pub const MIN_POLL_OPTIONS: usize = 2;
pub const MAX_POLL_OPTIONS: usize = 20;

/// Checks the number of options of a new poll.
pub fn check_poll_options(count: usize) -> (r: Result<(), AppError>)
    ensures
        count < 2 ==> (r matches Err(AppError::BadRequest(m)) && m@
            == "Poll must have at least 2 options"@),
        count > 20 ==> (r matches Err(AppError::BadRequest(m)) && m@ == "Too many options (max 20)"@),
        2 <= count <= 20 ==> r is Ok,
{
    if count < MIN_POLL_OPTIONS {
        return Err(AppError::BadRequest(text_of("Poll must have at least 2 options")));
    }
    if count > MAX_POLL_OPTIONS {
        return Err(AppError::BadRequest(text_of("Too many options (max 20)")));
    }
    Ok(())
}

/// How many options a voter may choose: 100 where several may be chosen, else 1.
pub fn count_of_options(more_than_one_vote: bool) -> (n: i64)
    ensures
        n == if more_than_one_vote { 100i64 } else { 1i64 },
{
    if more_than_one_vote {
        100
    } else {
        1
    }
}

/// The option id at a place, among rows of (place, option id); where several
/// rows share the place, the last one counts.
pub open spec fn option_at(rows: Seq<(i32, i64)>, position: i32) -> Option<i64>
    decreases rows.len(),
{
    if rows.len() == 0 {
        None
    } else if rows.last().0 == position {
        Some(rows.last().1)
    } else {
        option_at(rows.drop_last(), position)
    }
}

/// The option ids chosen by `indexes`, or the first index without an option.
pub open spec fn chosen_options(rows: Seq<(i32, i64)>, indexes: Seq<i32>) -> Result<Seq<i64>, i32>
    decreases indexes.len(),
{
    if indexes.len() == 0 {
        Ok(Seq::empty())
    } else {
        match chosen_options(rows, indexes.drop_last()) {
            Err(i) => Err(i),
            Ok(ids) => match option_at(rows, indexes.last()) {
                Some(id) => Ok(ids.push(id)),
                None => Err(indexes.last()),
            },
        }
    }
}

/// The option at `position`.
fn find_option(rows: &Vec<(i32, i64)>, position: i32) -> (r: Option<i64>)
    ensures
        r == option_at(rows@, position),
{
    let mut k: usize = rows.len();
    assert(rows@.subrange(0, k as int) =~= rows@);
    while k > 0
        invariant
            k <= rows@.len(),
            option_at(rows@, position) == option_at(rows@.subrange(0, k as int), position),
        decreases k,
    {
        let ghost pre = rows@.subrange(0, k as int);
        assert(pre.drop_last() =~= rows@.subrange(0, k - 1));
        if rows[k - 1].0 == position {
            return Some(rows[k - 1].1);
        }
        k = k - 1;
    }
    assert(rows@.subrange(0, 0) =~= Seq::<(i32, i64)>::empty());
    None
}

/// Turns the places chosen in a vote into option ids; a place with no option
/// is refused with `BadRequest("Option index {i} not found")`.
pub fn option_ids_for(rows: &Vec<(i32, i64)>, option_indexes: &Vec<i32>) -> (r: Result<Vec<i64>, AppError>)
    ensures
        match chosen_options(rows@, option_indexes@) {
            Ok(ids) => (r matches Ok(v) && v@ == ids),
            Err(i) => (r matches Err(AppError::BadRequest(m)) && m@ == "Option index "@ + int_text(
                i as int,
            ) + " not found"@),
        },
{
    let mut ids: Vec<i64> = Vec::new();
    let mut k: usize = 0;
    while k < option_indexes.len()
        invariant
            k <= option_indexes@.len(),
            chosen_options(rows@, option_indexes@.subrange(0, k as int)) == Ok::<Seq<i64>, i32>(ids@),
        decreases option_indexes@.len() - k,
    {
        let idx = option_indexes[k];
        let ghost next = option_indexes@.subrange(0, k + 1);
        assert(next.drop_last() =~= option_indexes@.subrange(0, k as int));
        match find_option(rows, idx) {
            Some(id) => {
                ids.push(id);
            },
            None => {
                let mut m = text_of("Option index ");
                push_i64(&mut m, idx as i64);
                crate::text::push_str(&mut m, " not found");
                proof {
                    let rest = option_indexes@.subrange(k + 1, option_indexes@.len() as int);
                    lemma_chosen_error_stays(rows@, next, rest);
                    assert(next + rest =~= option_indexes@);
                }
                return Err(AppError::BadRequest(m));
            },
        }
        k = k + 1;
    }
    assert(option_indexes@.subrange(0, option_indexes@.len() as int) =~= option_indexes@);
    Ok(ids)
}

/// Once an index has no option, longer choices fail on that same index.
proof fn lemma_chosen_error_stays(rows: Seq<(i32, i64)>, a: Seq<i32>, b: Seq<i32>)
    requires
        chosen_options(rows, a) is Err,
    ensures
        chosen_options(rows, a + b) == chosen_options(rows, a),
    decreases b.len(),
{
    if b.len() > 0 {
        lemma_chosen_error_stays(rows, a, b.drop_last());
        assert((a + b).drop_last() =~= a + b.drop_last());
    } else {
        assert(a + b =~= a);
    }
}

/// One option of a poll as the database holds it.
#[derive(Debug)]
pub struct PollOptionRow {
    pub option_id: i64,
    pub option_text: String,
    pub position: i32,
}

/// The tally of a poll: its options, each vote, the count per option, and
/// the options the asking user chose.
#[derive(Debug)]
pub struct PollWithVotes {
    pub options: Vec<String>,
    pub votes: Vec<PollVote>,
    pub votes_count: Vec<i32>,
    pub own_vote: Vec<i32>,
}

/// The place of the option with id `option_id`; where several rows share the
/// id, the last one counts.
pub open spec fn position_of(rows: Seq<PollOptionRow>, option_id: i64) -> Option<i32>
    decreases rows.len(),
{
    if rows.len() == 0 {
        None
    } else if rows.last().option_id == option_id {
        Some(rows.last().position)
    } else {
        position_of(rows.drop_last(), option_id)
    }
}

/// The votes of `votes` (user id, option id) that fall on a known option, as
/// (place, voter) pairs in order.
pub open spec fn counted_votes(rows: Seq<PollOptionRow>, votes: Seq<(i64, i64)>) -> Seq<(i32, i64)>
    decreases votes.len(),
{
    if votes.len() == 0 {
        Seq::empty()
    } else {
        let r = counted_votes(rows, votes.drop_last());
        match position_of(rows, votes.last().1) {
            Some(p) => r.push((p, votes.last().0)),
            None => r,
        }
    }
}

/// How many of `counted` fall on place `p`.
pub open spec fn votes_at(counted: Seq<(i32, i64)>, p: int) -> nat
    decreases counted.len(),
{
    if counted.len() == 0 {
        0
    } else {
        votes_at(counted.drop_last(), p) + if counted.last().0 == p { 1nat } else { 0nat }
    }
}

/// The places chosen by `user` among `counted`, in order.
pub open spec fn own_places(counted: Seq<(i32, i64)>, user: i64) -> Seq<i32>
    decreases counted.len(),
{
    if counted.len() == 0 {
        Seq::empty()
    } else {
        let r = own_places(counted.drop_last(), user);
        if counted.last().1 == user {
            r.push(counted.last().0)
        } else {
            r
        }
    }
}

/// The place of the option `option_id`.
fn find_position(rows: &Vec<PollOptionRow>, option_id: i64) -> (r: Option<i32>)
    ensures
        r == position_of(rows@, option_id),
{
    let mut k: usize = rows.len();
    assert(rows@.subrange(0, k as int) =~= rows@);
    while k > 0
        invariant
            k <= rows@.len(),
            position_of(rows@, option_id) == position_of(rows@.subrange(0, k as int), option_id),
        decreases k,
    {
        let ghost pre = rows@.subrange(0, k as int);
        assert(pre.drop_last() =~= rows@.subrange(0, k - 1));
        if rows[k - 1].option_id == option_id {
            return Some(rows[k - 1].position);
        }
        k = k - 1;
    }
    assert(rows@.subrange(0, 0) =~= Seq::<PollOptionRow>::empty());
    None
}

proof fn lemma_votes_at_bound(counted: Seq<(i32, i64)>, p: int)
    ensures
        votes_at(counted, p) <= counted.len(),
    decreases counted.len(),
{
    if counted.len() > 0 {
        lemma_votes_at_bound(counted.drop_last(), p);
    }
}

proof fn lemma_counted_len(rows: Seq<PollOptionRow>, votes: Seq<(i64, i64)>)
    ensures
        counted_votes(rows, votes).len() <= votes.len(),
    decreases votes.len(),
{
    if votes.len() > 0 {
        lemma_counted_len(rows, votes.drop_last());
    }
}

/// Whether every option's place lies within the list of options.
pub open spec fn places_in_range(rows: Seq<PollOptionRow>) -> bool {
    forall|i: int| 0 <= i < rows.len() ==> 0 <= #[trigger] rows[i].position < rows.len()
}

/// Whether every option's place lies within the list of options, as a tally
/// needs.
pub fn places_fit(rows: &Vec<PollOptionRow>) -> (r: bool)
    ensures
        r == places_in_range(rows@),
{
    let n = rows.len();
    let mut k: usize = 0;
    while k < n
        invariant
            n == rows@.len(),
            k <= n,
            forall|i: int| 0 <= i < k ==> 0 <= #[trigger] rows@[i].position < n,
        decreases n - k,
    {
        let p = rows[k].position;
        if p < 0 || p as usize >= n {
            return false;
        }
        k = k + 1;
    }
    true
}

proof fn lemma_position_in_range(rows: Seq<PollOptionRow>, id: i64, n: int)
    requires
        forall|i: int| 0 <= i < rows.len() ==> 0 <= #[trigger] rows[i].position < n,
    ensures
        position_of(rows, id) matches Some(p) ==> 0 <= p < n,
    decreases rows.len(),
{
    if rows.len() > 0 {
        let t = rows.drop_last();
        assert forall|i: int| 0 <= i < t.len() implies 0 <= #[trigger] t[i].position < n by {
            assert(t[i] == rows[i]);
        }
        lemma_position_in_range(t, id, n);
    }
}

/// The tally of a poll from its options (in order of place) and its votes
/// (voter, option id): the options' texts, each vote on a known option with
/// its place and its voter's id as text, the number of votes per place, and
/// the places that `current_user_id` chose.
pub fn tally_poll(options_rows: &Vec<PollOptionRow>, votes_rows: &Vec<(i64, i64)>, current_user_id: i64) -> (t: PollWithVotes)
    requires
        places_in_range(options_rows@),
        votes_rows@.len() < 0x8000_0000,
    ensures
        t.options@.len() == options_rows@.len(),
        forall|i: int| 0 <= i < options_rows@.len() ==> #[trigger] t.options@[i]@ == options_rows@[i].option_text@,
        t.votes@.len() == counted_votes(options_rows@, votes_rows@).len(),
        forall|k: int| 0 <= k < t.votes@.len() ==> (#[trigger] t.votes@[k]).option_index == counted_votes(
            options_rows@,
            votes_rows@,
        )[k].0 && t.votes@[k].user_id@ == int_text(counted_votes(options_rows@, votes_rows@)[k].1 as int),
        t.votes_count@.len() == options_rows@.len(),
        forall|p: int| 0 <= p < options_rows@.len() ==> #[trigger] t.votes_count@[p] == votes_at(
            counted_votes(options_rows@, votes_rows@),
            p,
        ),
        t.own_vote@ == own_places(counted_votes(options_rows@, votes_rows@), current_user_id),
        sum_counts(t.votes_count@) == t.votes@.len(),
{
    let n = options_rows.len();
    let mut options: Vec<String> = Vec::new();
    let mut votes_count: Vec<i32> = Vec::new();
    let mut i: usize = 0;
    while i < n
        invariant
            n == options_rows@.len(),
            i <= n,
            options@.len() == i,
            votes_count@.len() == i,
            forall|j: int| 0 <= j < i ==> #[trigger] options@[j]@ == options_rows@[j].option_text@,
            forall|j: int| 0 <= j < i ==> #[trigger] votes_count@[j] == 0,
        decreases n - i,
    {
        options.push(options_rows[i].option_text.clone());
        votes_count.push(0);
        i = i + 1;
    }
    let mut votes: Vec<PollVote> = Vec::new();
    let mut own_vote: Vec<i32> = Vec::new();
    let mut k: usize = 0;
    while k < votes_rows.len()
        invariant
            n == options_rows@.len(),
            places_in_range(options_rows@),
            votes_rows@.len() < 0x8000_0000,
            k <= votes_rows@.len(),
            votes_count@.len() == n,
            votes@.len() == counted_votes(options_rows@, votes_rows@.subrange(0, k as int)).len(),
            forall|j: int| 0 <= j < votes@.len() ==> (#[trigger] votes@[j]).option_index == counted_votes(
                options_rows@,
                votes_rows@.subrange(0, k as int),
            )[j].0 && votes@[j].user_id@ == int_text(
                counted_votes(options_rows@, votes_rows@.subrange(0, k as int))[j].1 as int,
            ),
            forall|p: int| 0 <= p < n ==> #[trigger] votes_count@[p] == votes_at(
                counted_votes(options_rows@, votes_rows@.subrange(0, k as int)),
                p,
            ),
            own_vote@ == own_places(counted_votes(options_rows@, votes_rows@.subrange(0, k as int)), current_user_id),
        decreases votes_rows@.len() - k,
    {
        let (user_id, option_id) = votes_rows[k];
        let ghost pre = votes_rows@.subrange(0, k as int);
        let ghost next = votes_rows@.subrange(0, k + 1);
        proof {
            assert(next.drop_last() =~= pre);
            assert(next.last() == (user_id, option_id));
        }
        match find_position(options_rows, option_id) {
            Some(position) => {
                proof {
                    lemma_position_in_range(options_rows@, option_id, n as int);
                    let c = counted_votes(options_rows@, pre);
                    lemma_votes_at_bound(c, position as int);
                    lemma_counted_len(options_rows@, pre);
                }
                let pos = position as usize;
                let old_count = votes_count[pos];
                votes_count.set(pos, old_count + 1);
                votes.push(PollVote { option_index: position, user_id: i64_to_text(user_id) });
                if user_id == current_user_id {
                    own_vote.push(position);
                }
                proof {
                    let c = counted_votes(options_rows@, pre);
                    let c2 = counted_votes(options_rows@, next);
                    assert(c2 == c.push((position, user_id)));
                    assert(c2.drop_last() =~= c);
                    assert forall|j: int| 0 <= j < votes@.len() implies (#[trigger] votes@[j]).option_index
                        == c2[j].0 && votes@[j].user_id@ == int_text(c2[j].1 as int) by {
                        if j < c.len() {
                            assert(c2[j] == c[j]);
                        }
                    }
                }
            },
            None => {
                proof {
                    assert(counted_votes(options_rows@, next) == counted_votes(options_rows@, pre));
                }
            },
        }
        k = k + 1;
    }
    assert(votes_rows@.subrange(0, votes_rows@.len() as int) =~= votes_rows@);
    proof {
        let c = counted_votes(options_rows@, votes_rows@);
        lemma_sum_counts_is_votes_below(votes_count@, c);
        law_tally_counts_every_vote(options_rows@, votes_rows@);
    }
    PollWithVotes { options, votes, votes_count, own_vote }
}

/// The votes on the places below `n`, added up.
pub open spec fn votes_below(counted: Seq<(i32, i64)>, n: nat) -> nat
    decreases n,
{
    if n == 0 {
        0
    } else {
        votes_below(counted, (n - 1) as nat) + votes_at(counted, n - 1)
    }
}

/// One more vote on place `q` adds one below `n` where `q` lies below `n`,
/// and nothing otherwise.
proof fn lemma_votes_below_push(c: Seq<(i32, i64)>, x: (i32, i64), n: nat)
    ensures
        votes_below(c.push(x), n) == votes_below(c, n) + if 0 <= x.0 < n { 1nat } else { 0nat },
    decreases n,
{
    let d = c.push(x);
    assert(d.drop_last() =~= c);
    if n > 0 {
        lemma_votes_below_push(c, x, (n - 1) as nat);
    }
}

/// Every counted vote falls on the place of an option.
proof fn lemma_counted_places(rows: Seq<PollOptionRow>, votes: Seq<(i64, i64)>)
    requires
        places_in_range(rows),
    ensures
        forall|k: int| 0 <= k < counted_votes(rows, votes).len() ==> 0 <= #[trigger] counted_votes(rows, votes)[k].0
            < rows.len(),
    decreases votes.len(),
{
    if votes.len() > 0 {
        let pre = votes.drop_last();
        lemma_counted_places(rows, pre);
        lemma_position_in_range(rows, votes.last().1, rows.len() as int);
        let c = counted_votes(rows, pre);
        let d = counted_votes(rows, votes);
        assert forall|k: int| 0 <= k < d.len() implies 0 <= #[trigger] d[k].0 < rows.len() by {
            if k < c.len() {
                assert(d[k] == c[k]);
            }
        }
    }
}

/// Votes that all fall below `n` add up, over the places below `n`, to
/// their number.
proof fn lemma_votes_below_all(c: Seq<(i32, i64)>, n: nat)
    requires
        forall|k: int| 0 <= k < c.len() ==> 0 <= #[trigger] c[k].0 < n,
    ensures
        votes_below(c, n) == c.len(),
    decreases c.len(),
{
    if c.len() == 0 {
        lemma_votes_below_empty(c, n);
    } else {
        let t = c.drop_last();
        assert forall|k: int| 0 <= k < t.len() implies 0 <= #[trigger] t[k].0 < n by {
            assert(t[k] == c[k]);
        }
        lemma_votes_below_all(t, n);
        lemma_votes_below_push(t, c.last(), n);
        assert(t.push(c.last()) =~= c);
    }
}

/// No votes add up to nothing.
proof fn lemma_votes_below_empty(c: Seq<(i32, i64)>, n: nat)
    requires
        c.len() == 0,
    ensures
        votes_below(c, n) == 0,
    decreases n,
{
    if n > 0 {
        lemma_votes_below_empty(c, (n - 1) as nat);
    }
}

/// A tally loses no vote and makes none up: where every option's place lies
/// within the options, the counts per place (`votes_count` of `tally_poll`)
/// add up to the number of votes on known options (its `votes`).
pub proof fn law_tally_counts_every_vote(rows: Seq<PollOptionRow>, votes: Seq<(i64, i64)>)
    requires
        places_in_range(rows),
    ensures
        votes_below(counted_votes(rows, votes), rows.len()) == counted_votes(rows, votes).len(),
{
    lemma_counted_places(rows, votes);
    lemma_votes_below_all(counted_votes(rows, votes), rows.len());
}

/// The counts of `s` added up.
pub open spec fn sum_counts(s: Seq<i32>) -> int
    decreases s.len(),
{
    if s.len() == 0 {
        0
    } else {
        sum_counts(s.drop_last()) + s.last()
    }
}

/// Counts that hold the votes per place add up to the votes below their
/// number.
proof fn lemma_sum_counts_is_votes_below(s: Seq<i32>, c: Seq<(i32, i64)>)
    requires
        forall|p: int| 0 <= p < s.len() ==> #[trigger] s[p] == votes_at(c, p),
    ensures
        sum_counts(s) == votes_below(c, s.len()),
    decreases s.len(),
{
    if s.len() > 0 {
        let t = s.drop_last();
        assert forall|p: int| 0 <= p < t.len() implies #[trigger] t[p] == votes_at(c, p) by {
            assert(t[p] == s[p]);
        }
        lemma_sum_counts_is_votes_below(t, c);
        assert(s[s.len() - 1] == votes_at(c, s.len() - 1));
    }
}

} // verus!
