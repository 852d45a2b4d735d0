use vstd::prelude::*;

verus! {

/// A goal delivery: `amount` handed in by the Discord user `user_id`, waiting
/// for approval under the approval message `message_id`.
pub struct Goal {
    pub id: i64,
    pub user_id: i64,
    pub amount: i64,
    pub created_at: Option<String>,
    pub status: Option<String>,
    pub message_id: Option<String>,
}

/// The amounts of the goals delivered by `user`, in the order of `goals`.
pub open spec fn amounts_of_user(goals: Seq<Goal>, user: i64) -> Seq<i64>
    decreases goals.len(),
{
    if goals.len() == 0 {
        Seq::empty()
    } else {
        let rest = amounts_of_user(goals.drop_last(), user);
        if goals.last().user_id == user {
            rest.push(goals.last().amount)
        } else {
            rest
        }
    }
}

/// The goals delivered by `user`, in the order of `goals`.
pub open spec fn goals_of_user(goals: Seq<Goal>, user: i64) -> Seq<Goal>
    decreases goals.len(),
{
    if goals.len() == 0 {
        Seq::empty()
    } else {
        let rest = goals_of_user(goals.drop_last(), user);
        if goals.last().user_id == user {
            rest.push(goals.last())
        } else {
            rest
        }
    }
}

/// Sum of 64-bit values.
pub open spec fn sum_i64(s: Seq<i64>) -> int
    decreases s.len(),
{
    if s.len() == 0 {
        0
    } else {
        sum_i64(s.drop_last()) + s.last()
    }
}

/// Adding up `s` from the left in 64-bit arithmetic never overflows.
pub open spec fn sums_fit_i64(s: Seq<i64>) -> bool {
    forall|k: int| 0 <= k <= s.len() ==> i64::MIN <= #[trigger] sum_i64(s.take(k)) <= i64::MAX
}

/// The amounts of `goals` cut down to 32 bits (`as i32`), as the weekly
/// totals of a single user are counted.
pub open spec fn amounts_as_i32(goals: Seq<Goal>) -> Seq<i32> {
    goals.map_values(|g: Goal| g.amount as i32)
}

/// Sum of 32-bit values.
pub open spec fn sum_i32(s: Seq<i32>) -> int
    decreases s.len(),
{
    if s.len() == 0 {
        0
    } else {
        sum_i32(s.drop_last()) + s.last()
    }
}

/// Adding up `s` from the left in 32-bit arithmetic never overflows.
pub open spec fn sums_fit_i32(s: Seq<i32>) -> bool {
    forall|k: int| 0 <= k <= s.len() ==> i32::MIN <= #[trigger] sum_i32(s.take(k)) <= i32::MAX
}

/// The goals of `goals` that `user` delivered, in their order.
pub fn goals_of(goals: &Vec<Goal>, user: i64) -> (r: Vec<Goal>)
    ensures
        r@ == goals_of_user(goals@, user),
{
    let mut r: Vec<Goal> = Vec::new();
    for k in 0..goals.len()
        invariant
            r@ == goals_of_user(goals@.take(k as int), user),
    {
        proof {
            assert(goals@.take(k + 1).drop_last() == goals@.take(k as int));
        }
        if goals[k].user_id == user {
            let g = &goals[k];
            r.push(
                Goal {
                    id: g.id,
                    user_id: g.user_id,
                    amount: g.amount,
                    created_at: g.created_at.clone(),
                    status: g.status.clone(),
                    message_id: g.message_id.clone(),
                },
            );
            proof {
                assert(r@.last() == goals@[k as int]);
            }
        }
    }
    proof {
        assert(goals@.take(goals.len() as int) == goals@);
    }
    r
}

/// The amounts that `user` delivered, in the order of `goals`.
pub fn amounts_of(goals: &Vec<Goal>, user: i64) -> (r: Vec<i64>)
    ensures
        r@ == amounts_of_user(goals@, user),
{
    let mut r: Vec<i64> = Vec::new();
    for k in 0..goals.len()
        invariant
            r@ == amounts_of_user(goals@.take(k as int), user),
    {
        proof {
            assert(goals@.take(k + 1).drop_last() == goals@.take(k as int));
        }
        if goals[k].user_id == user {
            r.push(goals[k].amount);
        }
    }
    proof {
        assert(goals@.take(goals.len() as int) == goals@);
    }
    r
}

/// The sum of `values`, added from the left; `None` where a partial sum
/// leaves the 64-bit range (where the plain `+` would overflow).
pub fn checked_sum_i64(values: &Vec<i64>) -> (r: Option<i64>)
    ensures
        r is Some <==> sums_fit_i64(values@),
        r matches Some(v) ==> v == sum_i64(values@),
{
    let mut acc: i64 = 0;
    proof {
        assert(values@.take(0) == Seq::<i64>::empty());
    }
    for k in 0..values.len()
        invariant
            acc == sum_i64(values@.take(k as int)),
            forall|j: int| 0 <= j <= k ==> i64::MIN <= #[trigger] sum_i64(values@.take(j)) <= i64::MAX,
    {
        proof {
            assert(values@.take(k + 1).drop_last() == values@.take(k as int));
        }
        match acc.checked_add(values[k]) {
            Some(next) => {
                acc = next;
            },
            None => {
                assert(!(i64::MIN <= sum_i64(values@.take(k + 1)) <= i64::MAX));
                return None;
            },
        }
    }
    proof {
        assert(values@.take(values.len() as int) == values@);
    }
    Some(acc)
}

/// The weekly total of a user's goals as the bot counts it: each amount cut
/// down to 32 bits and added in 32-bit arithmetic; `None` where a partial
/// sum overflows.
pub fn total_as_i32(goals: &Vec<Goal>) -> (r: Option<i32>)
    ensures
        r is Some <==> sums_fit_i32(amounts_as_i32(goals@)),
        r matches Some(v) ==> v == sum_i32(amounts_as_i32(goals@)),
{
    let ghost s = amounts_as_i32(goals@);
    let mut acc: i32 = 0;
    proof {
        assert(s.take(0) == Seq::<i32>::empty());
    }
    for k in 0..goals.len()
        invariant
            s == amounts_as_i32(goals@),
            s.len() == goals.len(),
            acc == sum_i32(s.take(k as int)),
            forall|j: int| 0 <= j <= k ==> i32::MIN <= #[trigger] sum_i32(s.take(j)) <= i32::MAX,
    {
        proof {
            assert(s.take(k + 1).drop_last() == s.take(k as int));
        }
        let amount = goals[k].amount as i32;
        assert(amount == s[k as int]);
        match acc.checked_add(amount) {
            Some(next) => {
                acc = next;
            },
            None => {
                assert(!(i32::MIN <= sum_i32(s.take(k + 1)) <= i32::MAX));
                return None;
            },
        }
    }
    proof {
        assert(s.take(goals.len() as int) == s);
    }
    Some(acc)
}

/// The weekly total of `user` as the bot counts it on `/info`, in verdicts
/// and in reminders: the user's goals among `week_goals`, each amount cut
/// down to 32 bits, added in 32-bit arithmetic; `None` where that overflows.
pub fn weekly_total(week_goals: &Vec<Goal>, user: i64) -> (r: Option<i32>)
    ensures
        r is Some <==> sums_fit_i32(amounts_as_i32(goals_of_user(week_goals@, user))),
        r matches Some(v) ==> v == sum_i32(amounts_as_i32(goals_of_user(week_goals@, user))),
{
    let mine = goals_of(week_goals, user);
    total_as_i32(&mine)
}

} // verus!
