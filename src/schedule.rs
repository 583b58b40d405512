use vstd::prelude::*;

verus! {

/// One unit of work in a simulation frame.
#[derive(Clone, Copy, Debug, PartialEq, Eq, Structural)]
pub enum Step {
    /// Apply gravity, wall bounces and motion to one ball.
    Integrate(usize),
    /// Resolve a possible contact between two balls, the first index the smaller.
    Collide(usize, usize),
    /// Resolve a possible contact between one ball and the player.
    TouchPlayer(usize),
    /// Apply gravity, input, wall bounces and motion to the player.
    MovePlayer,
    /// Move the collector into place and remove the balls it overlaps.
    Collect,
}

/// The ball whose turn a step belongs to, if any.
pub open spec fn turn_of(s: Step) -> Option<usize> {
    match s {
        Step::Integrate(i) => Some(i),
        Step::Collide(i, _) => Some(i),
        Step::TouchPlayer(i) => Some(i),
        _ => None,
    }
}

/// The steps of ball `i`'s turn among `n` balls: it moves, meets each later
/// ball once, then meets the player.
pub open spec fn turn_steps(i: nat, n: nat) -> Seq<Step> {
    seq![Step::Integrate(i as usize)]
        + Seq::new((n - i - 1) as nat, |k: int| Step::Collide(i as usize, (i + 1 + k) as usize))
        + seq![Step::TouchPlayer(i as usize)]
}

/// The turns of the first `k` balls among `n`, in index order.
pub open spec fn turns(k: nat, n: nat) -> Seq<Step>
    decreases k,
{
    if k == 0 {
        Seq::empty()
    } else {
        turns((k - 1) as nat, n) + turn_steps((k - 1) as nat, n)
    }
}

/// A whole frame over `n` balls: every ball's turn, then the player, then the collector.
pub open spec fn frame_steps(n: nat) -> Seq<Step> {
    turns(n, n) + seq![Step::MovePlayer, Step::Collect]
}

/// Lists the steps of one frame over `n` balls, in the order they run.
pub fn frame_plan(n: usize) -> (r: Vec<Step>)
    ensures
        r@ == frame_steps(n as nat),
{
    let mut plan: Vec<Step> = Vec::new();
    let mut i: usize = 0;
    while i < n
        invariant
            i <= n,
            plan@ == turns(i as nat, n as nat),
        decreases n - i,
    {
        let ghost before = plan@;
        plan.push(Step::Integrate(i));
        let mut j: usize = i + 1;
        while j < n
            invariant
                i < j <= n,
                plan@ == before + seq![Step::Integrate(i)] + Seq::new(
                    (j - i - 1) as nat,
                    |k: int| Step::Collide(i, (i + 1 + k) as usize),
                ),
            decreases n - j,
        {
            plan.push(Step::Collide(i, j));
            j += 1;
            assert(plan@ == before + seq![Step::Integrate(i)] + Seq::new(
                (j - i - 1) as nat,
                |k: int| Step::Collide(i, (i + 1 + k) as usize),
            ));
        }
        plan.push(Step::TouchPlayer(i));
        assert(plan@ == turns((i + 1) as nat, n as nat));
        i += 1;
    }
    plan.push(Step::MovePlayer);
    plan.push(Step::Collect);
    plan
}

proof fn lemma_turn_steps(i: nat, n: nat)
    requires
        i < n <= usize::MAX,
    ensures
        turn_steps(i, n).no_duplicates(),
        forall|x: int| 0 <= x < turn_steps(i, n).len() ==> turn_of(#[trigger] turn_steps(i, n)[x])
            == Some(i as usize),
        forall|b: usize| i < b < n ==> #[trigger] turn_steps(i, n).contains(Step::Collide(i as usize, b)),
        turn_steps(i, n).contains(Step::Integrate(i as usize)),
        turn_steps(i, n).contains(Step::TouchPlayer(i as usize)),
        forall|x: int, a: usize, b: usize|
            0 <= x < turn_steps(i, n).len() && turn_steps(i, n)[x] == Step::Collide(a, b)
                ==> a < b < n,
{
    let s = turn_steps(i, n);
    let m = (n - i - 1) as nat;
    assert(s.len() == m + 2);
    assert forall|x: int| 0 <= x < s.len() implies turn_of(#[trigger] s[x]) == Some(i as usize) by {
        if 1 <= x < m + 1 {
            assert(s[x] == Step::Collide(i as usize, (i + 1 + (x - 1)) as usize));
        }
    }
    assert forall|x: int, a: usize, b: usize|
        0 <= x < s.len() && s[x] == Step::Collide(a, b) implies a < b < n by {
        if 1 <= x < m + 1 {
            assert(s[x] == Step::Collide(i as usize, (i + 1 + (x - 1)) as usize));
        }
    }
    assert forall|x: int, y: int| 0 <= x < s.len() && 0 <= y < s.len() && x != y implies s[x]
        != s[y] by {
        if 1 <= x < m + 1 && 1 <= y < m + 1 {
            assert(s[x] == Step::Collide(i as usize, (i + 1 + (x - 1)) as usize));
            assert(s[y] == Step::Collide(i as usize, (i + 1 + (y - 1)) as usize));
        }
    }
    assert forall|b: usize| i < b < n implies #[trigger] s.contains(Step::Collide(i as usize, b)) by {
        let x = b - i;
        assert(s[x] == Step::Collide(i as usize, b));
    }
    assert(s[0] == Step::Integrate(i as usize));
    assert(s[m + 1int] == Step::TouchPlayer(i as usize));
}

proof fn lemma_turns(k: nat, n: nat)
    requires
        k <= n <= usize::MAX,
    ensures
        turns(k, n).no_duplicates(),
        forall|x: int| 0 <= x < turns(k, n).len() ==> (match turn_of(#[trigger] turns(k, n)[x]) {
            Some(t) => t < k,
            None => false,
        }),
        forall|a: usize, b: usize| a < k && a < b < n ==> #[trigger] turns(k, n).contains(Step::Collide(a, b)),
        forall|a: usize| a < k ==> #[trigger] turns(k, n).contains(Step::Integrate(a)),
        forall|a: usize| a < k ==> #[trigger] turns(k, n).contains(Step::TouchPlayer(a)),
        forall|x: int, a: usize, b: usize|
            0 <= x < turns(k, n).len() && turns(k, n)[x] == Step::Collide(a, b) ==> a < b < n,
    decreases k,
{
    if k > 0 {
        let p = (k - 1) as nat;
        lemma_turns(p, n);
        lemma_turn_steps(p, n);
        let front = turns(p, n);
        let back = turn_steps(p, n);
        let s = turns(k, n);
        assert(s == front + back);
        assert forall|x: int| 0 <= x < s.len() implies (match turn_of(#[trigger] s[x]) {
            Some(t) => t < k,
            None => false,
        }) by {
            if x >= front.len() {
                assert(s[x] == back[x - front.len()]);
            } else {
                assert(s[x] == front[x]);
            }
        }
        assert forall|x: int, y: int| 0 <= x < s.len() && 0 <= y < s.len() && x != y implies s[x]
            != s[y] by {
            if x < front.len() && y >= front.len() {
                assert(turn_of(front[x]) != turn_of(back[y - front.len()]));
            } else if y < front.len() && x >= front.len() {
                assert(turn_of(front[y]) != turn_of(back[x - front.len()]));
            } else if x >= front.len() {
                assert(back[x - front.len()] != back[y - front.len()]);
            }
        }
        assert forall|x: int, a: usize, b: usize|
            0 <= x < s.len() && s[x] == Step::Collide(a, b) implies a < b < n by {
            if x >= front.len() {
                assert(back[x - front.len()] == Step::Collide(a, b));
            } else {
                assert(front[x] == Step::Collide(a, b));
            }
        }
        assert forall|a: usize, b: usize| a < k && a < b < n implies #[trigger] s.contains(
            Step::Collide(a, b),
        ) by {
            if a < p {
                assert(front.contains(Step::Collide(a, b)));
                let x = choose|x: int| 0 <= x < front.len() && front[x] == Step::Collide(a, b);
                assert(s[x] == Step::Collide(a, b));
            } else {
                assert(back.contains(Step::Collide(a, b)));
                let x = choose|x: int| 0 <= x < back.len() && back[x] == Step::Collide(a, b);
                assert(s[front.len() + x] == Step::Collide(a, b));
            }
        }
        assert forall|a: usize| a < k implies #[trigger] s.contains(Step::Integrate(a)) && s.contains(
            Step::TouchPlayer(a),
        ) by {
            if a < p {
                assert(front.contains(Step::Integrate(a)));
                let x = choose|x: int| 0 <= x < front.len() && front[x] == Step::Integrate(a);
                assert(s[x] == Step::Integrate(a));
                assert(front.contains(Step::TouchPlayer(a)));
                let y = choose|y: int| 0 <= y < front.len() && front[y] == Step::TouchPlayer(a);
                assert(s[y] == Step::TouchPlayer(a));
            } else {
                assert(back.contains(Step::Integrate(a)));
                let x = choose|x: int| 0 <= x < back.len() && back[x] == Step::Integrate(a);
                assert(s[front.len() + x] == Step::Integrate(a));
                assert(back.contains(Step::TouchPlayer(a)));
                let y = choose|y: int| 0 <= y < back.len() && back[y] == Step::TouchPlayer(a);
                assert(s[front.len() + y] == Step::TouchPlayer(a));
            }
        }
        assert forall|a: usize| a < k implies #[trigger] s.contains(Step::TouchPlayer(a)) by {
            assert(s.contains(Step::Integrate(a)));
        }
    }
}

/// Over a frame of `n` balls, every unordered pair of balls is tested exactly
/// once (smaller index first), each ball moves once and meets the player once,
/// and no step repeats.
pub proof fn lemma_frame_tests_each_pair_once(n: usize)
    ensures
        frame_steps(n as nat).no_duplicates(),
        forall|a: usize, b: usize| a < b < n ==> #[trigger] frame_steps(n as nat).contains(
            Step::Collide(a, b),
        ),
        forall|a: usize, b: usize| #[trigger]
            frame_steps(n as nat).contains(Step::Collide(a, b)) ==> a < b < n,
        forall|a: usize| a < n ==> #[trigger] frame_steps(n as nat).contains(Step::Integrate(a)),
        forall|a: usize| a < n ==> #[trigger] frame_steps(n as nat).contains(Step::TouchPlayer(a)),
        frame_steps(n as nat).contains(Step::MovePlayer),
        frame_steps(n as nat).contains(Step::Collect),
{
    let front = turns(n as nat, n as nat);
    let tail = seq![Step::MovePlayer, Step::Collect];
    let s = frame_steps(n as nat);
    lemma_turns(n as nat, n as nat);
    assert(s == front + tail);
    assert(s[front.len() as int] == Step::MovePlayer);
    assert(s[front.len() + 1int] == Step::Collect);
    assert forall|x: int, y: int| 0 <= x < s.len() && 0 <= y < s.len() && x != y implies s[x]
        != s[y] by {
        if x < front.len() && y >= front.len() {
            assert(turn_of(front[x]) != turn_of(tail[y - front.len()]));
        } else if y < front.len() && x >= front.len() {
            assert(turn_of(front[y]) != turn_of(tail[x - front.len()]));
        }
    }
    assert forall|a: usize, b: usize| a < b < n implies #[trigger] s.contains(Step::Collide(a, b)) by {
        assert(front.contains(Step::Collide(a, b)));
        let x = choose|x: int| 0 <= x < front.len() && front[x] == Step::Collide(a, b);
        assert(s[x] == Step::Collide(a, b));
    }
    assert forall|a: usize, b: usize| #[trigger] s.contains(Step::Collide(a, b)) implies a < b
        < n by {
        let x = choose|x: int| 0 <= x < s.len() && s[x] == Step::Collide(a, b);
        if x < front.len() {
            assert(front[x] == Step::Collide(a, b));
        }
    }
    assert forall|a: usize| a < n implies #[trigger] s.contains(Step::Integrate(a)) by {
        assert(front.contains(Step::Integrate(a)));
        let x = choose|x: int| 0 <= x < front.len() && front[x] == Step::Integrate(a);
        assert(s[x] == Step::Integrate(a));
    }
    assert forall|a: usize| a < n implies #[trigger] s.contains(Step::TouchPlayer(a)) by {
        assert(front.contains(Step::TouchPlayer(a)));
        let x = choose|x: int| 0 <= x < front.len() && front[x] == Step::TouchPlayer(a);
        assert(s[x] == Step::TouchPlayer(a));
    }
}

} // verus!
