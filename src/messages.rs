//! Joining the messages of independent rollback failures.
use vstd::prelude::*;

verus! {

/// The messages joined by `;`, in their order.
pub open spec fn joined(s: Seq<Seq<char>>) -> Seq<char>
    decreases s.len(),
{
    if s.len() == 0 {
        Seq::empty()
    } else if s.len() == 1 {
        s[0]
    } else {
        joined(s.drop_last()) + seq![';'] + s.last()
    }
}

/// The text of each message.
pub open spec fn texts(errors: Seq<String>) -> Seq<Seq<char>> {
    errors.map_values(|e: String| e@)
}

/// Joins the messages with `;` between neighbours.
pub fn join_messages(errors: &Vec<String>) -> (r: String)
    ensures
        r@ == joined(texts(errors@)),
{
    let mut r = String::new();
    let n = errors.len();
    let mut i: usize = 0;
    proof {
        reveal_strlit(";");
        assert(texts(errors@).take(0) =~= Seq::<Seq<char>>::empty());
    }
    while i < n
        invariant
            n == errors@.len(),
            0 <= i <= n,
            r@ == joined(texts(errors@).take(i as int)),
            ";"@ == seq![';'],
        decreases n - i,
    {
        let ghost t = texts(errors@);
        let ghost before = r@;
        if i > 0 {
            r.append(";");
        }
        r.append(errors[i].as_str());
        proof {
            assert(t.take(i + 1).drop_last() =~= t.take(i as int));
            if i == 0 {
                assert(r@ =~= t.take(1)[0]);
            } else {
                assert(r@ =~= before + seq![';'] + t[i as int]);
            }
        }
        i = i + 1;
    }
    proof {
        assert(texts(errors@).take(n as int) =~= texts(errors@));
    }
    r
}

/// Three failures joined: each message stands whole, in step order, with
/// `;` between neighbours.
pub proof fn lemma_three_failures_joined(a: Seq<char>, b: Seq<char>, c: Seq<char>)
    ensures
        joined(seq![a, b, c]) == a + seq![';'] + b + seq![';'] + c,
{
    let s = seq![a, b, c];
    assert(s.drop_last() =~= seq![a, b]);
    assert(seq![a, b].drop_last() =~= seq![a]);
    assert(joined(seq![a]) == a);
    assert(joined(seq![a, b]) == a + seq![';'] + b);
}

} // verus!
