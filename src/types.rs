//! The request and response types of the solver entry points.
use vstd::prelude::*;

verus! {

/// Which of the two routines a request is for.
#[derive(Debug, Clone, Copy, PartialEq, Eq, Structural)]
pub enum RequestType {
    N,
    Sig,
}

/// A batch of challenges for one routine.
#[derive(Debug, Clone)]
pub struct Request {
    pub req_type: RequestType,
    pub challenges: Vec<String>,
}

/// The answers to one batch, as (challenge, answer) pairs with distinct
/// challenges, or the error that stopped it.
#[derive(Debug, Clone)]
pub enum Response {
    Result { data: Vec<(String, String)> },
    Error { error: String },
}

/// What the solver is asked: a player to preprocess first, or an already
/// preprocessed program, with the batches to answer.
#[derive(Debug, Clone)]
pub enum Input {
    Player { player: String, requests: Vec<Request>, output_preprocessed: bool },
    Preprocessed { preprocessed_player: String, requests: Vec<Request> },
}

/// The solver's answer: one response per batch, in order, with the emitted
/// program when it was asked for, or the error that stopped everything.
#[derive(Debug, Clone)]
pub enum Output {
    Result { preprocessed_player: Option<String>, responses: Vec<Response> },
    Error { error: String },
}

/// The challenges of an answer list, in order.
pub open spec fn answer_keys(data: Seq<(String, String)>) -> Seq<Seq<char>> {
    data.map_values(|p: (String, String)| p.0@)
}

/// Whether an answer list holds each of `challenges` exactly once and nothing else.
pub open spec fn answers_cover(data: Seq<(String, String)>, challenges: Seq<Seq<char>>) -> bool {
    &&& forall|i: int, j: int|
        0 <= i < data.len() && 0 <= j < data.len() && i != j ==> #[trigger] answer_keys(data)[i] != #[trigger] answer_keys(data)[j]
    &&& forall|i: int| 0 <= i < data.len() ==> challenges.contains(#[trigger] answer_keys(data)[i])
    &&& forall|j: int| 0 <= j < challenges.len() ==> answer_keys(data).contains(#[trigger] challenges[j])
}

/// The (challenge, answer) texts of an answer list.
pub open spec fn pairs_view(data: Seq<(String, String)>) -> Seq<(Seq<char>, Seq<char>)> {
    data.map_values(|p: (String, String)| (p.0@, p.1@))
}

/// `d` with answer `v` recorded for challenge `k`: the pair of `k` replaced if
/// there is one, else appended.
pub open spec fn with_answer(d: Seq<(Seq<char>, Seq<char>)>, k: Seq<char>, v: Seq<char>) -> Seq<(Seq<char>, Seq<char>)> {
    if exists|i: int| 0 <= i < d.len() && #[trigger] d[i].0 == k {
        let i = choose|i: int| 0 <= i < d.len() && #[trigger] d[i].0 == k;
        d.update(i, (k, v))
    } else {
        d.push((k, v))
    }
}

/// Records `answer` for `challenge`, replacing an earlier answer to the same challenge.
pub fn insert_answer(data: &mut Vec<(String, String)>, challenge: String, answer: String)
    requires
        forall|i: int, j: int|
            0 <= i < old(data)@.len() && 0 <= j < old(data)@.len() && i != j
                ==> #[trigger] answer_keys(old(data)@)[i] != #[trigger] answer_keys(old(data)@)[j],
    ensures
        forall|i: int, j: int|
            0 <= i < final(data)@.len() && 0 <= j < final(data)@.len() && i != j
                ==> #[trigger] answer_keys(final(data)@)[i] != #[trigger] answer_keys(final(data)@)[j],
        answer_keys(final(data)@).to_set() == answer_keys(old(data)@).to_set().insert(challenge@),
        pairs_view(final(data)@) == with_answer(pairs_view(old(data)@), challenge@, answer@),
{
    let ghost k0 = answer_keys(data@);
    let ghost p0 = pairs_view(data@);
    let ghost av = answer@;
    let mut i: usize = 0;
    while i < data.len()
        invariant
            i <= data@.len(),
            data@ == old(data)@,
            k0 == answer_keys(data@),
            p0 == pairs_view(data@),
            av == answer@,
            forall|j: int| 0 <= j < i ==> k0[j] != challenge@,
            forall|a: int, b: int| 0 <= a < k0.len() && 0 <= b < k0.len() && a != b ==> #[trigger] k0[a] != #[trigger] k0[b],
        decreases data.len() - i,
    {
        if data[i].0 == challenge {
            let ghost key = challenge@;
            assert(k0[i as int] == key);
            proof {
                assert(p0[i as int].0 == key);
                assert forall|j: int| 0 <= j < p0.len() && #[trigger] p0[j].0 == key implies j == i as int by {
                    if j != i {
                        assert(k0[j] == p0[j].0);
                        assert(k0[j] != k0[i as int]);
                    }
                }
                assert(with_answer(p0, key, av) == p0.update(i as int, (key, av)));
            }
            data.set(i, (challenge, answer));
            assert(pairs_view(data@) =~= p0.update(i as int, (key, av)));
            let ghost k1 = answer_keys(data@);
            assert(k1 =~= k0);
            assert forall|a: int, b: int|
                0 <= a < data@.len() && 0 <= b < data@.len() && a != b
                    implies #[trigger] answer_keys(data@)[a] != #[trigger] answer_keys(data@)[b] by {
                assert(k0[a] != k0[b]);
            }
            assert(k1.to_set() =~= k0.to_set().insert(key)) by {
                assert forall|x: Seq<char>| k1.to_set().contains(x) <==> k0.to_set().insert(key).contains(x) by {
                    if k1.contains(x) {
                        let j = choose|j: int| 0 <= j < k1.len() && k1[j] == x;
                        if j != i {
                            assert(k0[j] == x);
                        }
                    }
                    if k0.contains(x) {
                        let j = choose|j: int| 0 <= j < k0.len() && k0[j] == x;
                        if j == i {
                            assert(k1[i as int] == x);
                        } else {
                            assert(k1[j] == x);
                        }
                    }
                    if x == key {
                        assert(k1[i as int] == x);
                    }
                }
            }
            return;
        }
        i = i + 1;
    }
    let ghost key = challenge@;
    proof {
        assert forall|j: int| 0 <= j < p0.len() implies #[trigger] p0[j].0 != key by {
            assert(k0[j] == p0[j].0);
        }
        assert(with_answer(p0, key, av) == p0.push((key, av)));
    }
    data.push((challenge, answer));
    assert(pairs_view(data@) =~= p0.push((key, av)));
    let ghost k1 = answer_keys(data@);
    assert(k1 =~= k0.push(key));
    assert(k1.to_set() =~= k0.to_set().insert(key)) by {
        assert forall|x: Seq<char>| k1.to_set().contains(x) <==> k0.to_set().insert(key).contains(x) by {
            if k1.contains(x) {
                let j = choose|j: int| 0 <= j < k1.len() && k1[j] == x;
                if j < k0.len() {
                    assert(k0[j] == x);
                }
            }
            if k0.contains(x) {
                let j = choose|j: int| 0 <= j < k0.len() && k0[j] == x;
                assert(k1[j] == x);
            }
            if x == key {
                assert(k1[k0.len() as int] == x);
            }
        }
    }
}

} // verus!
