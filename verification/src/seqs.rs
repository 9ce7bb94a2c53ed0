//! Facts about sequences that are mapped and filtered element by element.

use vstd::prelude::*;

verus! {

/// Where the function gives nothing for every element, nothing is left.
pub proof fn lemma_filter_map_nothing<A, B>(s: Seq<A>, f: spec_fn(A) -> Option<B>)
    requires
        forall|i: int| 0 <= i < s.len() ==> f(#[trigger] s[i]) is None,
    ensures
        s.filter_map(f) == Seq::<B>::empty(),
    decreases s.len(),
{
    if s.len() > 0 {
        let front = s.drop_last();
        assert forall|i: int| 0 <= i < front.len() implies f(#[trigger] front[i]) is None by {
            assert(front[i] == s[i]);
        }
        lemma_filter_map_nothing(front, f);
        assert(f(s[s.len() - 1]) is None);
    }
}

/// Where the function gives no elements for every element, nothing is left.
pub proof fn lemma_flat_map_nothing<A, B>(s: Seq<A>, f: spec_fn(A) -> Seq<B>)
    requires
        forall|i: int| 0 <= i < s.len() ==> f(#[trigger] s[i]).len() == 0,
    ensures
        s.flat_map(f) == Seq::<B>::empty(),
    decreases s.len(),
{
    if s.len() == 0 {
        assert(s.map_values(f) =~= Seq::<Seq<B>>::empty());
    } else {
        let front = s.drop_last();
        assert forall|i: int| 0 <= i < front.len() implies f(#[trigger] front[i]).len()
            == 0 by {
            assert(front[i] == s[i]);
        }
        lemma_flat_map_nothing(front, f);
        front.lemma_flat_map_push(f, s.last());
        assert(front.push(s.last()) =~= s);
        assert(f(s[s.len() - 1]).len() == 0);
        assert(front.flat_map(f) + f(s.last()) =~= Seq::<B>::empty());
    }
}

/// The place of the first occurrence of a value in a sequence.
pub open spec fn position_of<A>(s: Seq<A>, x: A) -> Option<int>
    decreases s.len(),
{
    if s.len() == 0 {
        None
    } else {
        match position_of(s.drop_last(), x) {
            Some(i) => Some(i),
            None => if s.last() == x {
                Some(s.len() - 1)
            } else {
                None
            },
        }
    }
}

/// `position_of` gives the least index that holds the value, and nothing
/// exactly when no index holds it.
pub proof fn lemma_position_of<A>(s: Seq<A>, x: A)
    ensures
        match position_of(s, x) {
            Some(i) => 0 <= i < s.len() && s[i] == x && forall|j: int| 0 <= j < i ==> s[j] != x,
            None => forall|j: int| 0 <= j < s.len() ==> s[j] != x,
        },
    decreases s.len(),
{
    if s.len() > 0 {
        let front = s.drop_last();
        lemma_position_of(front, x);
        assert(forall|j: int| 0 <= j < front.len() ==> front[j] == s[j]);
        match position_of(front, x) {
            Some(i) => {
                assert(s[i] == front[i]);
            },
            None => {
                assert forall|j: int| 0 <= j < s.len() - 1 implies s[j] != x by {
                    assert(front[j] != x);
                }
            },
        }
    }
}

/// Where no two values of a sequence are equal, each stands at its own
/// position.
pub proof fn lemma_position_of_distinct<A>(s: Seq<A>, i: int)
    requires
        s.no_duplicates(),
        0 <= i < s.len(),
    ensures
        position_of(s, s[i]) == Some(i),
{
    lemma_position_of(s, s[i]);
}

/// The place of the first element that meets a condition.
pub open spec fn first_match<A>(s: Seq<A>, p: spec_fn(A) -> bool) -> Option<int>
    decreases s.len(),
{
    if s.len() == 0 {
        None
    } else {
        match first_match(s.drop_last(), p) {
            Some(i) => Some(i),
            None => if p(s.last()) {
                Some(s.len() - 1)
            } else {
                None
            },
        }
    }
}

/// `first_match` gives the least index whose element meets the condition,
/// and nothing exactly when no element meets it.
pub proof fn lemma_first_match<A>(s: Seq<A>, p: spec_fn(A) -> bool)
    ensures
        match first_match(s, p) {
            Some(i) => 0 <= i < s.len() && p(s[i]) && forall|j: int| 0 <= j < i ==> !p(s[j]),
            None => forall|j: int| 0 <= j < s.len() ==> !p(s[j]),
        },
    decreases s.len(),
{
    if s.len() > 0 {
        let front = s.drop_last();
        lemma_first_match(front, p);
        assert(forall|j: int| 0 <= j < front.len() ==> front[j] == s[j]);
        match first_match(front, p) {
            Some(i) => {
                assert(s[i] == front[i]);
            },
            None => {
                assert forall|j: int| 0 <= j < s.len() - 1 implies !p(s[j]) by {
                    assert(!p(front[j]));
                }
            },
        }
    }
}

/// What the function gives for an element is among what is left.
pub proof fn lemma_filter_map_holds<A, B>(s: Seq<A>, f: spec_fn(A) -> Option<B>, i: int)
    requires
        0 <= i < s.len(),
        f(s[i]) is Some,
    ensures
        s.filter_map(f).contains(f(s[i])->0),
    decreases s.len(),
{
    let front = s.drop_last();
    let y = f(s[i])->0;
    if i == s.len() - 1 {
        let out = front.filter_map(f) + seq![y];
        assert(out[out.len() - 1] == y);
        assert(s.filter_map(f) == out);
    } else {
        assert(front[i] == s[i]);
        lemma_filter_map_holds(front, f, i);
        let k = choose|k: int| 0 <= k < front.filter_map(f).len() && front.filter_map(f)[k] == y;
        match f(s.last()) {
            Some(z) => {
                let out = front.filter_map(f) + seq![z];
                assert(out[k] == y);
            },
            None => {},
        }
    }
}

/// What is left came from an element of the sequence.
pub proof fn lemma_filter_map_source<A, B>(s: Seq<A>, f: spec_fn(A) -> Option<B>, y: B) -> (i: int)
    requires
        s.filter_map(f).contains(y),
    ensures
        0 <= i < s.len(),
        f(s[i]) == Some(y),
    decreases s.len(),
{
    if s.len() == 0 {
        assert(false);
        0
    } else {
        let front = s.drop_last();
        if f(s.last()) == Some(y) {
            s.len() - 1
        } else {
            let k = choose|k: int| 0 <= k < s.filter_map(f).len() && s.filter_map(f)[k] == y;
            match f(s.last()) {
                Some(z) => {
                    let out = front.filter_map(f) + seq![z];
                    assert(out[k] == y);
                    assert(k < front.filter_map(f).len());
                    assert(front.filter_map(f)[k] == y);
                },
                None => {},
            }
            assert(front.filter_map(f).contains(y));
            let i = lemma_filter_map_source(front, f, y);
            assert(front[i] == s[i]);
            i
        }
    }
}

/// What the function gives for an element is among what the elements give
/// together.
pub proof fn lemma_flat_map_holds<A, B>(s: Seq<A>, f: spec_fn(A) -> Seq<B>, i: int, y: B)
    requires
        0 <= i < s.len(),
        f(s[i]).contains(y),
    ensures
        s.flat_map(f).contains(y),
    decreases s.len(),
{
    let front = s.drop_last();
    front.lemma_flat_map_push(f, s.last());
    assert(front.push(s.last()) =~= s);
    let whole = front.flat_map(f) + f(s.last());
    if i == s.len() - 1 {
        let piece = f(s[i]);
        let k = choose|k: int| 0 <= k < piece.len() && piece[k] == y;
        assert(whole[front.flat_map(f).len() + k] == y);
    } else {
        assert(front[i] == s[i]);
        lemma_flat_map_holds(front, f, i, y);
        let k = choose|k: int| 0 <= k < front.flat_map(f).len() && front.flat_map(f)[k] == y;
        assert(whole[k] == y);
    }
}

/// What the elements give together came from one of them.
pub proof fn lemma_flat_map_source<A, B>(s: Seq<A>, f: spec_fn(A) -> Seq<B>, y: B) -> (i: int)
    requires
        s.flat_map(f).contains(y),
    ensures
        0 <= i < s.len(),
        f(s[i]).contains(y),
    decreases s.len(),
{
    if s.len() == 0 {
        assert(s.map_values(f) =~= Seq::<Seq<B>>::empty());
        assert(s.flat_map(f) =~= Seq::<B>::empty());
        assert(false);
        0
    } else {
        let front = s.drop_last();
        front.lemma_flat_map_push(f, s.last());
        assert(front.push(s.last()) =~= s);
        let whole = front.flat_map(f) + f(s.last());
        let k = choose|k: int| 0 <= k < whole.len() && whole[k] == y;
        if k < front.flat_map(f).len() {
            assert(front.flat_map(f)[k] == y);
            let i = lemma_flat_map_source(front, f, y);
            assert(front[i] == s[i]);
            i
        } else {
            let piece = f(s.last());
            assert(piece[k - front.flat_map(f).len()] == y);
            s.len() - 1
        }
    }
}

/// Where no element meets the condition, nothing is kept.
pub proof fn lemma_filter_nothing<A>(s: Seq<A>, p: spec_fn(A) -> bool)
    requires
        forall|i: int| 0 <= i < s.len() ==> !p(#[trigger] s[i]),
    ensures
        s.filter(p) == Seq::<A>::empty(),
    decreases s.len(),
{
    if s.len() == 0 {
        s.lemma_filter_len(p);
        assert(s.filter(p) =~= Seq::<A>::empty());
    } else {
        let front = s.drop_last();
        assert forall|i: int| 0 <= i < front.len() implies !p(#[trigger] front[i]) by {
            assert(front[i] == s[i]);
        }
        lemma_filter_nothing(front, p);
        front.lemma_filter_push(s.last(), p);
        assert(front.push(s.last()) =~= s);
        assert(!p(s[s.len() - 1]));
    }
}

/// Two conditions that agree on every element keep the same elements.
pub proof fn lemma_filter_same<A>(s: Seq<A>, p: spec_fn(A) -> bool, q: spec_fn(A) -> bool)
    requires
        forall|i: int| 0 <= i < s.len() ==> p(#[trigger] s[i]) == q(s[i]),
    ensures
        s.filter(p) == s.filter(q),
    decreases s.len(),
{
    if s.len() == 0 {
        s.lemma_filter_len(p);
        s.lemma_filter_len(q);
        assert(s.filter(p) =~= s.filter(q));
    } else {
        let front = s.drop_last();
        assert forall|i: int| 0 <= i < front.len() implies p(#[trigger] front[i]) == q(
            front[i],
        ) by {
            assert(front[i] == s[i]);
        }
        lemma_filter_same(front, p, q);
        front.lemma_filter_push(s.last(), p);
        front.lemma_filter_push(s.last(), q);
        assert(front.push(s.last()) =~= s);
        assert(p(s[s.len() - 1]) == q(s[s.len() - 1]));
    }
}

} // verus!
