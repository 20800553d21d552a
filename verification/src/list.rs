//! The list type and its structural operations.

use vstd::prelude::*;

verus! {

/// A finite, ordered sequence of `i32` values, stored as a chain of
/// nodes in which each node exclusively owns the remainder of the list.
#[derive(Debug)]
pub enum List {
    Cons(i32, Box<List>),
    Nil,
}

impl List {
    /// The mathematical model of a list: the sequence of its elements,
    /// head first.
    pub open spec fn view(&self) -> Seq<i32>
        decreases self,
    {
        match self {
            List::Cons(v, rest) => seq![*v] + rest.view(),
            List::Nil => Seq::empty(),
        }
    }

    /// Returns the empty list.
    pub fn new() -> (r: List)
        ensures
            r@ == Seq::<i32>::empty(),
    {
        List::Nil
    }

    /// Appends `x` as the new last element, preserving the existing order.
    /// The result is always one element longer than the input.
    pub fn append(self, x: i32) -> (r: List)
        ensures
            r@ == self@.push(x),
            r@.len() == self@.len() + 1,
        decreases self,
    {
        match self {
            List::Cons(t, l1) => {
                let t1 = (*l1).append(x);
                let r = List::Cons(t, Box::new(t1));
                proof {
                    assert(r@ =~= self@.push(x));
                }
                r
            },
            List::Nil => {
                let r = List::Cons(x, Box::new(List::Nil));
                proof {
                    assert(r@ =~= self@.push(x));
                }
                r
            },
        }
    }

    /// Concatenates `l2` after `self`: the result holds all elements of
    /// `self` followed by all elements of `l2`, each part in its original
    /// order. Concatenating the empty list on either side returns the other
    /// operand unchanged, and the result's length is the sum of the two
    /// lengths.
    pub fn concat(self, l2: List) -> (r: List)
        ensures
            r@ == self@ + l2@,
            r@.len() == self@.len() + l2@.len(),
            self is Nil ==> r == l2,
            l2 is Nil ==> r == self,
        decreases self,
    {
        match self {
            List::Nil => {
                proof {
                    assert(l2@ =~= self@ + l2@);
                }
                l2
            },
            List::Cons(t, t1) => {
                let new_list = (*t1).concat(l2);
                let r = List::Cons(t, Box::new(new_list));
                proof {
                    assert(r@ =~= self@ + l2@);
                }
                r
            },
        }
    }

    /// Prepends `x` as the new first element. The result is one element
    /// longer than the input and its first element is `x`.
    pub fn push(self, x: i32) -> (r: List)
        ensures
            r@ == seq![x] + self@,
            r@.len() == self@.len() + 1,
            r@[0] == x,
    {
        List::Cons(x, Box::new(self))
    }

    /// Returns true iff `x` occurs at least once anywhere in the list,
    /// stopping at the first match.
    pub fn find(self, x: i32) -> (r: bool)
        ensures
            r == self@.contains(x),
        decreases self,
    {
        match self {
            List::Cons(v, l) => {
                if v == x {
                    proof {
                        assert(self@[0] == x);
                    }
                    true
                } else {
                    let r = (*l).find(x);
                    proof {
                        if l@.contains(x) {
                            let i = choose|i: int| 0 <= i < l@.len() && l@[i] == x;
                            assert(self@[i + 1] == x);
                        }
                        if self@.contains(x) {
                            let i = choose|i: int| 0 <= i < self@.len() && self@[i] == x;
                            assert(i != 0);
                            assert(l@[i - 1] == x);
                        }
                    }
                    r
                }
            },
            List::Nil => false,
        }
    }

    /// Returns the number of elements. The length must fit in `isize`.
    pub fn len(self) -> (r: isize)
        requires
            self@.len() <= isize::MAX,
        ensures
            r == self@.len(),
        decreases self,
    {
        match self {
            List::Cons(_, l) => 1 + (*l).len(),
            List::Nil => 0,
        }
    }

    /// Pushes the list's elements, in order, onto the end of `v`.
    pub fn _as_mut_vec(self, v: &mut Vec<i32>)
        ensures
            final(v)@ == old(v)@ + self@,
        decreases self,
    {
        match self {
            List::Cons(h, t) => {
                v.push(h);
                (*t)._as_mut_vec(v);
                proof {
                    assert(v@ =~= old(v)@ + self@);
                }
            },
            List::Nil => {
                proof {
                    assert(v@ =~= old(v)@ + self@);
                }
            },
        }
    }

    /// Linearizes the list into a vector holding the same elements in the
    /// same order.
    pub fn as_mut_vec(self) -> (v: Vec<i32>)
        ensures
            v@ == self@,
    {
        let mut v = Vec::new();
        proof {
            assert(Seq::<i32>::empty() + self@ =~= self@);
        }
        self._as_mut_vec(&mut v);
        v
    }

    /// Splits the list at position `n`: the left part holds the first `n`
    /// elements and the right part the remainder, each in its original
    /// order. `n` must not exceed the list's length.
    pub fn split(self, n: usize) -> (r: (List, List))
        requires
            n <= self@.len(),
        ensures
            r.0@ == self@.take(n as int),
            r.1@ == self@.skip(n as int),
    {
        let ghost s = self@;
        let t = self.as_mut_vec();
        let mut left: Vec<i32> = Vec::new();
        let mut i: usize = 0;
        while i < n
            invariant
                i <= n,
                n <= t@.len(),
                t@ == s,
                left@ == s.take(i as int),
            decreases n - i,
        {
            left.push(t[i]);
            proof {
                assert(left@ =~= s.take(i as int + 1));
            }
            i = i + 1;
        }
        let mut right: Vec<i32> = Vec::new();
        while i < t.len()
            invariant
                n <= i <= t@.len(),
                t@ == s,
                right@ == s.subrange(n as int, i as int),
            decreases t@.len() - i,
        {
            right.push(t[i]);
            proof {
                assert(right@ =~= s.subrange(n as int, i as int + 1));
            }
            i = i + 1;
        }
        let l = List::from(left);
        let r = List::from(right);
        proof {
            lemma_list_of_view(left@);
            lemma_list_of_view(right@);
            assert(right@ =~= s.skip(n as int));
        }
        (l, r)
    }

    /// Structural equality, read-only: true iff the two lists have the same
    /// length and identical values at every corresponding position.
    pub fn eq_list(&self, other: &List) -> (r: bool)
        ensures
            r == (self == other),
        decreases self,
    {
        match (self, other) {
            (List::Cons(a, ta), List::Cons(b, tb)) => *a == *b && ta.eq_list(tb),
            (List::Nil, List::Nil) => true,
            _ => false,
        }
    }
}

impl PartialEq for List {
    /// Structural equality as `==`: variant shape first, then the value and
    /// the tail, recursively.
    fn eq(&self, other: &Self) -> (r: bool) {
        self.eq_list(other)
    }

    fn ne(&self, other: &Self) -> (r: bool) {
        !self.eq_list(other)
    }
}

impl vstd::std_specs::cmp::PartialEqSpecImpl for List {
    open spec fn obeys_eq_spec() -> bool {
        true
    }

    open spec fn eq_spec(&self, other: &List) -> bool {
        self == other
    }
}

impl std::ops::Add for List {
    type Output = List;

    /// `l1 + l2` is an alias for `l1.concat(l2)`.
    fn add(self, rhs: List) -> (r: List) {
        let ghost s = self@;
        let ghost s2 = rhs@;
        let r = self.concat(rhs);
        proof {
            lemma_list_of_view(s + s2);
            lemma_view_injective(r, list_of(s + s2));
        }
        r
    }
}

impl vstd::std_specs::ops::AddSpecImpl for List {
    open spec fn obeys_add_spec() -> bool {
        true
    }

    open spec fn add_req(self, rhs: List) -> bool {
        true
    }

    open spec fn add_spec(self, rhs: List) -> List {
        list_of(self@ + rhs@)
    }
}

impl std::convert::From<Vec<i32>> for List {
    /// Builds the list containing the same elements as `vs`, in the same
    /// order, by folding `append` over the vector left to right.
    fn from(vs: Vec<i32>) -> (r: List) {
        let mut l = List::new();
        proof {
            assert(vs@.take(0) =~= Seq::<i32>::empty());
            lemma_view_injective(l, list_of(vs@.take(0)));
        }
        let mut i: usize = 0;
        while i < vs.len()
            invariant
                i <= vs.len(),
                l == list_of(vs@.take(i as int)),
            decreases vs.len() - i,
        {
            let l2 = l.append(vs[i]);
            proof {
                lemma_list_of_view(vs@.take(i as int));
                assert(l2@ =~= vs@.take(i as int + 1));
                lemma_list_of_view(vs@.take(i as int + 1));
                lemma_view_injective(l2, list_of(vs@.take(i as int + 1)));
            }
            l = l2;
            i = i + 1;
        }
        proof {
            assert(vs@.take(vs@.len() as int) =~= vs@);
        }
        l
    }
}

impl vstd::std_specs::convert::FromSpecImpl<Vec<i32>> for List {
    open spec fn obeys_from_spec() -> bool {
        true
    }

    open spec fn from_spec(vs: Vec<i32>) -> List {
        list_of(vs@)
    }
}

/// The unique list whose view is `s`: the spec-level counterpart of
/// building a list from a sequence of elements.
pub open spec fn list_of(s: Seq<i32>) -> List
    decreases s.len(),
{
    if s.len() == 0 {
        List::Nil
    } else {
        List::Cons(s[0], Box::new(list_of(s.skip(1))))
    }
}

/// Building a list from a sequence and reading its view gives the sequence
/// back: linearizing a list built from any finite ordered sequence is a
/// round trip.
pub proof fn lemma_list_of_view(s: Seq<i32>)
    ensures
        list_of(s)@ == s,
    decreases s.len(),
{
    if s.len() == 0 {
        assert(list_of(s)@ =~= s);
    } else {
        lemma_list_of_view(s.skip(1));
        assert(list_of(s)@ =~= s);
    }
}

/// An element appended at the tail is always found afterwards: for every
/// list `l` and value `x`, searching `l.append(x)` for `x` succeeds.
pub proof fn lemma_find_appended(l: List, x: i32)
    ensures
        l@.push(x).contains(x),
{
    assert(l@.push(x)[l@.len() as int] == x);
}

/// Splitting a list at any position within its bounds and concatenating
/// the two parts gives back the original list: whenever `left` and `right`
/// hold the first `n` elements of `l` and the remainder, as `split`
/// guarantees of its results, and `joined` holds the elements of `left`
/// followed by those of `right`, as `concat` guarantees of its result,
/// then `joined` is `l` itself.
pub proof fn lemma_split_concat(l: List, n: int, left: List, right: List, joined: List)
    requires
        0 <= n <= l@.len(),
        left@ == l@.take(n),
        right@ == l@.skip(n),
        joined@ == left@ + right@,
    ensures
        joined == l,
{
    assert(joined@ =~= l@);
    lemma_view_injective(joined, l);
}

/// Two lists with the same view are the same list: the view determines the
/// whole structure, so equal sequences of elements mean structural equality.
pub proof fn lemma_view_injective(l1: List, l2: List)
    requires
        l1@ == l2@,
    ensures
        l1 == l2,
    decreases l1,
{
    match l1 {
        List::Nil => {
            assert(l2@.len() == 0);
            if let List::Cons(v2, r2) = l2 {
                assert(l2@.len() == 1 + r2@.len());
            }
        },
        List::Cons(v1, r1) => {
            assert(l1@.len() == 1 + r1@.len());
            match l2 {
                List::Nil => {
                    assert(l2@.len() == 0);
                },
                List::Cons(v2, r2) => {
                    assert(l1@[0] == v1);
                    assert(l2@[0] == v2);
                    assert(r1@ =~= l1@.skip(1));
                    assert(r2@ =~= l2@.skip(1));
                    lemma_view_injective(*r1, *r2);
                },
            }
        },
    }
}

} // verus!
