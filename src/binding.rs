//! Binding dynamic label values to a metric's declared label names, either
//! all at once in declaration order or one label at a time by name.

use vstd::prelude::*;

use crate::text::{all_distinct, same_text, texts};

verus! {

/// The first position of `x` in `s`, if any.
pub open spec fn first_position(s: Seq<Seq<char>>, x: Seq<char>) -> Option<int> {
    if exists|i: int| 0 <= i < s.len() && s[i] == x && forall|j: int| 0 <= j < i ==> s[j] != x {
        Some(choose|i: int| 0 <= i < s.len() && s[i] == x && forall|j: int| 0 <= j < i ==> s[j] != x)
    } else {
        None
    }
}

/// The values bound after setting each `(name, value)` of `sets` in turn,
/// starting from `start`; a name that is not declared changes nothing.
pub open spec fn bind_by_name(
    names: Seq<Seq<char>>,
    start: Seq<Seq<char>>,
    sets: Seq<(Seq<char>, Seq<char>)>,
) -> Seq<Seq<char>>
    decreases sets.len(),
{
    if sets.len() == 0 {
        start
    } else {
        let before = bind_by_name(names, start, sets.drop_last());
        match first_position(names, sets.last().0) {
            Some(k) => before.update(k, sets.last().1),
            None => before,
        }
    }
}

/// `n` empty label values.
pub open spec fn unset_values(n: nat) -> Seq<Seq<char>> {
    Seq::new(n, |i: int| Seq::<char>::empty())
}

/// Each label name paired with the value at the same position.
pub open spec fn name_value_pairs(names: Seq<Seq<char>>, values: Seq<Seq<char>>) -> Seq<
    (Seq<char>, Seq<char>),
> {
    Seq::new(names.len(), |i: int| (names[i], values[i]))
}

/// Binding labels one at a time by name agrees with binding them all at
/// once: starting from unset labels and setting the first `k` labels (in
/// declaration order) to their values yields exactly those values in the
/// first `k` positions and the empty string in every other position. With
/// `k` the number of labels, the values are the positional ones.
pub proof fn lemma_fluent_matches_positional(
    names: Seq<Seq<char>>,
    values: Seq<Seq<char>>,
    k: nat,
)
    requires
        all_distinct(names),
        values.len() == names.len(),
        k <= names.len(),
    ensures
        bind_by_name(
            names,
            unset_values(names.len()),
            name_value_pairs(names, values).take(k as int),
        ) == values.take(k as int) + unset_values((names.len() - k) as nat),
    decreases k,
{
    let n = names.len();
    let sets = name_value_pairs(names, values).take(k as int);
    if k == 0 {
        assert(values.take(0) + unset_values(n) =~= unset_values(n));
    } else {
        let j = (k - 1) as nat;
        lemma_fluent_matches_positional(names, values, j);
        assert(sets.drop_last() =~= name_value_pairs(names, values).take(j as int));
        let x = names[j as int];
        assert(first_position(names, x) == Some(j as int)) by {
            assert(0 <= j < names.len() && names[j as int] == x && forall|i: int|
                0 <= i < j ==> names[i] != x);
            let c = choose|c: int|
                0 <= c < names.len() && names[c] == x && forall|i: int| 0 <= i < c ==> names[i] != x;
            if c < j {
                assert(names[c] != names[j as int]);
            } else if c > j {
                assert(names[j as int] != x);
            }
        }
        assert(sets.last() == (x, values[j as int]));
        assert((values.take(j as int) + unset_values((n - j) as nat)).update(j as int, values[j as int])
            =~= values.take(k as int) + unset_values((n - k) as nat));
    }
}

/// The first position of `x` among the strings of `v`.
pub fn find_text(v: &Vec<String>, x: &str) -> (r: Option<usize>)
    ensures
        match r {
            Some(i) => first_position(texts(v@), x@) == Some(i as int),
            None => first_position(texts(v@), x@) is None,
        },
        r is None ==> forall|i: int| 0 <= i < v@.len() ==> texts(v@)[i] != x@,
{
    let mut i: usize = 0;
    while i < v.len()
        invariant
            i <= v@.len(),
            forall|j: int| 0 <= j < i ==> v@[j]@ != x@,
        decreases v@.len() - i,
    {
        if same_text(v[i].as_str(), x) {
            proof {
                let s = texts(v@);
                assert(s[i as int] == x@);
                assert(forall|j: int| 0 <= j < i ==> s[j] != x@);
                let c = choose|c: int| 0 <= c < s.len() && s[c] == x@ && forall|j: int| 0 <= j < c ==> s[j] != x@;
                if c < i {
                    assert(s[c] != x@);
                } else if c > i {
                    assert(s[i as int] != x@);
                }
            }
            return Some(i);
        }
        i = i + 1;
    }
    proof {
        let s = texts(v@);
        assert(!exists|c: int| 0 <= c < s.len() && s[c] == x@ && forall|j: int| 0 <= j < c ==> s[j] != x@) by {
            assert forall|c: int| 0 <= c < s.len() implies s[c] != x@ by {
                assert(v@[c]@ != x@);
            }
        }
    }
    None
}

/// Label values bound to a list of label names, position by position.
pub struct LabelBinding<'a> {
    names: &'a Vec<String>,
    values: Vec<String>,
}

impl<'a> LabelBinding<'a> {
    #[verifier::type_invariant]
    spec fn inv(&self) -> bool {
        self.values@.len() == self.names@.len()
    }

    /// The label names, in declaration order.
    pub closed spec fn names(&self) -> Seq<Seq<char>> {
        texts(self.names@)
    }

    /// The value bound to each label name, position by position.
    pub closed spec fn values(&self) -> Seq<Seq<char>> {
        texts(self.values@)
    }

    /// Every label value supplied at once, in declaration order.
    pub fn positional(names: &'a Vec<String>, values: Vec<String>) -> (r: Option<LabelBinding<'a>>)
        ensures
            values@.len() == names@.len() ==> r is Some && r->Some_0.names() == texts(names@)
                && r->Some_0.values() == texts(values@),
            values@.len() != names@.len() ==> r is None,
    {
        if values.len() == names.len() {
            Some(LabelBinding { names, values })
        } else {
            None
        }
    }

    /// Every label unset, each bound to the empty string.
    pub fn unset(names: &'a Vec<String>) -> (r: LabelBinding<'a>)
        ensures
            r.names() == texts(names@),
            r.values().len() == names@.len(),
            forall|i: int| 0 <= i < names@.len() ==> #[trigger] r.values()[i] == Seq::<char>::empty(),
    {
        let mut values: Vec<String> = Vec::new();
        let mut i: usize = 0;
        while i < names.len()
            invariant
                i <= names@.len(),
                values@.len() == i,
                forall|j: int| 0 <= j < i ==> #[trigger] values@[j]@ == Seq::<char>::empty(),
            decreases names@.len() - i,
        {
            values.push(String::new());
            i = i + 1;
        }
        LabelBinding { names, values }
    }

    /// Bind `value` to the label called `name`. A name that is not declared
    /// leaves the binding as it is.
    pub fn set(self, name: &str, value: String) -> (r: LabelBinding<'a>)
        ensures
            r.names() == self.names(),
            match first_position(self.names(), name@) {
                Some(k) => r.values() == self.values().update(k, value@),
                None => r.values() == self.values(),
            },
    {
        proof {
            use_type_invariant(&self);
        }
        let names = self.names;
        let mut values = self.values;
        match find_text(names, name) {
            Some(k) => {
                values.set(k, value);
                proof {
                    assert(texts(values@) =~= self.values().update(k as int, value@));
                }
            },
            None => {},
        }
        LabelBinding { names, values }
    }

    /// The bound values, in declaration order of the label names.
    pub fn as_values(&self) -> (r: &Vec<String>)
        ensures
            texts(r@) == self.values(),
            r@.len() == self.names().len(),
    {
        proof {
            use_type_invariant(self);
        }
        &self.values
    }

    /// The number of label names.
    pub fn len(&self) -> (r: usize)
        ensures
            r == self.names().len(),
            r == self.values().len(),
    {
        proof {
            use_type_invariant(self);
        }
        self.values.len()
    }
}

} // verus!
