//! The immutable project registry: human-readable project names mapped to
//! the numeric project identifiers the upstream service knows them by.

use vstd::prelude::*;
use vstd::string::StringExecFns;

verus! {

/// First-match lookup of `name` among `pairs`.
pub open spec fn spec_lookup(pairs: Seq<(Seq<char>, u32)>, name: Seq<char>) -> Option<u32>
    decreases pairs.len(),
{
    if pairs.len() == 0 {
        None
    } else if pairs[0].0 == name {
        Some(pairs[0].1)
    } else {
        spec_lookup(pairs.drop_first(), name)
    }
}

/// Law: a lookup succeeds exactly on registered names, and a successful
/// lookup returns the identifier of the earliest pair carrying the name.
pub proof fn lemma_lookup_characterizes_membership(pairs: Seq<(Seq<char>, u32)>, name: Seq<char>)
    ensures
        (spec_lookup(pairs, name) is Some) <==> (exists|i: int|
            0 <= i < pairs.len() && (#[trigger] pairs[i]).0 == name),
        forall|v: u32| spec_lookup(pairs, name) == Some(v) ==> exists|i: int|
            0 <= i < pairs.len() && #[trigger] pairs[i] == (name, v)
            && (forall|j: int| 0 <= j < i ==> pairs[j].0 != name),
    decreases pairs.len(),
{
    if pairs.len() == 0 {
    } else if pairs[0].0 == name {
        assert(pairs[0] == (name, pairs[0].1));
    } else {
        lemma_lookup_characterizes_membership(pairs.drop_first(), name);
        let rest = pairs.drop_first();
        assert forall|i: int| 0 <= i < rest.len() && (#[trigger] rest[i]).0 == name
            implies (pairs[i + 1]).0 == name by {}
        assert forall|i: int| 0 <= i < pairs.len() && (#[trigger] pairs[i]).0 == name
            implies 0 <= i - 1 < rest.len() && (rest[i - 1]).0 == name by {}
        if spec_lookup(pairs, name) is Some {
            let v = spec_lookup(pairs, name)->Some_0;
            assert(spec_lookup(rest, name) == Some(v));
            let i = choose|i: int| 0 <= i < rest.len() && #[trigger] rest[i] == (name, v)
                && (forall|j: int| 0 <= j < i ==> rest[j].0 != name);
            assert(pairs[i + 1] == (name, v));
            assert forall|j: int| 0 <= j < i + 1 implies pairs[j].0 != name by {
                if j > 0 {
                    assert(rest[j - 1] == pairs[j]);
                }
            }
        }
    }
}

/// A fixed table from project name to numeric project identifier,
/// built once at startup and never mutated.
pub struct Registry {
    pairs: Vec<(String, u32)>,
}

impl Registry {
    /// The registered pairs, in insertion order.
    pub closed spec fn view(&self) -> Seq<(Seq<char>, u32)> {
        Seq::new(self.pairs@.len(), |i: int| (self.pairs@[i].0@, self.pairs@[i].1))
    }

    /// Builds a registry from the given name/identifier pairs.
    pub fn new(pairs: Vec<(String, u32)>) -> (r: Registry)
        ensures
            r@ == Seq::new(pairs@.len(), |i: int| (pairs@[i].0@, pairs@[i].1)),
    {
        let r = Registry { pairs };
        proof {
            assert(r@ =~= Seq::new(r.pairs@.len(), |i: int| (r.pairs@[i].0@, r.pairs@[i].1)));
        }
        r
    }

    /// Exact-match lookup of a project name; `None` when the name is not
    /// registered.
    pub fn lookup(&self, name: &str) -> (r: Option<u32>)
        ensures
            r == spec_lookup(self@, name@),
    {
        let key = String::from_str(name);
        let n = self.pairs.len();
        let mut i: usize = 0;
        proof {
            assert(self@.skip(0) =~= self@);
        }
        while i < n
            invariant
                i <= n,
                n == self.pairs@.len(),
                self@.len() == self.pairs@.len(),
                forall|k: int| 0 <= k < self@.len() ==> self@[k] == (self.pairs@[k].0@, self.pairs@[k].1),
                key@ == name@,
                spec_lookup(self@, name@) == spec_lookup(self@.skip(i as int), name@),
            decreases n - i,
        {
            if self.pairs[i].0 == key {
                proof {
                    assert(self@.skip(i as int)[0] == self@[i as int]);
                }
                return Some(self.pairs[i].1);
            }
            proof {
                assert(self@.skip(i as int)[0] == self@[i as int]);
                assert(self@.skip(i as int).drop_first() =~= self@.skip(i as int + 1));
            }
            i += 1;
        }
        proof {
            assert(self@.skip(n as int) =~= Seq::<(Seq<char>, u32)>::empty());
        }
        None
    }
}

/// The project table this service is deployed with: three fixed names,
/// each mapped to its numeric project identifier.
pub fn fixed_registry() -> (r: Registry)
    ensures
        r@ == seq![
            ("Andel Energi - Adapt\\Andelenergi.dk"@, 407834u32),
            ("Andel Energi - Adapt\\Selvbetjening"@, 404023u32),
            ("Andel Energi - Adapt"@, 385854u32),
        ],
        spec_lookup(r@, "Andel Energi - Adapt\\Andelenergi.dk"@) == Some(407834u32),
        spec_lookup(r@, "Andel Energi - Adapt\\Selvbetjening"@) == Some(404023u32),
        spec_lookup(r@, "Andel Energi - Adapt"@) == Some(385854u32),
{
    let mut pairs: Vec<(String, u32)> = Vec::new();
    pairs.push((String::from_str("Andel Energi - Adapt\\Andelenergi.dk"), 407834));
    pairs.push((String::from_str("Andel Energi - Adapt\\Selvbetjening"), 404023));
    pairs.push((String::from_str("Andel Energi - Adapt"), 385854));
    let r = Registry::new(pairs);
    proof {
        reveal_strlit("Andel Energi - Adapt\\Andelenergi.dk");
        reveal_strlit("Andel Energi - Adapt\\Selvbetjening");
        reveal_strlit("Andel Energi - Adapt");
        let table = seq![
            ("Andel Energi - Adapt\\Andelenergi.dk"@, 407834u32),
            ("Andel Energi - Adapt\\Selvbetjening"@, 404023u32),
            ("Andel Energi - Adapt"@, 385854u32),
        ];
        assert(r@ =~= table);
        assert(("Andel Energi - Adapt\\Andelenergi.dk"@).len() == 35);
        assert(("Andel Energi - Adapt\\Selvbetjening"@).len() == 34);
        assert(("Andel Energi - Adapt"@).len() == 20);
        assert(table.drop_first() =~= table.subrange(1, 3));
        assert(table.subrange(1, 3).drop_first() =~= table.subrange(2, 3));
        assert(spec_lookup(r@, "Andel Energi - Adapt\\Selvbetjening"@)
            == spec_lookup(table.subrange(1, 3), "Andel Energi - Adapt\\Selvbetjening"@));
        assert(spec_lookup(r@, "Andel Energi - Adapt"@)
            == spec_lookup(table.subrange(1, 3), "Andel Energi - Adapt"@));
        assert(spec_lookup(table.subrange(1, 3), "Andel Energi - Adapt"@)
            == spec_lookup(table.subrange(2, 3), "Andel Energi - Adapt"@));
    }
    r
}

} // verus!
