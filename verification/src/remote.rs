//! A model of the remote rule-table state.
//!
//! The remote host holds a set of named tables. The three remote commands
//! the tool issues are modelled here over that state: apply (delete any
//! table of the same name, then create it), check (does the table exist),
//! and delete. The model is what makes the idempotence of installing a
//! rule a provable statement: the generated program deletes the table
//! before recreating it, so applying it twice leaves exactly one table
//! with the rule's identifier.

use vstd::prelude::*;
use vstd::string::StringExecFns;

verus! {

/// The table names left after removing every table named `id`,
/// in their original order.
pub open spec fn remove_name(ts: Seq<Seq<char>>, id: Seq<char>) -> Seq<Seq<char>>
    decreases ts.len(),
{
    if ts.len() == 0 {
        Seq::empty()
    } else if ts.last() == id {
        remove_name(ts.drop_last(), id)
    } else {
        remove_name(ts.drop_last(), id).push(ts.last())
    }
}

/// How many tables are named `id`.
pub open spec fn count_name(ts: Seq<Seq<char>>, id: Seq<char>) -> nat
    decreases ts.len(),
{
    if ts.len() == 0 {
        0
    } else {
        count_name(ts.drop_last(), id) + (if ts.last() == id {
            1nat
        } else {
            0nat
        })
    }
}

/// Whether some table is named `id`.
pub open spec fn contains_name(ts: Seq<Seq<char>>, id: Seq<char>) -> bool {
    exists|j: int| 0 <= j < ts.len() && ts[j] == id
}

/// What applying the generated program does to the remote table names:
/// every table of the same name is deleted, then the table is created.
pub open spec fn spec_apply(ts: Seq<Seq<char>>, id: Seq<char>) -> Seq<Seq<char>> {
    remove_name(ts, id).push(id)
}

proof fn lemma_count_push(ts: Seq<Seq<char>>, x: Seq<char>, id: Seq<char>)
    ensures
        count_name(ts.push(x), id) == count_name(ts, id) + (if x == id {
            1nat
        } else {
            0nat
        }),
{
    assert(ts.push(x).drop_last() =~= ts);
    assert(ts.push(x).last() == x);
}

proof fn lemma_remove_push(ts: Seq<Seq<char>>, x: Seq<char>, id: Seq<char>)
    ensures
        x == id ==> remove_name(ts.push(x), id) == remove_name(ts, id),
        x != id ==> remove_name(ts.push(x), id) == remove_name(ts, id).push(x),
{
    assert(ts.push(x).drop_last() =~= ts);
    assert(ts.push(x).last() == x);
}

proof fn lemma_remove_removes(ts: Seq<Seq<char>>, id: Seq<char>)
    ensures
        count_name(remove_name(ts, id), id) == 0,
    decreases ts.len(),
{
    if ts.len() > 0 {
        lemma_remove_removes(ts.drop_last(), id);
        if ts.last() != id {
            lemma_count_push(remove_name(ts.drop_last(), id), ts.last(), id);
        }
    }
}

proof fn lemma_remove_absent(ts: Seq<Seq<char>>, id: Seq<char>)
    requires
        count_name(ts, id) == 0,
    ensures
        remove_name(ts, id) == ts,
    decreases ts.len(),
{
    if ts.len() == 0 {
        assert(remove_name(ts, id) =~= ts);
    } else {
        lemma_remove_absent(ts.drop_last(), id);
        assert(ts.drop_last().push(ts.last()) =~= ts);
    }
}

/// Applying the same rule twice is idempotent: the second apply leaves the
/// remote state unchanged, and after any apply the remote holds exactly
/// one table with the rule's identifier.
pub proof fn lemma_apply_idempotent(ts: Seq<Seq<char>>, id: Seq<char>)
    ensures
        spec_apply(spec_apply(ts, id), id) == spec_apply(ts, id),
        count_name(spec_apply(ts, id), id) == 1,
{
    lemma_remove_removes(ts, id);
    lemma_count_push(remove_name(ts, id), id, id);
    lemma_remove_push(remove_name(ts, id), id, id);
    lemma_remove_absent(remove_name(ts, id), id);
}

/// A simulated remote host, reduced to the names of the tables it holds.
pub struct SimulatedRemote {
    pub tables: Vec<String>,
}

fn retained(tables: &Vec<String>, idn: &String) -> (kept: Vec<String>)
    ensures
        kept.deep_view() == remove_name(tables.deep_view(), idn@),
{
    let ghost dv = tables.deep_view();
    let mut kept: Vec<String> = Vec::new();
    let mut j: usize = 0;
    while j < tables.len()
        invariant
            j <= tables.len(),
            dv == tables.deep_view(),
            kept.deep_view() == remove_name(dv.subrange(0, j as int), idn@),
        decreases tables.len() - j,
    {
        proof {
            assert(dv.subrange(0, j + 1).drop_last() =~= dv.subrange(0, j as int));
            assert(dv.subrange(0, j + 1).last() == dv[j as int]);
        }
        let t = &tables[j];
        let ghost kept_before = kept.deep_view();
        if !t.eq(idn) {
            kept.push(t.clone());
            proof {
                assert(kept.deep_view() =~~= kept_before.push(dv[j as int]));
            }
        }
        j = j + 1;
    }
    proof {
        assert(dv.subrange(0, tables.len() as int) =~= dv);
    }
    kept
}

impl SimulatedRemote {
    /// The names of the tables the remote currently holds.
    pub open spec fn names(self) -> Seq<Seq<char>> {
        self.tables.deep_view()
    }

    /// A remote with no tables.
    pub fn new() -> (r: SimulatedRemote)
        ensures
            r.names() == Seq::<Seq<char>>::empty(),
    {
        let r = SimulatedRemote { tables: Vec::new() };
        proof {
            assert(r.names() =~~= Seq::<Seq<char>>::empty());
        }
        r
    }

    /// Runs the generated program: deletes any table named `identifier`,
    /// then creates one.
    pub fn apply(&mut self, identifier: &str)
        ensures
            final(self).names() == spec_apply(old(self).names(), identifier@),
    {
        let idn = String::from_str(identifier);
        let mut kept = retained(&self.tables, &idn);
        let ghost removed = kept.deep_view();
        kept.push(idn);
        proof {
            assert(kept.deep_view() =~~= removed.push(identifier@));
        }
        self.tables = kept;
    }

    /// The remote existence check: is some table named `identifier`?
    pub fn check(&self, identifier: &str) -> (r: bool)
        ensures
            r == contains_name(self.names(), identifier@),
    {
        let mut j: usize = 0;
        while j < self.tables.len()
            invariant
                j <= self.tables.len(),
                forall|k: int| 0 <= k < j ==> self.names()[k] != identifier@,
            decreases self.tables.len() - j,
        {
            let t = &self.tables[j];
            let idn = String::from_str(identifier);
            if t.eq(&idn) {
                proof {
                    assert(self.names()[j as int] == identifier@);
                }
                return true;
            }
            j = j + 1;
        }
        false
    }

    /// The remote delete command: removes every table named `identifier`.
    pub fn delete(&mut self, identifier: &str)
        ensures
            final(self).names() == remove_name(old(self).names(), identifier@),
    {
        let idn = String::from_str(identifier);
        let kept = retained(&self.tables, &idn);
        self.tables = kept;
    }

    /// How many tables are named `identifier`.
    pub fn count(&self, identifier: &str) -> (n: usize)
        ensures
            n == count_name(self.names(), identifier@),
    {
        let idn = String::from_str(identifier);
        let ghost dv = self.names();
        let mut n: usize = 0;
        let mut j: usize = 0;
        while j < self.tables.len()
            invariant
                j <= self.tables.len(),
                dv == self.names(),
                n <= j,
                n == count_name(dv.subrange(0, j as int), idn@),
                idn@ == identifier@,
            decreases self.tables.len() - j,
        {
            proof {
                assert(dv.subrange(0, j + 1).drop_last() =~= dv.subrange(0, j as int));
                assert(dv.subrange(0, j + 1).last() == dv[j as int]);
            }
            let t = &self.tables[j];
            if t.eq(&idn) {
                n = n + 1;
            }
            j = j + 1;
        }
        proof {
            assert(dv.subrange(0, self.tables.len() as int) =~= dv);
        }
        n
    }
}

} // verus!
