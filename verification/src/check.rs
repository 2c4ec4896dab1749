//! Health checks: named groups of probes and the report drawn from them.

use crate::names::NameMap;
use crate::probe::HealthProbe;
use vstd::prelude::*;

verus! {

/// One probe as a status call saw it: its name and whether it was valid.
pub type Reading = (Seq<char>, bool);

/// Every reading is valid.
pub open spec fn all_valid(readings: Seq<Reading>) -> bool {
    forall|i: int| 0 <= i < readings.len() ==> (#[trigger] readings[i]).1
}

/// Some reading carries the name `name`.
pub open spec fn named(readings: Seq<Reading>, name: Seq<char>) -> bool {
    exists|i: int| 0 <= i < readings.len() && (#[trigger] readings[i]).0 == name
}

/// `i` is the place of the last reading that carries `name`.
pub open spec fn is_last_named(readings: Seq<Reading>, name: Seq<char>, i: int) -> bool {
    &&& 0 <= i < readings.len()
    &&& readings[i].0 == name
    &&& forall|j: int| i < j < readings.len() ==> (#[trigger] readings[j]).0 != name
}

/// The place of the last reading that carries `name`, where there is one.
pub open spec fn last_named(readings: Seq<Reading>, name: Seq<char>) -> int {
    choose|i: int| is_last_named(readings, name, i)
}

/// The details of a report: each name that occurs among the readings, with the
/// validity of the last reading under that name.
pub open spec fn details_of(readings: Seq<Reading>) -> Map<Seq<char>, bool> {
    Map::new(
        |name: Seq<char>| named(readings, name),
        |name: Seq<char>| readings[last_named(readings, name)].1,
    )
}

/// The readings hold one entry per probe, in order, under the probe's name.
pub open spec fn read_from(readings: Seq<Reading>, probes: Seq<HealthProbe>) -> bool {
    &&& readings.len() == probes.len()
    &&& forall|i: int|
        0 <= i < readings.len() ==> (#[trigger] readings[i]).0 == probes[i].spec_name()
}

/// What executable readings stand for.
pub open spec fn readings_of(taken: Seq<(String, bool)>) -> Seq<Reading> {
    Seq::new(taken.len(), |i: int| (taken[i].0@, taken[i].1))
}

/// A name that occurs among the readings has a last occurrence, and only one.
pub proof fn lemma_last_named(readings: Seq<Reading>, name: Seq<char>)
    requires
        named(readings, name),
    ensures
        is_last_named(readings, name, last_named(readings, name)),
        forall|i: int| is_last_named(readings, name, i) ==> i == last_named(readings, name),
    decreases readings.len(),
{
    let n = readings.len() as int;
    if readings[n - 1].0 == name {
        assert(is_last_named(readings, name, n - 1));
    } else {
        let front = readings.drop_last();
        let w = choose|i: int| 0 <= i < readings.len() && (#[trigger] readings[i]).0 == name;
        assert(front[w] == readings[w]);
        assert(named(front, name));
        lemma_last_named(front, name);
        let i = last_named(front, name);
        assert(front[i] == readings[i]);
        assert forall|j: int| i < j < readings.len() implies (#[trigger] readings[j]).0
            != name by {
            if j < n - 1 {
                assert(front[j] == readings[j]);
            }
        }
        assert(is_last_named(readings, name, i));
    }
    let chosen = last_named(readings, name);
    assert forall|i: int| is_last_named(readings, name, i) implies i == chosen by {
        if i < chosen {
            assert(readings[chosen].0 != name);
        } else if chosen < i {
            assert(readings[i].0 != name);
        }
    }
}

/// One more reading enters its name into the details, replacing what an
/// earlier reading under that name had left.
pub proof fn lemma_details_push(readings: Seq<Reading>, next: Reading)
    ensures
        details_of(readings.push(next)) == details_of(readings).insert(next.0, next.1),
{
    let after = readings.push(next);
    let n = readings.len() as int;
    assert forall|k: Seq<char>| named(after, k) <==> (k == next.0 || named(readings, k)) by {
        if named(after, k) {
            let i = choose|i: int| 0 <= i < after.len() && (#[trigger] after[i]).0 == k;
            if i < n {
                assert(readings[i].0 == k);
            }
        }
        if k == next.0 {
            assert(after[n].0 == k);
        }
        if named(readings, k) {
            let i = choose|i: int| 0 <= i < readings.len() && (#[trigger] readings[i]).0 == k;
            assert(after[i].0 == k);
        }
    }
    assert forall|k: Seq<char>| named(after, k) implies #[trigger] details_of(after)[k]
        == details_of(readings).insert(next.0, next.1)[k] by {
        lemma_last_named(after, k);
        let i = last_named(after, k);
        if k == next.0 {
            if i < n {
                assert(after[n].0 != k);
            }
        } else {
            assert(i < n);
            assert(readings[i] == after[i]);
            assert(named(readings, k));
            lemma_last_named(readings, k);
            assert forall|j: int| i < j < readings.len() implies (#[trigger] readings[j]).0
                != k by {
                assert(after[j] == readings[j]);
            }
            assert(is_last_named(readings, k, i));
        }
    }
    assert(details_of(after) =~= details_of(readings).insert(next.0, next.1));
}

/// Where every probe is valid, every detail says so.
pub proof fn lemma_overall_implies_details(readings: Seq<Reading>)
    requires
        all_valid(readings),
    ensures
        forall|name: Seq<char>| #[trigger]
            details_of(readings).contains_key(name) ==> details_of(readings)[name],
{
    assert forall|name: Seq<char>| #[trigger]
        details_of(readings).contains_key(name) implies details_of(readings)[name] by {
        lemma_last_named(readings, name);
    }
}

/// Where no two probes share a name, the overall verdict is the conjunction of
/// the details.
pub proof fn lemma_overall_is_conjunction_of_details(readings: Seq<Reading>)
    requires
        forall|i: int, j: int|
            0 <= i < j < readings.len() ==> (#[trigger] readings[i]).0 != (
            #[trigger] readings[j]).0,
    ensures
        all_valid(readings) <==> forall|name: Seq<char>| #[trigger]
            details_of(readings).contains_key(name) ==> details_of(readings)[name],
{
    if all_valid(readings) {
        lemma_overall_implies_details(readings);
    }
    if forall|name: Seq<char>| #[trigger]
        details_of(readings).contains_key(name) ==> details_of(readings)[name] {
        assert forall|i: int| 0 <= i < readings.len() implies (#[trigger] readings[i]).1 by {
            let name = readings[i].0;
            assert(named(readings, name));
            assert(details_of(readings).contains_key(name));
            lemma_last_named(readings, name);
            let l = last_named(readings, name);
            if l < i {
                assert(readings[l].0 != readings[i].0);
            } else if i < l {
                assert(readings[i].0 != readings[l].0);
            }
        }
    }
}

/// The verdict on a set of readings: whether all are valid, and the details by
/// name. Two readings under one name leave the later one in the details.
pub fn summarise(taken: &Vec<(String, bool)>) -> (report: (bool, NameMap<bool>))
    ensures
        report.0 == all_valid(readings_of(taken@)),
        report.1@ == details_of(readings_of(taken@)),
        report.1.wf(),
{
    let ghost readings = readings_of(taken@);
    let mut happy = true;
    let mut detail: NameMap<bool> = NameMap::new();
    let mut i: usize = 0;
    proof {
        assert(details_of(readings.take(0)) =~= Map::<Seq<char>, bool>::empty());
    }
    while i < taken.len()
        invariant
            readings == readings_of(taken@),
            i <= taken@.len(),
            happy == all_valid(readings.take(i as int)),
            detail@ == details_of(readings.take(i as int)),
            detail.wf(),
        decreases taken@.len() - i,
    {
        let valid = taken[i].1;
        proof {
            let seen = readings.take(i as int);
            let next = readings[i as int];
            assert(readings.take(i as int + 1) =~= seen.push(next));
            lemma_details_push(seen, next);
            if all_valid(seen.push(next)) {
                assert(seen.push(next)[i as int].1);
                assert forall|j: int| 0 <= j < seen.len() implies (#[trigger] seen[j]).1 by {
                    assert(seen.push(next)[j].1);
                }
            }
        }
        if !valid {
            happy = false;
        }
        detail.insert(taken[i].0.clone(), valid);
        i += 1;
    }
    proof {
        assert(readings.take(i as int) =~= readings);
    }
    (happy, detail)
}

/// A named group of probes. A probe may be enrolled in several checks, and
/// more than once in one.
#[derive(Debug)]
pub struct HealthCheck {
    name: String,
    probe_list: Vec<HealthProbe>,
}

impl HealthCheck {
    /// The check's name.
    pub closed spec fn spec_name(&self) -> Seq<char> {
        self.name@
    }

    /// The enrolled probes, oldest first.
    pub closed spec fn probes(&self) -> Seq<HealthProbe> {
        self.probe_list@
    }

    /// A check named `name` with no probes.
    pub fn new(name: &str) -> (check: HealthCheck)
        ensures
            check.spec_name() == name@,
            check.probes() == Seq::<HealthProbe>::empty(),
    {
        HealthCheck { name: name.to_owned(), probe_list: Vec::new() }
    }

    /// The check's name.
    pub fn name(&self) -> (name: &str)
        ensures
            name@ == self.spec_name(),
    {
        self.name.as_str()
    }

    /// The number of enrolled probes.
    pub fn len(&self) -> (n: usize)
        ensures
            n == self.probes().len(),
    {
        self.probe_list.len()
    }

    /// Enrols a view of `probe`, which shares its timestamp.
    pub fn add(&mut self, probe: &HealthProbe)
        ensures
            final(self).probes() == old(self).probes().push(*probe),
            final(self).spec_name() == old(self).spec_name(),
    {
        self.probe_list.push(probe.clone());
    }

    /// Takes every view of `probe` out of the check. Probes are told apart by
    /// the timestamp they share, not by name.
    pub fn remove(&mut self, probe: &HealthProbe)
        ensures
            final(self).probes() == old(self).probes().filter(
                |p: HealthProbe| p.cell() != probe.cell(),
            ),
            final(self).spec_name() == old(self).spec_name(),
    {
        let ghost others = |p: HealthProbe| p.cell() != probe.cell();
        let ghost before = self.probe_list@;
        let mut kept: Vec<HealthProbe> = Vec::new();
        let mut i: usize = 0;
        proof {
            reveal(Seq::filter);
            assert(before.take(0).filter(others) =~= Seq::<HealthProbe>::empty());
        }
        while i < self.probe_list.len()
            invariant
                before == self.probe_list@,
                others == |p: HealthProbe| p.cell() != probe.cell(),
                i <= before.len(),
                kept@ == before.take(i as int).filter(others),
            decreases before.len() - i,
        {
            proof {
                reveal(Seq::filter);
                assert(before.take(i as int + 1).drop_last() =~= before.take(i as int));
            }
            if !self.probe_list[i].same_probe(probe) {
                kept.push(self.probe_list[i].clone());
            }
            i += 1;
        }
        proof {
            assert(before.take(i as int) =~= before);
        }
        self.probe_list = kept;
    }

    /// Reads every probe once.
    pub fn snapshot(&self) -> (taken: Vec<(String, bool)>)
        ensures
            read_from(readings_of(taken@), self.probes()),
    {
        let mut taken: Vec<(String, bool)> = Vec::new();
        let mut i: usize = 0;
        while i < self.probe_list.len()
            invariant
                i <= self.probe_list@.len(),
                taken@.len() == i,
                forall|j: int|
                    0 <= j < i ==> (#[trigger] taken@[j]).0@ == self.probe_list@[j].spec_name(),
            decreases self.probe_list@.len() - i,
        {
            let probe = &self.probe_list[i];
            let name = probe.name().to_owned();
            taken.push((name, probe.valid()));
            i += 1;
        }
        taken
    }

    /// The check's report: whether every probe was valid when read, and the
    /// reading of each by name. Each probe is read once.
    pub fn status(&self) -> (report: (bool, NameMap<bool>))
        ensures
            report.1.wf(),
            exists|readings: Seq<Reading>|
                {
                    &&& read_from(readings, self.probes())
                    &&& report.0 == all_valid(readings)
                    &&& report.1@ == #[trigger] details_of(readings)
                },
            self.probes().len() == 0 ==> report.0 && report.1@ == Map::<Seq<char>, bool>::empty(),
            forall|name: Seq<char>|
                report.1@.contains_key(name) <==> exists|i: int|
                    0 <= i < self.probes().len() && (#[trigger] self.probes()[i]).spec_name()
                        == name,
    {
        let taken = self.snapshot();
        let report = summarise(&taken);
        proof {
            let readings = readings_of(taken@);
            assert(read_from(readings, self.probes()));
            if self.probes().len() == 0 {
                assert(details_of(readings) =~= Map::<Seq<char>, bool>::empty());
            }
            assert forall|name: Seq<char>|
                report.1@.contains_key(name) <==> exists|i: int|
                    0 <= i < self.probes().len() && (#[trigger] self.probes()[i]).spec_name()
                        == name by {
                if report.1@.contains_key(name) {
                    let i = choose|i: int|
                        0 <= i < readings.len() && (#[trigger] readings[i]).0 == name;
                    assert(self.probes()[i].spec_name() == name);
                }
                if exists|i: int|
                    0 <= i < self.probes().len() && (#[trigger] self.probes()[i]).spec_name()
                        == name {
                    let i = choose|i: int|
                        0 <= i < self.probes().len() && (#[trigger] self.probes()[i]).spec_name()
                            == name;
                    assert(readings[i].0 == name);
                }
            }
        }
        report
    }
}

} // verus!
