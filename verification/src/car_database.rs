use vstd::prelude::*;

verus! {

/// Car names by the game's car ordinal.
///
/// Entries are kept in the order they were added; a later entry for an
/// ordinal replaces what earlier ones said about it.
pub struct CarDatabase {
    entries: Vec<CarEntry>,
}

struct CarEntry {
    ordinal: i32,
    name: String,
}

/// The name that the entries give `ordinal`: that of its last entry.
pub open spec fn lookup_car(ordinals: Seq<i32>, names: Seq<Seq<char>>, ordinal: i32) -> Option<
    Seq<char>,
>
    decreases ordinals.len(),
{
    if ordinals.len() == 0 || names.len() != ordinals.len() {
        None
    } else if ordinals.last() == ordinal {
        Some(names.last())
    } else {
        lookup_car(ordinals.drop_last(), names.drop_last(), ordinal)
    }
}

impl CarDatabase {
    /// The ordinals of the entries, oldest first.
    pub closed spec fn spec_ordinals(&self) -> Seq<i32> {
        self.entries@.map_values(|e: CarEntry| e.ordinal)
    }

    /// The names of the entries, oldest first.
    pub closed spec fn spec_names(&self) -> Seq<Seq<char>> {
        self.entries@.map_values(|e: CarEntry| e.name@)
    }

    /// The entries' ordinals and names go together.
    proof fn lemma_views_align(&self)
        ensures
            self.spec_ordinals().len() == self.spec_names().len(),
    {
    }

    /// The name known for `ordinal`, if any.
    pub open spec fn spec_car_name(&self, ordinal: i32) -> Option<Seq<char>> {
        lookup_car(self.spec_ordinals(), self.spec_names(), ordinal)
    }

    /// A database that knows no car.
    pub fn new() -> (r: Self)
        ensures
            r.spec_ordinals().len() == 0,
            r.spec_names().len() == 0,
            forall|o: i32| r.spec_car_name(o) is None,
    {
        CarDatabase { entries: Vec::new() }
    }

    /// Records `name` for `ordinal`.
    pub fn insert(&mut self, ordinal: i32, name: String)
        ensures
            final(self).spec_ordinals() == old(self).spec_ordinals().push(ordinal),
            final(self).spec_names() == old(self).spec_names().push(name@),
            final(self).spec_car_name(ordinal) == Some(name@),
            forall|o: i32|
                o != ordinal ==> final(self).spec_car_name(o) == old(self).spec_car_name(o),
    {
        let ghost old_names = self.spec_names();
        let ghost name_view = name@;
        self.entries.push(CarEntry { ordinal, name });
        proof {
            assert(self.spec_names() =~= old_names.push(name_view));
            assert(self.spec_ordinals() =~= old(self).spec_ordinals().push(ordinal));
            assert(self.spec_ordinals().drop_last() =~= old(self).spec_ordinals());
            assert(self.spec_names().drop_last() =~= old_names);
        }
    }

    /// The name of the car with this ordinal, if the database knows it.
    pub fn get_car_name_opt(&self, ordinal: i32) -> (r: Option<String>)
        ensures
            r.deep_view() == self.spec_car_name(ordinal),
    {
        let n = self.entries.len();
        let mut i: usize = n;
        proof {
            assert(self.spec_ordinals().take(n as int) =~= self.spec_ordinals());
            assert(self.spec_names().take(n as int) =~= self.spec_names());
        }
        while i > 0
            invariant
                n == self.entries@.len(),
                i <= n,
                self.spec_names().len() == n,
                self.spec_ordinals().len() == n,
                self.spec_car_name(ordinal) == lookup_car(
                    self.spec_ordinals().take(i as int),
                    self.spec_names().take(i as int),
                    ordinal,
                ),
            decreases i,
        {
            let ghost os = self.spec_ordinals().take(i as int);
            let ghost ns = self.spec_names().take(i as int);
            let entry = &self.entries[i - 1];
            if entry.ordinal == ordinal {
                let name = entry.name.clone();
                proof {
                    assert(os.last() == ordinal);
                    assert(ns.last() == self.entries@[i - 1].name@);
                }
                return Some(name);
            }
            proof {
                assert(os.drop_last() =~= self.spec_ordinals().take(i - 1));
                assert(ns.drop_last() =~= self.spec_names().take(i - 1));
            }
            i = i - 1;
        }
        None
    }
}

/// A name that was recorded for an ordinal is what a lookup of that ordinal
/// gives back, and recording it changes what no other ordinal gives.
pub proof fn law_lookup_after_insert(
    before: CarDatabase,
    after: CarDatabase,
    ordinal: i32,
    name: Seq<char>,
)
    requires
        after.spec_ordinals() == before.spec_ordinals().push(ordinal),
        after.spec_names() == before.spec_names().push(name),
    ensures
        after.spec_car_name(ordinal) == Some(name),
        forall|o: i32| o != ordinal ==> after.spec_car_name(o) == before.spec_car_name(o),
{
    before.lemma_views_align();
    assert(after.spec_ordinals().drop_last() =~= before.spec_ordinals());
    assert(after.spec_names().drop_last() =~= before.spec_names());
}

} // verus!
