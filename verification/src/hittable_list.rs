//! A scene: a list of spheres, and the nearest of the hits on them.

use vstd::prelude::*;
use crate::hit::Contact;
use crate::hit::HitRecord;
use crate::sphere::Sphere;

verus! {

/// The spheres of a scene, in the order in which they were put in.
pub struct HittableList {
    hittable: Vec<Sphere>,
}

impl View for HittableList {
    type V = Seq<Sphere>;

    closed spec fn view(&self) -> Seq<Sphere> {
        self.hittable@
    }
}

/// The place of the nearest contact in `found`, where `found[i]` is what
/// the `i`-th sphere reported.
///
/// The reports are gone through in order. A contact takes the place of the
/// nearest so far only if its squared distance is smaller: of two that are
/// equally far the earlier one stays.
pub open spec fn nearest(found: Seq<Option<Contact>>) -> Option<int>
    decreases found.len(),
{
    if found.len() == 0 {
        None
    } else {
        let last = found.len() - 1;
        let before = nearest(found.drop_last());
        match (found[last], before) {
            (None, _) => before,
            (Some(_), None) => Some(last),
            (Some(contact), Some(best)) => if contact.distance2.less(
                found[best]->0.distance2,
            ) {
                Some(last)
            } else {
                before
            },
        }
    }
}

/// The reports that count: one for each sphere. What `found` holds beyond
/// the last sphere is no report of a sphere.
pub open spec fn counted(spheres: Seq<Sphere>, found: Seq<Option<Contact>>) -> Seq<
    Option<Contact>,
> {
    if found.len() <= spheres.len() {
        found
    } else {
        found.take(spheres.len() as int)
    }
}

/// The record of the nearest hit: the nearest contact, with the material
/// of the sphere that reported it.
pub open spec fn nearest_hit(spheres: Seq<Sphere>, found: Seq<Option<Contact>>) -> Option<
    HitRecord,
> {
    match nearest(counted(spheres, found)) {
        Some(i) => Some(spheres[i].spec_record(found[i]->0)),
        None => None,
    }
}

/// The nearest contact is one of those that were reported.
pub proof fn lemma_nearest_is_reported(found: Seq<Option<Contact>>)
    ensures
        nearest(found) matches Some(i) ==> 0 <= i < found.len() && found[i] is Some,
    decreases found.len(),
{
    if found.len() > 0 {
        lemma_nearest_is_reported(found.drop_last());
    }
}

/// There is a nearest hit exactly when some sphere reported one.
pub proof fn lemma_nearest_exists(found: Seq<Option<Contact>>)
    ensures
        nearest(found) is None <==> forall|j: int| 0 <= j < found.len() ==> found[j] is None,
    decreases found.len(),
{
    if found.len() > 0 {
        let before = found.drop_last();
        lemma_nearest_exists(before);
        assert forall|j: int| 0 <= j < before.len() implies found[j] == before[j] by {}
        if nearest(found) is None {
            assert(forall|j: int| 0 <= j < before.len() ==> before[j] is None);
        } else if forall|j: int| 0 <= j < found.len() ==> found[j] is None {
            assert(forall|j: int| 0 <= j < before.len() ==> before[j] is None);
        }
    }
}

/// Every squared distance in `found` is a number.
pub open spec fn all_numbers(found: Seq<Option<Contact>>) -> bool {
    forall|j: int|
        0 <= j < found.len() ==> (#[trigger] found[j] matches Some(c) ==> !c.distance2.nan())
}

/// The rank of the squared distance in the `j`-th report.
pub open spec fn rank_at(found: Seq<Option<Contact>>, j: int) -> int {
    found[j]->0.distance2.rank()
}

/// Where every distance is a number, the nearest contact is the first of
/// those than which none is nearer.
pub proof fn lemma_nearest_is_first_minimum(found: Seq<Option<Contact>>)
    requires
        all_numbers(found),
    ensures
        nearest(found) matches Some(i) ==> {
            &&& forall|j: int|
                0 <= j < found.len() && (#[trigger] found[j]) is Some ==> rank_at(found, i)
                    <= rank_at(found, j)
            &&& forall|j: int|
                0 <= j < i && (#[trigger] found[j]) is Some ==> rank_at(found, i) < rank_at(
                    found,
                    j,
                )
        },
    decreases found.len(),
{
    if found.len() > 0 {
        let before = found.drop_last();
        assert forall|j: int| 0 <= j < before.len() implies #[trigger] before[j] == found[j] by {}
        assert(all_numbers(before));
        lemma_nearest_is_first_minimum(before);
        lemma_nearest_is_reported(before);
        lemma_nearest_is_reported(found);
        lemma_nearest_exists(before);
        if let Some(i) = nearest(found) {
            let least = rank_at(found, i);
            assert forall|j: int|
                0 <= j < found.len() && (#[trigger] found[j]) is Some implies least <= rank_at(
                found,
                j,
            ) by {
                if j < before.len() {
                    assert(before[j] == found[j]);
                }
            }
            assert forall|j: int| 0 <= j < i && (#[trigger] found[j]) is Some implies least
                < rank_at(found, j) by {
                assert(before[j] == found[j]);
            }
        }
    }
}

/// Of two spheres that a ray hits at different distances, the nearer one
/// is hit, whichever was put into the scene first.
pub proof fn lemma_nearer_of_two(a: Sphere, b: Sphere, on_a: Contact, on_b: Contact)
    requires
        on_a.distance2.less(on_b.distance2),
    ensures
        nearest_hit(seq![a, b], seq![Some(on_a), Some(on_b)]) == Some(a.spec_record(on_a)),
        nearest_hit(seq![b, a], seq![Some(on_b), Some(on_a)]) == Some(a.spec_record(on_a)),
{
    let ab = seq![Some(on_a), Some(on_b)];
    let ba = seq![Some(on_b), Some(on_a)];
    assert(ab.drop_last() =~= seq![Some(on_a)]);
    assert(ba.drop_last() =~= seq![Some(on_b)]);
    assert(seq![Some(on_a)].drop_last() =~= Seq::<Option<Contact>>::empty());
    assert(seq![Some(on_b)].drop_last() =~= Seq::<Option<Contact>>::empty());
    assert(nearest(Seq::<Option<Contact>>::empty()) is None);
    assert(nearest(seq![Some(on_a)]) == Some(0int));
    assert(nearest(seq![Some(on_b)]) == Some(0int));
    assert(nearest(ab) == Some(0int));
    assert(nearest(ba) == Some(1int));
}

/// The spheres of a scene whose entries are a sphere and its report.
pub open spec fn spheres_of(scene: Seq<(Sphere, Option<Contact>)>) -> Seq<Sphere> {
    scene.map_values(|entry: (Sphere, Option<Contact>)| entry.0)
}

/// The reports of a scene whose entries are a sphere and its report.
pub open spec fn reports_of(scene: Seq<(Sphere, Option<Contact>)>) -> Seq<Option<Contact>> {
    scene.map_values(|entry: (Sphere, Option<Contact>)| entry.1)
}

/// The nearest hit does not depend on the order of the spheres: two scenes
/// that hold the same spheres with the same reports, in any order, give
/// the same hit, provided that every distance is a number and no two
/// different hits are equally far.
pub proof fn lemma_order_is_irrelevant(
    one: Seq<(Sphere, Option<Contact>)>,
    other: Seq<(Sphere, Option<Contact>)>,
)
    requires
        one.to_multiset() == other.to_multiset(),
        all_numbers(reports_of(one)),
        forall|j: int, k: int|
            0 <= j < one.len() && 0 <= k < one.len() && (#[trigger] one[j]).1 is Some && (
            #[trigger] one[k]).1 is Some && rank_at(reports_of(one), j) == rank_at(
                reports_of(one),
                k,
            ) ==> one[j] == one[k],
    ensures
        nearest_hit(spheres_of(one), reports_of(one)) == nearest_hit(
            spheres_of(other),
            reports_of(other),
        ),
{
    let f = reports_of(one);
    let g = reports_of(other);
    one.to_multiset_ensures();
    other.to_multiset_ensures();
    assert forall|k: int| 0 <= k < other.len() implies one.contains(#[trigger] other[k]) by {
        assert(other.contains(other[k]));
        assert(other.to_multiset().count(other[k]) > 0);
    }
    assert forall|k: int| 0 <= k < one.len() implies other.contains(#[trigger] one[k]) by {
        assert(one.contains(one[k]));
        assert(one.to_multiset().count(one[k]) > 0);
    }
    assert(all_numbers(g)) by {
        assert forall|k: int| 0 <= k < g.len() implies (#[trigger] g[k] matches Some(c)
            ==> !c.distance2.nan()) by {
            assert(one.contains(other[k]));
            let j = choose|j: int| 0 <= j < one.len() && one[j] == other[k];
            assert(f[j] == g[k]);
        }
    }
    lemma_nearest_exists(f);
    lemma_nearest_exists(g);
    lemma_nearest_is_reported(f);
    lemma_nearest_is_reported(g);
    lemma_nearest_is_first_minimum(f);
    lemma_nearest_is_first_minimum(g);
    match (nearest(f), nearest(g)) {
        (Some(i), Some(k)) => {
            assert(one.contains(other[k]));
            let j = choose|j: int| 0 <= j < one.len() && one[j] == other[k];
            assert(other.contains(one[i]));
            let l = choose|l: int| 0 <= l < other.len() && other[l] == one[i];
            assert(f[j] == g[k]);
            assert(g[l] == f[i]);
            assert(rank_at(f, i) <= rank_at(f, j));
            assert(rank_at(g, k) <= rank_at(g, l));
            assert(one[i] == one[j]);
        },
        (Some(i), None) => {
            assert(other.contains(one[i]));
            let l = choose|l: int| 0 <= l < other.len() && other[l] == one[i];
            assert(g[l] == f[i]);
        },
        (None, Some(k)) => {
            assert(one.contains(other[k]));
            let j = choose|j: int| 0 <= j < one.len() && one[j] == other[k];
            assert(f[j] == g[k]);
        },
        (None, None) => {},
    }
}

impl HittableList {
    /// A scene without spheres.
    pub fn new() -> (r: HittableList)
        ensures
            r@ == Seq::<Sphere>::empty(),
    {
        HittableList { hittable: Vec::new() }
    }

    /// Puts `obj` behind the spheres that are in the scene.
    pub fn insert(&mut self, obj: Sphere)
        ensures
            final(self)@ == old(self)@.push(obj),
    {
        self.hittable.push(obj);
    }

    /// The number of spheres.
    pub fn len(&self) -> (n: usize)
        ensures
            n == self@.len(),
    {
        self.hittable.len()
    }

    /// The `i`-th sphere, if there are that many.
    pub fn get(&self, i: usize) -> (r: Option<Sphere>)
        ensures
            i < self@.len() ==> r == Some(self@[i as int]),
            i >= self@.len() ==> r is None,
    {
        if i < self.hittable.len() {
            Some(self.hittable[i])
        } else {
            None
        }
    }

    /// The nearest of the hits that the spheres of the scene reported for
    /// one ray, or `None` if none reported a hit. `found[i]` is the report
    /// of the `i`-th sphere; a sphere without a report was not hit.
    pub fn hit(&self, found: &Vec<Option<Contact>>) -> (r: Option<HitRecord>)
        ensures
            r == nearest_hit(self@, found@),
            r is None <==> forall|j: int|
                0 <= j < found@.len() && j < self@.len() ==> found@[j] is None,
    {
        let n: usize = if found.len() <= self.hittable.len() {
            found.len()
        } else {
            self.hittable.len()
        };
        let mut best: Option<(usize, Contact)> = None;
        let mut i: usize = 0;
        while i < n
            invariant
                i <= n <= found@.len(),
                n <= self@.len(),
                match best {
                    Some((at, contact)) => nearest(found@.take(i as int)) == Some(at as int) && at
                        < i && found@[at as int] == Some(contact),
                    None => nearest(found@.take(i as int)) is None,
                },
            decreases n - i,
        {
            assert(found@.take(i + 1).drop_last() =~= found@.take(i as int));
            match (found[i], best) {
                (None, _) => {},
                (Some(contact), None) => {
                    best = Some((i, contact));
                },
                (Some(contact), Some((_, nearest_so_far))) => {
                    if contact.distance2.lt(nearest_so_far.distance2) {
                        best = Some((i, contact));
                    }
                },
            }
            i += 1;
        }
        proof {
            let reports = counted(self@, found@);
            assert(found@.take(n as int) =~= reports);
            lemma_nearest_exists(reports);
            if let Some((at, _)) = best {
                assert(found@[at as int] is Some);
            } else {
                assert forall|j: int|
                    0 <= j < found@.len() && j < self@.len() implies found@[j] is None by {
                    assert(reports[j] is None);
                }
            }
        }
        match best {
            Some((at, contact)) => Some(self.hittable[at].record(contact)),
            None => None,
        }
    }
}

} // verus!
