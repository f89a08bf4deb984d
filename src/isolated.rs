use vstd::prelude::*;
use vstd::hash_set::StringHashSet;
use crate::records::{Class, OntologyRecords, PropertyAttribute};

verus! {

/// Some property attribute has `id` as its domain or its range.
pub open spec fn incident(props: Seq<PropertyAttribute>, id: Seq<char>) -> bool {
    exists|j: int|
        0 <= j < props.len() && (#[trigger] props[j].domain@ == id || props[j].range@ == id)
}

/// The ids of the classes that no property attribute touches, in class order.
pub open spec fn isolated_spec(classes: Seq<Class>, props: Seq<PropertyAttribute>) -> Seq<Seq<char>>
    decreases classes.len(),
{
    if classes.len() == 0 {
        Seq::empty()
    } else {
        let rest = isolated_spec(classes.drop_last(), props);
        if incident(props, classes.last().id@) {
            rest
        } else {
            rest.push(classes.last().id@)
        }
    }
}

/// The views of a sequence of strings.
pub open spec fn string_views(v: Seq<String>) -> Seq<Seq<char>> {
    v.map_values(|s: String| s@)
}

/// The set of every domain and range id of the property attributes.
fn endpoint_set(props: &Vec<PropertyAttribute>) -> (r: StringHashSet)
    ensures
        forall|id: Seq<char>| r@.contains(id) <==> incident(props@, id),
{
    let mut set = StringHashSet::new();
    let mut i: usize = 0;
    while i < props.len()
        invariant
            0 <= i <= props@.len(),
            forall|id: Seq<char>| set@.contains(id) <==> incident(props@.take(i as int), id),
        decreases props@.len() - i,
    {
        let p = &props[i];
        set.insert(p.domain.clone());
        set.insert(p.range.clone());
        proof {
            let prev = props@.take(i as int);
            let next = props@.take(i + 1);
            assert forall|id: Seq<char>| set@.contains(id) <==> incident(next, id) by {
                if incident(prev, id) {
                    let j = choose|j: int|
                        0 <= j < prev.len() && (#[trigger] prev[j].domain@ == id || prev[j].range@
                            == id);
                    assert(next[j] == prev[j]);
                }
                if incident(next, id) {
                    let j = choose|j: int|
                        0 <= j < next.len() && (#[trigger] next[j].domain@ == id || next[j].range@
                            == id);
                    if j < i {
                        assert(next[j] == prev[j]);
                    } else {
                        assert(next[j] == *p);
                    }
                }
                if id == p.domain@ || id == p.range@ {
                    assert(next[i as int] == *p);
                }
            }
        }
        i += 1;
    }
    assert(props@.take(props@.len() as int) =~= props@);
    set
}

/// The ids of the classes that are neither the domain nor the range of any
/// property attribute, in input class order. One pass builds the set of
/// endpoints, a second tests each class against it.
pub fn isolated_nodes(records: &OntologyRecords) -> (r: Vec<String>)
    ensures
        string_views(r@) == isolated_spec(records.classes@, records.property_attributes@),
{
    let endpoints = endpoint_set(&records.property_attributes);
    let classes = &records.classes;
    let mut out: Vec<String> = Vec::new();
    let mut i: usize = 0;
    while i < classes.len()
        invariant
            0 <= i <= classes@.len(),
            classes == &records.classes,
            forall|id: Seq<char>|
                endpoints@.contains(id) <==> incident(records.property_attributes@, id),
            string_views(out@) == isolated_spec(
                classes@.take(i as int),
                records.property_attributes@,
            ),
        decreases classes@.len() - i,
    {
        let c = &classes[i];
        proof {
            assert(classes@.take(i + 1).drop_last() =~= classes@.take(i as int));
            assert(classes@.take(i + 1).last() == *c);
        }
        if !endpoints.contains(c.id.as_str()) {
            let ghost before = out@;
            out.push(c.id.clone());
            proof {
                assert(string_views(before.push(c.id)) =~= string_views(before).push(c.id@));
            }
        }
        i += 1;
    }
    assert(classes@.take(classes@.len() as int) =~= classes@);
    out
}

/// The detector's output holds exactly the class ids that are neither a
/// domain nor a range of any property attribute.
pub proof fn lemma_isolated_exact(
    classes: Seq<Class>,
    props: Seq<PropertyAttribute>,
    id: Seq<char>,
)
    ensures
        isolated_spec(classes, props).contains(id) <==> (exists|i: int|
            0 <= i < classes.len() && #[trigger] classes[i].id@ == id) && !incident(props, id),
    decreases classes.len(),
{
    if classes.len() > 0 {
        let rest = classes.drop_last();
        lemma_isolated_exact(rest, props, id);
        if exists|i: int| 0 <= i < classes.len() && #[trigger] classes[i].id@ == id {
            let i = choose|i: int| 0 <= i < classes.len() && #[trigger] classes[i].id@ == id;
            if i < rest.len() {
                assert(rest[i] == classes[i]);
            }
        }
        if exists|i: int| 0 <= i < rest.len() && #[trigger] rest[i].id@ == id {
            let i = choose|i: int| 0 <= i < rest.len() && #[trigger] rest[i].id@ == id;
            assert(rest[i] == classes[i]);
        }
        let r = isolated_spec(rest, props);
        let x = classes.last().id@;
        if !incident(props, x) {
            let t = r.push(x);
            assert(isolated_spec(classes, props) == t);
            if t.contains(id) {
                let k = choose|k: int| 0 <= k < t.len() && t[k] == id;
                if k < r.len() {
                    assert(r[k] == t[k]);
                    assert(r.contains(id));
                } else {
                    assert(classes[classes.len() - 1].id@ == id);
                }
            }
            if r.contains(id) {
                let k = choose|k: int| 0 <= k < r.len() && r[k] == id;
                assert(t[k] == r[k]);
            }
            if id == x {
                assert(t[r.len() as int] == x);
                assert(classes[classes.len() - 1].id@ == id);
            }
        } else if id == x {
            assert(classes[classes.len() - 1].id@ == id);
        }
    }
}

} // verus!
