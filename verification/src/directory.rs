//! The directory: a fixed list of people, and the search by id.

use crate::person::{Person, PersonView};
use vstd::prelude::*;

verus! {

/// The two people of the directory, in the order in which they are listed.
pub open spec fn people() -> Seq<PersonView> {
    seq![
        PersonView { id: 1, name: "chris"@, age: 26 },
        PersonView { id: 2, name: "karli"@, age: 24 },
    ]
}

/// The first record of `list` whose id is `id`, or `None` where no record
/// has that id.
pub open spec fn first_with_id(list: Seq<PersonView>, id: int) -> Option<PersonView>
    decreases list.len(),
{
    if list.len() == 0 {
        None
    } else if list[0].id == id {
        Some(list[0])
    } else {
        first_with_id(list.drop_first(), id)
    }
}

/// Returns the people of the directory: the same two records, in the same
/// order, on every call.
pub fn get_person_list() -> (list: Vec<Person>)
    ensures
        list.deep_view() == people(),
{
    let person1 = Person { id: 1, name: "chris".to_owned(), age: 26 };
    let person2 = Person { id: 2, name: "karli".to_owned(), age: 24 };
    let mut list: Vec<Person> = Vec::new();
    list.push(person1);
    list.push(person2);
    assert(list.deep_view() =~= people());
    list
}

/// Where no record before position `k` has the id, the search goes on from
/// position `k`.
proof fn lemma_first_with_id_skip(list: Seq<PersonView>, id: int, k: int)
    requires
        0 <= k <= list.len(),
        forall|j: int| 0 <= j < k ==> (#[trigger] list[j]).id != id,
    ensures
        first_with_id(list, id) == first_with_id(list.subrange(k, list.len() as int), id),
    decreases k,
{
    if k == 0 {
        assert(list.subrange(0, list.len() as int) =~= list);
    } else {
        lemma_first_with_id_skip(list, id, k - 1);
        let rest = list.subrange(k - 1, list.len() as int);
        assert(rest[0] == list[k - 1]);
        assert(rest.drop_first() =~= list.subrange(k, list.len() as int));
    }
}

/// What the search returns is the first record with the id: a record of the
/// list that has the id, with no such record before it. It returns `None`
/// only where no record of the list has the id.
pub proof fn lemma_first_with_id_is_first(list: Seq<PersonView>, id: int)
    ensures
        match first_with_id(list, id) {
            Some(p) => exists|i: int|
                0 <= i < list.len() && #[trigger] list[i] == p && p.id == id && forall|j: int|
                    0 <= j < i ==> (#[trigger] list[j]).id != id,
            None => forall|i: int| 0 <= i < list.len() ==> (#[trigger] list[i]).id != id,
        },
    decreases list.len(),
{
    if list.len() == 0 {
    } else if list[0].id == id {
        assert(list[0] == list[0]);
    } else {
        let rest = list.drop_first();
        lemma_first_with_id_is_first(rest, id);
        match first_with_id(rest, id) {
            Some(p) => {
                let i = choose|i: int|
                    0 <= i < rest.len() && #[trigger] rest[i] == p && p.id == id && forall|j: int|
                        0 <= j < i ==> (#[trigger] rest[j]).id != id;
                assert(list[i + 1] == p);
                assert forall|j: int| 0 <= j < i + 1 implies (#[trigger] list[j]).id != id by {
                    if j > 0 {
                        assert(list[j] == rest[j - 1]);
                    }
                }
            },
            None => {
                assert forall|i: int| 0 <= i < list.len() implies (#[trigger] list[i]).id
                    != id by {
                    if i > 0 {
                        assert(list[i] == rest[i - 1]);
                    }
                }
            },
        }
    }
}

/// In the directory the ids 1 and 2 are found, each with the record that
/// carries it, and no other id is found.
pub proof fn lemma_directory_ids(id: int)
    ensures
        first_with_id(people(), id) is Some <==> id == 1 || id == 2,
        first_with_id(people(), id) matches Some(p) ==> p.id == id,
        id == 1 ==> first_with_id(people(), id) == Some(people()[0]),
        id == 2 ==> first_with_id(people(), id) == Some(people()[1]),
{
    lemma_first_with_id_is_first(people(), id);
    if id == 1 {
        assert(people()[0].id == 1);
    } else if id == 2 {
        lemma_first_with_id_skip(people(), id, 1);
        assert(people().subrange(1, 2)[0] == people()[1]);
    }
}

/// Looks a person up by id: goes through the directory in order and returns
/// the first record with that id, or `None` where there is none. So 1 and 2
/// are found, and no other id is.
pub fn get_person_by_id(id: i32) -> (found: Option<Person>)
    ensures
        found.deep_view() == first_with_id(people(), id as int),
        found is Some <==> id == 1 || id == 2,
        found matches Some(p) ==> p.id == id,
{
    proof {
        lemma_directory_ids(id as int);
    }
    let list = get_person_list();
    let ghost all = list.deep_view();
    for x in it: list
        invariant
            all == people(),
            it.seq().len() == all.len(),
            forall|j: int| 0 <= j < all.len() ==> (#[trigger] it.seq()[j])@ == all[j],
            forall|j: int| 0 <= j < it.index() ==> (#[trigger] all[j]).id != id,
    {
        if x.id == id {
            proof {
                let k = it.index() as int;
                lemma_first_with_id_skip(all, id as int, k);
                assert(all.subrange(k, all.len() as int)[0] == all[k]);
            }
            return Some(x);
        }
    }
    proof {
        lemma_first_with_id_skip(all, id as int, all.len() as int);
    }
    None
}

} // verus!
