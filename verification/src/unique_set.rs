//! Order-preserving deduplication, and lookup of a value's position in the deduplicated list.

use vstd::prelude::*;

verus! {

/// A value whose identity is its content: two values built independently are the same
/// descriptor exactly when their views are equal.
pub trait Descriptor: View + Sized {
    /// Compares two descriptors by content.
    fn same(&self, other: &Self) -> (r: bool)
        ensures
            r == (self@ == other@),
    ;
}

impl<'a, T: Descriptor> Descriptor for &'a T {
    fn same(&self, other: &Self) -> (r: bool) {
        (**self).same(&**other)
    }
}

/// The views of a sequence of values, position by position.
pub open spec fn models<T: View>(items: Seq<T>) -> Seq<T::V> {
    items.map_values(|item: T| item@)
}

/// The distinct values of `values`, each once, in the order of their first occurrence.
pub open spec fn unique<A>(values: Seq<A>) -> Seq<A>
    decreases values.len(),
{
    if values.len() == 0 {
        Seq::empty()
    } else {
        let seen = unique(values.drop_last());
        if seen.contains(values.last()) {
            seen
        } else {
            seen.push(values.last())
        }
    }
}

/// The items of `items` whose content does not occur earlier in `items`, in their order: of
/// several items of the same content, the first.
pub open spec fn first_occurrences<T: View>(items: Seq<T>) -> Seq<T>
    decreases items.len(),
{
    if items.len() == 0 {
        Seq::empty()
    } else {
        let kept = first_occurrences(items.drop_last());
        if models(kept).contains(items.last()@) {
            kept
        } else {
            kept.push(items.last())
        }
    }
}

/// The first occurrences hold the distinct contents of the items, each once, in the order of
/// first occurrence.
pub proof fn lemma_models_of_first_occurrences<T: View>(items: Seq<T>)
    ensures
        models(first_occurrences(items)) == unique(models(items)),
    decreases items.len(),
{
    if items.len() > 0 {
        let rest = items.drop_last();
        lemma_models_of_first_occurrences(rest);
        assert(models(items).drop_last() =~= models(rest));
        let kept = first_occurrences(rest);
        if !models(kept).contains(items.last()@) {
            assert(models(kept.push(items.last())) =~= models(kept).push(items.last()@));
        }
    } else {
        assert(models(first_occurrences(items)) =~= unique(models(items)));
    }
}

/// `index` is the position of the first occurrence of `value` in `values`.
pub open spec fn is_first_index<A>(values: Seq<A>, value: A, index: int) -> bool {
    &&& 0 <= index < values.len()
    &&& values[index] == value
    &&& forall|j: int| 0 <= j < index ==> values[j] != value
}

/// The position of the first occurrence of `value` in `values`, or the length of `values` if
/// it does not occur.
pub open spec fn first_index<A>(values: Seq<A>, value: A) -> int
    decreases values.len(),
{
    if values.len() == 0 {
        0
    } else if values[0] == value {
        0
    } else {
        1 + first_index(values.drop_first(), value)
    }
}

/// `first_index` is the one position that `is_first_index` accepts.
pub proof fn lemma_first_index<A>(values: Seq<A>, value: A)
    ensures
        0 <= first_index(values, value) <= values.len(),
        values.contains(value) <==> first_index(values, value) < values.len(),
        values.contains(value) ==> is_first_index(values, value, first_index(values, value)),
        forall|index: int|
            is_first_index(values, value, index) ==> index == first_index(values, value),
    decreases values.len(),
{
    if values.len() > 0 {
        let rest = values.drop_first();
        lemma_first_index(rest, value);
        if values[0] != value {
            if values.contains(value) {
                let i = choose|i: int| 0 <= i < values.len() && values[i] == value;
                assert(rest[i - 1] == value);
            }
            if rest.contains(value) {
                let i = choose|i: int| 0 <= i < rest.len() && rest[i] == value;
                assert(values[i + 1] == value);
            }
            let found = first_index(rest, value);
            assert forall|j: int| 0 <= j < found + 1 implies values[j] != value by {
                if j > 0 {
                    assert(rest[j - 1] == values[j]);
                }
            }
            assert forall|index: int| is_first_index(values, value, index) implies index == found
                + 1 by {
                assert(index > 0);
                assert(rest[index - 1] == value);
                assert forall|j: int| 0 <= j < index - 1 implies rest[j] != value by {
                    assert(rest[j] == values[j + 1]);
                }
                assert(is_first_index(rest, value, index - 1));
            }
        } else {
            assert forall|index: int| is_first_index(values, value, index) implies index == 0 by {
                if index > 0 {
                    assert(values[0] != value);
                }
            }
        }
    }
}

/// The deduplicated list holds exactly the values of the input.
pub proof fn lemma_unique_contains<A>(values: Seq<A>, value: A)
    ensures
        unique(values).contains(value) <==> values.contains(value),
    decreases values.len(),
{
    if values.len() > 0 {
        let rest = values.drop_last();
        lemma_unique_contains(rest, value);
        let seen = unique(rest);
        if values.contains(value) {
            let i = choose|i: int| 0 <= i < values.len() && values[i] == value;
            if i < rest.len() {
                assert(rest[i] == value);
                let k = choose|k: int| 0 <= k < seen.len() && seen[k] == value;
                assert(unique(values)[k] == value);
            } else if seen.contains(value) {
            } else {
                assert(unique(values)[seen.len() as int] == value);
            }
        }
        if unique(values).contains(value) {
            let k = choose|k: int| 0 <= k < unique(values).len() && unique(values)[k] == value;
            if k < seen.len() {
                assert(seen[k] == value);
                let i = choose|i: int| 0 <= i < rest.len() && rest[i] == value;
                assert(values[i] == value);
            } else {
                assert(values[values.len() - 1] == value);
            }
        }
    }
}

/// No value occurs twice in the deduplicated list.
pub proof fn lemma_unique_no_duplicates<A>(values: Seq<A>)
    ensures
        unique(values).no_duplicates(),
    decreases values.len(),
{
    if values.len() > 0 {
        lemma_unique_no_duplicates(values.drop_last());
    }
}

/// Deduplication never lengthens a list.
pub proof fn lemma_unique_len<A>(values: Seq<A>)
    ensures
        unique(values).len() <= values.len(),
    decreases values.len(),
{
    if values.len() > 0 {
        lemma_unique_len(values.drop_last());
    }
}

/// Deduplicating a prefix of the input gives a prefix of the deduplicated input: values that
/// come later never move one that came earlier.
pub proof fn lemma_unique_prefix<A>(values: Seq<A>, n: int)
    requires
        0 <= n <= values.len(),
    ensures
        unique(values.take(n)).len() <= unique(values).len(),
        unique(values.take(n)) == unique(values).take(unique(values.take(n)).len() as int),
    decreases values.len(),
{
    if n == values.len() {
        assert(values.take(n) =~= values);
        assert(unique(values).take(unique(values).len() as int) =~= unique(values));
    } else {
        let rest = values.drop_last();
        lemma_unique_prefix(rest, n);
        assert(rest.take(n) =~= values.take(n));
        let part = unique(values.take(n));
        assert(unique(values).take(part.len() as int) =~= unique(rest).take(part.len() as int));
    }
}

/// A list without repeated values is its own deduplication, and only such a list keeps its
/// length.
pub proof fn lemma_unique_of_distinct<A>(values: Seq<A>)
    ensures
        values.no_duplicates() <==> unique(values) == values,
        values.no_duplicates() <==> unique(values).len() == values.len(),
    decreases values.len(),
{
    lemma_unique_len(values);
    lemma_unique_no_duplicates(values);
    if values.len() > 0 {
        let rest = values.drop_last();
        let last = values.last();
        lemma_unique_of_distinct(rest);
        lemma_unique_len(rest);
        lemma_unique_contains(rest, last);
        if values.no_duplicates() {
            assert(rest.no_duplicates());
            if rest.contains(last) {
                let i = choose|i: int| 0 <= i < rest.len() && rest[i] == last;
                assert(values[i] == values[values.len() - 1]);
            }
            assert(unique(values) =~= values);
        }
        if unique(values).len() == values.len() {
            assert(!rest.contains(last));
            assert(unique(rest).len() == rest.len());
            assert forall|i: int, j: int|
                0 <= i < values.len() && 0 <= j < values.len() && i != j implies values[i]
                != values[j] by {
                if i < rest.len() && j < rest.len() {
                    assert(rest[i] != rest[j]);
                } else if i < rest.len() {
                    assert(rest[i] == values[i]);
                } else {
                    assert(rest[j] == values[j]);
                }
            }
        }
    } else {
        assert(unique(values) =~= values);
    }
}

/// Deduplicating twice changes nothing more.
pub proof fn lemma_unique_idempotent<A>(values: Seq<A>)
    ensures
        unique(unique(values)) == unique(values),
{
    lemma_unique_no_duplicates(values);
    lemma_unique_of_distinct(unique(values));
}

/// Where a value stands in the deduplicated list: as many places from the start as there are
/// distinct values before its first occurrence in the input.
pub proof fn lemma_unique_index<A>(values: Seq<A>, value: A, first: int)
    requires
        is_first_index(values, value, first),
    ensures
        is_first_index(unique(values), value, unique(values.take(first)).len() as int),
{
    let before = values.take(first);
    let upto = values.take(first + 1);
    assert(upto.drop_last() =~= before);
    assert(upto.last() == value);
    lemma_unique_contains(before, value);
    if before.contains(value) {
        let j = choose|j: int| 0 <= j < before.len() && before[j] == value;
        assert(values[j] == value);
    }
    assert(unique(upto) == unique(before).push(value));
    lemma_unique_prefix(values, first + 1);
    let at = unique(before).len() as int;
    assert(unique(values).take(at + 1)[at] == value);
    lemma_unique_no_duplicates(values);
}

/// The same law over `first_index`: a value of the input is found in the deduplicated list at
/// the number of distinct values that precede its first occurrence in the input.
pub proof fn lemma_first_index_in_unique<A>(values: Seq<A>, value: A)
    requires
        values.contains(value),
    ensures
        unique(values).contains(value),
        first_index(unique(values), value) == unique(
            values.take(first_index(values, value)),
        ).len(),
{
    lemma_first_index(values, value);
    lemma_unique_index(values, value, first_index(values, value));
    lemma_unique_contains(values, value);
    lemma_first_index(unique(values), value);
}

/// Looking a value up in the deduplicated list gives the position of its first occurrence in
/// the input exactly when no value is repeated before that occurrence.
pub proof fn lemma_unique_index_is_first_occurrence<A>(values: Seq<A>, value: A, first: int)
    requires
        is_first_index(values, value, first),
    ensures
        is_first_index(unique(values), value, first) <==> values.take(first).no_duplicates(),
{
    lemma_unique_index(values, value, first);
    lemma_unique_of_distinct(values.take(first));
    lemma_unique_no_duplicates(values);
    let at = unique(values.take(first)).len() as int;
    if is_first_index(unique(values), value, first) {
        assert(unique(values)[at] == unique(values)[first]);
    }
}

/// Every value of the input is found again in the deduplicated list, at a position that holds
/// that very value.
pub proof fn lemma_unique_lookup_round_trip<A>(values: Seq<A>, i: int)
    requires
        0 <= i < values.len(),
    ensures
        exists|k: int| is_first_index(unique(values), values[i], k),
{
    lemma_unique_contains(values, values[i]);
    assert(values.contains(values[i]));
    unique(values).index_of_first_ensures(values[i]);
    let k = unique(values).index_of_first(values[i]).unwrap();
    assert(is_first_index(unique(values), values[i], k));
}

/// Whether one of the first `end` items of `items` has the same content as `item`.
fn seen_before<T: Descriptor>(items: &Vec<T>, end: usize, item: &T) -> (r: bool)
    requires
        end <= items.len(),
    ensures
        r == models(items@.take(end as int)).contains(item@),
{
    let mut j: usize = 0;
    while j < end
        invariant
            j <= end <= items.len(),
            forall|k: int| 0 <= k < j ==> items[k]@ != item@,
        decreases end - j,
    {
        if items[j].same(item) {
            assert(models(items@.take(end as int))[j as int] == item@);
            return true;
        }
        j += 1;
    }
    false
}

/// Removes from `vec` every item whose content already occurs earlier in it. The first
/// occurrences stay, in the order in which they stood.
pub fn vec_dedup<T: Descriptor>(vec: &mut Vec<T>)
    ensures
        final(vec)@ == first_occurrences(old(vec)@),
        models(final(vec)@) == unique(models(old(vec)@)),
{
    let ghost orig = vec@;
    let ghost done: int = 0;
    let mut i: usize = 0;
    assert(vec@.take(0) =~= first_occurrences(orig.take(0)));
    while i < vec.len()
        invariant
            0 <= i <= vec.len(),
            0 <= done <= orig.len(),
            vec.len() - i == orig.len() - done,
            vec@.skip(i as int) == orig.skip(done),
            vec@.take(i as int) == first_occurrences(orig.take(done)),
        decreases vec.len() - i,
    {
        proof {
            assert(vec@[i as int] == vec@.skip(i as int)[0]);
            assert(orig[done] == orig.skip(done)[0]);
            assert(orig.take(done + 1).drop_last() =~= orig.take(done));
        }
        let duplicate = seen_before(vec, i, &vec[i]);
        if duplicate {
            let ghost before = vec@;
            vec.remove(i);
            proof {
                assert forall|k: int| 0 <= k < vec.len() - i implies vec@.skip(i as int)[k]
                    == orig.skip(done + 1)[k] by {
                    assert(before.skip(i as int)[k + 1] == orig.skip(done)[k + 1]);
                }
                assert(vec@.skip(i as int) =~= orig.skip(done + 1));
                assert(vec@.take(i as int) =~= before.take(i as int));
            }
        } else {
            i += 1;
            proof {
                assert forall|k: int| 0 <= k < vec.len() - i implies vec@.skip(i as int)[k]
                    == orig.skip(done + 1)[k] by {
                    assert(vec@.skip(i - 1)[k + 1] == orig.skip(done)[k + 1]);
                }
                assert(vec@.skip(i as int) =~= orig.skip(done + 1));
                assert(vec@.take(i as int) =~= vec@.take(i - 1).push(vec@[i - 1]));
            }
        }
        proof {
            done = done + 1;
        }
    }
    proof {
        assert(vec@.take(i as int) =~= vec@);
        assert(orig.take(done) =~= orig);
        lemma_models_of_first_occurrences(orig);
    }
}

/// Collects the distinct items of `items`, each once, in the order of their first occurrence.
pub fn iter_collect_unique<T: Descriptor>(items: Vec<T>) -> (result: Vec<T>)
    ensures
        result@ == first_occurrences(items@),
        models(result@) == unique(models(items@)),
{
    let mut result = items;
    vec_dedup(&mut result);
    result
}

/// The position of the first item of `collection` with the content of `item`, if there is one.
pub fn position_of<T: Descriptor>(item: &T, collection: &Vec<T>) -> (r: Option<usize>)
    ensures
        match r {
            Some(index) => {
                &&& is_first_index(models(collection@), item@, index as int)
                &&& index == first_index(models(collection@), item@)
            },
            None => !models(collection@).contains(item@),
        },
{
    let mut i: usize = 0;
    while i < collection.len()
        invariant
            i <= collection.len(),
            forall|j: int| 0 <= j < i ==> models(collection@)[j] != item@,
        decreases collection.len() - i,
    {
        if collection[i].same(item) {
            proof {
                lemma_first_index(models(collection@), item@);
                assert(is_first_index(models(collection@), item@, i as int));
            }
            return Some(i);
        }
        i += 1;
    }
    None
}

/// The position of the first item of `collection` with the content of `item`.
///
/// The item has to be present: a caller looks up only what it put into the collection.
pub fn find_index<T: Descriptor>(item: &T, collection: &Vec<T>) -> (index: usize)
    requires
        models(collection@).contains(item@),
    ensures
        is_first_index(models(collection@), item@, index as int),
        index == first_index(models(collection@), item@),
{
    match position_of(item, collection) {
        Some(index) => index,
        None => vstd::pervasive::unreached(),
    }
}

} // verus!
