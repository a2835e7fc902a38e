//! The sequence in which names are listed: ascending byte by byte, names
//! that are alike in the sequence in which they were found.

use vstd::prelude::*;
use vstd::utf8::encode_utf8;

verus! {

/// Whether `a` comes before `b` when both are read from byte `from` on: at
/// the first byte in which they differ `a` has the smaller, or `a` ends
/// where `b` goes on.
pub open spec fn bytes_before_from(a: Seq<u8>, b: Seq<u8>, from: int) -> bool
    decreases b.len() - from,
{
    if from < 0 || from >= b.len() {
        false
    } else if from >= a.len() {
        true
    } else if a[from] != b[from] {
        a[from] < b[from]
    } else {
        bytes_before_from(a, b, from + 1)
    }
}

/// Whether `a` comes before `b` byte by byte.
pub open spec fn bytes_before(a: Seq<u8>, b: Seq<u8>) -> bool {
    bytes_before_from(a, b, 0)
}

/// The bytes of each name of a list.
pub open spec fn bytes_of(names: Seq<String>) -> Seq<Seq<u8>> {
    Seq::new(names.len(), |i: int| encode_utf8(names[i]@))
}

/// Whether a place stands somewhere in `listed`.
pub open spec fn holds_place(listed: Seq<usize>, place: int) -> bool {
    exists|i: int| 0 <= i < listed.len() && #[trigger] listed[i] == place
}

/// Whether `listed` puts the first `count` places of `names` in sequence:
/// it holds each of these places once, the names at its places ascend, and
/// of two names that are alike the one found first is listed first.
pub open spec fn lists_first(names: Seq<Seq<u8>>, listed: Seq<usize>, count: int) -> bool {
    &&& 0 <= count <= names.len()
    &&& listed.len() == count
    &&& forall|i: int| 0 <= i < count ==> #[trigger] listed[i] < count
    &&& forall|place: int| 0 <= place < count ==> #[trigger] holds_place(listed, place)
    &&& forall|i: int, j: int|
        0 <= i < j < count ==> !bytes_before(
            names[#[trigger] listed[j] as int],
            names[#[trigger] listed[i] as int],
        )
    &&& forall|i: int, j: int|
        0 <= i < j < count && !bytes_before(
            names[#[trigger] listed[i] as int],
            names[#[trigger] listed[j] as int],
        ) ==> listed[i] < listed[j]
}

/// Whether `listed` puts all the places of `names` in sequence.
pub open spec fn lists_all(names: Seq<Seq<u8>>, listed: Seq<usize>) -> bool {
    lists_first(names, listed, names.len() as int)
}

/// No name comes before itself.
pub proof fn lemma_not_before_itself(a: Seq<u8>, from: int)
    ensures
        !bytes_before_from(a, a, from),
    decreases a.len() - from,
{
    if 0 <= from < a.len() {
        lemma_not_before_itself(a, from + 1);
    }
}

/// Of two names at most one comes before the other.
pub proof fn lemma_before_one_way(a: Seq<u8>, b: Seq<u8>, from: int)
    ensures
        bytes_before_from(a, b, from) ==> !bytes_before_from(b, a, from),
    decreases b.len() - from,
{
    if 0 <= from < b.len() && from < a.len() && a[from] == b[from] {
        lemma_before_one_way(a, b, from + 1);
    }
}

/// A name that comes before another comes before every name that the other
/// does not come after: whatever stands between two names in sequence is in
/// sequence with both.
pub proof fn lemma_before_chain(a: Seq<u8>, b: Seq<u8>, c: Seq<u8>, from: int)
    ensures
        bytes_before_from(c, a, from) ==> bytes_before_from(b, a, from) || bytes_before_from(
            c,
            b,
            from,
        ),
    decreases a.len() - from,
{
    if 0 <= from < a.len() && from < b.len() && from < c.len() && a[from] == b[from] && b[from]
        == c[from] {
        lemma_before_chain(a, b, c, from + 1);
    }
}

/// Whether the first name comes before the second byte by byte.
pub fn name_before(a: &str, b: &str) -> (before: bool)
    ensures
        before == bytes_before(encode_utf8(a@), encode_utf8(b@)),
{
    let left = a.as_bytes();
    let right = b.as_bytes();
    let mut i: usize = 0;
    while i < left.len() && i < right.len()
        invariant
            i <= left.len(),
            i <= right.len(),
            left@ == encode_utf8(a@),
            right@ == encode_utf8(b@),
            bytes_before(left@, right@) == bytes_before_from(left@, right@, i as int),
        decreases left.len() - i,
    {
        if left[i] != right[i] {
            return left[i] < right[i];
        }
        i += 1;
    }
    i < right.len()
}

/// Putting the next place into a sequence of the places before it keeps the
/// sequence, where the place goes behind the last name that it does not
/// come before.
proof fn lemma_insert_keeps_sequence(names: Seq<Seq<u8>>, listed: Seq<usize>, count: int, at: int)
    requires
        lists_first(names, listed, count),
        count < names.len(),
        count <= usize::MAX,
        0 <= at <= count,
        forall|j: int| at <= j < count ==> bytes_before(names[count], names[#[trigger] listed[j] as int]),
        at > 0 ==> !bytes_before(names[count], names[listed[at - 1] as int]),
    ensures
        lists_first(names, listed.insert(at, count as usize), count + 1),
{
    let next = count as usize;
    let longer = listed.insert(at, next);
    assert(longer.len() == count + 1);
    assert forall|i: int| 0 <= i < count + 1 implies #[trigger] longer[i] < count + 1 by {
        if i < at {
            assert(longer[i] == listed[i]);
        } else if i > at {
            assert(longer[i] == listed[i - 1]);
        }
    }
    assert forall|place: int| 0 <= place < count + 1 implies #[trigger] holds_place(
        longer,
        place,
    ) by {
        if place == count {
            assert(longer[at] == place);
        } else {
            assert(holds_place(listed, place));
            let was = choose|i: int| 0 <= i < listed.len() && #[trigger] listed[i] == place;
            if was < at {
                assert(longer[was] == place);
            } else {
                assert(longer[was + 1] == place);
            }
        }
    }
    assert forall|i: int, j: int| 0 <= i < j < count + 1 implies !bytes_before(
        names[#[trigger] longer[j] as int],
        names[#[trigger] longer[i] as int],
    ) by {
        let old_i = if i < at { i } else { i - 1 };
        let old_j = if j < at { j } else { j - 1 };
        if j == at {
            assert(longer[i] == listed[i]);
            if i < at - 1 {
                assert(!bytes_before(names[listed[at - 1] as int], names[listed[i] as int]));
                lemma_before_chain(
                    names[listed[i] as int],
                    names[listed[at - 1] as int],
                    names[count],
                    0,
                );
            }
        } else if i == at {
            assert(longer[j] == listed[j - 1]);
            lemma_before_one_way(names[count], names[listed[j - 1] as int], 0);
        } else {
            assert(longer[i] == listed[old_i]);
            assert(longer[j] == listed[old_j]);
        }
    }
    assert forall|i: int, j: int|
        0 <= i < j < count + 1 && !bytes_before(
            names[#[trigger] longer[i] as int],
            names[#[trigger] longer[j] as int],
        ) implies longer[i] < longer[j] by {
        let old_i = if i < at { i } else { i - 1 };
        let old_j = if j < at { j } else { j - 1 };
        if j == at {
            assert(longer[i] == listed[i]);
        } else if i == at {
            assert(longer[j] == listed[j - 1]);
        } else {
            assert(longer[i] == listed[old_i]);
            assert(longer[j] == listed[old_j]);
        }
    }
}

/// The places of a list of names in the sequence in which the names are
/// listed: ascending byte by byte, and names that are alike in the sequence
/// in which they stand in the list.
pub fn order_by_display_name(names: &Vec<String>) -> (listed: Vec<usize>)
    ensures
        lists_all(bytes_of(names@), listed@),
{
    let ghost bytes = bytes_of(names@);
    let mut listed: Vec<usize> = Vec::new();
    let mut next: usize = 0;
    while next < names.len()
        invariant
            next <= names.len(),
            bytes == bytes_of(names@),
            lists_first(bytes, listed@, next as int),
        decreases names.len() - next,
    {
        let mut at: usize = next;
        let mut searching = true;
        while searching && at > 0
            invariant
                at <= next < names.len(),
                bytes == bytes_of(names@),
                lists_first(bytes, listed@, next as int),
                forall|j: int|
                    at <= j < next ==> bytes_before(
                        bytes[next as int],
                        bytes[#[trigger] listed@[j] as int],
                    ),
                !searching && at > 0 ==> !bytes_before(
                    bytes[next as int],
                    bytes[listed@[at - 1] as int],
                ),
            decreases at + (if searching { 1int } else { 0int }),
        {
            let earlier = listed[at - 1];
            if name_before(names[next].as_str(), names[earlier].as_str()) {
                at -= 1;
            } else {
                searching = false;
            }
        }
        proof {
            lemma_insert_keeps_sequence(bytes, listed@, next as int, at as int);
        }
        listed.insert(at, next);
        next += 1;
    }
    listed
}

/// No place is listed twice, so the list is the places of the names in
/// another sequence and nothing else.
pub proof fn lemma_listed_once(names: Seq<Seq<u8>>, listed: Seq<usize>, i: int, j: int)
    requires
        lists_all(names, listed),
        0 <= i < j < listed.len(),
    ensures
        listed[i] != listed[j],
{
    lemma_not_before_itself(names[listed[i] as int], 0);
}

} // verus!
