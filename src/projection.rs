//! Resolving a requested list of column names to positions in a header.
use vstd::prelude::*;

verus! {

/// The text of each string in a sequence.
pub open spec fn names(v: Seq<String>) -> Seq<Seq<char>> {
    v.map_values(|s: String| s@)
}

/// A sequence of positions read as mathematical integers.
pub open spec fn as_ints(v: Seq<usize>) -> Seq<int> {
    v.map_values(|x: usize| x as int)
}

/// The first position of `name` in `header`, or -1 when it does not occur.
pub open spec fn index_of(header: Seq<Seq<char>>, name: Seq<char>) -> int
    decreases header.len(),
{
    if header.len() == 0 {
        -1
    } else {
        let earlier = index_of(header.drop_last(), name);
        if earlier >= 0 {
            earlier
        } else if header.last() == name {
            header.len() - 1
        } else {
            -1
        }
    }
}

/// The column index set: for each requested name, in request order, its first
/// position in the header; names that do not occur, and positions already taken
/// by an earlier request, are left out.
pub open spec fn projection(header: Seq<Seq<char>>, request: Seq<Seq<char>>) -> Seq<int>
    decreases request.len(),
{
    if request.len() == 0 {
        Seq::empty()
    } else {
        let earlier = projection(header, request.drop_last());
        let p = index_of(header, request.last());
        if p >= 0 && !earlier.contains(p) {
            earlier.push(p)
        } else {
            earlier
        }
    }
}

/// The column names that a projection selects, in order.
pub open spec fn selected_names(header: Seq<Seq<char>>, request: Seq<Seq<char>>) -> Seq<Seq<char>> {
    projection(header, request).map_values(|p: int| header[p])
}

/// `index_of` is the first position holding the name, or -1 when none does.
pub proof fn lemma_index_of(header: Seq<Seq<char>>, name: Seq<char>)
    ensures
        -1 <= index_of(header, name) < header.len(),
        index_of(header, name) >= 0 ==> header[index_of(header, name)] == name,
        index_of(header, name) >= 0 ==> forall|j: int|
            0 <= j < index_of(header, name) ==> header[j] != name,
        index_of(header, name) == -1 <==> !header.contains(name),
    decreases header.len(),
{
    if header.len() > 0 {
        let init = header.drop_last();
        lemma_index_of(init, name);
        assert forall|j: int| 0 <= j < init.len() implies init[j] == header[j] by {}
        if index_of(init, name) == -1 && header.last() != name {
            assert forall|j: int| 0 <= j < header.len() implies header[j] != name by {
                if j < init.len() {
                    assert(init[j] == header[j]);
                    assert(!init.contains(name));
                    if header[j] == name {
                        assert(init.contains(name));
                    }
                }
            }
        }
        if header.contains(name) {
            let j = choose|j: int| 0 <= j < header.len() && header[j] == name;
            if j < init.len() {
                assert(init[j] == name);
                assert(init.contains(name));
            }
        }
        if index_of(init, name) >= 0 {
            assert(header.contains(name)) by {
                assert(header[index_of(init, name)] == name);
            }
        }
        if header.last() == name {
            assert(header[header.len() - 1] == name);
        }
    }
}

/// A projection has at most one position per request, each a distinct
/// position of the header.
pub proof fn lemma_projection_bounds(header: Seq<Seq<char>>, request: Seq<Seq<char>>)
    ensures
        projection(header, request).len() <= request.len(),
        forall|j: int|
            0 <= j < projection(header, request).len() ==> 0 <= #[trigger] projection(
                header,
                request,
            )[j] < header.len(),
        forall|j: int, k: int|
            0 <= j < k < projection(header, request).len() ==> projection(header, request)[j]
                != projection(header, request)[k],
    decreases request.len(),
{
    if request.len() > 0 {
        lemma_projection_bounds(header, request.drop_last());
        lemma_index_of(header, request.last());
    }
}

/// The first position of `name` in `header`.
pub fn position(header: &Vec<String>, name: &String) -> (r: Option<usize>)
    ensures
        match r {
            Some(p) => p as int == index_of(names(header@), name@),
            None => index_of(names(header@), name@) == -1,
        },
{
    let ghost h = names(header@);
    proof {
        lemma_index_of(h, name@);
    }
    let mut i: usize = 0;
    while i < header.len()
        invariant
            h == names(header@),
            0 <= i <= header.len(),
            forall|j: int| 0 <= j < i ==> h[j] != name@,
            -1 <= index_of(h, name@) < h.len(),
            index_of(h, name@) >= 0 ==> h[index_of(h, name@)] == name@,
            index_of(h, name@) >= 0 ==> forall|j: int|
                0 <= j < index_of(h, name@) ==> h[j] != name@,
            index_of(h, name@) == -1 <==> !h.contains(name@),
        decreases header.len() - i,
    {
        if header[i] == *name {
            assert(h[i as int] == name@);
            assert(h.contains(name@));
            return Some(i);
        }
        i = i + 1;
    }
    assert(!h.contains(name@)) by {
        if h.contains(name@) {
            let j = choose|j: int| 0 <= j < h.len() && h[j] == name@;
        }
    }
    None
}

fn contains_position(v: &Vec<usize>, p: usize) -> (r: bool)
    ensures
        r == as_ints(v@).contains(p as int),
{
    let mut i: usize = 0;
    while i < v.len()
        invariant
            0 <= i <= v.len(),
            forall|j: int| 0 <= j < i ==> v@[j] != p,
        decreases v.len() - i,
    {
        if v[i] == p {
            assert(as_ints(v@)[i as int] == p as int);
            return true;
        }
        i = i + 1;
    }
    assert(!as_ints(v@).contains(p as int)) by {
        if as_ints(v@).contains(p as int) {
            let j = choose|j: int| 0 <= j < v@.len() && as_ints(v@)[j] == p as int;
            assert(v@[j] == p);
        }
    }
    false
}

/// Computes the column index set of `request` against `header`.
pub fn project(header: &Vec<String>, request: &Vec<String>) -> (r: Vec<usize>)
    ensures
        as_ints(r@) == projection(names(header@), names(request@)),
{
    let ghost h = names(header@);
    let ghost q = names(request@);
    let mut out: Vec<usize> = Vec::new();
    let mut i: usize = 0;
    while i < request.len()
        invariant
            h == names(header@),
            q == names(request@),
            0 <= i <= request.len(),
            as_ints(out@) == projection(h, q.take(i as int)),
        decreases request.len() - i,
    {
        let ghost before = out@;
        assert(q.take(i as int + 1).drop_last() =~= q.take(i as int));
        assert(q.take(i as int + 1).last() == request@[i as int]@);
        match position(header, &request[i]) {
            Some(p) => {
                if !contains_position(&out, p) {
                    out.push(p);
                    assert(as_ints(out@) =~= as_ints(before).push(p as int));
                }
            },
            None => {},
        }
        i = i + 1;
    }
    assert(q.take(request.len() as int) =~= q);
    out
}

} // verus!
