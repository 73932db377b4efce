//! The generic structured-document value that the codec consumes and
//! produces, together with its mathematical model.

use vstd::prelude::*;

verus! {

broadcast use {
    vstd::seq::group_seq_axioms,
    vstd::map::group_map_axioms,
    vstd::set::group_set_axioms,
    vstd::std_specs::vec::group_vec_axioms,
};

/// A structured interchange-document value: object, array, string, integer
/// number, boolean, or null. A number that is not an integer (or does not
/// fit a signed 64-bit integer) is carried as `NonIntNum`; the codec rejects
/// it wherever a number is expected.
#[derive(Debug, PartialEq)]
pub enum Doc {
    Null,
    Bool(bool),
    Int(i64),
    NonIntNum,
    Text(String),
    List(Vec<Doc>),
    Object(Vec<(String, Doc)>),
}

/// The mathematical model of a document value. An object is modelled as a
/// finite map from key to value, so that model equality is insensitive to
/// the order in which an object's entries are written.
pub enum DocV {
    Null,
    Bool(bool),
    Int(int),
    NonIntNum,
    Text(Seq<char>),
    List(Seq<DocV>),
    Object(Map<Seq<char>, DocV>),
}

/// The model of a document value.
pub open spec fn doc_view(d: Doc) -> DocV
    decreases d,
{
    match d {
        Doc::Null => DocV::Null,
        Doc::Bool(b) => DocV::Bool(b),
        Doc::Int(n) => DocV::Int(n as int),
        Doc::NonIntNum => DocV::NonIntNum,
        Doc::Text(s) => DocV::Text(s@),
        Doc::List(xs) => DocV::List(list_view(xs@)),
        Doc::Object(es) => DocV::Object(entries_view(es@)),
    }
}

/// The models of the elements of a document array.
pub open spec fn list_view(s: Seq<Doc>) -> Seq<DocV>
    decreases s,
{
    if s.len() == 0 {
        Seq::empty()
    } else {
        list_view(s.drop_last()).push(doc_view(s.last()))
    }
}

/// The map that a sequence of object entries denotes; a later entry for the
/// same key overrides an earlier one, as in map-based document data models.
pub open spec fn entries_view(s: Seq<(String, Doc)>) -> Map<Seq<char>, DocV>
    decreases s,
{
    if s.len() == 0 {
        Map::empty()
    } else {
        entries_view(s.drop_last()).insert(s.last().0@, doc_view(s.last().1))
    }
}

impl View for Doc {
    type V = DocV;

    open spec fn view(&self) -> DocV {
        doc_view(*self)
    }
}

/// Pairwise-distinct keys in one object's entry list.
pub open spec fn entry_keys_distinct(s: Seq<(String, Doc)>) -> bool {
    forall|i: int, j: int| 0 <= i < j < s.len() ==> #[trigger] s[i].0@ != #[trigger] s[j].0@
}

impl Doc {
    /// Every object in the document has pairwise distinct keys, as in the
    /// map-based document data models this codec serves. Decoding expects
    /// this of its input.
    pub open spec fn keys_unique(&self) -> bool
        decreases self,
    {
        match self {
            Doc::List(xs) => forall|i: int|
                0 <= i < xs@.len() ==> (#[trigger] xs@[i]).keys_unique(),
            Doc::Object(es) => {
                &&& entry_keys_distinct(es@)
                &&& forall|i: int| 0 <= i < es@.len() ==> (#[trigger] es@[i].1).keys_unique()
            },
            _ => true,
        }
    }
}

/// The ghost analogue of `entries_view`: the map denoted by a sequence of
/// key/value pairs already in the model world.
pub open spec fn vmap_of(s: Seq<(Seq<char>, DocV)>) -> Map<Seq<char>, DocV>
    decreases s,
{
    if s.len() == 0 {
        Map::empty()
    } else {
        vmap_of(s.drop_last()).insert(s.last().0, s.last().1)
    }
}

/// Pairwise-distinct keys in a ghost entry list.
pub open spec fn vkeys_distinct(s: Seq<(Seq<char>, DocV)>) -> bool {
    forall|i: int, j: int| 0 <= i < j < s.len() ==> #[trigger] s[i].0 != #[trigger] s[j].0
}

pub proof fn lemma_list_view_len(s: Seq<Doc>)
    ensures
        list_view(s).len() == s.len(),
    decreases s,
{
    if s.len() > 0 {
        lemma_list_view_len(s.drop_last());
    }
}

pub broadcast proof fn lemma_list_view_index(s: Seq<Doc>, i: int)
    requires
        0 <= i < s.len(),
    ensures
        list_view(s).len() == s.len(),
        #[trigger] list_view(s)[i] == doc_view(s[i]),
    decreases s,
{
    lemma_list_view_len(s);
    if i < s.len() - 1 {
        lemma_list_view_index(s.drop_last(), i);
    }
}

/// The domain of an entry list's map is exactly the set of its keys.
pub broadcast proof fn lemma_entries_view_dom(s: Seq<(String, Doc)>, k: Seq<char>)
    ensures
        #[trigger] entries_view(s).contains_key(k) <==> exists|i: int|
            0 <= i < s.len() && #[trigger] s[i].0@ == k,
    decreases s,
{
    if s.len() > 0 {
        lemma_entries_view_dom(s.drop_last(), k);
        if s.last().0@ == k {
            assert(s[s.len() - 1].0@ == k);
        } else if entries_view(s).contains_key(k) {
            let i = choose|i: int| 0 <= i < s.drop_last().len() && #[trigger] s.drop_last()[i].0@ == k;
            assert(s[i].0@ == k);
        } else {
            assert forall|i: int| 0 <= i < s.len() && #[trigger] s[i].0@ == k implies false by {
                if i < s.len() - 1 {
                    assert(s.drop_last()[i].0@ == k);
                }
            }
        }
    }
}

/// With distinct keys, each entry is found in the entry list's map.
pub broadcast proof fn lemma_entries_view_index(s: Seq<(String, Doc)>, i: int)
    requires
        entry_keys_distinct(s),
        0 <= i < s.len(),
    ensures
        entries_view(s).contains_key(#[trigger] s[i].0@),
        entries_view(s)[s[i].0@] == doc_view(s[i].1),
    decreases s,
{
    if i < s.len() - 1 {
        assert(entry_keys_distinct(s.drop_last()));
        lemma_entries_view_index(s.drop_last(), i);
        assert(s.drop_last()[i] == s[i]);
        assert(s[i].0@ != s[s.len() - 1].0@);
    }
}

/// The ghost-entry analogues of the two lemmas above.
pub broadcast proof fn lemma_vmap_dom(s: Seq<(Seq<char>, DocV)>, k: Seq<char>)
    ensures
        #[trigger] vmap_of(s).contains_key(k) <==> exists|i: int|
            0 <= i < s.len() && #[trigger] s[i].0 == k,
    decreases s,
{
    if s.len() > 0 {
        lemma_vmap_dom(s.drop_last(), k);
        if s.last().0 == k {
            assert(s[s.len() - 1].0 == k);
        } else if vmap_of(s).contains_key(k) {
            let i = choose|i: int| 0 <= i < s.drop_last().len() && #[trigger] s.drop_last()[i].0 == k;
            assert(s[i].0 == k);
        } else {
            assert forall|i: int| 0 <= i < s.len() && #[trigger] s[i].0 == k implies false by {
                if i < s.len() - 1 {
                    assert(s.drop_last()[i].0 == k);
                }
            }
        }
    }
}

pub broadcast proof fn lemma_vmap_index(s: Seq<(Seq<char>, DocV)>, i: int)
    requires
        vkeys_distinct(s),
        0 <= i < s.len(),
    ensures
        vmap_of(s).contains_key(#[trigger] s[i].0),
        vmap_of(s)[s[i].0] == s[i].1,
    decreases s,
{
    if i < s.len() - 1 {
        assert(vkeys_distinct(s.drop_last()));
        lemma_vmap_index(s.drop_last(), i);
        assert(s.drop_last()[i] == s[i]);
        assert(s[i].0 != s[s.len() - 1].0);
    }
}

/// An entry list's map equals the ghost map of its entrywise models.
pub proof fn lemma_entries_view_is_vmap(s: Seq<(String, Doc)>)
    ensures
        entries_view(s) == vmap_of(
            s.map_values(|e: (String, Doc)| (e.0@, doc_view(e.1))),
        ),
    decreases s,
{
    let vs = s.map_values(|e: (String, Doc)| (e.0@, doc_view(e.1)));
    if s.len() == 0 {
        assert(vs.len() == 0);
    } else {
        lemma_entries_view_is_vmap(s.drop_last());
        assert(s.drop_last().map_values(|e: (String, Doc)| (e.0@, doc_view(e.1))) =~= vs.drop_last());
        assert(vs.last() == (s.last().0@, doc_view(s.last().1)));
    }
}


/// Appending an entry to an object's entry list inserts it in the model.
pub broadcast proof fn lemma_entries_view_push(s: Seq<(String, Doc)>, e: (String, Doc))
    ensures
        #[trigger] entries_view(s.push(e)) == entries_view(s).insert(e.0@, doc_view(e.1)),
{
    assert(s.push(e).drop_last() =~= s);
    assert(s.push(e).last() == e);
}

/// Appending an element to an array pushes its model.
pub broadcast proof fn lemma_list_view_push(s: Seq<Doc>, d: Doc)
    ensures
        #[trigger] list_view(s.push(d)) == list_view(s).push(doc_view(d)),
{
    assert(s.push(d).drop_last() =~= s);
    assert(s.push(d).last() == d);
}

} // verus!
