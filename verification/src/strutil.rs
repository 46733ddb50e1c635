//! Small verified string utilities: cloning that provably keeps the view,
//! and the joining used when a command line or a group's member list is
//! rendered into a message.

use vstd::prelude::*;

verus! {

use vstd::string::StringExecFns;

/// The views of a sequence of strings.
pub open spec fn str_views(v: Seq<String>) -> Seq<Seq<char>> {
    v.map_values(|s: String| s@)
}

/// The views of a sequence of string pairs.
pub open spec fn pair_views(v: Seq<(String, String)>) -> Seq<(Seq<char>, Seq<char>)> {
    v.map_values(|p: (String, String)| (p.0@, p.1@))
}

pub fn clone_string(s: &String) -> (r: String)
    ensures
        r@ == s@,
{
    s.clone()
}

pub fn clone_strings(v: &Vec<String>) -> (r: Vec<String>)
    ensures
        str_views(r@) == str_views(v@),
{
    let mut r: Vec<String> = Vec::new();
    let mut i: usize = 0;
    while i < v.len()
        invariant
            i <= v@.len(),
            r@.len() == i,
            forall|j: int| 0 <= j < i ==> r@[j]@ == v@[j]@,
        decreases v@.len() - i,
    {
        r.push(clone_string(&v[i]));
        i += 1;
    }
    proof {
        assert(str_views(r@) =~= str_views(v@));
    }
    r
}

pub fn clone_pairs(v: &Vec<(String, String)>) -> (r: Vec<(String, String)>)
    ensures
        pair_views(r@) == pair_views(v@),
{
    let mut r: Vec<(String, String)> = Vec::new();
    let mut i: usize = 0;
    while i < v.len()
        invariant
            i <= v@.len(),
            r@.len() == i,
            forall|j: int| 0 <= j < i ==> r@[j].0@ == v@[j].0@ && r@[j].1@ == v@[j].1@,
        decreases v@.len() - i,
    {
        let p = (clone_string(&v[i].0), clone_string(&v[i].1));
        r.push(p);
        i += 1;
    }
    proof {
        assert(pair_views(r@) =~= pair_views(v@));
    }
    r
}

/// The items joined with a single space between neighbours; empty when there
/// are no items.
pub open spec fn joined_spaces(items: Seq<Seq<char>>) -> Seq<char>
    decreases items.len(),
{
    if items.len() == 0 {
        Seq::<char>::empty()
    } else if items.len() == 1 {
        items[0]
    } else {
        joined_spaces(items.drop_last()) + " "@ + items.last()
    }
}

pub fn join_with_spaces(items: &Vec<String>) -> (r: String)
    ensures
        r@ == joined_spaces(str_views(items@)),
{
    let mut r = String::new();
    let mut i: usize = 0;
    while i < items.len()
        invariant
            i <= items@.len(),
            r@ == joined_spaces(str_views(items@).take(i as int)),
        decreases items@.len() - i,
    {
        if i > 0 {
            r.append(" ");
        }
        r.append(items[i].as_str());
        proof {
            let full = str_views(items@);
            assert(full.take(i + 1).drop_last() =~= full.take(i as int));
            assert(full.take(i + 1).last() == items@[i as int]@);
            if i == 0 {
                assert(full.take(1) =~= seq![items@[0]@]);
            }
        }
        i += 1;
    }
    proof {
        assert(str_views(items@).take(items@.len() as int) =~= str_views(items@));
    }
    r
}

/// One item wrapped in double quotes.
pub open spec fn quoted(item: Seq<char>) -> Seq<char> {
    "\""@ + item + "\""@
}

/// Every item quoted, joined with a comma and a space.
pub open spec fn quoted_list(items: Seq<Seq<char>>) -> Seq<char>
    decreases items.len(),
{
    if items.len() == 0 {
        Seq::<char>::empty()
    } else if items.len() == 1 {
        quoted(items[0])
    } else {
        quoted_list(items.drop_last()) + ", "@ + quoted(items.last())
    }
}

/// A member list as shown in group notices: the quoted names inside brackets.
pub open spec fn name_list(items: Seq<Seq<char>>) -> Seq<char> {
    "["@ + quoted_list(items) + "]"@
}

pub fn format_name_list(items: &Vec<String>) -> (r: String)
    ensures
        r@ == name_list(str_views(items@)),
{
    let mut r = String::from_str("[");
    let mut i: usize = 0;
    while i < items.len()
        invariant
            i <= items@.len(),
            r@ == "["@ + quoted_list(str_views(items@).take(i as int)),
        decreases items@.len() - i,
    {
        if i > 0 {
            r.append(", ");
        }
        r.append("\"");
        r.append(items[i].as_str());
        r.append("\"");
        proof {
            let full = str_views(items@);
            assert(full.take(i + 1).drop_last() =~= full.take(i as int));
            assert(full.take(i + 1).last() == items@[i as int]@);
            if i == 0 {
                assert(full.take(1) =~= seq![items@[0]@]);
            }
        }
        i += 1;
    }
    r.append("]");
    proof {
        assert(str_views(items@).take(items@.len() as int) =~= str_views(items@));
    }
    r
}

} // verus!
