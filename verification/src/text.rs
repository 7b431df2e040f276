//! String shapes shared by the graph builder and the planner: full crate
//! names, relative sibling paths, and comma-joined feature lists.

use vstd::prelude::*;

verus! {

/// The full name of a generated crate: `{base}-{name}`.
pub open spec fn full_name_seq(base: Seq<char>, name: Seq<char>) -> Seq<char> {
    base + "-"@ + name
}

/// The relative path from one generated crate to a sibling: `../{base}-{sib}`.
pub open spec fn local_path_seq(base: Seq<char>, sib: Seq<char>) -> Seq<char> {
    "../"@ + full_name_seq(base, sib)
}

/// Comma-separated join with no leading or trailing separator.
pub open spec fn join_comma(parts: Seq<Seq<char>>) -> Seq<char>
    decreases parts.len(),
{
    if parts.len() == 0 {
        Seq::empty()
    } else if parts.len() == 1 {
        parts[0]
    } else {
        parts[0] + ","@ + join_comma(parts.drop_first())
    }
}

/// The views of a sequence of string slices.
pub open spec fn strs_view(parts: Seq<&str>) -> Seq<Seq<char>> {
    parts.map_values(|p: &str| p@)
}

/// The views of a sequence of owned strings.
pub open spec fn strings_view(parts: Seq<String>) -> Seq<Seq<char>> {
    parts.map_values(|p: String| p@)
}

/// Builds `{base}-{name}`, the full name of a generated crate.
pub fn full_name(base: &str, name: &str) -> (r: String)
    ensures
        r@ == full_name_seq(base@, name@),
{
    let mut s = base.to_owned();
    s.append("-");
    s.append(name);
    proof {
        assert(s@ =~= full_name_seq(base@, name@));
    }
    s
}

/// Builds `../{base}-{sib}`, the relative path to a sibling crate.
pub fn local_path(base: &str, sib: &str) -> (r: String)
    ensures
        r@ == local_path_seq(base@, sib@),
{
    let mut s = "../".to_owned();
    s.append(base);
    s.append("-");
    s.append(sib);
    proof {
        assert(s@ =~= local_path_seq(base@, sib@));
    }
    s
}

/// Stripping the leading `../` from a sibling path yields the sibling's
/// full crate name.
pub proof fn lemma_local_path_strips_to_full_name(base: Seq<char>, sib: Seq<char>)
    ensures
        local_path_seq(base, sib).skip(3) == full_name_seq(base, sib),
        local_path_seq(base, sib).len() == 3 + full_name_seq(base, sib).len(),
{
    reveal_strlit("../");
    assert(local_path_seq(base, sib).skip(3) =~= full_name_seq(base, sib));
}

/// Joining one part adds no separator at all.
pub proof fn lemma_join_comma_single(part: Seq<char>)
    ensures
        join_comma(seq![part]) == part,
{
}

/// Joining two parts puts exactly one comma between them and none at the end.
pub proof fn lemma_join_comma_pair(a: Seq<char>, b: Seq<char>)
    ensures
        join_comma(seq![a, b]) == a + ","@ + b,
{
    reveal_with_fuel(join_comma, 3);
    assert(seq![a, b].drop_first() =~= seq![b]);
}

/// Appending one more part appends one comma and that part.
pub proof fn lemma_join_comma_push(parts: Seq<Seq<char>>, x: Seq<char>)
    requires
        parts.len() >= 1,
    ensures
        join_comma(parts.push(x)) == join_comma(parts) + ","@ + x,
    decreases parts.len(),
{
    reveal_with_fuel(join_comma, 3);
    if parts.len() == 1 {
        assert(parts.push(x)[0] == parts[0]);
        assert(parts.push(x).drop_first() =~= seq![x]);
    } else {
        assert(parts.push(x).drop_first() =~= parts.drop_first().push(x));
        lemma_join_comma_push(parts.drop_first(), x);
        assert((parts[0] + ","@ + (join_comma(parts.drop_first()) + ","@ + x)) =~= (parts[0]
            + ","@ + join_comma(parts.drop_first())) + ","@ + x);
    }
}

/// Joins feature flags with commas: `["serde", "v4"]` becomes `serde,v4`.
pub fn join_features(features: &Vec<&'static str>) -> (r: String)
    ensures
        r@ == join_comma(strs_view(features@)),
{
    if features.len() == 0 {
        let r = String::new();
        proof {
            assert(strs_view(features@) =~= Seq::<Seq<char>>::empty());
        }
        return r;
    }
    let mut s = features[0].to_owned();
    proof {
        assert(strs_view(features@.take(1)) =~= seq![features@[0]@]);
    }
    let mut i: usize = 1;
    while i < features.len()
        invariant
            1 <= i <= features@.len(),
            s@ == join_comma(strs_view(features@.take(i as int))),
        decreases features@.len() - i,
    {
        s.append(",");
        s.append(features[i]);
        proof {
            let prev = strs_view(features@.take(i as int));
            assert(strs_view(features@.take(i + 1)) =~= prev.push(features@[i as int]@));
            lemma_join_comma_push(prev, features@[i as int]@);
            assert(s@ =~= join_comma(prev) + ","@ + features@[i as int]@);
        }
        i += 1;
    }
    proof {
        assert(features@.take(features@.len() as int) =~= features@);
    }
    s
}

} // verus!
