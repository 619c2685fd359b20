//! Small string utilities shared by the rest of the crate.

use vstd::prelude::*;
use vstd::string::*;

verus! {

/// Compares two string slices character by character.
pub fn str_eq(a: &str, b: &str) -> (same: bool)
    ensures
        same == (a@ == b@),
{
    let x = a.as_bytes();
    let y = b.as_bytes();
    proof {
        vstd::utf8::encode_utf8_decode_utf8(a@);
        vstd::utf8::encode_utf8_decode_utf8(b@);
    }
    if x.len() != y.len() {
        return false;
    }
    let mut i: usize = 0;
    while i < x.len()
        invariant
            i <= x.len(),
            x.len() == y.len(),
            x@ == a.spec_bytes(),
            y@ == b.spec_bytes(),
            forall|k: int| 0 <= k < i ==> x@[k] == y@[k],
        decreases x.len() - i,
    {
        if x[i] != y[i] {
            return false;
        }
        i += 1;
    }
    assert(x@ =~= y@);
    true
}

/// The parts written one after another, with `separator` between each two.
pub open spec fn join(parts: Seq<Seq<char>>, separator: Seq<char>) -> Seq<char>
    decreases parts.len(),
{
    if parts.len() == 0 {
        Seq::empty()
    } else if parts.len() == 1 {
        parts[0]
    } else {
        join(parts.drop_last(), separator) + separator + parts.last()
    }
}

/// Joining one part more: the separator comes in only between parts.
pub proof fn lemma_join_push(parts: Seq<Seq<char>>, part: Seq<char>, separator: Seq<char>)
    ensures
        join(parts.push(part), separator) == if parts.len() == 0 {
            part
        } else {
            join(parts, separator) + separator + part
        },
{
    assert(parts.push(part).drop_last() =~= parts);
}

/// Joining two lists of parts, neither of them empty, is joining each and
/// then the two results.
pub proof fn lemma_join_concat(a: Seq<Seq<char>>, b: Seq<Seq<char>>, separator: Seq<char>)
    requires
        a.len() > 0,
        b.len() > 0,
    ensures
        join(a + b, separator) == join(a, separator) + separator + join(b, separator),
    decreases b.len(),
{
    if b.len() == 1 {
        assert(a + b =~= a.push(b[0]));
        lemma_join_push(a, b[0], separator);
    } else {
        assert((a + b).drop_last() =~= a + b.drop_last());
        assert((a + b).last() == b.last());
        lemma_join_concat(a, b.drop_last(), separator);
        assert(join(a + b, separator) =~= join(a, separator) + separator + join(b, separator));
    }
}

/// The views of a list of texts.
pub open spec fn views(texts: Seq<String>) -> Seq<Seq<char>> {
    texts.map_values(|text: String| text@)
}

/// The views of a list of borrowed texts.
pub open spec fn str_views(texts: Seq<&str>) -> Seq<Seq<char>> {
    texts.map_values(|text: &str| text@)
}

/// Writes the texts one after another, with `separator` between each two.
pub fn join_strings(texts: &Vec<String>, separator: &str) -> (joined: String)
    ensures
        joined@ == join(views(texts@), separator@),
{
    let mut joined = String::new();
    let mut i: usize = 0;
    while i < texts.len()
        invariant
            i <= texts.len(),
            joined@ == join(views(texts@).take(i as int), separator@),
        decreases texts.len() - i,
    {
        proof {
            let parts = views(texts@);
            assert(parts.take(i + 1) =~= parts.take(i as int).push(texts@[i as int]@));
            lemma_join_push(parts.take(i as int), texts@[i as int]@, separator@);
        }
        if i > 0 {
            joined.append(separator);
        }
        joined.append(texts[i].as_str());
        i += 1;
    }
    assert(views(texts@).take(texts.len() as int) =~= views(texts@));
    joined
}

/// Writes the texts one after another, with `separator` between each two.
pub fn join_strs(texts: &[&str], separator: &str) -> (joined: String)
    ensures
        joined@ == join(str_views(texts@), separator@),
{
    let mut joined = String::new();
    let mut i: usize = 0;
    while i < texts.len()
        invariant
            i <= texts.len(),
            joined@ == join(str_views(texts@).take(i as int), separator@),
        decreases texts.len() - i,
    {
        proof {
            let parts = str_views(texts@);
            assert(parts.take(i + 1) =~= parts.take(i as int).push(texts@[i as int]@));
            lemma_join_push(parts.take(i as int), texts@[i as int]@, separator@);
        }
        if i > 0 {
            joined.append(separator);
        }
        joined.append(texts[i]);
        i += 1;
    }
    assert(str_views(texts@).take(texts.len() as int) =~= str_views(texts@));
    joined
}

} // verus!
