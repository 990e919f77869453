use vstd::prelude::*;

verus! {

/// The position of the last `.` in `name` that does not stand first, or
/// `None` when no such position exists. A dot in first position starts a
/// hidden file's name and does not separate an extension.
pub open spec fn last_dot(name: Seq<char>) -> Option<int>
    decreases name.len(),
{
    if name.len() <= 1 {
        None
    } else if name[name.len() - 1] == '.' {
        Some(name.len() - 1)
    } else {
        last_dot(name.drop_last())
    }
}

/// The resource name a file name yields: the file name with its extension
/// stripped. A name without an extension, or one whose only dot stands
/// first, is kept whole; an empty name yields nothing.
pub open spec fn stem_spec(name: Seq<char>) -> Option<Seq<char>> {
    if name.len() == 0 {
        None
    } else {
        match last_dot(name) {
            Some(d) => Some(name.subrange(0, d)),
            None => Some(name),
        }
    }
}

proof fn lemma_last_dot_found(name: Seq<char>, d: int)
    requires
        1 <= d < name.len(),
        name[d] == '.',
        forall|j: int| d < j < name.len() ==> name[j] != '.',
    ensures
        last_dot(name) == Some(d),
    decreases name.len(),
{
    if d < name.len() - 1 {
        lemma_last_dot_found(name.drop_last(), d);
    }
}

proof fn lemma_last_dot_none(name: Seq<char>)
    requires
        forall|j: int| 1 <= j < name.len() ==> name[j] != '.',
    ensures
        last_dot(name) is None,
    decreases name.len(),
{
    if name.len() > 1 {
        lemma_last_dot_none(name.drop_last());
    }
}

/// Derives a resource's catalog key from its file name, per `stem_spec`:
/// everything before the last dot, the whole name when there is no dot or
/// the only dot leads a hidden file's name, and `None` for an empty name.
pub fn stem_of(name: &str) -> (r: Option<String>)
    ensures
        r is Some <==> stem_spec(name@) is Some,
        r matches Some(s) ==> stem_spec(name@) == Some(s@),
{
    let n = name.unicode_len();
    if n == 0 {
        return None;
    }
    let mut i: usize = n;
    while i > 1
        invariant
            1 <= i <= n,
            n == name@.len(),
            forall|j: int| i <= j < n ==> name@[j] != '.',
        decreases i,
    {
        i = i - 1;
        let c = name.get_char(i);
        if c == '.' {
            proof {
                lemma_last_dot_found(name@, i as int);
            }
            let s = name.substring_char(0, i);
            return Some(s.to_owned());
        }
    }
    proof {
        lemma_last_dot_none(name@);
    }
    Some(name.to_owned())
}

} // verus!
