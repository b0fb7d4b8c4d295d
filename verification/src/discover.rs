//! Legacy store discovery: probe a fixed list of candidate paths, in
//! order, and take the first that exists on disk. Building the candidate
//! list and choosing among the probe results is the logic here; looking at
//! the disk itself is the caller's part.

use vstd::prelude::*;

use crate::report::string_views;

verus! {

/// The candidate paths, in probe order: the platform data directory, the
/// home directory, then the local fallback.
pub open spec fn candidate_paths_spec(data_dir: Option<String>, home_dir: Option<String>) -> Seq<
    Seq<char>,
> {
    let s0 = Seq::<Seq<char>>::empty();
    let s1 = match data_dir {
        Some(p) => s0.push(p@ + "/rehber360-electron/database.db"@),
        None => s0,
    };
    let s2 = match home_dir {
        Some(p) => s1.push(p@ + "/.rehber360/database.db"@),
        None => s1,
    };
    s2.push("./electron-db/database.db"@)
}

/// Build the candidate paths from the platform directories, when they are
/// known.
pub fn candidate_legacy_paths(data_dir: &Option<String>, home_dir: &Option<String>) -> (r: Vec<
    String,
>)
    ensures
        string_views(r@) == candidate_paths_spec(*data_dir, *home_dir),
{
    let mut r: Vec<String> = Vec::new();
    match data_dir {
        Some(p) => {
            let mut path = p.clone();
            path.append("/rehber360-electron/database.db");
            r.push(path);
        },
        None => {},
    }
    match home_dir {
        Some(p) => {
            let mut path = p.clone();
            path.append("/.rehber360/database.db");
            r.push(path);
        },
        None => {},
    }
    r.push(String::from_str("./electron-db/database.db"));
    proof {
        assert(string_views(r@) =~= candidate_paths_spec(*data_dir, *home_dir));
    }
    r
}

/// The first candidate marked as existing, if any.
pub open spec fn first_existing(cands: Seq<Seq<char>>, exists: Seq<bool>) -> Option<Seq<char>>
    decreases cands.len(),
{
    if cands.len() == 0 || exists.len() == 0 {
        None
    } else if exists[0] {
        Some(cands[0])
    } else {
        first_existing(cands.skip(1), exists.skip(1))
    }
}

/// Choose the first candidate whose probe said it exists. `exists[i]` is
/// the probe result for `candidates[i]`.
pub fn detect_legacy_store(candidates: &Vec<String>, exists: &Vec<bool>) -> (r: Option<String>)
    requires
        candidates@.len() == exists@.len(),
    ensures
        match first_existing(string_views(candidates@), exists@) {
            Some(v) => r matches Some(p) && p@ == v,
            None => r is None,
        },
{
    let mut i: usize = 0;
    proof {
        assert(string_views(candidates@).skip(0) =~= string_views(candidates@));
        assert(exists@.skip(0) =~= exists@);
    }
    while i < candidates.len()
        invariant
            i <= candidates@.len(),
            candidates@.len() == exists@.len(),
            first_existing(string_views(candidates@), exists@) == first_existing(
                string_views(candidates@).skip(i as int),
                exists@.skip(i as int),
            ),
        decreases candidates@.len() - i,
    {
        proof {
            assert(string_views(candidates@).skip(i as int)[0] == candidates@[i as int]@);
            assert(exists@.skip(i as int)[0] == exists@[i as int]);
        }
        if exists[i] {
            return Some(candidates[i].clone());
        }
        proof {
            assert(string_views(candidates@).skip(i as int).skip(1) =~= string_views(
                candidates@,
            ).skip(i + 1));
            assert(exists@.skip(i as int).skip(1) =~= exists@.skip(i + 1));
        }
        i += 1;
    }
    None
}

/// Discovery ordering: when the first two of the three candidates do not
/// exist, the result is exactly the third when it exists, and nothing when
/// it does not.
pub proof fn lemma_discovery_ordering(cands: Seq<Seq<char>>, exists: Seq<bool>)
    requires
        cands.len() == 3,
        exists.len() == 3,
        !exists[0],
        !exists[1],
    ensures
        exists[2] ==> first_existing(cands, exists) == Some(cands[2]),
        !exists[2] ==> first_existing(cands, exists) is None,
{
    assert(cands.skip(1)[0] == cands[1]);
    assert(exists.skip(1)[0] == exists[1]);
    assert(cands.skip(1).skip(1)[0] == cands[2]);
    assert(exists.skip(1).skip(1)[0] == exists[2]);
    assert(first_existing(cands, exists) == first_existing(cands.skip(1), exists.skip(1)));
    assert(first_existing(cands.skip(1), exists.skip(1)) == first_existing(
        cands.skip(1).skip(1),
        exists.skip(1).skip(1),
    ));
    if exists[2] {
        assert(first_existing(cands.skip(1).skip(1), exists.skip(1).skip(1)) == Some(cands[2]));
    } else {
        assert(first_existing(cands.skip(1).skip(1), exists.skip(1).skip(1)) == first_existing(
            cands.skip(1).skip(1).skip(1),
            exists.skip(1).skip(1).skip(1),
        ));
        assert(cands.skip(1).skip(1).skip(1).len() == 0);
    }
}

} // verus!
