//! Spawn planning: argv and environment handling.
//!
//! The command builder that launches a child already takes the program path
//! as its first argument, so of a caller-supplied argv only positions 1..N
//! are passed on as explicit arguments. A caller-supplied environment
//! replaces the inherited one: each `KEY=VALUE` entry is split at its first
//! `=`, and an entry with no `=` is silently skipped. The planning here is
//! verified down to the byte; feeding the plan into the builder and the
//! actual spawn stay outside.

use vstd::prelude::*;

verus! {

/// The byte the environment entries split on: ASCII `=`.
pub const ENV_SEPARATOR: u8 = 61;

/// The first index at or after `i` holding the separator byte, if any.
pub open spec fn eq_index_from(s: Seq<u8>, i: int) -> Option<int>
    decreases s.len() - i,
{
    if i < 0 || i >= s.len() {
        None
    } else if s[i] == ENV_SEPARATOR {
        Some(i)
    } else {
        eq_index_from(s, i + 1)
    }
}

/// An environment entry split at its first separator into key and value, or
/// nothing for a malformed entry without one.
pub open spec fn spec_split_env(s: Seq<u8>) -> Option<(Seq<u8>, Seq<u8>)> {
    match eq_index_from(s, 0) {
        Some(i) => Some((s.take(i), s.skip(i + 1))),
        None => None,
    }
}

/// The key/value pairs of a list of entries, in order, malformed entries
/// skipped.
pub open spec fn spec_env_pairs(entries: Seq<Seq<u8>>) -> Seq<(Seq<u8>, Seq<u8>)>
    decreases entries.len(),
{
    if entries.len() == 0 {
        Seq::empty()
    } else {
        match spec_split_env(entries.last()) {
            Some(p) => spec_env_pairs(entries.drop_last()).push(p),
            None => spec_env_pairs(entries.drop_last()),
        }
    }
}

/// The explicit arguments handed to the command builder: everything after
/// argv's position 0, which the builder sets itself.
pub open spec fn spec_extra_args(args: Seq<Seq<u8>>) -> Seq<Seq<u8>> {
    if args.len() > 1 {
        args.skip(1)
    } else {
        Seq::empty()
    }
}

/// The byte strings of a list of byte vectors.
pub open spec fn bytes_view(v: Seq<Vec<u8>>) -> Seq<Seq<u8>>
    decreases v.len(),
{
    if v.len() == 0 {
        Seq::empty()
    } else {
        bytes_view(v.drop_last()).push(v.last()@)
    }
}

/// The byte-string pairs of a list of byte-vector pairs.
pub open spec fn pairs_view(v: Seq<(Vec<u8>, Vec<u8>)>) -> Seq<(Seq<u8>, Seq<u8>)>
    decreases v.len(),
{
    if v.len() == 0 {
        Seq::empty()
    } else {
        pairs_view(v.drop_last()).push((v.last().0@, v.last().1@))
    }
}

/// `bytes_view` keeps length and maps each element to its view.
pub proof fn lemma_bytes_view_props(v: Seq<Vec<u8>>)
    ensures
        bytes_view(v).len() == v.len(),
        forall|i: int| 0 <= i < v.len() ==> bytes_view(v)[i] == (#[trigger] v[i])@,
    decreases v.len(),
{
    if v.len() > 0 {
        lemma_bytes_view_props(v.drop_last());
        assert forall|i: int| 0 <= i < v.len() implies bytes_view(v)[i] == (#[trigger] v[i])@ by {
            if i < v.len() - 1 {
                assert(v.drop_last()[i] == v[i]);
                assert(bytes_view(v)[i] == bytes_view(v.drop_last())[i]);
            } else {
                assert(v[i] == v.last());
            }
        }
    }
}

/// What `eq_index_from` returns: the found index holds the separator and no
/// earlier one at or after the start does; a miss means no index does.
pub proof fn lemma_eq_index_props(s: Seq<u8>, i: int)
    requires
        0 <= i,
    ensures
        match eq_index_from(s, i) {
            Some(k) => i <= k < s.len() && s[k] == ENV_SEPARATOR && forall|j: int|
                i <= j < k ==> s[j] != ENV_SEPARATOR,
            None => forall|j: int| i <= j < s.len() ==> s[j] != ENV_SEPARATOR,
        },
    decreases s.len() - i,
{
    if i < s.len() && s[i] != ENV_SEPARATOR {
        lemma_eq_index_props(s, i + 1);
    }
}

/// A position holding the separator, with none before it, is the one
/// `eq_index_from` finds.
proof fn lemma_eq_index_is(s: Seq<u8>, k: int)
    requires
        0 <= k < s.len(),
        s[k] == ENV_SEPARATOR,
        forall|j: int| 0 <= j < k ==> s[j] != ENV_SEPARATOR,
    ensures
        eq_index_from(s, 0) == Some(k),
{
    lemma_eq_index_props(s, 0);
    match eq_index_from(s, 0) {
        Some(m) => {
            if m < k {
                assert(s[m] != ENV_SEPARATOR);
            } else if m > k {
                assert(s[k] != ENV_SEPARATOR);
            }
        },
        None => {
            assert(s[k] != ENV_SEPARATOR);
        },
    }
}

/// A byte-for-byte copy.
fn copy_bytes(v: &Vec<u8>) -> (r: Vec<u8>)
    ensures
        r@ == v@,
{
    let mut r: Vec<u8> = Vec::new();
    let mut i: usize = 0;
    while i < v.len()
        invariant
            i <= v@.len(),
            r@ == v@.take(i as int),
        decreases v@.len() - i,
    {
        r.push(v[i]);
        proof {
            assert(v@.take(i + 1) =~= v@.take(i as int).push(v@[i as int]));
        }
        i += 1;
    }
    proof {
        assert(v@.take(v@.len() as int) =~= v@);
    }
    r
}

/// Split one environment entry at its first separator; `None` for a
/// malformed entry without one.
pub fn split_env(entry: &Vec<u8>) -> (r: Option<(Vec<u8>, Vec<u8>)>)
    ensures
        match r {
            Some(p) => spec_split_env(entry@) == Some((p.0@, p.1@)),
            None => spec_split_env(entry@) is None,
        },
{
    let n = entry.len();
    let mut i: usize = 0;
    while i < n
        invariant
            n == entry@.len(),
            i <= n,
            forall|j: int| 0 <= j < i ==> entry@[j] != ENV_SEPARATOR,
        decreases n - i,
    {
        if entry[i] == ENV_SEPARATOR {
            proof {
                lemma_eq_index_is(entry@, i as int);
            }
            let mut key: Vec<u8> = Vec::new();
            let mut j: usize = 0;
            while j < i
                invariant
                    j <= i <= entry@.len(),
                    key@ == entry@.take(j as int),
                decreases i - j,
            {
                key.push(entry[j]);
                proof {
                    assert(entry@.take(j + 1) =~= entry@.take(j as int).push(entry@[j as int]));
                }
                j += 1;
            }
            let mut val: Vec<u8> = Vec::new();
            let mut j2: usize = i + 1;
            while j2 < n
                invariant
                    i < j2 <= n,
                    n == entry@.len(),
                    val@ == entry@.subrange(i + 1, j2 as int),
                decreases n - j2,
            {
                val.push(entry[j2]);
                proof {
                    assert(entry@.subrange(i + 1, j2 + 1) =~= entry@.subrange(
                        i + 1,
                        j2 as int,
                    ).push(entry@[j2 as int]));
                }
                j2 += 1;
            }
            proof {
                assert(entry@.skip(i + 1) =~= entry@.subrange(i + 1, n as int));
            }
            return Some((key, val));
        }
        i += 1;
    }
    proof {
        lemma_eq_index_props(entry@, 0);
        match eq_index_from(entry@, 0) {
            Some(m) => {
                assert(entry@[m] != ENV_SEPARATOR);
            },
            None => {},
        }
    }
    None
}

/// What a spawn passes to the command builder, computed from the caller's
/// argv and envp.
pub struct SpawnPlan {
    /// argv positions 1..N, to add after the program path.
    pub extra_args: Vec<Vec<u8>>,
    /// Whether the inherited environment is cleared first: exactly when the
    /// caller supplied one of its own.
    pub clear_env: bool,
    /// The `KEY=VALUE` pairs to set, malformed entries skipped.
    pub env_pairs: Vec<(Vec<u8>, Vec<u8>)>,
}

/// Compute the spawn plan: arguments after position 0 of a caller-supplied
/// argv, and the split entries of a caller-supplied environment.
pub fn plan_spawn(args: Option<&Vec<Vec<u8>>>, env: Option<&Vec<Vec<u8>>>) -> (p: SpawnPlan)
    ensures
        bytes_view(p.extra_args@) == (match args {
            Some(a) => spec_extra_args(bytes_view(a@)),
            None => Seq::<Seq<u8>>::empty(),
        }),
        p.clear_env == env is Some,
        pairs_view(p.env_pairs@) == (match env {
            Some(e) => spec_env_pairs(bytes_view(e@)),
            None => Seq::<(Seq<u8>, Seq<u8>)>::empty(),
        }),
{
    let mut extra_args: Vec<Vec<u8>> = Vec::new();
    if let Some(a) = args {
        proof {
            lemma_bytes_view_props(a@);
        }
        if a.len() > 1 {
            let mut i: usize = 1;
            while i < a.len()
                invariant
                    1 <= i <= a@.len(),
                    a@.len() > 1,
                    bytes_view(a@).len() == a@.len(),
                    forall|k: int| 0 <= k < a@.len() ==> bytes_view(a@)[k] == (#[trigger] a@[k])@,
                    bytes_view(extra_args@) == bytes_view(a@).subrange(1, i as int),
                decreases a@.len() - i,
            {
                let item = copy_bytes(&a[i]);
                let ghost prev = extra_args@;
                extra_args.push(item);
                proof {
                    assert(extra_args@.drop_last() =~= prev);
                    assert(bytes_view(extra_args@) == bytes_view(prev).push(item@));
                    assert(bytes_view(a@).subrange(1, i + 1) =~= bytes_view(a@).subrange(
                        1,
                        i as int,
                    ).push(bytes_view(a@)[i as int]));
                }
                i += 1;
            }
            proof {
                assert(bytes_view(a@).subrange(1, a@.len() as int) =~= bytes_view(a@).skip(1));
            }
        }
    }
    let mut env_pairs: Vec<(Vec<u8>, Vec<u8>)> = Vec::new();
    let mut clear_env = false;
    if let Some(e) = env {
        clear_env = true;
        proof {
            lemma_bytes_view_props(e@);
        }
        let mut i: usize = 0;
        while i < e.len()
            invariant
                i <= e@.len(),
                bytes_view(e@).len() == e@.len(),
                forall|k: int| 0 <= k < e@.len() ==> bytes_view(e@)[k] == (#[trigger] e@[k])@,
                pairs_view(env_pairs@) == spec_env_pairs(bytes_view(e@).take(i as int)),
            decreases e@.len() - i,
        {
            match split_env(&e[i]) {
                Some(pair) => {
                    let ghost prevp = env_pairs@;
                    let ghost pview = (pair.0@, pair.1@);
                    env_pairs.push(pair);
                    proof {
                        assert(env_pairs@.drop_last() =~= prevp);
                        assert(pairs_view(env_pairs@) == pairs_view(prevp).push(pview));
                        assert(bytes_view(e@).take(i + 1).drop_last() =~= bytes_view(e@).take(
                            i as int,
                        ));
                        assert(bytes_view(e@).take(i + 1).last() == bytes_view(e@)[i as int]);
                    }
                },
                None => {
                    proof {
                        assert(bytes_view(e@).take(i + 1).drop_last() =~= bytes_view(e@).take(
                            i as int,
                        ));
                        assert(bytes_view(e@).take(i + 1).last() == bytes_view(e@)[i as int]);
                    }
                },
            }
            i += 1;
        }
        proof {
            assert(bytes_view(e@).take(e@.len() as int) =~= bytes_view(e@));
        }
    }
    SpawnPlan { extra_args, clear_env, env_pairs }
}

} // verus!
