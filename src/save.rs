use vstd::prelude::*;

use crate::text::{chars_of, spells};

verus! {

/// Rotation leaves fewer than this many saves behind.
pub const MAX_SAVES: usize = 48;

/// The file whose presence marks a clean shutdown.
pub const CLEAN_SHUTDOWN_MARKER: &'static str = ".clean_shutdown";

/// Whether a file name is a save: `save_` at the start and the extension `state`.
pub open spec fn is_save_name(n: Seq<char>) -> bool {
    &&& n.len() >= 11
    &&& n.take(5) == "save_"@
    &&& n.skip(n.len() - 6) == ".state"@
}

/// Whether `a` comes before `b` character by character (a proper prefix comes first).
pub open spec fn name_less(a: Seq<char>, b: Seq<char>) -> bool
    decreases a.len(),
{
    if a.len() == 0 {
        b.len() > 0
    } else if b.len() == 0 {
        false
    } else if a[0] != b[0] {
        a[0] < b[0]
    } else {
        name_less(a.drop_first(), b.drop_first())
    }
}

/// How many of the first `n` names are saves that come before `x`.
pub open spec fn saves_before(names: Seq<Seq<char>>, x: Seq<char>, n: nat) -> nat
    decreases n,
{
    if n == 0 {
        0
    } else {
        saves_before(names, x, (n - 1) as nat) + if is_save_name(names[n - 1]) && name_less(
            names[n - 1],
            x,
        ) {
            1nat
        } else {
            0nat
        }
    }
}

/// How many of the first `n` names are saves.
pub open spec fn save_count(names: Seq<Seq<char>>, n: nat) -> nat
    decreases n,
{
    if n == 0 {
        0
    } else {
        save_count(names, (n - 1) as nat) + if is_save_name(names[n - 1]) {
            1nat
        } else {
            0nat
        }
    }
}

/// Whether rotation deletes name `i`: the oldest saves go, as many as it takes to
/// leave `MAX_SAVES - 1`.
pub open spec fn rotated_out(names: Seq<Seq<char>>, i: int) -> bool {
    &&& is_save_name(names[i])
    &&& saves_before(names, names[i], names.len()) + MAX_SAVES - 1 < save_count(names, names.len())
}

pub open spec fn names_of(v: Seq<String>) -> Seq<Seq<char>> {
    v.map_values(|s: String| s@)
}

fn is_save(cs: &Vec<char>) -> (r: bool)
    ensures
        r == is_save_name(cs@),
{
    proof {
        reveal_strlit("save_");
        reveal_strlit(".state");
    }
    let n = cs.len();
    if n < 11 {
        return false;
    }
    assert(cs@.subrange(0, 5) == cs@.take(5));
    assert(cs@.subrange(n - 6, n as int) =~= cs@.skip(n - 6));
    spells(cs, 0, 5, "save_") && spells(cs, n - 6, n, ".state")
}

fn less(a: &Vec<char>, b: &Vec<char>) -> (r: bool)
    ensures
        r == name_less(a@, b@),
{
    let mut i: usize = 0;
    assert(a@.skip(0) =~= a@);
    assert(b@.skip(0) =~= b@);
    while i < a.len() && i < b.len() && a[i] == b[i]
        invariant
            i <= a@.len(),
            i <= b@.len(),
            name_less(a@, b@) == name_less(a@.skip(i as int), b@.skip(i as int)),
        decreases a@.len() - i,
    {
        assert(a@.skip(i as int).drop_first() =~= a@.skip(i + 1));
        assert(b@.skip(i as int).drop_first() =~= b@.skip(i + 1));
        i = i + 1;
    }
    if i == a.len() {
        i < b.len()
    } else if i == b.len() {
        false
    } else {
        assert(a@.skip(i as int)[0] == a@[i as int]);
        assert(b@.skip(i as int)[0] == b@[i as int]);
        a[i] < b[i]
    }
}

fn chars_of_all(names: &Vec<String>) -> (r: Vec<Vec<char>>)
    ensures
        r@.len() == names@.len(),
        forall|i: int| 0 <= i < names@.len() ==> #[trigger] r@[i]@ == names@[i]@,
{
    let mut out: Vec<Vec<char>> = Vec::new();
    let mut i: usize = 0;
    while i < names.len()
        invariant
            i <= names@.len(),
            out@.len() == i,
            forall|j: int| 0 <= j < i ==> #[trigger] out@[j]@ == names@[j]@,
        decreases names@.len() - i,
    {
        out.push(chars_of(names[i].as_str()));
        i = i + 1;
    }
    out
}

/// The position of the newest save among the file names of a directory (save names
/// sort by their timestamps), or `None` when there is no save.
pub fn find_latest_save(file_names: &Vec<String>) -> (r: Option<usize>)
    ensures
        match r {
            Some(i) => {
                &&& i < file_names@.len()
                &&& is_save_name(file_names@[i as int]@)
                &&& forall|j: int|
                    0 <= j < file_names@.len() && is_save_name(#[trigger] file_names@[j]@) ==> !name_less(
                        file_names@[i as int]@,
                        file_names@[j]@,
                    )
            },
            None => forall|j: int| 0 <= j < file_names@.len() ==> !is_save_name(#[trigger] file_names@[j]@),
        },
{
    let cs = chars_of_all(file_names);
    let mut best: Option<usize> = None;
    let mut i: usize = 0;
    while i < cs.len()
        invariant
            cs@.len() == file_names@.len(),
            forall|j: int| 0 <= j < file_names@.len() ==> #[trigger] cs@[j]@ == file_names@[j]@,
            i <= cs@.len(),
            match best {
                Some(b) => {
                    &&& b < i
                    &&& is_save_name(file_names@[b as int]@)
                    &&& forall|j: int|
                        0 <= j < i && is_save_name(#[trigger] file_names@[j]@) ==> !name_less(
                            file_names@[b as int]@,
                            file_names@[j]@,
                        )
                },
                None => forall|j: int| 0 <= j < i ==> !is_save_name(#[trigger] file_names@[j]@),
            },
        decreases cs@.len() - i,
    {
        assert(cs@[i as int]@ == file_names@[i as int]@);
        if let Some(b) = best {
            assert(cs@[b as int]@ == file_names@[b as int]@);
        }
        if is_save(&cs[i]) {
            match best {
                None => {
                    proof {
                        lemma_name_less_irreflexive(file_names@[i as int]@);
                    }
                    best = Some(i);
                },
                Some(b) => {
                    if less(&cs[b], &cs[i]) {
                        proof {
                            let nb = file_names@[b as int]@;
                            let ni = file_names@[i as int]@;
                            lemma_name_less_asymmetric(nb, ni);
                            lemma_name_less_irreflexive(ni);
                            assert forall|j: int|
                                0 <= j < i && is_save_name(#[trigger] file_names@[j]@) implies !name_less(
                                ni,
                                file_names@[j]@,
                            ) by {
                                if name_less(ni, file_names@[j]@) {
                                    lemma_name_less_transitive(nb, ni, file_names@[j]@);
                                }
                            }
                        }
                        best = Some(i);
                    }
                },
            }
        }
        i = i + 1;
    }
    best
}

proof fn lemma_name_less_irreflexive(a: Seq<char>)
    ensures
        !name_less(a, a),
    decreases a.len(),
{
    if a.len() > 0 {
        lemma_name_less_irreflexive(a.drop_first());
    }
}

proof fn lemma_name_less_asymmetric(a: Seq<char>, b: Seq<char>)
    requires
        name_less(a, b),
    ensures
        !name_less(b, a),
    decreases a.len(),
{
    if a.len() > 0 && b.len() > 0 && a[0] == b[0] {
        lemma_name_less_asymmetric(a.drop_first(), b.drop_first());
    }
}

proof fn lemma_name_less_transitive(a: Seq<char>, b: Seq<char>, c: Seq<char>)
    requires
        name_less(a, b),
        name_less(b, c),
    ensures
        name_less(a, c),
    decreases a.len(),
{
    if a.len() > 0 && a[0] == b[0] && b[0] == c[0] {
        lemma_name_less_transitive(a.drop_first(), b.drop_first(), c.drop_first());
    }
}

/// For each file name, whether rotation deletes it.
pub fn rotation_victims(file_names: &Vec<String>) -> (r: Vec<bool>)
    ensures
        r@.len() == file_names@.len(),
        forall|i: int|
            0 <= i < file_names@.len() ==> #[trigger] r@[i] == rotated_out(names_of(file_names@), i),
{
    let ghost names = names_of(file_names@);
    let cs = chars_of_all(file_names);
    let n = cs.len();
    let mut saves: Vec<bool> = Vec::new();
    let mut count: usize = 0;
    let mut i: usize = 0;
    while i < n
        invariant
            n == cs@.len() == file_names@.len() == names.len(),
            names == names_of(file_names@),
            forall|j: int| 0 <= j < n ==> #[trigger] cs@[j]@ == names[j],
            i <= n,
            count <= i,
            count == save_count(names, i as nat),
            saves@.len() == i,
            forall|j: int| 0 <= j < i ==> #[trigger] saves@[j] == is_save_name(names[j]),
        decreases n - i,
    {
        let s = is_save(&cs[i]);
        saves.push(s);
        if s {
            count = count + 1;
        }
        i = i + 1;
    }
    let mut out: Vec<bool> = Vec::new();
    let mut i: usize = 0;
    while i < n
        invariant
            n == cs@.len() == file_names@.len() == names.len() == saves@.len(),
            names == names_of(file_names@),
            forall|j: int| 0 <= j < n ==> #[trigger] cs@[j]@ == names[j],
            forall|j: int| 0 <= j < n ==> #[trigger] saves@[j] == is_save_name(names[j]),
            count == save_count(names, n as nat),
            i <= n,
            out@.len() == i,
            forall|j: int| 0 <= j < i ==> #[trigger] out@[j] == rotated_out(names, j),
        decreases n - i,
    {
        let mut victim = false;
        if saves[i] {
            let mut before: usize = 0;
            let mut j: usize = 0;
            while j < n
                invariant
                    n == cs@.len() == names.len() == saves@.len(),
                    forall|k: int| 0 <= k < n ==> #[trigger] cs@[k]@ == names[k],
                    forall|k: int| 0 <= k < n ==> #[trigger] saves@[k] == is_save_name(names[k]),
                    i < n,
                    j <= n,
                    before <= j,
                    before == saves_before(names, names[i as int], j as nat),
                decreases n - j,
            {
                if saves[j] && less(&cs[j], &cs[i]) {
                    before = before + 1;
                }
                j = j + 1;
            }
            victim = (before as u128) + ((MAX_SAVES - 1) as u128) < count as u128;
        }
        out.push(victim);
        i = i + 1;
    }
    out
}

} // verus!
