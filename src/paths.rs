//! Paths inside the store: where an entry lies relative to the store root, and which
//! directories lie between.
use vstd::prelude::*;
use crate::entry::{entry_path, gpg_ext, is_sep, join_path, join_path_exec};

verus! {

/// `full` with `root` and the separator after it taken off, if `full` lies under `root`.
pub open spec fn relative_path(root: Seq<char>, full: Seq<char>) -> Option<Seq<char>> {
    if root.len() == 0 {
        Some(full)
    } else if is_sep(root.last()) {
        if full.len() >= root.len() && full.take(root.len() as int) == root {
            Some(full.skip(root.len() as int))
        } else {
            None
        }
    } else if full == root {
        Some(Seq::empty())
    } else if full.len() > root.len() && full.take(root.len() as int) == root && is_sep(
        full[root.len() as int],
    ) {
        Some(full.skip(root.len() as int + 1))
    } else {
        None
    }
}

/// The directories that hold `rel`, as paths relative to the same root, nearest first.
pub open spec fn dir_prefixes(rel: Seq<char>) -> Seq<Seq<char>>
    decreases rel.len(),
{
    if rel.len() == 0 {
        Seq::empty()
    } else {
        let init = rel.drop_last();
        if is_sep(rel.last()) && init.len() > 0 {
            seq![init] + dir_prefixes(init)
        } else {
            dir_prefixes(init)
        }
    }
}

/// The logical name of an entry whose container lies at `rel`: without the `.gpg` extension.
pub open spec fn entry_name(rel: Seq<char>) -> Seq<char> {
    if rel.len() >= 4 && rel.skip(rel.len() - 4) == gpg_ext() {
        rel.take(rel.len() - 4)
    } else {
        rel
    }
}

/// Whether `s` starts with `p`.
fn starts_with(s: &str, p: &str) -> (r: bool)
    ensures
        r == (s@.len() >= p@.len() && s@.take(p@.len() as int) == p@),
{
    let n = p.unicode_len();
    if s.unicode_len() < n {
        return false;
    }
    let mut i: usize = 0;
    while i < n
        invariant
            n == p@.len(),
            n <= s@.len(),
            i <= n,
            forall|j: int| 0 <= j < i ==> s@[j] == p@[j],
        decreases n - i,
    {
        if s.get_char(i) != p.get_char(i) {
            assert(s@.take(n as int)[i as int] != p@[i as int]);
            return false;
        }
        i = i + 1;
    }
    assert(s@.take(n as int) =~= p@);
    true
}

/// `full` relative to `root`, if it lies under it.
pub fn relative_path_exec(root: &str, full: &str) -> (r: Option<String>)
    ensures
        match r {
            Some(s) => relative_path(root@, full@) == Some(s@),
            None => relative_path(root@, full@) is None,
        },
{
    let n = root.unicode_len();
    let m = full.unicode_len();
    if n == 0 {
        return Some(String::from_str(full));
    }
    let last = root.get_char(n - 1);
    let under = starts_with(full, root);
    if last == '/' || last == '\\' {
        if under {
            Some(String::from_str(full.substring_char(n, m)))
        } else {
            None
        }
    } else if under && m == n {
        assert(full@ =~= root@.take(n as int));
        assert(root@.take(n as int) =~= root@);
        Some(String::new())
    } else if under && m > n {
        let c = full.get_char(n);
        if c == '/' || c == '\\' {
            Some(String::from_str(full.substring_char(n + 1, m)))
        } else {
            assert(full@ != root@);
            None
        }
    } else {
        assert(full@ != root@) by {
            if full@ == root@ {
                assert(full@.take(n as int) =~= root@);
            }
        }
        None
    }
}

/// The directories between the store root `root` and the file `full`, nearest first, or
/// `None` when `full` does not lie under `root`. The root itself is never among them.
pub fn ancestors_below(root: &str, full: &str) -> (r: Option<Vec<String>>)
    ensures
        match r {
            None => relative_path(root@, full@) is None,
            Some(v) => relative_path(root@, full@) is Some && v@.map_values(|s: String| s@)
                == dir_prefixes(relative_path(root@, full@)->0).map_values(
                |p: Seq<char>| join_path(root@, p),
            ),
        },
{
    let rel = match relative_path_exec(root, full) {
        Some(rel) => rel,
        None => return None,
    };
    let ghost relv = rel@;
    let n = rel.unicode_len();
    let mut out: Vec<String> = Vec::new();
    let mut i: usize = n;
    assert(relv.take(n as int) =~= relv);
    assert(out@.map_values(|s: String| s@) =~= Seq::<Seq<char>>::empty());
    assert(Seq::<Seq<char>>::empty() + dir_prefixes(relv).map_values(|p: Seq<char>| join_path(root@, p))
        =~= dir_prefixes(relv).map_values(|p: Seq<char>| join_path(root@, p)));
    while i > 0
        invariant
            i <= n,
            n == relv.len(),
            rel@ == relv,
            out@.map_values(|s: String| s@) + dir_prefixes(relv.take(i as int)).map_values(
                |p: Seq<char>| join_path(root@, p),
            ) == dir_prefixes(relv).map_values(|p: Seq<char>| join_path(root@, p)),
        decreases i,
    {
        let ghost t = relv.take(i as int);
        assert(t.drop_last() =~= relv.take(i - 1));
        let c = rel.as_str().get_char(i - 1);
        let ghost f = |p: Seq<char>| join_path(root@, p);
        if (c == '/' || c == '\\') && i - 1 > 0 {
            let dir = join_path_exec(root, rel.as_str().substring_char(0, i - 1));
            let ghost before = out@;
            out.push(dir);
            assert(out@.map_values(|s: String| s@) =~= before.map_values(|s: String| s@).push(dir@));
            assert(dir_prefixes(t) == seq![relv.take(i - 1)] + dir_prefixes(relv.take(i - 1)));
            assert((seq![relv.take(i - 1)] + dir_prefixes(relv.take(i - 1))).map_values(f)
                =~= seq![f(relv.take(i - 1))] + dir_prefixes(relv.take(i - 1)).map_values(f));
            assert(before.map_values(|s: String| s@).push(dir@) + dir_prefixes(relv.take(i - 1)).map_values(f)
                =~= before.map_values(|s: String| s@) + (seq![f(relv.take(i - 1))] + dir_prefixes(relv.take(i - 1)).map_values(f)));
        } else {
            assert(dir_prefixes(t) == dir_prefixes(relv.take(i - 1)));
        }
        i = i - 1;
    }
    assert(relv.take(0) =~= Seq::<char>::empty());
    assert(out@.map_values(|s: String| s@) + Seq::<Seq<char>>::empty() =~= out@.map_values(|s: String| s@));
    Some(out)
}

/// The logical name of the entry whose container lies at `rel`.
pub fn entry_name_exec(rel: &str) -> (r: String)
    ensures
        r@ == entry_name(rel@),
{
    let n = rel.unicode_len();
    if n >= 4 {
        let tail = rel.substring_char(n - 4, n);
        let ext = ".gpg";
        proof {
            reveal_strlit(".gpg");
        }
        if crate::entry::same_text(tail, ext) {
            assert(ext@ =~= gpg_ext());
            return String::from_str(rel.substring_char(0, n - 4));
        }
        assert(tail@ =~= rel@.skip(n - 4));
        assert(ext@ =~= gpg_ext());
    }
    String::from_str(rel)
}

/// A path placed under `root` is found there again, as it was placed.
pub proof fn relative_of_joined(root: Seq<char>, rel: Seq<char>)
    ensures
        relative_path(root, join_path(root, rel)) == Some(rel),
{
    if root.len() == 0 {
    } else if is_sep(root.last()) {
        let full = root + rel;
        assert(full.take(root.len() as int) =~= root);
        assert(full.skip(root.len() as int) =~= rel);
    } else {
        let full = root + seq!['/'] + rel;
        assert(full.take(root.len() as int) =~= root);
        assert(full.skip(root.len() as int + 1) =~= rel);
        if full == root {
            assert(full.len() == root.len() + 1 + rel.len());
        }
    }
}

/// The container of entry `name` in the store at `root` lies at `name.gpg` relative to the
/// root, and its logical name read back is `name`.
pub proof fn entry_found_under_root(root: Seq<char>, name: Seq<char>)
    ensures
        relative_path(root, entry_path(root, name)) == Some(name + gpg_ext()),
        entry_name(name + gpg_ext()) == name,
{
    relative_of_joined(root, name + gpg_ext());
    let rel = name + gpg_ext();
    assert(rel.skip(rel.len() - 4) =~= gpg_ext());
    assert(rel.take(rel.len() - 4) =~= name);
}

/// Every directory between a path and the root is non-empty and a strict prefix of it.
pub proof fn dir_prefixes_are_strict(rel: Seq<char>)
    ensures
        forall|k: int| 0 <= k < dir_prefixes(rel).len() ==> {
            let p = #[trigger] dir_prefixes(rel)[k];
            0 < p.len() < rel.len() && rel.take(p.len() as int) == p
        },
    decreases rel.len(),
{
    if rel.len() > 0 {
        let init = rel.drop_last();
        dir_prefixes_are_strict(init);
        assert forall|k: int| 0 <= k < dir_prefixes(rel).len() implies {
            let p = #[trigger] dir_prefixes(rel)[k];
            0 < p.len() < rel.len() && rel.take(p.len() as int) == p
        } by {
            let p = dir_prefixes(rel)[k];
            if is_sep(rel.last()) && init.len() > 0 {
                if k == 0 {
                    assert(p == init);
                    assert(rel.take(init.len() as int) =~= init);
                } else {
                    assert(p == dir_prefixes(init)[k - 1]);
                    assert(rel.take(p.len() as int) =~= init.take(p.len() as int));
                }
            } else {
                assert(p == dir_prefixes(init)[k]);
                assert(rel.take(p.len() as int) =~= init.take(p.len() as int));
            }
        }
    }
}

} // verus!
