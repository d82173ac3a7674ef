//! The decisions of the store operations: insert, edit, move and remove. The caller looks at
//! the disk and asks the user; these functions say what follows.
use vstd::prelude::*;
use crate::entry::{gpg_ext, is_sep, join_path, join_path_exec};

verus! {

/// Whether to write over an existing entry.
#[derive(Clone, Copy, Debug, PartialEq, Eq, Structural)]
pub enum Overwrite {
    /// Write the entry.
    Proceed,
    /// Ask the user to confirm first.
    Ask,
    /// Leave everything as it is and report that the operation was canceled.
    Cancel,
}

/// What a move does once its source is found.
#[derive(Clone, Copy, Debug, PartialEq, Eq, Structural)]
pub enum MoveStep {
    /// Rename the source to the destination path, replacing a file there.
    Rename,
    /// Move the source into the destination directory.
    MoveInto,
    /// Ask the user to confirm the overwrite first.
    Ask,
    /// Leave everything as it is and report that the move was canceled.
    Cancel,
}

/// Writing goes ahead when nothing is there, when forced, or when the user agreed.
pub open spec fn overwrite_decision(present: bool, force: bool, answer: Option<bool>) -> Overwrite {
    if !present || force {
        Overwrite::Proceed
    } else {
        match answer {
            None => Overwrite::Ask,
            Some(true) => Overwrite::Proceed,
            Some(false) => Overwrite::Cancel,
        }
    }
}

/// A move renames onto a free path. Onto an existing file, or into an existing directory, it
/// needs `force` or the user's consent: each has its own confirmation.
pub open spec fn move_decision(dest_exists: bool, dest_is_dir: bool, force: bool, answer: Option<bool>) -> MoveStep {
    if !dest_exists {
        MoveStep::Rename
    } else if dest_is_dir {
        if !force {
            match answer {
                None => MoveStep::Ask,
                Some(true) => MoveStep::MoveInto,
                Some(false) => MoveStep::Cancel,
            }
        } else {
            MoveStep::MoveInto
        }
    } else if force {
        MoveStep::Rename
    } else {
        match answer {
            None => MoveStep::Ask,
            Some(true) => MoveStep::Rename,
            Some(false) => MoveStep::Cancel,
        }
    }
}

/// Whether a destination names the store root itself.
pub open spec fn names_root(p: Seq<char>) -> bool {
    p == seq!['/'] || p == seq!['\\'] || p == seq!['\\', '\\'] || p == seq!['.']
}

/// Where a move to `new_path` goes in the store at `root`.
pub open spec fn move_target(root: Seq<char>, new_path: Seq<char>) -> Seq<char> {
    if names_root(new_path) {
        root
    } else {
        join_path(root, new_path)
    }
}

/// The last component of a path.
pub open spec fn base_name(p: Seq<char>) -> Seq<char>
    decreases p.len(),
{
    if p.len() == 0 {
        p
    } else if is_sep(p.last()) {
        Seq::empty()
    } else {
        base_name(p.drop_last()).push(p.last())
    }
}

/// Whether to write over an existing entry: `Ask` when the user must be asked and
/// `answer` is not known yet.
pub fn overwrite_policy(present: bool, force: bool, answer: Option<bool>) -> (r: Overwrite)
    ensures
        r == overwrite_decision(present, force, answer),
{
    if !present || force {
        Overwrite::Proceed
    } else {
        match answer {
            None => Overwrite::Ask,
            Some(true) => Overwrite::Proceed,
            Some(false) => Overwrite::Cancel,
        }
    }
}

/// What a move does: `dest_exists` and `dest_is_dir` describe the destination; `Ask` when the
/// user must confirm and `answer` is not known yet.
pub fn move_step(dest_exists: bool, dest_is_dir: bool, force: bool, answer: Option<bool>) -> (r: MoveStep)
    ensures
        r == move_decision(dest_exists, dest_is_dir, force, answer),
{
    if !dest_exists {
        MoveStep::Rename
    } else if dest_is_dir {
        if !force {
            match answer {
                None => MoveStep::Ask,
                Some(true) => MoveStep::MoveInto,
                Some(false) => MoveStep::Cancel,
            }
        } else {
            MoveStep::MoveInto
        }
    } else if force {
        MoveStep::Rename
    } else {
        match answer {
            None => MoveStep::Ask,
            Some(true) => MoveStep::Rename,
            Some(false) => MoveStep::Cancel,
        }
    }
}

/// Where a move to `new_path` goes: the root itself for `/`, `\`, `\\` or `.`, else the path
/// under the root.
pub fn move_destination(root: &str, new_path: &str) -> (r: String)
    ensures
        r@ == move_target(root@, new_path@),
{
    let n = new_path.unicode_len();
    let is_root = if n == 1 {
        let c = new_path.get_char(0);
        c == '/' || c == '\\' || c == '.'
    } else if n == 2 {
        new_path.get_char(0) == '\\' && new_path.get_char(1) == '\\'
    } else {
        false
    };
    assert(is_root == names_root(new_path@)) by {
        if n == 1 {
            assert(new_path@ == seq![new_path@[0]]);
        } else if n == 2 {
            assert(new_path@ == seq![new_path@[0], new_path@[1]]);
        }
    }
    if is_root {
        String::from_str(root)
    } else {
        join_path_exec(root, new_path)
    }
}

/// The last component of `p`.
pub fn base_name_exec(p: &str) -> (r: String)
    ensures
        r@ == base_name(p@),
{
    let n = p.unicode_len();
    let mut i: usize = n;
    assert(p@.take(n as int) =~= p@);
    assert(base_name(p@) + p@.subrange(n as int, n as int) =~= base_name(p@));
    while i > 0
        invariant
            i <= n,
            n == p@.len(),
            base_name(p@) == base_name(p@.take(i as int)) + p@.subrange(i as int, n as int),
            forall|j: int| i <= j < n ==> !is_sep(#[trigger] p@[j]),
        decreases i,
    {
        let c = p.get_char(i - 1);
        if c == '/' || c == '\\' {
            assert(p@.take(i as int).last() == c);
            assert(base_name(p@.take(i as int)) == Seq::<char>::empty());
            assert(Seq::<char>::empty() + p@.subrange(i as int, n as int) =~= p@.subrange(i as int, n as int));
            return String::from_str(p.substring_char(i, n));
        }
        assert(p@.take(i as int).drop_last() =~= p@.take(i - 1));
        assert(base_name(p@.take(i - 1)).push(c) + p@.subrange(i as int, n as int) =~= base_name(
            p@.take(i - 1),
        ) + p@.subrange(i - 1, n as int));
        i = i - 1;
    }
    assert(p@.take(0) =~= Seq::<char>::empty());
    assert(Seq::<char>::empty() + p@.subrange(0, n as int) =~= p@);
    String::from_str(p)
}

/// The paths tried for the entry `name` in the store at `root`: as given, then with the
/// container extension.
pub fn source_candidates(root: &str, name: &str) -> (r: (String, String))
    ensures
        r.0@ == join_path(root@, name@),
        r.1@ == join_path(root@, name@) + gpg_ext(),
{
    let plain = join_path_exec(root, name);
    let mut with_ext = plain.clone();
    with_ext.append(".gpg");
    proof {
        reveal_strlit(".gpg");
    }
    assert(with_ext@ =~= plain@ + gpg_ext());
    (plain, with_ext)
}

/// The path to use among the candidates: the first found on disk, or none.
pub fn choose_source(candidates: (String, String), plain_exists: bool, ext_exists: bool) -> (r: Option<String>)
    ensures
        plain_exists ==> r == Some(candidates.0),
        !plain_exists && ext_exists ==> r == Some(candidates.1),
        !plain_exists && !ext_exists ==> r is None,
{
    if plain_exists {
        Some(candidates.0)
    } else if ext_exists {
        Some(candidates.1)
    } else {
        None
    }
}

/// How many of the directories above a removed file, nearest first, are left empty by the
/// removal: those that held one item each, up to the first that held more.
pub fn removable_count(counts: &Vec<usize>) -> (r: usize)
    ensures
        r <= counts@.len(),
        forall|j: int| 0 <= j < r ==> counts@[j] == 1,
        r < counts@.len() ==> counts@[r as int] != 1,
{
    let mut i: usize = 0;
    while i < counts.len()
        invariant
            i <= counts@.len(),
            forall|j: int| 0 <= j < i ==> counts@[j] == 1,
        decreases counts@.len() - i,
    {
        if counts[i] != 1 {
            return i;
        }
        i = i + 1;
    }
    i
}

/// The message recording a move: "Moved <old> to <new>".
pub fn moved_message(old_path: &str, new_path: &str) -> (r: String)
    ensures
        r@ == "Moved "@ + old_path@ + " to "@ + new_path@,
{
    let mut m = String::from_str("Moved ");
    m.append(old_path);
    m.append(" to ");
    m.append(new_path);
    m
}

/// The message recording a removal: "Removed <name> from password store".
pub fn removed_message(name: &str) -> (r: String)
    ensures
        r@ == "Removed "@ + name@ + " from password store"@,
{
    let mut m = String::from_str("Removed ");
    m.append(name);
    m.append(" from password store");
    m
}

/// An operation is canceled only when the user was asked and refused; without `force`, an
/// existing entry is never written over without asking.
pub proof fn cancel_only_on_refusal(present: bool, force: bool, answer: Option<bool>)
    ensures
        overwrite_decision(present, force, answer) == Overwrite::Cancel <==> (present && !force
            && answer == Some(false)),
        present && !force && answer is None ==> overwrite_decision(present, force, answer)
            == Overwrite::Ask,
{
}

/// A move is canceled only when the user was asked and refused, and it never goes onto an
/// existing file or into an existing directory without `force` or consent.
pub proof fn move_cancel_only_on_refusal(dest_exists: bool, dest_is_dir: bool, force: bool, answer: Option<bool>)
    ensures
        move_decision(dest_exists, dest_is_dir, force, answer) == MoveStep::Cancel <==> (dest_exists
            && !force && answer == Some(false)),
        dest_exists && !force && answer != Some(true) ==> !(move_decision(
            dest_exists,
            dest_is_dir,
            force,
            answer,
        ) is Rename || move_decision(dest_exists, dest_is_dir, force, answer) is MoveInto),
{
}

} // verus!
