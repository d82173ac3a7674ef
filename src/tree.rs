//! Drawing a directory listing as a tree, one item per line.
use vstd::prelude::*;

verus! {

broadcast use vstd::std_specs::vec::group_vec_axioms;

/// An item of a directory listing: a file, or a directory with its own listing.
pub struct DirEntry {
    pub name: String,
    pub children: Option<Vec<DirEntry>>,
}

/// Hidden items, whose names start with a dot, are not drawn.
pub open spec fn is_hidden(name: Seq<char>) -> bool {
    name.len() > 0 && name[0] == '.'
}

/// The branch drawn before item `cur` of `n`.
pub open spec fn corner_current(cur: int, n: int) -> Seq<char> {
    if cur + 1 == n {
        "└── "@
    } else {
        "├── "@
    }
}

/// The padding drawn below item `cur` of `n`, in front of what it holds.
pub open spec fn corner_other(cur: int, n: int) -> Seq<char> {
    if cur + 1 == n {
        "    "@
    } else {
        "|   "@
    }
}

/// Items `i` onwards of the listing `es`, drawn after the padding `corner`. Hidden items still
/// count in telling the last item.
pub open spec fn render_list(es: Seq<DirEntry>, corner: Seq<char>, i: int) -> Seq<char>
    decreases es, es.len() - i,
{
    if i < 0 || i >= es.len() {
        Seq::empty()
    } else {
        let e = es[i];
        let n = es.len() as int;
        let head = if is_hidden(e.name@) {
            Seq::empty()
        } else {
            let below = match e.children {
                Some(v) => render_list(v@, corner + corner_other(i, n), 0),
                None => Seq::empty(),
            };
            corner + corner_current(i, n) + e.name@ + seq!['\n'] + below
        };
        head + render_list(es, corner, i + 1)
    }
}

/// Appends the branch drawn before item `cur_elem` of `num_elements`.
pub fn add_corner_current_line(s: &mut String, cur_elem: usize, num_elements: usize)
    ensures
        final(s)@ == old(s)@ + corner_current(cur_elem as int, num_elements as int),
{
    if cur_elem as u128 + 1 == num_elements as u128 {
        s.append("└── ");
        proof {
            reveal_strlit("└── ");
        }
    } else {
        s.append("├── ");
        proof {
            reveal_strlit("├── ");
        }
    }
}

/// Appends the padding drawn below item `cur_elem` of `num_elements`.
pub fn add_corner_other_line(s: &mut String, cur_elem: usize, num_elements: usize)
    ensures
        final(s)@ == old(s)@ + corner_other(cur_elem as int, num_elements as int),
{
    if cur_elem as u128 + 1 == num_elements as u128 {
        s.append(" ");
        proof {
            reveal_strlit(" ");
        }
    } else {
        s.append("|");
        proof {
            reveal_strlit("|");
        }
    }
    s.append("   ");
    proof {
        reveal_strlit("   ");
        reveal_strlit("    ");
        reveal_strlit("|   ");
    }
    assert(final(s)@ =~= old(s)@ + corner_other(cur_elem as int, num_elements as int));
}

/// Takes the last branch or padding, four characters, off the corner.
pub fn clean_corner(s: &mut String)
    ensures
        old(s)@.len() >= 4 ==> final(s)@ == old(s)@.take(old(s)@.len() - 4),
        old(s)@.len() < 4 ==> final(s)@ == Seq::<char>::empty(),
{
    let n = s.unicode_len();
    let keep: usize = if n >= 4 {
        n - 4
    } else {
        0
    };
    let kept = String::from_str(s.as_str().substring_char(0, keep));
    *s = kept;
    proof {
        if n < 4 {
            assert(final(s)@ =~= Seq::<char>::empty());
        }
    }
}

/// Whether the name starts with a dot.
fn hidden_name(name: &String) -> (r: bool)
    ensures
        r == is_hidden(name@),
{
    name.as_str().unicode_len() > 0 && name.as_str().get_char(0) == '.'
}

/// Appends the listing `entries` drawn after the padding `corner`.
pub fn tree_folder(entries: &Vec<DirEntry>, string: &mut String, corner: &mut String)
    ensures
        final(string)@ == old(string)@ + render_list(entries@, old(corner)@, 0),
        final(corner)@ == old(corner)@,
    decreases entries@,
{
    let num_elements = entries.len();
    let ghost c0 = corner@;
    let ghost s0 = string@;
    let mut cur_elem: usize = 0;
    while cur_elem < num_elements
        invariant
            num_elements == entries@.len(),
            cur_elem <= num_elements,
            corner@ == c0,
            s0 + render_list(entries@, c0, 0) == string@ + render_list(entries@, c0, cur_elem as int),
        decreases num_elements - cur_elem,
    {
        let e = &entries[cur_elem];
        let ghost before = string@;
        if !hidden_name(&e.name) {
            add_corner_current_line(corner, cur_elem, num_elements);
            string.append(corner.as_str());
            string.append(e.name.as_str());
            string.append("\n");
            proof {
                reveal_strlit("\n");
            }
            clean_corner(corner);
            proof {
                reveal_strlit("└── ");
                reveal_strlit("├── ");
                assert(corner_current(cur_elem as int, num_elements as int).len() == 4);
            }
            assert(corner@ =~= c0);
            match &e.children {
                Some(children) => {
                    add_corner_other_line(corner, cur_elem, num_elements);
                    assert(decreases_to!(entries@ => entries@[cur_elem as int]));
                    tree_folder(children, string, corner);
                    clean_corner(corner);
                    proof {
                        reveal_strlit("    ");
                        reveal_strlit("|   ");
                        assert(corner_other(cur_elem as int, num_elements as int).len() == 4);
                    }
                    assert(corner@ =~= c0);
                },
                None => {},
            }
        }
        proof {
            let i = cur_elem as int;
            let n = num_elements as int;
            let ev = entries@[i];
            let below = match ev.children {
                Some(v) => render_list(v@, c0 + corner_other(i, n), 0),
                None => Seq::<char>::empty(),
            };
            let head = if is_hidden(ev.name@) {
                Seq::<char>::empty()
            } else {
                c0 + corner_current(i, n) + ev.name@ + seq!['\n'] + below
            };
            assert(render_list(entries@, c0, i) == head + render_list(entries@, c0, i + 1));
            assert(string@ =~= before + head);
        }
        cur_elem = cur_elem + 1;
    }
}

/// The listing `entries` of the directory `path` drawn as a tree, below a line holding the path.
pub fn tree(path: &str, entries: &Vec<DirEntry>) -> (r: Option<String>)
    ensures
        r == Some(r->0),
        r->0@ == path@ + seq!['\n'] + render_list(entries@, Seq::empty(), 0),
{
    let mut corner = String::new();
    let mut string = String::new();
    string.append(path);
    string.append("\n");
    proof {
        reveal_strlit("\n");
    }
    tree_folder(entries, &mut string, &mut corner);
    Some(string)
}

} // verus!
