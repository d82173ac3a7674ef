//! The in-memory form of a password entry: its container path and its ordered lines.
use vstd::prelude::*;
use crate::text::{concat_all, concat_lines, parse_entry, plain_line, strings_view, string_to_vec, terminated, lemma_lines_of_plain, lemma_lines_of_terminated, lemma_lines_of_unterminated};

verus! {

/// The extension of an entry's container file.
pub open spec fn gpg_ext() -> Seq<char> {
    seq!['.', 'g', 'p', 'g']
}

/// Whether `c` separates path components.
pub open spec fn is_sep(c: char) -> bool {
    c == '/' || c == '\\'
}

/// `name` placed under directory `base`.
pub open spec fn join_path(base: Seq<char>, name: Seq<char>) -> Seq<char> {
    if base.len() == 0 {
        name
    } else if is_sep(base.last()) {
        base + name
    } else {
        base + seq!['/'] + name
    }
}

/// The container path of the entry called `name` in the store at `base`.
pub open spec fn entry_path(base: Seq<char>, name: Seq<char>) -> Seq<char> {
    join_path(base, name + gpg_ext())
}

/// Index into the stored lines of line `n`, counted from 1; 0 stands for the first line too.
pub open spec fn line_index(n: usize) -> int {
    if n == 0 {
        0
    } else {
        n - 1
    }
}

/// Line `n` of the stored lines, if there is one.
pub open spec fn line_of(content: Option<Seq<Seq<char>>>, n: usize) -> Option<Seq<char>> {
    match content {
        None => None,
        Some(ls) => if line_index(n) < ls.len() {
            Some(ls[line_index(n)])
        } else {
            None
        },
    }
}

/// The entry's text: its lines one after the other, if it has any.
pub open spec fn serialization(content: Option<Seq<Seq<char>>>) -> Option<Seq<char>> {
    match content {
        None => None,
        Some(ls) => Some(concat_all(ls)),
    }
}

/// Why an entry could not be built, read or written.
#[derive(Clone, Copy, Debug, PartialEq, Eq, Structural)]
pub enum EntryError {
    /// The entry has no line, or the input held none.
    EmptyEntry,
    /// The two readings of a single-line input differ.
    Mismatch,
    /// The entry has no container path.
    PathNotSet,
}

/// `name` placed under directory `base`.
pub fn join_path_exec(base: &str, name: &str) -> (r: String)
    ensures
        r@ == join_path(base@, name@),
{
    let n = base.unicode_len();
    if n == 0 {
        String::from_str(name)
    } else {
        let last = base.get_char(n - 1);
        let mut out = String::from_str(base);
        if last != '/' && last != '\\' {
            out.append("/");
            proof {
                reveal_strlit("/");
            }
        }
        out.append(name);
        out
    }
}

/// Relies on `std::path::Path::exists`: whether something is found at `p` on disk.
#[verifier::external_body]
fn path_exists(p: &str) -> bool {
    std::path::Path::new(p).exists()
}

/// Whether two texts hold the same characters.
pub fn same_text(a: &str, b: &str) -> (r: bool)
    ensures
        r == (a@ == b@),
{
    let n = a.unicode_len();
    if n != b.unicode_len() {
        return false;
    }
    let mut i: usize = 0;
    while i < n
        invariant
            n == a@.len(),
            n == b@.len(),
            i <= n,
            forall|j: int| 0 <= j < i ==> a@[j] == b@[j],
        decreases n - i,
    {
        if a.get_char(i) != b.get_char(i) {
            return false;
        }
        i = i + 1;
    }
    assert(a@ =~= b@);
    true
}

/// A password entry: where its container lies, and its lines once known.
pub struct Password {
    path_file: Option<String>,
    password: Option<Vec<String>>,
}

impl Password {
    /// The stored lines, if any are set.
    pub closed spec fn content(&self) -> Option<Seq<Seq<char>>> {
        match self.password {
            Some(v) => Some(strings_view(v@)),
            None => None,
        }
    }

    /// The container path, if set.
    pub closed spec fn path(&self) -> Option<Seq<char>> {
        match self.path_file {
            Some(p) => Some(p@),
            None => None,
        }
    }

    /// An entry is either without lines or holds at least one.
    pub open spec fn well_formed(&self) -> bool {
        self.content() is Some ==> self.content()->0.len() >= 1
    }

    /// An entry with neither path nor lines.
    pub fn new() -> (r: Self)
        ensures
            r.path() is None,
            r.content() is None,
            r.well_formed(),
    {
        Password { path_file: None, password: None }
    }

    /// The container path, if set.
    pub fn get_filepath(&self) -> (r: Option<&String>)
        ensures
            match r {
                Some(p) => self.path() == Some(p@),
                None => self.path() is None,
            },
    {
        self.path_file.as_ref()
    }

    /// Sets the container path to `<base_path>/<password_name>.gpg`.
    pub fn set_filepath(&mut self, base_path: &str, password_name: &str)
        ensures
            final(self).path() == Some(entry_path(base_path@, password_name@)),
            final(self).content() == old(self).content(),
    {
        let mut name = String::from_str(password_name);
        name.append(".gpg");
        proof {
            reveal_strlit(".gpg");
        }
        assert(name@ =~= password_name@ + gpg_ext());
        self.path_file = Some(join_path_exec(base_path, name.as_str()));
    }

    /// Whether the container is found on disk; never when no path is set.
    pub fn file_exists(&self) -> (r: bool)
        ensures
            self.path() is None ==> !r,
    {
        match &self.path_file {
            Some(p) => path_exists(p.as_str()),
            None => false,
        }
    }

    /// Stores the decrypted text of the entry's container as its lines.
    pub fn open_decrypt(&mut self, plaintext: &str) -> (r: Result<(), EntryError>)
        ensures
            old(self).path() is None ==> r == Err::<(), EntryError>(EntryError::PathNotSet),
            old(self).path() is Some && parse_entry(plaintext@) is None ==> r == Err::<(), EntryError>(EntryError::EmptyEntry),
            r is Ok <==> (old(self).path() is Some && parse_entry(plaintext@) is Some),
            r is Ok ==> final(self).content() == parse_entry(plaintext@),
            r is Err ==> final(self).content() == old(self).content(),
            final(self).path() == old(self).path(),
    {
        if self.path_file.is_none() {
            return Err(EntryError::PathNotSet);
        }
        match string_to_vec(plaintext) {
            Some(v) => {
                self.password = Some(v);
                Ok(())
            },
            None => Err(EntryError::EmptyEntry),
        }
    }

    /// An entry of the single line `s`, kept as it is, empty or not.
    pub fn from_single_line(s: &str) -> (r: Self)
        ensures
            r.content() == Some(seq![s@]),
            r.path() is None,
            r.well_formed(),
    {
        let mut v: Vec<String> = Vec::new();
        v.push(String::from_str(s));
        let r = Password { path_file: None, password: Some(v) };
        assert(strings_view(v@) =~= seq![s@]);
        r
    }

    /// An entry of the lines `v`, kept as they are; without lines when `v` is empty.
    pub fn from_multi_line(v: &Vec<String>) -> (r: Self)
        ensures
            v@.len() > 0 ==> r.content() == Some(strings_view(v@)),
            v@.len() == 0 ==> r.content() is None,
            r.path() is None,
            r.well_formed(),
    {
        if v.len() == 0 {
            return Password { path_file: None, password: None };
        }
        let mut lines: Vec<String> = Vec::new();
        let mut k: usize = 0;
        while k < v.len()
            invariant
                k <= v@.len(),
                strings_view(lines@) =~= strings_view(v@).take(k as int),
            decreases v@.len() - k,
        {
            let ghost before = lines@;
            lines.push(v[k].clone());
            assert(strings_view(lines@) =~= strings_view(before).push(v@[k as int]@));
            k = k + 1;
        }
        assert(strings_view(v@).take(v@.len() as int) =~= strings_view(v@));
        Password { path_file: None, password: Some(lines) }
    }

    /// Forgets the lines.
    pub fn clean_password(&mut self)
        ensures
            final(self).content() is None,
            final(self).path() == old(self).path(),
    {
        self.password = None;
    }

    /// Sets the lines to the single line `s`, kept as it is.
    pub fn single_line_input(&mut self, s: &str)
        ensures
            final(self).content() == Some(seq![s@]),
            final(self).path() == old(self).path(),
    {
        let mut v: Vec<String> = Vec::new();
        v.push(String::from_str(s));
        assert(strings_view(v@) =~= seq![s@]);
        self.password = Some(v);
    }

    /// Sets the lines from raw text; without lines when the text holds none.
    pub fn multi_line_input(&mut self, s: &str)
        ensures
            final(self).content() == parse_entry(s@),
            final(self).path() == old(self).path(),
    {
        self.password = string_to_vec(s);
    }

    /// Checks the first reading of a single-line input, before it is asked again.
    pub fn check_first_reading(first: &str) -> (r: Result<(), EntryError>)
        ensures
            r == (if first@.len() == 0 {
                Err::<(), EntryError>(EntryError::EmptyEntry)
            } else {
                Ok::<(), EntryError>(())
            }),
    {
        if first.unicode_len() == 0 {
            Err(EntryError::EmptyEntry)
        } else {
            Ok(())
        }
    }

    /// Sets the lines from what was typed. With `retyped`, the input is a single line read
    /// twice: it must not be empty and both readings must agree. Without, it is raw text taken
    /// as it is: text without lines leaves the entry without lines, which serializing reports.
    pub fn accept_terminal_input(&mut self, raw: &str, retyped: Option<&str>) -> (r: Result<
        (),
        EntryError,
    >)
        ensures
            r == (match retyped {
                Some(t) => if raw@.len() == 0 {
                    Err(EntryError::EmptyEntry)
                } else if raw@ != t@ {
                    Err(EntryError::Mismatch)
                } else {
                    Ok(())
                },
                None => Ok(()),
            }),
            r is Ok ==> final(self).content() == parse_entry(raw@),
            r is Err ==> final(self).content() == old(self).content(),
            final(self).path() == old(self).path(),
    {
        if let Some(t) = retyped {
            if raw.unicode_len() == 0 {
                return Err(EntryError::EmptyEntry);
            }
            if !same_text(raw, t) {
                return Err(EntryError::Mismatch);
            }
        }
        self.password = string_to_vec(raw);
        Ok(())
    }

    /// Takes in the text of the entry as edited from `before`: when the text changed, it
    /// becomes the entry's lines and the result is `true`; unchanged text leaves the entry as
    /// it is and gives `false`, so that nothing is written or recorded.
    pub fn accept_edit(&mut self, before: &str, edited: &str) -> (r: bool)
        ensures
            r == (before@ != edited@),
            r ==> final(self).content() == parse_entry(edited@),
            !r ==> final(self).content() == old(self).content(),
            final(self).path() == old(self).path(),
    {
        if same_text(before, edited) {
            return false;
        }
        self.password = string_to_vec(edited);
        true
    }

    /// The entry's text: all its lines one after the other.
    pub fn to_string(&self) -> (r: Result<String, EntryError>)
        ensures
            match r {
                Ok(t) => serialization(self.content()) == Some(t@),
                Err(e) => serialization(self.content()) is None && e == EntryError::EmptyEntry,
            },
    {
        match &self.password {
            Some(v) => Ok(concat_lines(v)),
            None => Err(EntryError::EmptyEntry),
        }
    }

    /// Line `line` of the entry, counted from 1; 0 gives the first line too.
    pub fn line(&self, line: usize) -> (r: Option<&str>)
        ensures
            match r {
                Some(t) => line_of(self.content(), line) == Some(t@),
                None => line_of(self.content(), line) is None,
            },
    {
        let idx: usize = if line == 0 {
            0
        } else {
            line - 1
        };
        match &self.password {
            Some(v) => if idx < v.len() {
                Some(v[idx].as_str())
            } else {
                None
            },
            None => None,
        }
    }
}

impl Default for Password {
    fn default() -> (r: Self)
        ensures
            r.path() is None,
            r.content() is None,
    {
        Password::new()
    }
}

/// An entry made of a single line serializes to exactly that line: no newline is added.
pub proof fn single_line_round_trip(s: Seq<char>)
    ensures
        serialization(Some(seq![s])) == Some(s),
{
    let ls = seq![s];
    assert(ls.drop_last() =~= Seq::<Seq<char>>::empty());
    assert(concat_all(ls.drop_last()) + s =~= s);
}

/// Raw text of two or more plain lines, each followed by a newline, is read into an entry
/// that serializes back to the same text: every line followed by `\n`, in order.
pub proof fn multi_line_round_trip(ls: Seq<Seq<char>>)
    requires
        ls.len() >= 2,
        forall|k: int| 0 <= k < ls.len() ==> plain_line(#[trigger] ls[k]),
    ensures
        parse_entry(concat_all(terminated(ls))) == Some(terminated(ls)),
        serialization(parse_entry(concat_all(terminated(ls)))) == Some(concat_all(terminated(ls))),
{
    lemma_lines_of_terminated(ls);
}

/// The same holds when the last line, not empty, carries no newline in the raw text: the
/// entry still serializes to every line followed by `\n`.
pub proof fn multi_line_unterminated_round_trip(ls: Seq<Seq<char>>)
    requires
        ls.len() >= 2,
        ls.last().len() > 0,
        forall|k: int| 0 <= k < ls.len() ==> plain_line(#[trigger] ls[k]),
    ensures
        parse_entry(concat_all(terminated(ls.drop_last())) + ls.last()) == Some(terminated(ls)),
        serialization(parse_entry(concat_all(terminated(ls.drop_last())) + ls.last())) == Some(
            concat_all(terminated(ls)),
        ),
{
    lemma_lines_of_unterminated(ls);
}

/// What an entry of one plain, non-empty line stores reads back into an entry with the same
/// text; with `multi_line_round_trip`, this is the part of a store-and-load round trip that
/// falls to the entry model once decryption returns the stored text.
pub proof fn single_line_reads_back(l: Seq<char>)
    requires
        plain_line(l),
        l.len() > 0,
    ensures
        serialization(Some(seq![l])) == Some(l),
        parse_entry(l) == Some(seq![l]),
        serialization(parse_entry(l)) == Some(l),
{
    lemma_lines_of_plain(l);
    single_line_round_trip(l);
}

/// Line 0 and line 1 are the same line of any entry that has lines.
pub proof fn first_line_alias(ls: Seq<Seq<char>>)
    requires
        ls.len() >= 1,
    ensures
        line_of(Some(ls), 0) == line_of(Some(ls), 1),
        line_of(Some(ls), 1) == Some(ls[0]),
{
}

} // verus!
