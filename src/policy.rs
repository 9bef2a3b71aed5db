//! The user's policy: which executables want which language, and the lookup
//! from a process path to the layout it should use.
use vstd::prelude::*;
use vstd::string::*;
use crate::locale::{LayoutId, layout_for_language, layout_of_language};

verus! {

/// One language of the policy and the executable file names that want it.
pub struct PolicyEntry {
    pub language: String,
    pub programs: Vec<String>,
}

impl View for PolicyEntry {
    type V = (Seq<char>, Seq<Seq<char>>);

    open spec fn view(&self) -> (Seq<char>, Seq<Seq<char>>) {
        (self.language@, self.programs@.map_values(|p: String| p@))
    }
}

/// The policy: languages with their executables, held in ascending
/// lexicographic order of the language names, each name once.
pub struct PolicyMap {
    entries: Vec<PolicyEntry>,
}

impl View for PolicyMap {
    type V = Seq<(Seq<char>, Seq<Seq<char>>)>;

    closed spec fn view(&self) -> Seq<(Seq<char>, Seq<Seq<char>>)> {
        self.entries@.map_values(|e: PolicyEntry| e@)
    }
}

/// Lexicographic order of character sequences, by code point (the order of
/// Rust's `String` comparison).
pub open spec fn lex_lt(a: Seq<char>, b: Seq<char>) -> bool
    decreases a.len(),
{
    if a.len() == 0 {
        b.len() > 0
    } else if b.len() == 0 {
        false
    } else if a[0] != b[0] {
        a[0] < b[0]
    } else {
        lex_lt(a.drop_first(), b.drop_first())
    }
}

/// The language names strictly ascend.
pub open spec fn keys_ascending(entries: Seq<(Seq<char>, Seq<Seq<char>>)>) -> bool {
    forall|i: int, j: int| 0 <= i < j < entries.len() ==> lex_lt(entries[i].0, entries[j].0)
}

proof fn lemma_lex_transitive(a: Seq<char>, b: Seq<char>, c: Seq<char>)
    requires
        lex_lt(a, b),
        lex_lt(b, c),
    ensures
        lex_lt(a, c),
    decreases a.len(),
{
    if a.len() > 0 && b.len() > 0 && c.len() > 0 && a[0] == b[0] && b[0] == c[0] {
        lemma_lex_transitive(a.drop_first(), b.drop_first(), c.drop_first());
    }
}

proof fn lemma_lex_total(a: Seq<char>, b: Seq<char>)
    requires
        a != b,
    ensures
        lex_lt(a, b) || lex_lt(b, a),
    decreases a.len(),
{
    if a.len() == 0 && b.len() == 0 {
        assert(a =~= b);
    } else if a.len() > 0 && b.len() > 0 {
        if a[0] == b[0] {
            if a.drop_first() =~= b.drop_first() {
                assert(a =~= seq![a[0]] + a.drop_first());
                assert(b =~= seq![b[0]] + b.drop_first());
            } else {
                lemma_lex_total(a.drop_first(), b.drop_first());
            }
        }
    }
}

/// Whether `a` comes before `b` in lexicographic order.
pub fn lex_less(a: &str, b: &str) -> (r: bool)
    ensures
        r == lex_lt(a@, b@),
{
    let la = a.unicode_len();
    let lb = b.unicode_len();
    let mut i: usize = 0;
    assert(a@.subrange(0, la as int) =~= a@);
    assert(b@.subrange(0, lb as int) =~= b@);
    while i < la && i < lb
        invariant
            la == a@.len(),
            lb == b@.len(),
            i <= la,
            i <= lb,
            lex_lt(a@, b@) == lex_lt(a@.subrange(i as int, la as int), b@.subrange(i as int, lb as int)),
        decreases la - i,
    {
        let ca = a.get_char(i);
        let cb = b.get_char(i);
        let ghost sa = a@.subrange(i as int, la as int);
        let ghost sb = b@.subrange(i as int, lb as int);
        assert(sa[0] == ca && sb[0] == cb);
        if ca != cb {
            return ca < cb;
        }
        assert(sa.drop_first() =~= a@.subrange(i + 1, la as int));
        assert(sb.drop_first() =~= b@.subrange(i + 1, lb as int));
        i = i + 1;
    }
    i == la && i < lb
}

pub open spec fn is_separator(c: char) -> bool {
    c == '\\' || c == '/'
}

/// The final component of a path: what follows its last separator, either
/// `\\` or `/`, on every host. Unlike std's `Path::file_name` it does not skip
/// trailing separators or `.` components and does not refuse `..`: a path
/// that ends in a separator has an empty final component.
pub open spec fn file_name_of(p: Seq<char>) -> Seq<char>
    decreases p.len(),
{
    if p.len() == 0 {
        Seq::empty()
    } else if is_separator(p.last()) {
        Seq::empty()
    } else {
        file_name_of(p.drop_last()).push(p.last())
    }
}

/// The language of the first entry whose executables include `app`.
pub open spec fn first_language(entries: Seq<(Seq<char>, Seq<Seq<char>>)>, app: Seq<char>) -> Option<
    Seq<char>,
>
    decreases entries.len(),
{
    if entries.len() == 0 {
        None
    } else if entries[0].1.contains(app) {
        Some(entries[0].0)
    } else {
        first_language(entries.drop_first(), app)
    }
}

/// The language that the policy asks for the executable at `path`; none where
/// the path has no file name or no entry lists it.
pub open spec fn app_language(path: Seq<char>, policy: Seq<(Seq<char>, Seq<Seq<char>>)>) -> Option<
    Seq<char>,
> {
    let name = file_name_of(path);
    if name.len() == 0 {
        None
    } else {
        first_language(policy, name)
    }
}

/// The layout that the policy asks for the executable at `path`: the
/// matched language resolved through the catalog, none where the catalog does
/// not know it.
pub open spec fn desired_layout_of(path: Seq<char>, policy: Seq<(Seq<char>, Seq<Seq<char>>)>) -> Option<
    LayoutId,
> {
    match app_language(path, policy) {
        Some(lang) => layout_of_language(lang),
        None => None,
    }
}

/// The file name of a path: its final component (see `file_name_of`), `None`
/// where that is empty, as for `C:\\tools\\`.
pub fn file_name(path: &str) -> (r: Option<String>)
    ensures
        match r {
            Some(s) => s@ == file_name_of(path@) && s@.len() > 0,
            None => file_name_of(path@).len() == 0,
        },
{
    let len = path.unicode_len();
    let mut start: usize = 0;
    let mut i: usize = 0;
    while i < len
        invariant
            len == path@.len(),
            start <= i <= len,
            file_name_of(path@.subrange(0, i as int)) =~= path@.subrange(start as int, i as int),
        decreases len - i,
    {
        let c = path.get_char(i);
        assert(path@.subrange(0, i + 1).drop_last() =~= path@.subrange(0, i as int));
        if c == '\\' || c == '/' {
            start = i + 1;
        }
        i = i + 1;
    }
    assert(path@.subrange(0, len as int) =~= path@);
    if start == len {
        None
    } else {
        Some(path.substring_char(start, len).to_owned())
    }
}

/// Whether `name` is one of `programs`, compared exactly.
pub fn lists_program(programs: &Vec<String>, name: &String) -> (r: bool)
    ensures
        r == programs@.map_values(|p: String| p@).contains(name@),
{
    let ghost names = programs@.map_values(|p: String| p@);
    let mut j: usize = 0;
    while j < programs.len()
        invariant
            j <= programs.len(),
            names == programs@.map_values(|p: String| p@),
            forall|k: int| 0 <= k < j ==> names[k] != name@,
        decreases programs.len() - j,
    {
        if programs[j] == *name {
            assert(names[j as int] == name@);
            return true;
        }
        j = j + 1;
    }
    false
}

impl PolicyMap {
    /// A policy with no languages.
    pub fn new() -> (r: PolicyMap)
        ensures
            r@ == Seq::<(Seq<char>, Seq<Seq<char>>)>::empty(),
    {
        let r = PolicyMap { entries: Vec::new() };
        assert(r@ =~= Seq::<(Seq<char>, Seq<Seq<char>>)>::empty());
        r
    }

    /// Gives `language` the executables `programs`: replaces its list where
    /// the policy holds that name, else adds it where its name sorts.
    pub fn add_language(&mut self, language: String, programs: Vec<String>)
        requires
            keys_ascending(old(self)@),
        ensures
            keys_ascending(final(self)@),
            ({
                let entry = (language@, programs@.map_values(|p: String| p@));
                exists|i: int|
                    0 <= i <= old(self)@.len() && (forall|k: int|
                        0 <= k < i ==> lex_lt(#[trigger] old(self)@[k].0, language@)) && if i
                        < old(self)@.len() && old(self)@[i].0 == language@ {
                        final(self)@ == old(self)@.update(i, entry)
                    } else {
                        final(self)@ == old(self)@.insert(i, entry)
                    }
            }),
    {
        let ghost old_view = self@;
        let ghost entry = (language@, programs@.map_values(|p: String| p@));
        let n = self.entries.len();
        let mut i: usize = 0;
        while i < n && lex_less(self.entries[i].language.as_str(), language.as_str())
            invariant
                n == self@.len(),
                self@ == old_view,
                i <= n,
                forall|k: int| 0 <= k < i ==> lex_lt(#[trigger] old_view[k].0, language@),
            decreases n - i,
        {
            i = i + 1;
        }
        let ghost pos = i as int;
        assert(pos < n ==> !lex_lt(old_view[pos].0, language@));
        if i < n && self.entries[i].language == language {
            assert(old_view[pos].0 == entry.0);
            self.entries.set(i, PolicyEntry { language, programs });
            assert(self@ =~= old_view.update(pos, entry));
            assert forall|a: int, b: int| 0 <= a < b < self@.len() implies lex_lt(
                self@[a].0,
                self@[b].0,
            ) by {
                assert(self@[a].0 == old_view[a].0 && self@[b].0 == old_view[b].0);
            }
        } else {
            self.entries.insert(i, PolicyEntry { language, programs });
            assert(self@ =~= old_view.insert(pos, entry));
            proof {
                if pos < n {
                    lemma_lex_total(old_view[pos].0, entry.0);
                    assert(lex_lt(entry.0, old_view[pos].0));
                }
                assert forall|a: int, b: int| 0 <= a < b < self@.len() implies lex_lt(
                    self@[a].0,
                    self@[b].0,
                ) by {
                    if b == pos {
                        assert(lex_lt(old_view[a].0, entry.0));
                    } else if a == pos {
                        if b - 1 > pos {
                            lemma_lex_transitive(entry.0, old_view[pos].0, old_view[b - 1].0);
                        }
                    } else if a < pos && b > pos {
                        assert(lex_lt(old_view[a].0, old_view[b - 1].0));
                    } else if a > pos {
                        assert(lex_lt(old_view[a - 1].0, old_view[b - 1].0));
                    }
                }
            }
        }
    }

    /// The language of the first entry that lists `name`.
    pub fn language_listing(&self, name: &String) -> (r: Option<String>)
        ensures
            match r {
                Some(s) => first_language(self@, name@) == Some(s@),
                None => first_language(self@, name@) is None,
            },
    {
        let n = self.entries.len();
        let mut i: usize = 0;
        assert(self@.subrange(0, n as int) =~= self@);
        while i < n
            invariant
                n == self@.len(),
                i <= n,
                first_language(self@, name@) == first_language(self@.subrange(i as int, n as int), name@),
            decreases n - i,
        {
            let entry = &self.entries[i];
            assert(self@.subrange(i as int, n as int).drop_first() =~= self@.subrange(i + 1, n as int));
            assert(self@.subrange(i as int, n as int)[0] == entry@);
            if lists_program(&entry.programs, name) {
                return Some(entry.language.clone());
            }
            i = i + 1;
        }
        None
    }
}

/// The language that the policy asks for the executable at `path`.
pub fn matching_language(path: &String, policy: &PolicyMap) -> (r: Option<String>)
    ensures
        match r {
            Some(s) => app_language(path@, policy@) == Some(s@),
            None => app_language(path@, policy@) is None,
        },
{
    match file_name(path.as_str()) {
        Some(name) => policy.language_listing(&name),
        None => None,
    }
}

/// The layout that the policy asks for the executable at `path`: `None` where
/// no entry lists its file name, or where the catalog does not know the
/// language of the first entry that does.
pub fn find_app_lang(path: &String, policy: &PolicyMap) -> (r: Option<LayoutId>)
    ensures
        r == desired_layout_of(path@, policy@),
{
    match matching_language(path, policy) {
        Some(lang) => layout_for_language(lang.as_str()),
        None => None,
    }
}

} // verus!
