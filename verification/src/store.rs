//! Mapping of entry names to file locations inside the password store.
//!
//! An entry name such as `work/email` is validated (no `..`, not empty,
//! not absolute), split into components, and joined below the store root;
//! the resulting location always carries the `.gpg` suffix.
//!
//! Locations are modelled as plain `/`-separated strings; reading or
//! writing the named files is the caller's business.

use vstd::prelude::*;

verus! {

/// Name of the password store directory below the home directory.
pub const PASSWORD_STORE_DIR_NAME: &'static str = ".zps";

/// Name of the configuration directory below the home directory.
pub const CONFIG_DIR_NAME: &'static str = ".config";

/// File name of the default key below the configuration directory.
pub const DEFAULT_KEY_FILE_NAME: &'static str = "key.pgp";

/// Joining a relative name onto a base path: a single `/` separates the
/// two unless the base already ends with one.
pub open spec fn spec_join(base: Seq<char>, name: Seq<char>) -> Seq<char> {
    if base.len() > 0 && base[base.len() - 1] == '/' {
        base + name
    } else {
        base + seq!['/'] + name
    }
}

/// Entry names treat both `/` and `\` as separators.
pub open spec fn is_separator(c: char) -> bool {
    c == '/' || c == '\\'
}

/// Whether two consecutive dots occur anywhere in the name.
pub open spec fn contains_dotdot(s: Seq<char>) -> bool {
    exists|i: int| 0 <= i && i + 1 < s.len() && #[trigger] s[i] == '.' && s[i + 1] == '.'
}

/// An acceptable entry name: non-empty, no `..`, and not starting with a
/// path separator (which would name an absolute location).
pub open spec fn valid_entry_name(s: Seq<char>) -> bool {
    &&& s.len() > 0
    &&& !contains_dotdot(s)
    &&& !is_separator(s[0])
}

/// What one component contributes to the joined path: nothing for an
/// empty or a `.` component, a `/`-prefixed copy otherwise.
pub open spec fn flush_component(p: Seq<char>) -> Seq<char> {
    if p.len() == 0 || p == seq!['.'] {
        Seq::<char>::empty()
    } else {
        seq!['/'] + p
    }
}

/// The contribution of `s[i..]` to the joined path, given the partial
/// component `pending` read just before position `i`.
pub open spec fn join_rec(s: Seq<char>, i: int, pending: Seq<char>) -> Seq<char>
    decreases s.len() - i,
{
    if i < 0 || i >= s.len() {
        flush_component(pending)
    } else if is_separator(s[i]) {
        flush_component(pending) + join_rec(s, i + 1, Seq::<char>::empty())
    } else {
        join_rec(s, i + 1, pending.push(s[i]))
    }
}

/// The store location of an entry before the `.gpg` suffix is applied:
/// the store root followed by every kept component of the entry name.
pub open spec fn joined_entry_path(store: Seq<char>, entry: Seq<char>) -> Seq<char> {
    store + join_rec(entry, 0, Seq::<char>::empty())
}

/// The largest index at which `c` occurs in `s`, or `-1` if it does not.
pub open spec fn last_index_of(s: Seq<char>, c: char) -> int
    decreases s.len(),
{
    if s.len() == 0 {
        -1
    } else if s[s.len() - 1] == c {
        s.len() - 1
    } else {
        last_index_of(s.drop_last(), c)
    }
}

/// What the last occurrence index means: the character stands there,
/// and nowhere later.
pub proof fn lemma_last_index_of(s: Seq<char>, c: char)
    ensures
        -1 <= last_index_of(s, c) < s.len(),
        last_index_of(s, c) >= 0 ==> s[last_index_of(s, c)] == c,
        forall|j: int| last_index_of(s, c) < j < s.len() ==> s[j] != c,
    decreases s.len(),
{
    if s.len() > 0 && s[s.len() - 1] != c {
        lemma_last_index_of(s.drop_last(), c);
        assert forall|j: int| last_index_of(s, c) < j < s.len() implies s[j] != c by {
            if j < s.len() - 1 {
                assert(s.drop_last()[j] == s[j]);
            }
        }
    }
}

/// Replacing the extension of the final path component by `gpg`: if the
/// final `/`-separated component carries a dot after its first character,
/// everything from the last such dot on is replaced; otherwise `.gpg` is
/// appended.
pub open spec fn with_gpg_extension(p: Seq<char>) -> Seq<char> {
    let name_start = last_index_of(p, '/') + 1;
    let dot = last_index_of(p.subrange(name_start, p.len() as int), '.');
    if dot >= 1 {
        p.subrange(0, name_start + dot) + dot_gpg()
    } else {
        p + dot_gpg()
    }
}

/// The four characters of the `.gpg` suffix.
pub open spec fn dot_gpg() -> Seq<char> {
    seq!['.', 'g', 'p', 'g']
}

/// The full store location of an entry, or `None` for an invalid name.
pub open spec fn spec_password_file_path(store: Seq<char>, entry: Seq<char>) -> Option<Seq<char>> {
    if valid_entry_name(entry) {
        Some(with_gpg_extension(joined_entry_path(store, entry)))
    } else {
        None
    }
}

/// The location of the password store below the given home directory.
pub fn get_password_store_path(home: &str) -> (r: String)
    ensures
        r@ == spec_join(home@, PASSWORD_STORE_DIR_NAME@),
{
    join_path(home, PASSWORD_STORE_DIR_NAME)
}

/// Joins a relative name onto a base path with a single `/`.
pub fn join_path(base: &str, name: &str) -> (r: String)
    ensures
        r@ == spec_join(base@, name@),
{
    let mut r = base.to_owned();
    let n: usize = base.unicode_len();
    if n == 0 || base.get_char(n - 1) != '/' {
        r.append("/");
        proof {
            reveal_strlit("/");
        }
    }
    r.append(name);
    assert(r@ =~= spec_join(base@, name@));
    r
}

/// Whether the name contains two consecutive dots.
fn has_dotdot(s: &str) -> (r: bool)
    ensures
        r == contains_dotdot(s@),
{
    let n: usize = s.unicode_len();
    if n < 2 {
        return false;
    }
    let mut i: usize = 0;
    while i + 1 < n
        invariant
            n == s@.len(),
            i + 1 <= n,
            forall|j: int| 0 <= j && j + 1 < i + 1 ==> !(#[trigger] s@[j] == '.' && s@[j + 1] == '.'),
        decreases n - i,
    {
        if s.get_char(i) == '.' && s.get_char(i + 1) == '.' {
            return true;
        }
        i = i + 1;
    }
    false
}

/// The file location of an entry within the store: every `/`- or
/// `\`-separated component of the entry name is placed below the store
/// root, skipping empty and `.` components, and the `.gpg` suffix is
/// applied to the final component.  Invalid names (empty, containing
/// `..`, or starting with a separator) are rejected.
pub fn get_password_file_path(store_path: &str, entry_name: &str) -> (r: Option<String>)
    ensures
        r is Some <==> valid_entry_name(entry_name@),
        r matches Some(p) ==> Some(p@) == spec_password_file_path(store_path@, entry_name@),
{
    let n: usize = entry_name.unicode_len();
    if n == 0 {
        return None;
    }
    let c0 = entry_name.get_char(0);
    if c0 == '/' || c0 == '\\' {
        return None;
    }
    if has_dotdot(entry_name) {
        return None;
    }
    let joined = join_entry_components(store_path, entry_name);
    Some(apply_gpg_extension(&joined))
}

/// Appends every kept component of the entry name to the store root.
fn join_entry_components(store_path: &str, entry_name: &str) -> (r: String)
    ensures
        r@ == joined_entry_path(store_path@, entry_name@),
{
    let ghost s = entry_name@;
    let n: usize = entry_name.unicode_len();
    let mut r = store_path.to_owned();
    let mut start: usize = 0;
    let mut i: usize = 0;
    proof {
        assert(s.subrange(0, 0) =~= Seq::<char>::empty());
    }
    while i < n
        invariant
            n == s.len(),
            s == entry_name@,
            start <= i <= n,
            joined_entry_path(store_path@, entry_name@) == r@ + join_rec(
                s,
                i as int,
                s.subrange(start as int, i as int),
            ),
        decreases n - i,
    {
        let ghost r_prev = r@;
        let ghost pending = s.subrange(start as int, i as int);
        let c = entry_name.get_char(i);
        if c == '/' || c == '\\' {
            flush_entry_component(&mut r, entry_name, start, i);
            start = i + 1;
            proof {
                assert(s.subrange(i + 1, i + 1) =~= Seq::<char>::empty());
                let rest = join_rec(s, i + 1, Seq::<char>::empty());
                assert(r@ + rest =~= r_prev + (flush_component(pending) + rest));
            }
        } else {
            proof {
                assert(s.subrange(start as int, i + 1) =~= pending.push(s[i as int]));
            }
        }
        i = i + 1;
    }
    flush_entry_component(&mut r, entry_name, start, n);
    r
}

/// Appends the component `entry_name[start..end]` to the path unless it
/// is empty or `.`.
fn flush_entry_component(r: &mut String, entry_name: &str, start: usize, end: usize)
    requires
        start <= end,
        end as int <= entry_name@.len(),
    ensures
        final(r)@ == old(r)@ + flush_component(entry_name@.subrange(start as int, end as int)),
{
    let ghost comp = entry_name@.subrange(start as int, end as int);
    if start == end {
        assert(r@ =~= old(r)@ + flush_component(comp));
        return;
    }
    if end - start == 1 && entry_name.get_char(start) == '.' {
        assert(comp =~= seq!['.']);
        assert(r@ =~= old(r)@ + flush_component(comp));
        return;
    }
    proof {
        assert(comp.len() > 0);
        assert(comp != seq!['.']) by {
            if comp == seq!['.'] {
                assert(comp[0] == '.');
                assert(comp[0] == entry_name@[start as int]);
            }
        }
    }
    r.append("/");
    proof {
        reveal_strlit("/");
    }
    let piece = entry_name.substring_char(start, end);
    r.append(piece);
    assert(r@ =~= old(r)@ + flush_component(comp));
}

/// Applies the `.gpg` suffix to the final component of the path.
fn apply_gpg_extension(p: &String) -> (r: String)
    ensures
        r@ == with_gpg_extension(p@),
{
    let n: usize = p.as_str().unicode_len();
    proof {
        lemma_last_index_of(p@, '/');
    }
    let name_start: usize = match last_char_position(p.as_str(), '/') {
        Some(s) => s + 1,
        None => 0,
    };
    assert(name_start as int == last_index_of(p@, '/') + 1);
    let name: &str = p.as_str().substring_char(name_start, n);
    assert(name@ == p@.subrange(last_index_of(p@, '/') + 1, p@.len() as int));
    let dot = last_char_position(name, '.');
    proof {
        lemma_last_index_of(name@, '.');
    }
    let replace: Option<usize> = match dot {
        Some(d) => if d >= 1 {
            Some(d)
        } else {
            None
        },
        None => None,
    };
    match replace {
        Some(d) => {
            let mut out = p.as_str().substring_char(0, name_start + d).to_owned();
            out.append(".gpg");
            proof {
                reveal_strlit(".gpg");
                assert((".gpg")@ =~= dot_gpg());
            }
            assert(out@ =~= with_gpg_extension(p@));
            out
        },
        None => {
            let mut out = p.clone();
            out.append(".gpg");
            proof {
                reveal_strlit(".gpg");
                assert((".gpg")@ =~= dot_gpg());
            }
            assert(out@ =~= with_gpg_extension(p@));
            out
        },
    }
}

/// The largest position at which `c` occurs in `s`, if any.
fn last_char_position(s: &str, c: char) -> (r: Option<usize>)
    ensures
        r is Some <==> last_index_of(s@, c) >= 0,
        r matches Some(i) ==> i as int == last_index_of(s@, c),
{
    let n: usize = s.unicode_len();
    let mut i: usize = n;
    while i > 0
        invariant
            i <= n,
            n == s@.len(),
            forall|j: int| i <= j < n ==> s@[j] != c,
        decreases i,
    {
        if s.get_char(i - 1) == c {
            proof {
                lemma_last_index_of(s@, c);
                let l = last_index_of(s@, c);
                assert(s@[i - 1] == c);
                if l < i - 1 {
                    assert(s@[i - 1] != c);
                }
                if l > i - 1 {
                    assert(s@[l] != c);
                }
            }
            return Some(i - 1);
        }
        i = i - 1;
    }
    proof {
        lemma_last_index_of(s@, c);
        let l = last_index_of(s@, c);
        if l >= 0 {
            assert(s@[l] == c);
            assert(s@[l] != c);
        }
    }
    None
}

} // verus!
