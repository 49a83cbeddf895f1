//! The editor's file-tree rules: which directory entries the sidebar
//! lists and in what order, how a duplicate's name is chosen, which
//! links may be handed to the OS, and what the export dialogs offer.
//!
//! The host does the file-system work (reading directories, probing
//! paths, spawning the OS handler) and hands the facts to these
//! functions as plain values.
use vstd::prelude::*;
use crate::abbr::engine::{lemma_lex_facts, lex_lt, lex_lt_exec};
use crate::text::{
    chars_eq, chars_of, char_from_u32, cp_char, decimal, push_decimal, push_str, starts_with, str_eq,
    string_of,
};

verus! {

/// Size and modification time of a file, as read from its metadata.
#[derive(Debug, Clone, Copy, PartialEq, Eq)]
pub struct FileMeta {
    /// Length in bytes.
    pub size: u64,
    /// Modification time in milliseconds since the Unix epoch (0 when
    /// unknown).
    pub modified_ms: u64,
}

/// What the host found out about one entry of a directory.
#[derive(Debug)]
pub struct RawEntry {
    /// The entry's file name (empty when it has none or it is not UTF-8).
    pub name: String,
    /// The entry's full path.
    pub path: String,
    /// Whether the entry is a directory.
    pub is_dir: bool,
    /// Whether the entry is a regular file.
    pub is_file: bool,
    /// The entry's metadata, or the text of the error reading it.
    pub meta: Result<FileMeta, String>,
}

/// One row of the sidebar's file tree.
#[derive(Debug, Clone)]
pub struct DirEntry {
    pub name: String,
    pub path: String,
    /// `"dir"` or `"file"`.
    pub kind: &'static str,
    /// Bytes (0 for directories).
    pub size: u64,
    /// Modification time in ms since the epoch (0 for directories).
    pub modified_ms: u64,
}

pub struct RawEntryView {
    pub name: Seq<char>,
    pub path: Seq<char>,
    pub is_dir: bool,
    pub is_file: bool,
    pub meta: Result<FileMeta, Seq<char>>,
}

pub struct DirEntryView {
    pub name: Seq<char>,
    pub path: Seq<char>,
    pub kind: Seq<char>,
    pub size: u64,
    pub modified_ms: u64,
}

impl View for RawEntry {
    type V = RawEntryView;

    open spec fn view(&self) -> RawEntryView {
        RawEntryView {
            name: self.name@,
            path: self.path@,
            is_dir: self.is_dir,
            is_file: self.is_file,
            meta: match self.meta {
                Ok(m) => Ok(m),
                Err(e) => Err(e@),
            },
        }
    }
}

impl View for DirEntry {
    type V = DirEntryView;

    open spec fn view(&self) -> DirEntryView {
        DirEntryView {
            name: self.name@,
            path: self.path@,
            kind: self.kind@,
            size: self.size,
            modified_ms: self.modified_ms,
        }
    }
}

pub open spec fn raw_views(s: Seq<RawEntry>) -> Seq<RawEntryView> {
    s.map_values(|e: RawEntry| e@)
}

pub open spec fn entry_views(s: Seq<DirEntry>) -> Seq<DirEntryView> {
    s.map_values(|e: DirEntry| e@)
}

/// Position of the last `.` in `s`.
pub open spec fn last_dot(s: Seq<char>) -> Option<int>
    decreases s.len(),
{
    if s.len() == 0 {
        None
    } else if s.last() == '.' {
        Some(s.len() - 1)
    } else {
        last_dot(s.drop_last())
    }
}

/// The extension of a file name, as `Path::extension` defines it: the
/// part after the last `.`; none when there is no `.`, or when the only
/// `.` is the first character.
pub open spec fn extension(name: Seq<char>) -> Option<Seq<char>> {
    match last_dot(name) {
        Some(i) => if i == 0 {
            None
        } else {
            Some(name.skip(i + 1))
        },
        None => None,
    }
}

/// The stem of a file name, as `Path::file_stem` defines it: the part
/// before the last `.`, or the whole name when [`extension`] is none.
pub open spec fn stem(name: Seq<char>) -> Seq<char> {
    match last_dot(name) {
        Some(i) => if i == 0 {
            name
        } else {
            name.take(i)
        },
        None => name,
    }
}

/// ASCII upper-case letters mapped to lower case; all else unchanged.
pub open spec fn ascii_lower_char(c: char) -> char {
    if 'A' <= c <= 'Z' {
        cp_char(((c as u32) + 32) as u32)
    } else {
        c
    }
}

pub open spec fn ascii_lower(s: Seq<char>) -> Seq<char> {
    Seq::new(s.len(), |i: int| ascii_lower_char(s[i]))
}

/// `md`, `markdown` or `mdx`, in any ASCII case.
pub open spec fn markdown_name(name: Seq<char>) -> bool {
    match extension(name) {
        Some(e) => {
            let l = ascii_lower(e);
            l == "md"@ || l == "markdown"@ || l == "mdx"@
        },
        None => false,
    }
}

/// What the n-gram learner reads: `txt`, `md`, `markdown` or `mdx`, in
/// any ASCII case.
pub open spec fn corpus_name(name: Seq<char>) -> bool {
    match extension(name) {
        Some(e) => {
            let l = ascii_lower(e);
            l == "txt"@ || l == "md"@ || l == "markdown"@ || l == "mdx"@
        },
        None => false,
    }
}

/// Names the file tree never shows: empty ones and hidden ones.
pub open spec fn hidden_name(name: Seq<char>) -> bool {
    name.len() == 0 || name[0] == '.'
}

/// Whether a directory entry named `name` is left out of the file tree
/// and of learning: its name is empty or starts with `.`.
pub fn is_hidden_name(name: &str) -> (r: bool)
    ensures
        r == hidden_name(name@),
{
    let v = chars_of(name);
    v.len() == 0 || v[0] == '.'
}

/// The listing after one more directory entry: hidden entries are
/// skipped, directories kept, markdown files kept with their metadata
/// (a metadata error fails the whole listing), everything else skipped.
pub open spec fn listing_step(
    acc: Result<Seq<DirEntryView>, Seq<char>>,
    e: RawEntryView,
) -> Result<Seq<DirEntryView>, Seq<char>> {
    match acc {
        Err(m) => Err(m),
        Ok(v) => if hidden_name(e.name) {
            Ok(v)
        } else if e.is_dir {
            Ok(
                v.push(
                    DirEntryView { name: e.name, path: e.path, kind: "dir"@, size: 0, modified_ms: 0 },
                ),
            )
        } else if !e.is_file || !markdown_name(e.name) {
            Ok(v)
        } else {
            match e.meta {
                Err(m) => Err(m),
                Ok(meta) => Ok(
                    v.push(
                        DirEntryView {
                            name: e.name,
                            path: e.path,
                            kind: "file"@,
                            size: meta.size,
                            modified_ms: meta.modified_ms,
                        },
                    ),
                ),
            }
        },
    }
}

/// The entries kept from `raws`, in directory order.
pub open spec fn collect_listing(raws: Seq<RawEntryView>) -> Result<Seq<DirEntryView>, Seq<char>>
    decreases raws.len(),
{
    if raws.len() == 0 {
        Ok(Seq::empty())
    } else {
        listing_step(collect_listing(raws.drop_last()), raws.last())
    }
}

/// `str::to_lowercase` of a name (Unicode lower-case mapping, no
/// locale involved).
pub uninterp spec fn lowercase(s: Seq<char>) -> Seq<char>;

/// Whether entry `a` is listed strictly before `b`: directories first,
/// then by lower-cased name in code-point order.
pub open spec fn entry_before(a: DirEntryView, b: DirEntryView) -> bool {
    if (a.kind == "dir"@) != (b.kind == "dir"@) {
        a.kind == "dir"@
    } else {
        lex_lt(lowercase(a.name), lowercase(b.name))
    }
}

/// Where `x` goes in the ordered list `s`: after every entry it is not
/// listed strictly before.
pub open spec fn entry_insert_pos(s: Seq<DirEntryView>, x: DirEntryView) -> nat
    decreases s.len(),
{
    if s.len() == 0 {
        0
    } else if entry_before(x, s.last()) {
        entry_insert_pos(s.drop_last(), x)
    } else {
        s.len()
    }
}

/// `s` in listing order; entries that compare equal keep their order.
pub open spec fn sort_entries(s: Seq<DirEntryView>) -> Seq<DirEntryView>
    decreases s.len(),
{
    if s.len() == 0 {
        s
    } else {
        let sorted = sort_entries(s.drop_last());
        sorted.insert(entry_insert_pos(sorted, s.last()) as int, s.last())
    }
}

/// The sidebar listing of a directory whose entries are `raws`.
pub open spec fn listing(raws: Seq<RawEntryView>) -> Result<Seq<DirEntryView>, Seq<char>> {
    match collect_listing(raws) {
        Ok(v) => Ok(sort_entries(v)),
        Err(m) => Err(m),
    }
}

/// `str::to_lowercase`; its result is named [`lowercase`].
#[verifier::external_body]
fn to_lowercase(s: &str) -> (r: String)
    ensures
        r@ == lowercase(s@),
{
    s.to_lowercase()
}

fn last_dot_exec(v: &Vec<char>) -> (r: Option<usize>)
    ensures
        match r {
            Some(i) => last_dot(v@) == Some(i as int) && i < v@.len() && v@[i as int] == '.',
            None => last_dot(v@) is None,
        },
{
    let mut i: usize = v.len();
    assert(v@.take(i as int) == v@);
    while i > 0
        invariant
            i <= v@.len(),
            last_dot(v@) == last_dot(v@.take(i as int)),
        decreases i,
    {
        let pre = Ghost(v@.take(i as int));
        assert(pre@.drop_last() == v@.take(i - 1));
        if v[i - 1] == '.' {
            return Some(i - 1);
        }
        i = i - 1;
    }
    None
}

fn ascii_lower_exec(v: &Vec<char>) -> (r: Vec<char>)
    ensures
        r@ == ascii_lower(v@),
{
    let mut out: Vec<char> = Vec::new();
    let mut i: usize = 0;
    while i < v.len()
        invariant
            i <= v@.len(),
            out@ == ascii_lower(v@).take(i as int),
        decreases v@.len() - i,
    {
        let c = v[i];
        let l = if 'A' <= c && c <= 'Z' {
            match char_from_u32((c as u32) + 32) {
                Some(l) => {
                    proof {
                        vstd::utf8::char_u32_cast(l, ((c as u32) + 32) as u32);
                    }
                    l
                },
                None => c,
            }
        } else {
            c
        };
        proof {
            assert(l == ascii_lower_char(c));
            assert(ascii_lower(v@).take(i + 1) == ascii_lower(v@).take(i as int).push(l));
        }
        out.push(l);
        i = i + 1;
    }
    assert(ascii_lower(v@).take(v@.len() as int) == ascii_lower(v@));
    out
}

/// The lower-cased extension of `name`, if it has one.
fn lower_extension(name: &str) -> (r: Option<Vec<char>>)
    ensures
        match r {
            Some(l) => extension(name@) matches Some(e) && l@ == ascii_lower(e),
            None => extension(name@) is None,
        },
{
    let mut v = chars_of(name);
    let n = v.len();
    match last_dot_exec(&v) {
        Some(i) => {
            if i == 0 {
                None
            } else {
                let e: Vec<char> = v.split_off(i + 1);
                proof {
                    assert(e@ == name@.skip(i + 1));
                }
                Some(ascii_lower_exec(&e))
            }
        },
        None => None,
    }
}

/// Whether the file tree shows a file named `name`: its extension is
/// `md`, `markdown` or `mdx` in any ASCII case.
pub fn is_markdown_name(name: &str) -> (r: bool)
    ensures
        r == markdown_name(name@),
{
    match lower_extension(name) {
        Some(l) => chars_eq(l.as_slice(), chars_of("md").as_slice()) || chars_eq(
            l.as_slice(),
            chars_of("markdown").as_slice(),
        ) || chars_eq(l.as_slice(), chars_of("mdx").as_slice()),
        None => false,
    }
}

/// Whether the n-gram learner reads a file named `name`: its extension
/// is `txt`, `md`, `markdown` or `mdx` in any ASCII case.
pub fn is_corpus_name(name: &str) -> (r: bool)
    ensures
        r == corpus_name(name@),
{
    match lower_extension(name) {
        Some(l) => chars_eq(l.as_slice(), chars_of("txt").as_slice()) || chars_eq(
            l.as_slice(),
            chars_of("md").as_slice(),
        ) || chars_eq(l.as_slice(), chars_of("markdown").as_slice()) || chars_eq(
            l.as_slice(),
            chars_of("mdx").as_slice(),
        ),
        None => false,
    }
}

/// Whether `a` (lower-cased name `ka`) is listed strictly before `b`
/// (lower-cased name `kb`).
fn entry_before_exec(a: &DirEntry, ka: &Vec<char>, b: &DirEntry, kb: &Vec<char>) -> (r: bool)
    requires
        ka@ == lowercase(a.name@),
        kb@ == lowercase(b.name@),
    ensures
        r == entry_before(a@, b@),
{
    let a_dir = str_eq(a.kind, "dir");
    let b_dir = str_eq(b.kind, "dir");
    if a_dir != b_dir {
        a_dir
    } else {
        lex_lt_exec(ka, kb)
    }
}

pub open spec fn keys_match(out: Seq<DirEntry>, keys: Seq<Vec<char>>) -> bool {
    &&& keys.len() == out.len()
    &&& forall|i: int| 0 <= i < out.len() ==> (#[trigger] keys[i])@ == lowercase(out[i].name@)
}

/// Insert `x` after every entry it is not listed strictly before,
/// keeping the lower-cased names alongside.
fn insert_entry(out: &mut Vec<DirEntry>, keys: &mut Vec<Vec<char>>, x: DirEntry)
    requires
        keys_match(old(out)@, old(keys)@),
    ensures
        keys_match(final(out)@, final(keys)@),
        entry_views(final(out)@) == entry_views(old(out)@).insert(
            entry_insert_pos(entry_views(old(out)@), x@) as int,
            x@,
        ),
{
    let kx = chars_of(to_lowercase(x.name.as_str()).as_str());
    let ghost s = entry_views(out@);
    let mut j: usize = out.len();
    proof {
        assert(s.take(j as int) == s);
    }
    while j > 0 && entry_before_exec(&x, &kx, &out[j - 1], &keys[j - 1])
        invariant
            j <= out@.len(),
            out@ == old(out)@,
            keys@ == old(keys)@,
            keys_match(out@, keys@),
            kx@ == lowercase(x.name@),
            s == entry_views(out@),
            entry_insert_pos(s, x@) == entry_insert_pos(s.take(j as int), x@),
        decreases j,
    {
        proof {
            let pre = s.take(j as int);
            assert(pre.drop_last() == s.take(j - 1));
            assert(pre.last() == out@[j - 1]@);
        }
        j = j - 1;
    }
    proof {
        if j > 0 {
            assert(s.take(j as int).last() == out@[j - 1]@);
        }
    }
    out.insert(j, x);
    keys.insert(j, kx);
    assert(entry_views(out@) =~= s.insert(j as int, x@));
    assert forall|i: int| 0 <= i < out@.len() implies (#[trigger] keys@[i])@ == lowercase(
        out@[i].name@,
    ) by {
        if i < j {
            assert(keys@[i] == old(keys)@[i]);
        } else if i > j {
            assert(keys@[i] == old(keys)@[i - 1]);
        }
    }
}

proof fn lemma_listing_error_sticks(raws: Seq<RawEntryView>, k: int, m: Seq<char>)
    requires
        0 <= k <= raws.len(),
        collect_listing(raws.take(k)) == Err::<Seq<DirEntryView>, Seq<char>>(m),
    ensures
        collect_listing(raws) == Err::<Seq<DirEntryView>, Seq<char>>(m),
    decreases raws.len() - k,
{
    if k < raws.len() {
        assert(raws.take(k + 1).drop_last() == raws.take(k));
        lemma_listing_error_sticks(raws, k + 1, m);
    } else {
        assert(raws.take(k) == raws);
    }
}

/// The sidebar listing of a directory: hidden entries dropped,
/// directories and markdown files kept (a file whose metadata could not
/// be read fails the listing with that error), directories first, then
/// by lower-cased name; entries that compare equal keep directory order.
pub fn markdown_listing(raws: Vec<RawEntry>) -> (r: Result<Vec<DirEntry>, String>)
    ensures
        match r {
            Ok(v) => listing(raw_views(raws@)) == Ok::<Seq<DirEntryView>, Seq<char>>(
                entry_views(v@),
            ),
            Err(m) => listing(raw_views(raws@)) == Err::<Seq<DirEntryView>, Seq<char>>(m@),
        },
{
    let ghost rv = raw_views(raws@);
    let mut out: Vec<DirEntry> = Vec::new();
    let mut keys: Vec<Vec<char>> = Vec::new();
    let ghost mut unsorted: Seq<DirEntryView> = Seq::empty();
    let mut i: usize = 0;
    proof {
        assert(rv.take(0) == Seq::<RawEntryView>::empty());
        assert(entry_views(out@) == Seq::<DirEntryView>::empty());
    }
    while i < raws.len()
        invariant
            i <= raws@.len(),
            rv == raw_views(raws@),
            collect_listing(rv.take(i as int)) == Ok::<Seq<DirEntryView>, Seq<char>>(unsorted),
            entry_views(out@) == sort_entries(unsorted),
            keys_match(out@, keys@),
        decreases raws@.len() - i,
    {
        let e = &raws[i];
        proof {
            assert(rv.take(i + 1).drop_last() == rv.take(i as int));
            assert(rv.take(i + 1).last() == e@);
        }
        let name = chars_of(e.name.as_str());
        if name.len() == 0 || name[0] == '.' {
        } else if e.is_dir {
            let x = DirEntry {
                name: e.name.clone(),
                path: e.path.clone(),
                kind: "dir",
                size: 0,
                modified_ms: 0,
            };
            proof {
                assert(sort_entries(unsorted.push(x@)) == sort_entries(unsorted).insert(
                    entry_insert_pos(sort_entries(unsorted), x@) as int,
                    x@,
                )) by {
                    assert(unsorted.push(x@).drop_last() == unsorted);
                }
            }
            insert_entry(&mut out, &mut keys, x);
            proof {
                unsorted = unsorted.push(x@);
            }
        } else if !e.is_file || !is_markdown_name(e.name.as_str()) {
        } else {
            match &e.meta {
                Err(m) => {
                    proof {
                        lemma_listing_error_sticks(rv, i + 1, m@);
                    }
                    return Err(m.clone());
                },
                Ok(meta) => {
                    let x = DirEntry {
                        name: e.name.clone(),
                        path: e.path.clone(),
                        kind: "file",
                        size: meta.size,
                        modified_ms: meta.modified_ms,
                    };
                    proof {
                        assert(sort_entries(unsorted.push(x@)) == sort_entries(unsorted).insert(
                            entry_insert_pos(sort_entries(unsorted), x@) as int,
                            x@,
                        )) by {
                            assert(unsorted.push(x@).drop_last() == unsorted);
                        }
                    }
                    insert_entry(&mut out, &mut keys, x);
                    proof {
                        unsorted = unsorted.push(x@);
                    }
                },
            }
        }
        i = i + 1;
    }
    proof {
        assert(rv.take(raws@.len() as int) == rv);
    }
    Ok(out)
}

/// No entry is listed strictly before one that precedes it.
pub open spec fn listed_in_order(s: Seq<DirEntryView>) -> bool {
    forall|i: int, j: int| 0 <= i < j < s.len() ==> !entry_before(#[trigger] s[j], #[trigger] s[i])
}

/// The listing order is a strict weak order: asymmetric, and "not
/// before" is transitive.
pub proof fn lemma_entry_before_is_weak_order(x: DirEntryView, y: DirEntryView, z: DirEntryView)
    ensures
        entry_before(x, y) ==> !entry_before(y, x),
        !entry_before(x, y) && !entry_before(y, z) ==> !entry_before(x, z),
{
    lemma_lex_facts(lowercase(x.name), lowercase(y.name), lowercase(z.name));
}

proof fn lemma_entry_insert_pos(s: Seq<DirEntryView>, x: DirEntryView)
    ensures
        entry_insert_pos(s, x) <= s.len(),
        forall|i: int| entry_insert_pos(s, x) <= i < s.len() ==> entry_before(x, #[trigger] s[i]),
        entry_insert_pos(s, x) > 0 ==> !entry_before(x, s[entry_insert_pos(s, x) - 1]),
    decreases s.len(),
{
    if s.len() > 0 && entry_before(x, s.last()) {
        let t = s.drop_last();
        lemma_entry_insert_pos(t, x);
        assert forall|i: int| entry_insert_pos(s, x) <= i < s.len() implies entry_before(
            x,
            #[trigger] s[i],
        ) by {
            if i < t.len() {
                assert(s[i] == t[i]);
            }
        }
    }
}

proof fn lemma_entry_insert_in_order(s: Seq<DirEntryView>, x: DirEntryView)
    requires
        listed_in_order(s),
    ensures
        listed_in_order(s.insert(entry_insert_pos(s, x) as int, x)),
{
    let p = entry_insert_pos(s, x) as int;
    lemma_entry_insert_pos(s, x);
    let r = s.insert(p, x);
    assert forall|i: int, j: int| 0 <= i < j < r.len() implies !entry_before(
        #[trigger] r[j],
        #[trigger] r[i],
    ) by {
        if i < p && j < p {
            assert(r[i] == s[i] && r[j] == s[j]);
        } else if i < p && j == p {
            assert(r[i] == s[i] && r[j] == x);
            if i < p - 1 {
                assert(!entry_before(s[p - 1], s[i]));
                lemma_entry_before_is_weak_order(x, s[p - 1], s[i]);
            }
        } else if i < p {
            assert(r[i] == s[i] && r[j] == s[j - 1]);
        } else if i == p {
            assert(r[i] == x && r[j] == s[j - 1]);
            assert(entry_before(x, s[j - 1]));
            lemma_entry_before_is_weak_order(x, s[j - 1], x);
        } else {
            assert(r[i] == s[i - 1] && r[j] == s[j - 1]);
        }
    }
}

/// Sorting puts the entries in listing order and keeps exactly the same
/// entries.
pub proof fn lemma_sort_entries_sorts(s: Seq<DirEntryView>)
    ensures
        listed_in_order(sort_entries(s)),
        sort_entries(s).to_multiset() == s.to_multiset(),
    decreases s.len(),
{
    broadcast use vstd::seq_lib::to_multiset_insert, vstd::seq_lib::to_multiset_build;

    if s.len() > 0 {
        let t = s.drop_last();
        lemma_sort_entries_sorts(t);
        let sorted = sort_entries(t);
        lemma_entry_insert_pos(sorted, s.last());
        lemma_entry_insert_in_order(sorted, s.last());
        assert(t.push(s.last()) == s);
    }
}

/// A successful listing shows every kept entry exactly once, all
/// directories before all files, and each group in ascending
/// lower-cased name order.
pub proof fn lemma_listing_ordered(raws: Seq<RawEntryView>)
    ensures
        listing(raws) matches Ok(v) ==> {
            &&& listed_in_order(v)
            &&& forall|i: int, j: int|
                0 <= i < j < v.len() && (#[trigger] v[j]).kind == "dir"@ ==> (#[trigger] v[i]).kind
                    == "dir"@
            &&& collect_listing(raws) matches Ok(u) && v.to_multiset() == u.to_multiset()
        },
{
    if let Ok(u) = collect_listing(raws) {
        lemma_sort_entries_sorts(u);
        let v = sort_entries(u);
        assert forall|i: int, j: int|
            0 <= i < j < v.len() && (#[trigger] v[j]).kind == "dir"@ implies (#[trigger] v[i]).kind
            == "dir"@ by {
            assert(!entry_before(v[j], v[i]));
        }
    }
}

/// Links the editor hands to the OS: `http://`, `https://` and
/// `mailto:` only.
pub open spec fn url_allowed(url: Seq<char>) -> bool {
    "http://"@.is_prefix_of(url) || "https://"@.is_prefix_of(url) || "mailto:"@.is_prefix_of(url)
}

/// Check a link before it is opened: `Ok` for the allowed schemes (see
/// [`url_allowed`]), otherwise the error `unsupported url scheme`.
pub fn check_url(url: &str) -> (r: Result<(), String>)
    ensures
        r is Ok <==> url_allowed(url@),
        r matches Err(m) ==> m@ == "unsupported url scheme"@,
{
    if starts_with(url, "http://") || starts_with(url, "https://") || starts_with(url, "mailto:") {
        Ok(())
    } else {
        Err(string_of("unsupported url scheme"))
    }
}

/// After this many candidate names a duplicate is given up.
pub const MAX_COPY_ATTEMPTS: u64 = 999;

/// The stem a copy of a file named `name` starts from (`file` when the
/// path has no file name).
pub open spec fn copy_stem(name: Option<Seq<char>>) -> Seq<char> {
    match name {
        Some(n) => stem(n),
        None => "file"@,
    }
}

/// The extension a copy keeps (`md` when the file has none).
pub open spec fn copy_extension(name: Option<Seq<char>>) -> Seq<char> {
    match name {
        Some(n) => match extension(n) {
            Some(e) => e,
            None => "md"@,
        },
        None => "md"@,
    }
}

/// The `attempt`-th candidate name for a copy: `stem (복사).ext`, then
/// `stem (복사 2).ext`, `stem (복사 3).ext`, ...
pub open spec fn copy_name_text(name: Option<Seq<char>>, attempt: nat) -> Seq<char> {
    if attempt == 1 {
        copy_stem(name) + " (복사)."@ + copy_extension(name)
    } else {
        copy_stem(name) + " (복사 "@ + decimal(attempt) + ")."@ + copy_extension(name)
    }
}

/// The `attempt`-th candidate name for a copy of a file named
/// `file_name` (`None` when the path has no file name).
pub fn copy_name(file_name: &Option<String>, attempt: u64) -> (r: String)
    ensures
        r@ == copy_name_text(
            match file_name {
                Some(n) => Some(n@),
                None => None,
            },
            attempt as nat,
        ),
{
    let ghost nm: Option<Seq<char>> = match file_name {
        Some(n) => Some(n@),
        None => None,
    };
    let mut out = String::new();
    let mut ext: Vec<char> = Vec::new();
    match file_name {
        Some(n) => {
            let mut v = chars_of(n.as_str());
            let len = v.len();
            match last_dot_exec(&v) {
                Some(i) => {
                    if i == 0 {
                        push_str(&mut out, n.as_str());
                        ext = chars_of("md");
                    } else {
                        let e = v.split_off(i + 1);
                        let _dot = v.pop();
                        assert(v@ == n@.take(i as int));
                        push_chars(&mut out, &v);
                        ext = e;
                    }
                },
                None => {
                    push_str(&mut out, n.as_str());
                    ext = chars_of("md");
                },
            }
        },
        None => {
            push_str(&mut out, "file");
            ext = chars_of("md");
        },
    }
    assert(out@ == Seq::<char>::empty() + copy_stem(nm));
    assert(ext@ == copy_extension(nm));
    if attempt == 1 {
        push_str(&mut out, " (복사).");
    } else {
        push_str(&mut out, " (복사 ");
        push_decimal(&mut out, attempt);
        push_str(&mut out, ").");
    }
    push_chars(&mut out, &ext);
    out
}

/// The attempt after `attempt`, or `None` once [`MAX_COPY_ATTEMPTS`]
/// candidates have been tried.
pub fn next_copy_attempt(attempt: u64) -> (r: Option<u64>)
    ensures
        attempt < MAX_COPY_ATTEMPTS ==> r == Some((attempt + 1) as u64),
        attempt >= MAX_COPY_ATTEMPTS ==> r is None,
{
    if attempt < MAX_COPY_ATTEMPTS {
        Some(attempt + 1)
    } else {
        None
    }
}

/// The error when no free copy name was found.
pub const COPY_NAMES_EXHAUSTED: &'static str = "사본 이름을 찾을 수 없습니다";

fn push_chars(s: &mut String, v: &Vec<char>)
    ensures
        final(s)@ == old(s)@ + v@,
{
    let ghost start = s@;
    let mut i: usize = 0;
    while i < v.len()
        invariant
            i <= v@.len(),
            s@ == start + v@.take(i as int),
        decreases v@.len() - i,
    {
        crate::text::string_push(s, v[i]);
        assert(v@.take(i + 1) == v@.take(i as int).push(v@[i as int]));
        i = i + 1;
    }
    assert(v@.take(v@.len() as int) == v@);
}

/// What an export's save dialog offers.
#[derive(Debug, Clone)]
pub struct ExportDialog {
    pub title: &'static str,
    pub filter_name: &'static str,
    pub extensions: Vec<&'static str>,
}

/// The save dialog for exporting in `format` (`md` or `html`); any other
/// format is refused with `unsupported export format: <format>`.
pub fn export_dialog(format: &str) -> (r: Result<ExportDialog, String>)
    ensures
        format@ == "md"@ ==> (r matches Ok(d) && d.title@ == "마크다운으로 내보내기"@
            && d.filter_name@ == "Markdown"@ && d.extensions@.len() == 3 && d.extensions@[0]@
            == "md"@ && d.extensions@[1]@ == "markdown"@ && d.extensions@[2]@ == "mdx"@),
        format@ == "html"@ ==> (r matches Ok(d) && d.title@ == "HTML 로 내보내기"@
            && d.filter_name@ == "HTML"@ && d.extensions@.len() == 2 && d.extensions@[0]@
            == "html"@ && d.extensions@[1]@ == "htm"@),
        format@ != "md"@ && format@ != "html"@ ==> (r matches Err(m) && m@
            == "unsupported export format: "@ + format@),
{
    proof {
        reveal_strlit("md");
        reveal_strlit("html");
    }
    if str_eq(format, "md") {
        assert("md"@.len() != "html"@.len());
        Ok(
            ExportDialog {
                title: "마크다운으로 내보내기",
                filter_name: "Markdown",
                extensions: vec!["md", "markdown", "mdx"],
            },
        )
    } else if str_eq(format, "html") {
        Ok(ExportDialog { title: "HTML 로 내보내기", filter_name: "HTML", extensions: vec!["html", "htm"] })
    } else {
        let mut m = string_of("unsupported export format: ");
        push_str(&mut m, format);
        Err(m)
    }
}

} // verus!
