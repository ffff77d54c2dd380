//! Bounded browser paths and the validated, deterministically ordered
//! browser listing returned by the host-local backend.

use vstd::prelude::*;
use vstd::utf8::encode_utf8;

use crate::application::{
    ApplicationError, BrowserEntry, MAX_BROWSER_ENTRIES, MAX_BROWSER_RELATIVE_BYTES,
    MAX_BROWSER_ROOT_BYTES, SnapshotEntity,
};
use crate::domain::Revision;
use crate::snapshot::{text_ok, validate_text};
use crate::sort::{SortKey, is_permutation, sort_by_key};
use crate::cutover::optional_view;
use crate::observer_target::text_option;
use crate::text::{chars_of, contains_unsafe_char, has_unsafe_char, owned, push_str};

verus! {

/// Position `i` begins a slash-separated component of `s`.
pub open spec fn starts_component(s: Seq<char>, i: int) -> bool {
    i == 0 || s[i - 1] == '/'
}

/// Position `j` is just past the end of a component of `s`.
pub open spec fn ends_component(s: Seq<char>, j: int) -> bool {
    j == s.len() || s[j] == '/'
}

/// The component starting at `i` is exactly `.` or `..`.
pub open spec fn dot_component_at(s: Seq<char>, i: int) -> bool {
    &&& 0 <= i < s.len()
    &&& s[i] == '.'
    &&& starts_component(s, i)
    &&& (ends_component(s, i + 1) || (i + 1 < s.len() && s[i + 1] == '.' && ends_component(
        s,
        i + 2,
    )))
}

/// Splitting `s` at every `/` yields only non-empty components other than
/// `.` and `..`.
pub open spec fn components_ok(s: Seq<char>) -> bool {
    &&& s.len() > 0
    &&& s[0] != '/'
    &&& s.last() != '/'
    &&& forall|i: int| 0 <= i < s.len() - 1 ==> !(#[trigger] s[i] == '/' && s[i + 1] == '/')
    &&& forall|i: int| 0 <= i < s.len() ==> !#[trigger] dot_component_at(s, i)
}

/// A bounded relative browser path: empty (the root), or a slash-separated
/// path of at most 1024 bytes without backslashes, control or format
/// characters, empty components, `.` or `..`.
pub open spec fn relative_path_ok(s: Seq<char>) -> bool {
    s.len() == 0 || {
        &&& (encode_utf8(s).len() as usize) <= MAX_BROWSER_RELATIVE_BYTES
        &&& !has_unsafe_char(s)
        &&& forall|i: int| 0 <= i < s.len() ==> #[trigger] s[i] != '\\'
        &&& components_ok(s)
    }
}

/// A bounded absolute browser root: `/`, or an absolute path of at most 4096
/// bytes without control or format characters, a trailing slash, empty
/// components, `.` or `..`.
pub open spec fn root_path_ok(s: Seq<char>) -> bool {
    &&& s.len() > 0
    &&& s[0] == '/'
    &&& (encode_utf8(s).len() as usize) <= MAX_BROWSER_ROOT_BYTES
    &&& !has_unsafe_char(s)
    &&& (s.len() == 1 || components_ok(s.subrange(1, s.len() as int)))
}

fn components_valid(s: &Vec<char>) -> (r: bool)
    ensures
        r == components_ok(s@),
{
    let n = s.len();
    if n == 0 || s[0] == '/' || s[n - 1] == '/' {
        return false;
    }
    let mut i: usize = 0;
    while i < n
        invariant
            n == s@.len(),
            n > 0,
            i <= n,
            forall|k: int| 0 <= k < i && k < n - 1 ==> !(#[trigger] s@[k] == '/' && s@[k + 1] == '/'),
            forall|k: int| 0 <= k < i ==> !#[trigger] dot_component_at(s@, k),
        decreases n - i,
    {
        if i + 1 < n && s[i] == '/' && s[i + 1] == '/' {
            proof {
                assert(s@[i as int] == '/' && s@[i + 1] == '/');
                assert(!components_ok(s@));
            }
            return false;
        }
        if s[i] == '.' && (i == 0 || s[i - 1] == '/') {
            let single = i + 1 == n || s[i + 1] == '/';
            let double = i + 1 < n && s[i + 1] == '.' && (i + 2 == n || s[i + 2] == '/');
            if single || double {
                proof {
                    assert(dot_component_at(s@, i as int));
                    assert(!components_ok(s@));
                }
                return false;
            }
        }
        i = i + 1;
    }
    true
}

fn contains_backslash(chars: &Vec<char>) -> (r: bool)
    ensures
        r == exists|i: int| 0 <= i < chars@.len() && #[trigger] chars@[i] == '\\',
{
    let mut i: usize = 0;
    while i < chars.len()
        invariant
            i <= chars.len(),
            forall|k: int| 0 <= k < i ==> #[trigger] chars@[k] != '\\',
        decreases chars.len() - i,
    {
        if chars[i] == '\\' {
            return true;
        }
        i = i + 1;
    }
    false
}

/// Whether `value` is a valid relative browser path.
pub fn valid_relative_path(value: &str) -> (r: bool)
    ensures
        r == relative_path_ok(value@),
{
    if value.is_empty() {
        return true;
    }
    if value.len() > MAX_BROWSER_RELATIVE_BYTES || contains_unsafe_char(value) {
        return false;
    }
    let chars = chars_of(value);
    !contains_backslash(&chars) && components_valid(&chars)
}

/// Whether `value` is a valid browser root path.
pub fn valid_browser_root_text(value: &str) -> (r: bool)
    ensures
        r == root_path_ok(value@),
{
    if value.is_empty() || value.len() > MAX_BROWSER_ROOT_BYTES || contains_unsafe_char(value) {
        return false;
    }
    let chars = chars_of(value);
    if chars[0] != '/' {
        return false;
    }
    if chars.len() == 1 {
        return true;
    }
    let mut rest: Vec<char> = Vec::new();
    let mut i: usize = 1;
    while i < chars.len()
        invariant
            1 <= i <= chars@.len(),
            rest@ == chars@.subrange(1, i as int),
        decreases chars.len() - i,
    {
        rest.push(chars[i]);
        i = i + 1;
        proof {
            assert(rest@ =~= chars@.subrange(1, i as int));
        }
    }
    components_valid(&rest)
}

/// A bounded relative path resolved only by the host-local backend.
#[derive(Debug, PartialEq, Eq, Hash, PartialOrd, Ord)]
pub struct BrowserPath(String);

impl Clone for BrowserPath {
    fn clone(&self) -> (r: BrowserPath)
        ensures
            r@ == self@,
    {
        proof {
            use_type_invariant(self);
        }
        BrowserPath(self.0.clone())
    }
}

impl View for BrowserPath {
    type V = Seq<char>;

    closed spec fn view(&self) -> Seq<char> {
        self.0@
    }
}

impl BrowserPath {
    #[verifier::type_invariant]
    closed spec fn valid(self) -> bool {
        relative_path_ok(self.0@)
    }

    /// The empty relative path at the configured browser root.
    pub fn root() -> (r: BrowserPath)
        ensures
            r@ == Seq::<char>::empty(),
    {
        BrowserPath(String::new())
    }

    /// Validates a slash-separated relative path without canonicalizing it.
    pub fn new(value: String) -> (r: Result<BrowserPath, ApplicationError>)
        ensures
            r is Ok <==> relative_path_ok(value@),
            r matches Ok(path) ==> path@ == value@,
            r matches Err(e) ==> e == ApplicationError::InvalidBrowserPath,
    {
        if valid_relative_path(value.as_str()) {
            Ok(BrowserPath(value))
        } else {
            Err(ApplicationError::InvalidBrowserPath)
        }
    }

    /// The bounded relative path for backend resolution.
    pub fn as_str(&self) -> (r: &str)
        ensures
            r@ == self@,
            relative_path_ok(r@),
    {
        proof {
            use_type_invariant(self);
        }
        self.0.as_str()
    }
}

impl Default for BrowserPath {
    fn default() -> (r: BrowserPath)
        ensures
            r@ == Seq::<char>::empty(),
    {
        BrowserPath::root()
    }
}

/// A bounded host-local browser root path; request-only.
#[derive(Debug, PartialEq, Eq, Hash, PartialOrd, Ord)]
pub struct BrowserRootPath(String);

impl Clone for BrowserRootPath {
    fn clone(&self) -> (r: BrowserRootPath)
        ensures
            r@ == self@,
    {
        proof {
            use_type_invariant(self);
        }
        BrowserRootPath(self.0.clone())
    }
}

impl View for BrowserRootPath {
    type V = Seq<char>;

    closed spec fn view(&self) -> Seq<char> {
        self.0@
    }
}

impl BrowserRootPath {
    #[verifier::type_invariant]
    closed spec fn valid(self) -> bool {
        root_path_ok(self.0@)
    }

    /// Validates one bounded root path without canonicalizing it.
    pub fn new(value: String) -> (r: Result<BrowserRootPath, ApplicationError>)
        ensures
            r is Ok <==> root_path_ok(value@),
            r matches Ok(path) ==> path@ == value@,
            r matches Err(e) ==> e == ApplicationError::InvalidBrowserPath,
    {
        if valid_browser_root_text(value.as_str()) {
            Ok(BrowserRootPath(value))
        } else {
            Err(ApplicationError::InvalidBrowserPath)
        }
    }

    /// The bounded host-local root path for the backend.
    pub fn as_str(&self) -> (r: &str)
        ensures
            r@ == self@,
            root_path_ok(r@),
    {
        proof {
            use_type_invariant(self);
        }
        self.0.as_str()
    }
}


/// Code-point lexicographic order on texts (the order of their UTF-8 bytes).
pub open spec fn text_le(a: Seq<char>, b: Seq<char>) -> bool
    decreases a.len(),
{
    if a.len() == 0 {
        true
    } else if b.len() == 0 {
        false
    } else if a[0] != b[0] {
        (a[0] as int) < (b[0] as int)
    } else {
        text_le(a.drop_first(), b.drop_first())
    }
}

pub proof fn lemma_text_le_total(a: Seq<char>, b: Seq<char>)
    ensures
        text_le(a, b) || text_le(b, a),
    decreases a.len(),
{
    if a.len() > 0 && b.len() > 0 {
        if a[0] == b[0] {
            lemma_text_le_total(a.drop_first(), b.drop_first());
        } else {
            assert((a[0] as int) != (b[0] as int));
        }
    }
}

pub proof fn lemma_text_le_transitive(a: Seq<char>, b: Seq<char>, c: Seq<char>)
    requires
        text_le(a, b),
        text_le(b, c),
    ensures
        text_le(a, c),
    decreases a.len(),
{
    if a.len() > 0 && b.len() > 0 && c.len() > 0 && a[0] == b[0] && b[0] == c[0] {
        lemma_text_le_transitive(a.drop_first(), b.drop_first(), c.drop_first());
    }
}

proof fn char_cast_exact(c: char)
    ensures
        (c as u32) as int == c as int,
{
}

/// Compares two texts in code-point lexicographic order.
pub fn compare_text_le(a: &str, b: &str) -> (r: bool)
    ensures
        r == text_le(a@, b@),
{
    let x = chars_of(a);
    let y = chars_of(b);
    let mut i: usize = 0;
    proof {
        assert(a@.skip(0) =~= a@);
        assert(b@.skip(0) =~= b@);
    }
    while i < x.len() && i < y.len() && x[i] == y[i]
        invariant
            x@ == a@,
            y@ == b@,
            i <= x@.len(),
            i <= y@.len(),
            text_le(a@, b@) == text_le(a@.skip(i as int), b@.skip(i as int)),
        decreases x.len() - i,
    {
        proof {
            assert(a@.skip(i as int).drop_first() =~= a@.skip(i + 1));
            assert(b@.skip(i as int).drop_first() =~= b@.skip(i + 1));
        }
        i = i + 1;
    }
    if i == x.len() {
        return true;
    }
    if i == y.len() {
        return false;
    }
    let c = x[i];
    let d = y[i];
    proof {
        let sa = a@.skip(i as int);
        let sb = b@.skip(i as int);
        assert(sa[0] == c);
        assert(sb[0] == d);
        assert(text_le(sa, sb) == ((sa[0] as int) < (sb[0] as int)));
        char_cast_exact(c);
        char_cast_exact(d);
    }
    (c as u32) < (d as u32)
}

/// What the crate's `str::to_lowercase` returns for a text: its full Unicode
/// lower-case mapping, which is left to the standard library.
pub uninterp spec fn lowercase_of(text: Seq<char>) -> Seq<char>;

/// `str::to_lowercase`: the Unicode lower-case mapping of the text.
#[verifier::external_body]
fn lowercase(text: &str) -> (r: String)
    ensures
        r@ == lowercase_of(text@),
{
    text.to_lowercase()
}

/// A safe direct-child entry name.
pub open spec fn entry_name_ok(s: Seq<char>) -> bool {
    &&& s.len() > 0
    &&& (encode_utf8(s).len() as usize) <= MAX_BROWSER_RELATIVE_BYTES
    &&& forall|i: int| 0 <= i < s.len() ==> #[trigger] s[i] != '/' && s[i] != '\\'
    &&& s != seq!['.']
    &&& s != seq!['.', '.']
    &&& !has_unsafe_char(s)
}

/// Rank 0 sorts first: Git repositories, then (when hidden entries are
/// listed) hidden entries.
pub open spec fn git_rank(e: BrowserEntry) -> u8 {
    if e.is_git_repository {
        0
    } else {
        1
    }
}

pub open spec fn hidden_rank(include_hidden: bool, e: BrowserEntry) -> u8 {
    if include_hidden && e.name@.len() > 0 && e.name@[0] == '.' {
        0
    } else {
        1
    }
}

/// The listing order: Git repositories first, then hidden entries when they
/// are listed, then by lower-cased name, then by name.
pub open spec fn entry_le(include_hidden: bool, a: BrowserEntry, b: BrowserEntry) -> bool {
    ||| git_rank(a) < git_rank(b)
    ||| git_rank(a) == git_rank(b) && hidden_rank(include_hidden, a) < hidden_rank(include_hidden, b)
    ||| git_rank(a) == git_rank(b) && hidden_rank(include_hidden, a) == hidden_rank(include_hidden, b)
        && lowercase_of(a.name@) != lowercase_of(b.name@) && text_le(
        lowercase_of(a.name@),
        lowercase_of(b.name@),
    )
    ||| git_rank(a) == git_rank(b) && hidden_rank(include_hidden, a) == hidden_rank(include_hidden, b)
        && lowercase_of(a.name@) == lowercase_of(b.name@) && text_le(a.name@, b.name@)
}

pub open spec fn entries_sorted(include_hidden: bool, es: Seq<BrowserEntry>) -> bool {
    forall|i: int, j: int| #![trigger es[i], es[j]] 0 <= i < j < es.len() ==> entry_le(include_hidden, es[i], es[j])
}

struct KeyedEntry {
    include_hidden: Ghost<bool>,
    git: u8,
    hidden: u8,
    folded: String,
    entry: BrowserEntry,
}

spec fn keyed_ok(k: KeyedEntry, include_hidden: bool) -> bool {
    &&& k.include_hidden@ == include_hidden
    &&& k.git == git_rank(k.entry)
    &&& k.hidden == hidden_rank(include_hidden, k.entry)
    &&& k.folded@ == lowercase_of(k.entry.name@)
}

impl SortKey for KeyedEntry {
    closed spec fn key_le(&self, other: &Self) -> bool {
        ||| self.git < other.git
        ||| self.git == other.git && self.hidden < other.hidden
        ||| self.git == other.git && self.hidden == other.hidden && self.folded@ != other.folded@
            && text_le(self.folded@, other.folded@)
        ||| self.git == other.git && self.hidden == other.hidden && self.folded@ == other.folded@
            && text_le(self.entry.name@, other.entry.name@)
    }

    fn le(&self, other: &Self) -> (r: bool) {
        if self.git != other.git {
            return self.git < other.git;
        }
        if self.hidden != other.hidden {
            return self.hidden < other.hidden;
        }
        let a = compare_text_le(self.folded.as_str(), other.folded.as_str());
        let b = compare_text_le(other.folded.as_str(), self.folded.as_str());
        if a && b {
            proof {
                lemma_text_le_antisymmetric(self.folded@, other.folded@);
            }
            compare_text_le(self.entry.name.as_str(), other.entry.name.as_str())
        } else {
            proof {
                if self.folded@ == other.folded@ {
                    lemma_text_le_total(self.folded@, other.folded@);
                }
            }
            a
        }
    }

    proof fn lemma_key_le_total(a: &Self, b: &Self) {
        lemma_text_le_total(a.folded@, b.folded@);
        lemma_text_le_total(a.entry.name@, b.entry.name@);
    }

    proof fn lemma_key_le_transitive(a: &Self, b: &Self, c: &Self) {
        if a.git == b.git && b.git == c.git && a.hidden == b.hidden && b.hidden == c.hidden {
            if a.folded@ == b.folded@ && b.folded@ == c.folded@ {
                lemma_text_le_transitive(a.entry.name@, b.entry.name@, c.entry.name@);
            } else {
                if a.folded@ != b.folded@ && b.folded@ != c.folded@ {
                    lemma_text_le_transitive(a.folded@, b.folded@, c.folded@);
                    if a.folded@ == c.folded@ {
                        lemma_text_le_antisymmetric(a.folded@, b.folded@);
                    }
                }
            }
        }
    }
}

pub proof fn lemma_text_le_antisymmetric(a: Seq<char>, b: Seq<char>)
    requires
        text_le(a, b),
        text_le(b, a),
    ensures
        a == b,
    decreases a.len(),
{
    if a.len() > 0 && b.len() > 0 {
        lemma_text_le_antisymmetric(a.drop_first(), b.drop_first());
        assert(a =~= seq![a[0]] + a.drop_first());
        assert(b =~= seq![b[0]] + b.drop_first());
    }
}

fn starts_with_dot(name: &str) -> (r: bool)
    ensures
        r == (name@.len() > 0 && name@[0] == '.'),
{
    if name.unicode_len() == 0 {
        false
    } else {
        name.get_char(0) == '.'
    }
}

fn keyed_entry(entry: BrowserEntry, include_hidden: bool) -> (r: KeyedEntry)
    ensures
        keyed_ok(r, include_hidden),
        r.entry == entry,
{
    let git: u8 = if entry.is_git_repository {
        0
    } else {
        1
    };
    let hidden: u8 = if include_hidden && starts_with_dot(entry.name.as_str()) {
        0
    } else {
        1
    };
    let folded = lowercase(entry.name.as_str());
    KeyedEntry { include_hidden: Ghost(include_hidden), git, hidden, folded, entry }
}

/// The entries in listing order.
pub fn sort_browser_entries(entries: Vec<BrowserEntry>, include_hidden: bool) -> (r: Vec<BrowserEntry>)
    ensures
        entries_sorted(include_hidden, r@),
        is_permutation(r@, entries@),
{
    let ghost given = entries@;
    let mut rest = entries;
    let mut keyed: Vec<KeyedEntry> = Vec::new();
    while rest.len() > 0
        invariant
            keyed@.len() + rest@.len() == given.len(),
            rest@ == given.subrange(keyed@.len() as int, given.len() as int),
            forall|k: int|
                0 <= k < keyed@.len() ==> keyed_ok(#[trigger] keyed@[k], include_hidden)
                    && keyed@[k].entry == given[k],
        decreases rest@.len(),
    {
        let e = rest.remove(0);
        let ghost before = keyed@;
        keyed.push(keyed_entry(e, include_hidden));
        proof {
            assert forall|k: int|
                0 <= k < keyed@.len() implies keyed_ok(#[trigger] keyed@[k], include_hidden)
                && keyed@[k].entry == given[k] by {
                if k < before.len() {
                    assert(keyed@[k] == before[k]);
                }
            }
        }
    }
    let ghost unsorted = keyed@;
    let mut sorted = sort_by_key(keyed);
    let ghost sorted_view = sorted@;
    let ghost perm = choose|perm: Seq<int>| crate::sort::permutes(sorted_view, unsorted, perm);
    proof {
        assert forall|k: int| 0 <= k < sorted_view.len() implies keyed_ok(
            #[trigger] sorted_view[k],
            include_hidden,
        ) && sorted_view[k].entry == given[perm[k]] by {
            assert(sorted_view[k] == unsorted[perm[k]]);
        }
    }
    let mut out: Vec<BrowserEntry> = Vec::new();
    let mut k: usize = 0;
    let n = sorted.len();
    while k < n
        invariant
            n == sorted_view.len(),
            k <= n,
            sorted@ == sorted_view.subrange(k as int, n as int),
            out@.len() == k,
            forall|m: int| 0 <= m < k ==> #[trigger] out@[m] == sorted_view[m].entry,
        decreases n - k,
    {
        let item = sorted.remove(0);
        out.push(item.entry);
        k = k + 1;
        proof {
            assert(sorted@ =~= sorted_view.subrange(k as int, n as int));
        }
    }
    proof {
        assert forall|i: int, j: int|
            #![trigger out@[i], out@[j]]
            0 <= i < j < out@.len() implies entry_le(include_hidden, out@[i], out@[j]) by {
            assert(sorted_view[i].key_le(&sorted_view[j]));
            assert(keyed_ok(sorted_view[i], include_hidden));
            assert(keyed_ok(sorted_view[j], include_hidden));
        }
        assert forall|m: int| 0 <= m < perm.len() implies 0 <= #[trigger] perm[m] < given.len()
            && out@[m] == given[perm[m]] by {
            assert(sorted_view[m].entry == given[perm[m]]);
        }
        assert(crate::sort::permutes(out@, given, perm));
    }
    out
}

/// Result of an explicit bounded browser-list action.
#[derive(Clone, Debug, PartialEq, Eq)]
pub struct BrowserListing {
    pub root_label: String,
    pub relative_path: BrowserPath,
    pub include_hidden: bool,
    pub entries: Vec<BrowserEntry>,
    pub revision: Revision,
}

/// Why a listing returned by the backend is refused, in check order.
pub open spec fn listing_error(listing: BrowserListing) -> Option<ApplicationError> {
    if !text_ok(listing.root_label@) {
        Some(ApplicationError::InvalidSnapshotEntity { entity: SnapshotEntity::DisplayText })
    } else if listing.entries@.len() > MAX_BROWSER_ENTRIES {
        Some(ApplicationError::InvalidBrowserListing)
    } else if exists|i: int|
        0 <= i < listing.entries@.len() && !entry_name_ok((#[trigger] listing.entries@[i]).name@) {
        Some(ApplicationError::InvalidBrowserListing)
    } else {
        None
    }
}

fn entry_name_valid(name: &str) -> (r: bool)
    ensures
        r == entry_name_ok(name@),
{
    if name.is_empty() || name.len() > MAX_BROWSER_RELATIVE_BYTES || contains_unsafe_char(name) {
        return false;
    }
    let chars = chars_of(name);
    let mut i: usize = 0;
    while i < chars.len()
        invariant
            chars@ == name@,
            i <= chars@.len(),
            forall|k: int| 0 <= k < i ==> #[trigger] chars@[k] != '/' && chars@[k] != '\\',
        decreases chars.len() - i,
    {
        if chars[i] == '/' || chars[i] == '\\' {
            return false;
        }
        i = i + 1;
    }
    if chars.len() == 1 && chars[0] == '.' {
        proof {
            assert(name@ =~= seq!['.']);
        }
        return false;
    }
    if chars.len() == 2 && chars[0] == '.' && chars[1] == '.' {
        proof {
            assert(name@ =~= seq!['.', '.']);
        }
        return false;
    }
    true
}

/// Validates a backend listing and puts its entries in listing order; a
/// refused listing is left as it was.
pub fn validate_and_sort_browser_listing(listing: &mut BrowserListing) -> (r: Result<
    (),
    ApplicationError,
>)
    ensures
        r == (match listing_error(*old(listing)) {
            Some(e) => Err(e),
            None => Ok::<(), ApplicationError>(()),
        }),
        r is Err ==> *final(listing) == *old(listing),
        r is Ok ==> final(listing).root_label == old(listing).root_label
            && final(listing).relative_path == old(listing).relative_path
            && final(listing).include_hidden == old(listing).include_hidden
            && final(listing).revision == old(listing).revision
            && entries_sorted(old(listing).include_hidden, final(listing).entries@)
            && is_permutation(final(listing).entries@, old(listing).entries@),
{
    if validate_text(listing.root_label.as_str(), SnapshotEntity::DisplayText).is_err() {
        return Err(ApplicationError::InvalidSnapshotEntity { entity: SnapshotEntity::DisplayText });
    }
    if listing.entries.len() > MAX_BROWSER_ENTRIES {
        return Err(ApplicationError::InvalidBrowserListing);
    }
    let mut i: usize = 0;
    while i < listing.entries.len()
        invariant
            *listing == *old(listing),
            text_ok(listing.root_label@),
            listing.entries@.len() <= MAX_BROWSER_ENTRIES,
            i <= listing.entries@.len(),
            forall|k: int| 0 <= k < i ==> entry_name_ok((#[trigger] listing.entries@[k]).name@),
        decreases listing.entries@.len() - i,
    {
        if !entry_name_valid(listing.entries[i].name.as_str()) {
            proof {
                assert(!entry_name_ok(listing.entries@[i as int].name@));
            }
            return Err(ApplicationError::InvalidBrowserListing);
        }
        i = i + 1;
    }
    let mut entries: Vec<BrowserEntry> = Vec::new();
    std::mem::swap(&mut entries, &mut listing.entries);
    listing.entries = sort_browser_entries(entries, listing.include_hidden);
    Ok(())
}


/// A configured Codex home: an absolute path of at most 4096 bytes without
/// control or format characters and without a `..` component (`.`
/// components are not path components of an absolute path).
pub open spec fn codex_home_ok(s: Seq<char>) -> bool {
    &&& s.len() > 0
    &&& s[0] == '/'
    &&& (encode_utf8(s).len() as usize) <= MAX_BROWSER_ROOT_BYTES
    &&& !has_unsafe_char(s)
    &&& forall|i: int| 0 <= i < s.len() ==> !#[trigger] parent_component_at(s, i)
}

/// The component starting at `i` is exactly `..`.
pub open spec fn parent_component_at(s: Seq<char>, i: int) -> bool {
    &&& 0 <= i
    &&& i + 1 < s.len()
    &&& s[i] == '.'
    &&& s[i + 1] == '.'
    &&& starts_component(s, i)
    &&& ends_component(s, i + 2)
}

/// Whether a configured Codex home text is acceptable; a home that is not
/// valid Unicode is refused before this check.
pub fn valid_configured_codex_home(path: &str) -> (r: bool)
    ensures
        r == codex_home_ok(path@),
{
    if path.is_empty() || path.len() > MAX_BROWSER_ROOT_BYTES || contains_unsafe_char(path) {
        return false;
    }
    let s = chars_of(path);
    if s[0] != '/' {
        return false;
    }
    let n = s.len();
    let mut i: usize = 0;
    while i < n
        invariant
            s@ == path@,
            n == s@.len(),
            i <= n,
            forall|k: int| 0 <= k < i ==> !#[trigger] parent_component_at(s@, k),
        decreases n - i,
    {
        if i + 1 < n && s[i] == '.' && s[i + 1] == '.' && (i == 0 || s[i - 1] == '/') && (i + 2 == n
            || s[i + 2] == '/') {
            proof {
                assert(parent_component_at(s@, i as int));
            }
            return false;
        }
        i = i + 1;
    }
    true
}

/// What `Path::file_name` gives for a path, as text when it is UTF-8.
pub uninterp spec fn path_file_name_of(path: Seq<char>) -> Option<Seq<char>>;

/// `std::path::Path::file_name`: the final normal component, if any.
#[verifier::external_body]
pub(crate) fn path_file_name(path: &str) -> (r: Option<String>)
    ensures
        text_option(r) == path_file_name_of(path@),
{
    std::path::Path::new(path).file_name().and_then(|name| name.to_str()).map(str::to_owned)
}

/// What `Path::strip_prefix` leaves of a path under a base, if the base's
/// components are a prefix of the path's.
pub uninterp spec fn path_strip_prefix_of(path: Seq<char>, base: Seq<char>) -> Option<Seq<char>>;

/// `std::path::Path::strip_prefix`: the rest of the path under the base.
#[verifier::external_body]
fn path_strip_prefix(path: &str, base: &str) -> (r: Option<String>)
    ensures
        text_option(r) == path_strip_prefix_of(path@, base@),
{
    std::path::Path::new(path).strip_prefix(base).ok().map(|rest| rest.to_string_lossy().into_owned())
}

/// The label the browser root is shown by: `~` or `~/...` under the home
/// directory, `custom root · <name>` elsewhere, and the root's own name, or a
/// generic label, when no home directory is known.
pub open spec fn browser_root_label_of(root: Seq<char>, home: Option<Seq<char>>) -> Seq<char> {
    match home {
        None => match path_file_name_of(root) {
            Some(name) => name,
            None => "project root"@,
        },
        Some(h) => match path_strip_prefix_of(root, h) {
            Some(relative) => if relative.len() == 0 {
                "~"@
            } else {
                "~/"@ + relative
            },
            None => match path_file_name_of(root) {
                Some(name) => "custom root · "@ + name,
                None => "custom project root"@,
            },
        },
    }
}

/// Labels the browser root, as `browser_root_label_of` states.
pub fn browser_root_label(root: &str, home: Option<&str>) -> (r: String)
    ensures
        r@ == browser_root_label_of(root@, optional_view(home)),
{
    match home {
        None => match path_file_name(root) {
            Some(name) => name,
            None => owned("project root"),
        },
        Some(h) => match path_strip_prefix(root, h) {
            Some(relative) => {
                if relative.as_str().is_empty() {
                    owned("~")
                } else {
                    let mut label = owned("~/");
                    push_str(&mut label, relative.as_str());
                    label
                }
            },
            None => match path_file_name(root) {
                Some(name) => {
                    let mut label = owned("custom root · ");
                    push_str(&mut label, name.as_str());
                    label
                },
                None => owned("custom project root"),
            },
        },
    }
}

} // verus!
