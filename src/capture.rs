//! The capture registry: which files of the capture directory are captures,
//! how each is paired with its sidecar metadata, and the order of a listing.
use vstd::prelude::*;
use vstd::string::*;
use vstd::seq_lib::*;
use vstd::multiset::Multiset;

verus! {

/// The kind of a capture, taken from its file extension.
#[derive(Debug, Clone, Copy, PartialEq, Eq, Structural)]
pub enum CaptureKind {
    Image,
    Text,
}

impl CaptureKind {
    /// The label of the kind as the presentation layer sees it.
    pub fn label(&self) -> (r: String)
        ensures
            r@ == kind_label(*self),
    {
        match self {
            CaptureKind::Image => String::from_str("image"),
            CaptureKind::Text => String::from_str("text"),
        }
    }
}

pub open spec fn kind_label(k: CaptureKind) -> Seq<char> {
    match k {
        CaptureKind::Image => "image"@,
        CaptureKind::Text => "text"@,
    }
}

/// Width and height of an image, each kept as the bit pattern of the
/// double-precision number the producer wrote.
#[derive(Debug, Clone, PartialEq, Eq)]
pub struct Dimensions {
    pub width_bits: u64,
    pub height_bits: u64,
}

/// The optional details of a metadata record.
#[derive(Debug, Clone, PartialEq, Eq)]
pub struct MetadataDetails {
    pub dimensions: Option<Dimensions>,
    pub application_name: Option<String>,
    pub window_title: Option<String>,
    pub clipboard_type: Option<String>,
}

/// A sidecar metadata record, as the producer wrote it. Its `capture_type`
/// and `file_size` are the producer's and are not checked against the file.
#[derive(Debug, Clone, PartialEq, Eq)]
pub struct CaptureMetadata {
    pub id: String,
    pub timestamp: String,
    pub capture_type: String,
    pub filename: String,
    pub file_extension: String,
    pub file_size: i64,
    pub metadata: MetadataDetails,
}

/// What was found of the sidecar `<name>.json` of a file.
#[derive(Debug, Clone, PartialEq, Eq)]
pub enum Sidecar {
    /// There is no sidecar.
    Absent,
    /// The sidecar exists but could not be read or did not parse.
    Unusable,
    /// The sidecar exists and parsed.
    Parsed(CaptureMetadata),
}

/// A regular file of the capture directory, with what was read of it.
#[derive(Debug, Clone, PartialEq, Eq)]
pub struct ScannedFile {
    pub name: String,
    pub path: String,
    /// Seconds since the epoch.
    pub modified: u64,
    /// Bytes.
    pub size: u64,
    pub sidecar: Sidecar,
}

/// One entry of a listing.
#[derive(Debug, Clone, PartialEq, Eq)]
pub struct CaptureFile {
    pub name: String,
    pub path: String,
    pub modified: u64,
    pub size: u64,
    pub capture_type: CaptureKind,
    pub has_metadata: bool,
    pub metadata: Option<CaptureMetadata>,
}

/// `c` is the lower-case ASCII letter or sign `l`, in either case.
pub open spec fn same_ignoring_case(c: char, l: char) -> bool {
    c == l || ('A' as u32 <= c as u32 <= 'Z' as u32 && c as u32 + 32 == l as u32)
}

/// `s` ends with the lower-case `suffix`, letters compared in either case.
pub open spec fn ends_with_ignoring_case(s: Seq<char>, suffix: Seq<char>) -> bool {
    &&& suffix.len() <= s.len()
    &&& forall|i: int|
        0 <= i < suffix.len() ==> same_ignoring_case(
            #[trigger] s[s.len() - suffix.len() + i],
            suffix[i],
        )
}

pub open spec fn is_image_name(name: Seq<char>) -> bool {
    ||| ends_with_ignoring_case(name, ".png"@)
    ||| ends_with_ignoring_case(name, ".jpg"@)
    ||| ends_with_ignoring_case(name, ".jpeg"@)
    ||| ends_with_ignoring_case(name, ".gif"@)
    ||| ends_with_ignoring_case(name, ".bmp"@)
    ||| ends_with_ignoring_case(name, ".webp"@)
}

/// The kind of capture that a file of this name is, if it is one at all.
pub open spec fn kind_of(name: Seq<char>) -> Option<CaptureKind> {
    if is_image_name(name) {
        Some(CaptureKind::Image)
    } else if ends_with_ignoring_case(name, ".txt"@) {
        Some(CaptureKind::Text)
    } else {
        None
    }
}

/// The name of the sidecar metadata file of the file `name`.
pub open spec fn sidecar_of(name: Seq<char>) -> Seq<char> {
    name + ".json"@
}

/// The listing entry of a scanned file of kind `k`.
pub open spec fn entry_of(f: ScannedFile, k: CaptureKind) -> CaptureFile {
    CaptureFile {
        name: f.name,
        path: f.path,
        modified: f.modified,
        size: f.size,
        capture_type: k,
        has_metadata: !(f.sidecar is Absent),
        metadata: match f.sidecar {
            Sidecar::Parsed(m) => Some(m),
            _ => None,
        },
    }
}

/// The entries of the captures among `files`, in the order of `files`.
pub open spec fn listed(files: Seq<ScannedFile>) -> Seq<CaptureFile>
    decreases files.len(),
{
    if files.len() == 0 {
        Seq::empty()
    } else {
        let before = listed(files.drop_last());
        match kind_of(files.last().name@) {
            Some(k) => before.push(entry_of(files.last(), k)),
            None => before,
        }
    }
}

/// Newest first: no entry is older than one after it.
pub open spec fn newest_first(entries: Seq<CaptureFile>) -> bool {
    forall|i: int, j: int|
        0 <= i < j < entries.len() ==> entries[i].modified >= entries[j].modified
}

/// `r` is a listing of `files`: the entries of their captures, each once,
/// newest first.
pub open spec fn is_listing_of(r: Seq<CaptureFile>, files: Seq<ScannedFile>) -> bool {
    &&& r.to_multiset() == listed(files).to_multiset()
    &&& newest_first(r)
}

/// Whether `s` ends with the lower-case `suffix`, letters compared in either case.
fn ends_with_ci(s: &str, suffix: &str) -> (r: bool)
    ensures
        r == ends_with_ignoring_case(s@, suffix@),
{
    let n = s.unicode_len();
    let m = suffix.unicode_len();
    if m > n {
        return false;
    }
    let start = n - m;
    let mut i: usize = 0;
    while i < m
        invariant
            n == s@.len(),
            m == suffix@.len(),
            start == n - m,
            i <= m,
            forall|k: int| 0 <= k < i ==> same_ignoring_case(
                #[trigger] s@[s@.len() - suffix@.len() + k],
                suffix@[k],
            ),
        decreases m - i,
    {
        let c = s.get_char(start + i);
        let l = suffix.get_char(i);
        let upper = 'A' as u32 <= c as u32 && c as u32 <= 'Z' as u32;
        if !(c == l || (upper && c as u32 + 32 == l as u32)) {
            return false;
        }
        i = i + 1;
    }
    true
}

/// The kind of capture that a file named `name` is: an image for the
/// extensions png, jpg, jpeg, gif, bmp and webp, text for txt, in any case;
/// `None` for any other file, which is no capture.
pub fn classify(name: &str) -> (r: Option<CaptureKind>)
    ensures
        r == kind_of(name@),
{
    if ends_with_ci(name, ".png") || ends_with_ci(name, ".jpg") || ends_with_ci(name, ".jpeg")
        || ends_with_ci(name, ".gif") || ends_with_ci(name, ".bmp") || ends_with_ci(name, ".webp") {
        Some(CaptureKind::Image)
    } else if ends_with_ci(name, ".txt") {
        Some(CaptureKind::Text)
    } else {
        None
    }
}

/// The name of the sidecar metadata file of the file `name`: `<name>.json`.
pub fn sidecar_name(name: &str) -> (r: String)
    ensures
        r@ == sidecar_of(name@),
{
    String::from_str(name).concat(".json")
}

/// The listing entry of the scanned file `f`, a capture of kind `k`.
pub fn capture_entry(f: ScannedFile, k: CaptureKind) -> (r: CaptureFile)
    ensures
        r == entry_of(f, k),
{
    let has_metadata = !matches!(f.sidecar, Sidecar::Absent);
    let metadata = match f.sidecar {
        Sidecar::Parsed(m) => Some(m),
        _ => None,
    };
    CaptureFile {
        name: f.name,
        path: f.path,
        modified: f.modified,
        size: f.size,
        capture_type: k,
        has_metadata,
        metadata,
    }
}

/// Puts `e` into the newest-first `out`, after every entry as new as it.
fn insert_newest_first(out: &mut Vec<CaptureFile>, e: CaptureFile)
    requires
        newest_first(old(out)@),
    ensures
        newest_first(final(out)@),
        final(out)@.to_multiset() == old(out)@.to_multiset().insert(e),
{
    let mut p: usize = 0;
    while p < out.len() && out[p].modified >= e.modified
        invariant
            p <= out@.len(),
            forall|k: int| 0 <= k < p ==> (#[trigger] out@[k]).modified >= e.modified,
        decreases out@.len() - p,
    {
        p = p + 1;
    }
    proof {
        to_multiset_insert(out@, p as int, e);
    }
    let ghost before = out@;
    out.insert(p, e);
    assert forall|i: int, j: int| 0 <= i < j < out@.len() implies out@[i].modified
        >= out@[j].modified by {
        if p < before.len() {
            assert(before[p as int].modified < out@[p as int].modified);
        }
    }
}

/// The listing of the regular files `files` of the capture directory: one
/// entry for each file that is a capture, none for the others, newest first.
/// Entries of equal age come in no promised order.
pub fn build_listing(files: Vec<ScannedFile>) -> (r: Vec<CaptureFile>)
    ensures
        is_listing_of(r@, files@),
{
    let ghost all = files@;
    let mut files = files;
    let mut out: Vec<CaptureFile> = Vec::new();
    proof {
        broadcast use group_to_multiset_ensures;
        assert(out@.to_multiset() =~= Multiset::empty());
        assert(listed(all).to_multiset() =~= listed(files@).to_multiset().add(out@.to_multiset()));
    }
    while files.len() > 0
        invariant
            listed(all).to_multiset() == listed(files@).to_multiset().add(out@.to_multiset()),
            newest_first(out@),
        decreases files@.len(),
    {
        let ghost rest = files@;
        let f = files.pop().unwrap();
        assert(files@ == rest.drop_last() && f == rest.last());
        match classify(f.name.as_str()) {
            Some(k) => {
                let e = capture_entry(f, k);
                let ghost out0 = out@;
                insert_newest_first(&mut out, e);
                proof {
                    to_multiset_build(listed(files@), e);
                    assert(listed(all).to_multiset() =~= listed(files@).to_multiset().add(
                        out@.to_multiset(),
                    ));
                }
            },
            None => {},
        }
    }
    proof {
        broadcast use group_to_multiset_ensures;
        assert(listed(files@).to_multiset() =~= Multiset::empty());
        assert(listed(all).to_multiset() =~= out@.to_multiset());
    }
    out
}

/// The entries of a sequence of captures name the files in their order.
proof fn lemma_listed_names(files: Seq<ScannedFile>)
    requires
        forall|i: int| 0 <= i < files.len() ==> (#[trigger] kind_of(files[i].name@)) is Some,
    ensures
        listed(files).map_values(|e: CaptureFile| e.name@) =~= files.map_values(
            |f: ScannedFile| f.name@,
        ),
    decreases files.len(),
{
    if files.len() > 0 {
        let front = files.drop_last();
        assert forall|i: int| 0 <= i < front.len() implies (#[trigger] kind_of(
            front[i].name@,
        )) is Some by {
            assert(front[i] == files[i]);
        }
        lemma_listed_names(front);
        let last = files[files.len() - 1];
        assert(kind_of(last.name@) is Some);
        let e = entry_of(last, kind_of(last.name@)->Some_0);
        assert(listed(files) == listed(front).push(e));
        assert(files.map_values(|f: ScannedFile| f.name@) =~= front.map_values(
            |f: ScannedFile| f.name@,
        ).push(last.name@));
        assert(listed(files).map_values(|e: CaptureFile| e.name@) =~= listed(front).map_values(
            |e: CaptureFile| e.name@,
        ).push(e.name@));
    }
}

/// Every capture among `files` has its entry in `listed(files)`.
proof fn lemma_listed_contains(files: Seq<ScannedFile>, i: int)
    requires
        0 <= i < files.len(),
        kind_of(files[i].name@) is Some,
    ensures
        listed(files).contains(entry_of(files[i], kind_of(files[i].name@)->Some_0)),
    decreases files.len(),
{
    let e = entry_of(files[i], kind_of(files[i].name@)->Some_0);
    let front = files.drop_last();
    if i == files.len() - 1 {
        assert(listed(files).last() == e);
    } else {
        assert(front[i] == files[i]);
        lemma_listed_contains(front, i);
        let j = choose|j: int| 0 <= j < listed(front).len() && listed(front)[j] == e;
        assert(listed(files)[j] == e);
    }
}

/// Sequences with the same elements, counted with multiplicity, still have
/// them after the same map.
proof fn lemma_map_keeps_multiset<A, B>(s1: Seq<A>, s2: Seq<A>, f: spec_fn(A) -> B)
    requires
        s1.to_multiset() == s2.to_multiset(),
    ensures
        s1.map_values(f).to_multiset() == s2.map_values(f).to_multiset(),
    decreases s1.len(),
{
    broadcast use group_to_multiset_ensures;

    if s1.len() == 0 {
        to_multiset_len(s2);
        assert(s2.len() == 0);
        assert(s1.map_values(f) =~= s2.map_values(f));
    } else {
        let x = s1.last();
        let front = s1.drop_last();
        to_multiset_build(front, x);
        assert(front.push(x) =~= s1);
        assert(s2.to_multiset().count(x) > 0);
        assert(s2.contains(x));
        let k = choose|k: int| 0 <= k < s2.len() && s2[k] == x;
        to_multiset_remove(s2, k);
        assert(front.to_multiset() =~= s1.to_multiset().remove(x));
        lemma_map_keeps_multiset(front, s2.remove(k), f);
        assert(s1.map_values(f) =~= front.map_values(f).push(f(x)));
        to_multiset_build(front.map_values(f), f(x));
        assert(s2.map_values(f) =~= s2.remove(k).map_values(f).insert(k, f(x)));
        to_multiset_insert(s2.remove(k).map_values(f), k, f(x));
    }
}

/// A listing of a directory whose files are all captures, and have distinct
/// names as a directory's files do, has one entry for each file: its names,
/// counted with multiplicity, are the files' names, and no two are the same.
pub proof fn lemma_one_entry_per_file(files: Seq<ScannedFile>, r: Seq<CaptureFile>)
    requires
        forall|i: int| 0 <= i < files.len() ==> (#[trigger] kind_of(files[i].name@)) is Some,
        files.map_values(|f: ScannedFile| f.name@).no_duplicates(),
        is_listing_of(r, files),
    ensures
        r.len() == files.len(),
        r.map_values(|e: CaptureFile| e.name@).to_multiset() == files.map_values(
            |f: ScannedFile| f.name@,
        ).to_multiset(),
        r.map_values(|e: CaptureFile| e.name@).no_duplicates(),
{
    lemma_names_match(files, r);
    let fnames = files.map_values(|f: ScannedFile| f.name@);
    let rnames = r.map_values(|e: CaptureFile| e.name@);
    fnames.lemma_multiset_has_no_duplicates();
    rnames.lemma_multiset_has_no_duplicates_conv();
}

/// The names of a listing of captures-only files are the files' names.
proof fn lemma_names_match(files: Seq<ScannedFile>, r: Seq<CaptureFile>)
    requires
        forall|i: int| 0 <= i < files.len() ==> (#[trigger] kind_of(files[i].name@)) is Some,
        is_listing_of(r, files),
    ensures
        r.len() == files.len(),
        r.map_values(|e: CaptureFile| e.name@).to_multiset() == files.map_values(
            |f: ScannedFile| f.name@,
        ).to_multiset(),
{
    lemma_listed_names(files);
    lemma_map_keeps_multiset(r, listed(files), |e: CaptureFile| e.name@);
    to_multiset_len(r);
    to_multiset_len(listed(files));
    assert(listed(files).len() == listed(files).map_values(|e: CaptureFile| e.name@).len());
}

/// Every entry of `listed(files)` is the entry of one of the captures.
proof fn lemma_listed_from(files: Seq<ScannedFile>, j: int)
    requires
        0 <= j < listed(files).len(),
    ensures
        exists|m: int|
            0 <= m < files.len() && (#[trigger] kind_of(files[m].name@)) is Some && listed(files)[j]
                == entry_of(files[m], kind_of(files[m].name@)->Some_0),
    decreases files.len(),
{
    let front = files.drop_last();
    if j < listed(front).len() {
        lemma_listed_from(front, j);
        let m = choose|m: int|
            0 <= m < front.len() && (#[trigger] kind_of(front[m].name@)) is Some && listed(front)[j]
                == entry_of(front[m], kind_of(front[m].name@)->Some_0);
        assert(front[m] == files[m]);
        assert(kind_of(files[m].name@) is Some);
    } else {
        let m = files.len() - 1;
        assert(kind_of(files[m].name@) is Some);
    }
}

/// A capture whose sidecar is present but unusable is still listed, marked
/// as having metadata and carrying none; as the directory's names are
/// distinct, it is the one entry of that name.
pub proof fn lemma_unusable_sidecar_kept(files: Seq<ScannedFile>, r: Seq<CaptureFile>, i: int)
    requires
        is_listing_of(r, files),
        files.map_values(|f: ScannedFile| f.name@).no_duplicates(),
        0 <= i < files.len(),
        kind_of(files[i].name@) is Some,
        files[i].sidecar is Unusable,
    ensures
        exists|j: int|
            0 <= j < r.len() && #[trigger] r[j] == entry_of(files[i], kind_of(files[i].name@)->Some_0)
                && r[j].name == files[i].name && r[j].has_metadata && r[j].metadata is None,
        forall|k: int|
            0 <= k < r.len() && (#[trigger] r[k]).name@ == files[i].name@ ==> r[k] == entry_of(
                files[i],
                kind_of(files[i].name@)->Some_0,
            ),
{
    broadcast use group_to_multiset_ensures;

    let e = entry_of(files[i], kind_of(files[i].name@)->Some_0);
    lemma_listed_contains(files, i);
    assert(listed(files).to_multiset().count(e) > 0);
    assert(r.to_multiset().count(e) > 0);
    assert(r.contains(e));
    let names = files.map_values(|f: ScannedFile| f.name@);
    assert forall|k: int|
        0 <= k < r.len() && (#[trigger] r[k]).name@ == files[i].name@ implies r[k] == e by {
        assert(r.contains(r[k]));
        assert(r.to_multiset().count(r[k]) > 0);
        assert(listed(files).contains(r[k]));
        let j = choose|j: int| 0 <= j < listed(files).len() && listed(files)[j] == r[k];
        lemma_listed_from(files, j);
        let m = choose|m: int|
            0 <= m < files.len() && (#[trigger] kind_of(files[m].name@)) is Some && listed(files)[j]
                == entry_of(files[m], kind_of(files[m].name@)->Some_0);
        assert(names[m] == names[i]);
    }
}

/// In a listing, an entry modified later than another comes before it.
pub proof fn lemma_newer_first(files: Seq<ScannedFile>, r: Seq<CaptureFile>, i: int, j: int)
    requires
        is_listing_of(r, files),
        0 <= i < r.len(),
        0 <= j < r.len(),
        r[i].modified > r[j].modified,
    ensures
        i < j,
{
}

} // verus!
