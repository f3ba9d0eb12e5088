//! Naming rules for new files and folders: decimal counters, the folder an
//! archive extracts into, the first free `"name (n)"` folder and the first free
//! `"name副本"` / `"name副本 n"` duplicate.

use vstd::prelude::*;
use vstd::relations::injective_on;
use vstd::set_lib::{lemma_int_range, lemma_len_subset, lemma_map_size, set_int_range};
use crate::paths::{FsPath, PathModel, file_name_spec, join_spec, with_file_name_spec};
use crate::text::{ascii_lower, ascii_lower_spec};

verus! {

// ---------------------------------------------------------------------------
// Decimal counters
// ---------------------------------------------------------------------------

pub open spec fn digit_char(d: int) -> char {
    if d == 0 {
        '0'
    } else if d == 1 {
        '1'
    } else if d == 2 {
        '2'
    } else if d == 3 {
        '3'
    } else if d == 4 {
        '4'
    } else if d == 5 {
        '5'
    } else if d == 6 {
        '6'
    } else if d == 7 {
        '7'
    } else if d == 8 {
        '8'
    } else {
        '9'
    }
}

/// The decimal writing of `n`, as `format!("{n}")` produces it.
pub open spec fn decimal_text(n: nat) -> Seq<char>
    decreases n,
{
    if n < 10 {
        seq![digit_char(n as int)]
    } else {
        decimal_text(n / 10).push(digit_char((n % 10) as int))
    }
}

proof fn lemma_decimal_len(n: nat)
    ensures
        decimal_text(n).len() >= 1,
        n >= 10 ==> decimal_text(n).len() >= 2,
    decreases n,
{
    if n >= 10 {
        lemma_decimal_len(n / 10);
    }
}

/// Different numbers are written differently.
pub proof fn lemma_decimal_injective(a: nat, b: nat)
    requires
        decimal_text(a) == decimal_text(b),
    ensures
        a == b,
    decreases a,
{
    lemma_decimal_len(a);
    lemma_decimal_len(b);
    if a < 10 && b < 10 {
        assert(decimal_text(a)[0] == digit_char(a as int));
        assert(decimal_text(b)[0] == digit_char(b as int));
    } else if a < 10 || b < 10 {
        assert(decimal_text(a).len() != decimal_text(b).len());
    } else {
        let da = decimal_text(a);
        let db = decimal_text(b);
        assert(da.last() == digit_char((a % 10) as int));
        assert(db.last() == digit_char((b % 10) as int));
        assert(da.drop_last() =~= decimal_text(a / 10));
        assert(db.drop_last() =~= decimal_text(b / 10));
        lemma_decimal_injective(a / 10, b / 10);
        assert(a % 10 == b % 10);
    }
}

fn digit_text(d: u32) -> (text: &'static str)
    requires
        d < 10,
    ensures
        text@ == seq![digit_char(d as int)],
{
    if d == 0 {
        proof {
            reveal_strlit("0");
        }
        assert("0"@ =~= seq!['0']);
        "0"
    } else if d == 1 {
        proof {
            reveal_strlit("1");
        }
        assert("1"@ =~= seq!['1']);
        "1"
    } else if d == 2 {
        proof {
            reveal_strlit("2");
        }
        assert("2"@ =~= seq!['2']);
        "2"
    } else if d == 3 {
        proof {
            reveal_strlit("3");
        }
        assert("3"@ =~= seq!['3']);
        "3"
    } else if d == 4 {
        proof {
            reveal_strlit("4");
        }
        assert("4"@ =~= seq!['4']);
        "4"
    } else if d == 5 {
        proof {
            reveal_strlit("5");
        }
        assert("5"@ =~= seq!['5']);
        "5"
    } else if d == 6 {
        proof {
            reveal_strlit("6");
        }
        assert("6"@ =~= seq!['6']);
        "6"
    } else if d == 7 {
        proof {
            reveal_strlit("7");
        }
        assert("7"@ =~= seq!['7']);
        "7"
    } else if d == 8 {
        proof {
            reveal_strlit("8");
        }
        assert("8"@ =~= seq!['8']);
        "8"
    } else {
        proof {
            reveal_strlit("9");
        }
        assert("9"@ =~= seq!['9']);
        "9"
    }
}

/// `n.to_string()`.
pub fn decimal_string(n: u32) -> (text: String)
    ensures
        text@ == decimal_text(n as nat),
    decreases n,
{
    if n < 10 {
        String::from_str(digit_text(n))
    } else {
        let mut text = decimal_string(n / 10);
        text.append(digit_text(n % 10));
        text
    }
}

// ---------------------------------------------------------------------------
// Counting argument for "first free name" searches
// ---------------------------------------------------------------------------

/// If `n` pairwise distinct candidates are all taken, at least `n` names are
/// taken.
pub proof fn lemma_distinct_taken_candidates_bounded<A>(f: spec_fn(int) -> A, n: int, taken: Seq<A>)
    requires
        0 <= n,
        forall|i: int, j: int| 0 <= i < n && 0 <= j < n && i != j ==> #[trigger] f(i) != #[trigger] f(j),
        forall|i: int| 0 <= i < n ==> taken.contains(#[trigger] f(i)),
    ensures
        n <= taken.len(),
{
    lemma_int_range(0, n);
    let dom = set_int_range(0, n);
    let img = dom.map(f);
    assert(injective_on(f, dom));
    lemma_map_size(dom, img, f);
    assert forall|a: A| img.contains(a) implies taken.to_set().contains(a) by {
        let i = choose|i: int| dom.contains(i) && f(i) == a;
        assert(taken.contains(f(i)));
    }
    taken.lemma_cardinality_of_set();
    lemma_len_subset(img, taken.to_set());
}

// ---------------------------------------------------------------------------
// Existing paths
// ---------------------------------------------------------------------------

pub open spec fn path_views(paths: Seq<FsPath>) -> Seq<PathModel> {
    paths.map_values(|p: FsPath| p@)
}

/// Whether `path` is one of `paths`.
pub fn contains_path(paths: &Vec<FsPath>, path: &FsPath) -> (found: bool)
    ensures
        found == path_views(paths@).contains(path@),
{
    let mut i: usize = 0;
    while i < paths.len()
        invariant
            i <= paths@.len(),
            forall|j: int| 0 <= j < i ==> paths@[j]@ != path@,
        decreases paths@.len() - i,
    {
        if paths[i].same_as(path) {
            assert(path_views(paths@)[i as int] == path@);
            return true;
        }
        i = i + 1;
    }
    proof {
        if path_views(paths@).contains(path@) {
            let k = choose|k: int| 0 <= k < path_views(paths@).len() && path_views(paths@)[k] == path@;
            assert(paths@[k]@ == path@);
        }
    }
    false
}

// ---------------------------------------------------------------------------
// Archive extraction folders
// ---------------------------------------------------------------------------

/// `name` ends with `suffix` once ASCII letters of `name` are lowercased.
pub open spec fn ends_with_lowered(name: Seq<char>, suffix: Seq<char>) -> bool {
    &&& suffix.len() <= name.len()
    &&& forall|i: int|
        0 <= i < suffix.len() ==> ascii_lower_spec(#[trigger] name[name.len() - suffix.len() + i])
            == suffix[i]
}

pub open spec fn strip_lowered(name: Seq<char>, suffix: Seq<char>) -> Seq<char> {
    name.take(name.len() - suffix.len())
}

/// The archive's file name without its archive extension (`.tar.gz`, `.tgz`,
/// `.zip`, `.tar`, `.7z`, `.rar`, matched without regard to ASCII case, the
/// first matching one in that order).
pub open spec fn strip_archive_extension(name: Seq<char>) -> Seq<char> {
    if ends_with_lowered(name, ".tar.gz"@) {
        strip_lowered(name, ".tar.gz"@)
    } else if ends_with_lowered(name, ".tgz"@) {
        strip_lowered(name, ".tgz"@)
    } else if ends_with_lowered(name, ".zip"@) {
        strip_lowered(name, ".zip"@)
    } else if ends_with_lowered(name, ".tar"@) {
        strip_lowered(name, ".tar"@)
    } else if ends_with_lowered(name, ".7z"@) {
        strip_lowered(name, ".7z"@)
    } else if ends_with_lowered(name, ".rar"@) {
        strip_lowered(name, ".rar"@)
    } else {
        name
    }
}

/// The archive's file name, or `archive` when the path has none.
pub open spec fn archive_file_name(archive: PathModel) -> Seq<char> {
    match file_name_spec(archive) {
        Some(name) => name,
        None => "archive"@,
    }
}

pub open spec fn archive_folder_name_spec(archive: PathModel) -> Seq<char> {
    strip_archive_extension(archive_file_name(archive))
}

fn strip_lowered_suffix(name: &str, suffix: &str) -> (stripped: Option<String>)
    ensures
        stripped is Some <==> ends_with_lowered(name@, suffix@),
        stripped matches Some(s) ==> s@ == strip_lowered(name@, suffix@),
{
    let n = name.unicode_len();
    let k = suffix.unicode_len();
    if k > n {
        return None;
    }
    let mut i: usize = 0;
    while i < k
        invariant
            n == name@.len(),
            k == suffix@.len(),
            k <= n,
            i <= k,
            forall|j: int|
                0 <= j < i ==> ascii_lower_spec(#[trigger] name@[n - k + j]) == suffix@[j],
        decreases k - i,
    {
        if ascii_lower(name.get_char(n - k + i)) != suffix.get_char(i) {
            return None;
        }
        i = i + 1;
    }
    Some(String::from_str(name.substring_char(0, n - k)))
}

/// The folder an archive extracts into: its file name without the archive
/// extension.
pub fn archive_folder_name(archive: &FsPath) -> (name: String)
    ensures
        name@ == archive_folder_name_spec(archive@),
{
    let file_name = match archive.file_name() {
        Some(name) => name,
        None => String::from_str("archive"),
    };
    let name = file_name.as_str();
    if let Some(stripped) = strip_lowered_suffix(name, ".tar.gz") {
        return stripped;
    }
    if let Some(stripped) = strip_lowered_suffix(name, ".tgz") {
        return stripped;
    }
    if let Some(stripped) = strip_lowered_suffix(name, ".zip") {
        return stripped;
    }
    if let Some(stripped) = strip_lowered_suffix(name, ".tar") {
        return stripped;
    }
    if let Some(stripped) = strip_lowered_suffix(name, ".7z") {
        return stripped;
    }
    if let Some(stripped) = strip_lowered_suffix(name, ".rar") {
        return stripped;
    }
    file_name
}

/// `"{name} ({counter})"`.
pub open spec fn numbered_name(name: Seq<char>, counter: int) -> Seq<char> {
    name + " ("@ + decimal_text(counter as nat) + ")"@
}

proof fn lemma_numbered_name_injective(name: Seq<char>, a: int, b: int)
    requires
        a >= 0,
        b >= 0,
        numbered_name(name, a) == numbered_name(name, b),
    ensures
        a == b,
{
    reveal_strlit(" (");
    reveal_strlit(")");
    let da = decimal_text(a as nat);
    let db = decimal_text(b as nat);
    let s = numbered_name(name, a);
    assert(s.len() == name.len() + 2 + da.len() + 1);
    assert(numbered_name(name, b).len() == name.len() + 2 + db.len() + 1);
    assert(s.subrange(name.len() + 2int, name.len() + 2int + da.len()) =~= da);
    assert(numbered_name(name, b).subrange(name.len() + 2int, name.len() + 2int + db.len()) =~= db);
    lemma_decimal_injective(a as nat, b as nat);
}

/// The file name a numbered folder candidate is built from.
pub open spec fn folder_base_name(base: PathModel) -> Seq<char> {
    match file_name_spec(base) {
        Some(name) => name,
        None => "archive"@,
    }
}

/// The `i`-th folder tried: `base` itself, then `base` renamed to
/// `"{name} ({start})"`, `"{name} ({start + 1})"`, ...
pub open spec fn folder_candidate(base: PathModel, start: int, i: int) -> PathModel {
    if i == 0 {
        base
    } else {
        with_file_name_spec(base, numbered_name(folder_base_name(base), start + i - 1))
    }
}

proof fn lemma_folder_candidates_distinct(base: PathModel, start: int, i: int, j: int)
    requires
        start >= 0,
        0 <= i,
        0 <= j,
        i != j,
    ensures
        folder_candidate(base, start, i) != folder_candidate(base, start, j),
{
    reveal_strlit(" (");
    reveal_strlit(")");
    let name = folder_base_name(base);
    if i != 0 && j != 0 {
        let ni = numbered_name(name, start + i - 1);
        let nj = numbered_name(name, start + j - 1);
        if ni == nj {
            lemma_numbered_name_injective(name, start + i - 1, start + j - 1);
        }
        assert(ni.len() > 0);
        assert(nj.len() > 0);
        let ci = folder_candidate(base, start, i);
        let cj = folder_candidate(base, start, j);
        if ci == cj {
            assert(ci.components.last() == ni);
            assert(cj.components.last() == nj);
        }
    } else {
        let k = if i == 0 { j } else { i };
        let nk = numbered_name(name, start + k - 1);
        assert(nk.len() > name.len());
        let ck = folder_candidate(base, start, k);
        if ck == base {
            if file_name_spec(base) is Some {
                assert(ck.components.last() == nk);
                assert(base.components.last() == name);
            } else {
                assert(ck.components.len() == base.components.len() + 1);
            }
        }
    }
}

/// The first folder candidate that is not one of `existing`.
pub open spec fn is_first_free_folder(
    result: PathModel,
    base: PathModel,
    start: int,
    existing: Seq<PathModel>,
) -> bool {
    exists|k: int|
        0 <= k <= existing.len() && result == folder_candidate(base, start, k) && !existing.contains(
            result,
        ) && forall|j: int| 0 <= j < k ==> existing.contains(#[trigger] folder_candidate(base, start, j))
}

/// `unique_folder_destination`: `base` when it is free, otherwise the first
/// free `"{name} ({n})"` beside it for `n = start_counter, start_counter + 1, ...`.
/// `existing` lists the paths that already exist.
pub fn unique_folder_destination(
    base: &FsPath,
    start_counter: u32,
    existing: &Vec<FsPath>,
) -> (destination: FsPath)
    requires
        start_counter as int + existing@.len() < u32::MAX,
    ensures
        is_first_free_folder(destination@, base@, start_counter as int, path_views(existing@)),
{
    let ghost views = path_views(existing@);
    let ghost start = start_counter as int;
    let name = match base.file_name() {
        Some(name) => name,
        None => String::from_str("archive"),
    };
    let mut candidate = base.duplicate();
    let mut counter = start_counter;
    let ghost mut k: int = 0;
    while contains_path(existing, &candidate)
        invariant
            start_counter as int + existing@.len() < u32::MAX,
            views == path_views(existing@),
            start == start_counter as int,
            name@ == folder_base_name(base@),
            0 <= k <= views.len(),
            counter as int == start + k,
            candidate@ == folder_candidate(base@, start, k),
            forall|j: int| 0 <= j < k ==> views.contains(#[trigger] folder_candidate(base@, start, j)),
        decreases views.len() - k,
    {
        proof {
            assert forall|j: int| 0 <= j < k + 1 implies views.contains(
                #[trigger] folder_candidate(base@, start, j),
            ) by {}
            assert forall|a: int, b: int| 0 <= a < k + 1 && 0 <= b < k + 1 && a != b implies
                folder_candidate(base@, start, a) != folder_candidate(base@, start, b) by {
                lemma_folder_candidates_distinct(base@, start, a, b);
            }
            lemma_distinct_taken_candidates_bounded(
                |j: int| folder_candidate(base@, start, j),
                k + 1,
                views,
            );
        }
        let mut numbered = name.clone();
        numbered.append(" (");
        let digits = decimal_string(counter);
        numbered.append(digits.as_str());
        numbered.append(")");
        assert(numbered@ =~= numbered_name(name@, start + k));
        candidate = base.with_file_name(numbered.as_str());
        counter = counter + 1;
        proof {
            k = k + 1;
        }
    }
    candidate
}

/// Where an archive extracts when the browser picks the place itself: the
/// archive's directory when all members share one top-level folder, otherwise
/// the first free folder named after the archive beside it.
pub open spec fn smart_extraction_destination_spec(
    archive: PathModel,
    has_single_root: bool,
    existing: Seq<PathModel>,
    destination: PathModel,
) -> bool {
    let directory = archive_directory(archive);
    if has_single_root {
        destination == directory
    } else {
        is_first_free_folder(
            destination,
            join_spec(directory, archive_folder_name_spec(archive)),
            2,
            existing,
        )
    }
}

/// The directory holding the archive, or `.` when the path has no parent.
pub open spec fn archive_directory(archive: PathModel) -> PathModel {
    if archive.components.len() == 0 {
        PathModel { absolute: false, components: seq!["."@] }
    } else {
        PathModel { absolute: archive.absolute, components: archive.components.drop_last() }
    }
}

fn archive_directory_path(archive: &FsPath) -> (directory: FsPath)
    ensures
        directory@ == archive_directory(archive@),
{
    match archive.parent() {
        Some(parent) => parent,
        None => {
            let mut components = Vec::new();
            components.push(String::from_str("."));
            let directory = FsPath::new(false, components);
            assert(directory@.components =~= seq!["."@]);
            directory
        },
    }
}

/// `smart_extraction_destination`: with `single_root_name` from the archive
/// listing; `existing` lists the folders that already exist.
pub fn smart_extraction_destination(
    archive: &FsPath,
    single_root_name: Option<String>,
    existing: &Vec<FsPath>,
) -> (destination: FsPath)
    requires
        existing@.len() + 2 < u32::MAX,
    ensures
        smart_extraction_destination_spec(
            archive@,
            single_root_name is Some,
            path_views(existing@),
            destination@,
        ),
{
    let directory = archive_directory_path(archive);
    match single_root_name {
        Some(_) => directory,
        None => {
            let folder = archive_folder_name(archive);
            let base = directory.join_name(folder.as_str());
            unique_folder_destination(&base, 2, existing)
        },
    }
}

/// `accept_smart_extract_destination`: where a smart extraction goes once
/// the archive's listing is known; a listing that failed counts as several
/// roots, so the extraction still gets its own folder (and reports the
/// error itself).
pub fn accept_smart_extract_destination(
    archive: &FsPath,
    single_root: Result<Option<String>, String>,
    existing: &Vec<FsPath>,
) -> (destination: FsPath)
    requires
        existing@.len() + 2 < u32::MAX,
    ensures
        smart_extraction_destination_spec(
            archive@,
            single_root matches Ok(Some(_)),
            path_views(existing@),
            destination@,
        ),
{
    let single_root_name = match single_root {
        Ok(name) => name,
        Err(_) => None,
    };
    smart_extraction_destination(archive, single_root_name, existing)
}

/// `archive_folder_destination`: always a new folder named after the archive
/// beside it, the first free one.
pub fn archive_folder_destination(archive: &FsPath, existing: &Vec<FsPath>) -> (destination: FsPath)
    requires
        existing@.len() + 2 < u32::MAX,
    ensures
        is_first_free_folder(
            destination@,
            join_spec(archive_directory(archive@), archive_folder_name_spec(archive@)),
            2,
            path_views(existing@),
        ),
        smart_extraction_destination_spec(archive@, false, path_views(existing@), destination@),
{
    let directory = archive_directory_path(archive);
    let folder = archive_folder_name(archive);
    let base = directory.join_name(folder.as_str());
    unique_folder_destination(&base, 2, existing)
}


/// There is only one first free folder.
pub proof fn lemma_first_free_folder_unique(
    a: PathModel,
    b: PathModel,
    base: PathModel,
    start: int,
    existing: Seq<PathModel>,
)
    requires
        is_first_free_folder(a, base, start, existing),
        is_first_free_folder(b, base, start, existing),
    ensures
        a == b,
{
    let ka = choose|k: int|
        0 <= k <= existing.len() && a == folder_candidate(base, start, k) && !existing.contains(a) && forall|j: int|
            0 <= j < k ==> existing.contains(#[trigger] folder_candidate(base, start, j));
    let kb = choose|k: int|
        0 <= k <= existing.len() && b == folder_candidate(base, start, k) && !existing.contains(b) && forall|j: int|
            0 <= j < k ==> existing.contains(#[trigger] folder_candidate(base, start, j));
    if ka < kb {
        assert(existing.contains(folder_candidate(base, start, ka)));
    } else if kb < ka {
        assert(existing.contains(folder_candidate(base, start, kb)));
    }
}

/// "Extract to a folder named after the archive" lands exactly where a smart
/// extraction of an archive without a single root lands: it always adds the
/// folder layer, whatever the archive holds.
pub proof fn lemma_archive_folder_is_smart_extraction_without_single_root(
    archive: PathModel,
    existing: Seq<PathModel>,
    folder: PathModel,
    smart: PathModel,
)
    requires
        is_first_free_folder(
            folder,
            join_spec(archive_directory(archive), archive_folder_name_spec(archive)),
            2,
            existing,
        ),
        smart_extraction_destination_spec(archive, false, existing, smart),
    ensures
        folder == smart,
{
    lemma_first_free_folder_unique(
        folder,
        smart,
        join_spec(archive_directory(archive), archive_folder_name_spec(archive)),
        2,
        existing,
    );
}

// ---------------------------------------------------------------------------
// Duplicates
// ---------------------------------------------------------------------------

/// Index of the last `.` in `name`, or `-1`.
pub open spec fn last_dot(name: Seq<char>) -> int
    decreases name.len(),
{
    if name.len() == 0 {
        -1
    } else if name.last() == '.' {
        name.len() - 1
    } else {
        last_dot(name.drop_last())
    }
}

/// Index of the `.` that starts the extension, or `-1` when the name has no
/// extension (`..`, no dot, or a single leading dot as in `.bashrc`).
pub open spec fn extension_dot(name: Seq<char>) -> int {
    if name == ".."@ || last_dot(name) <= 0 {
        -1
    } else {
        last_dot(name)
    }
}

proof fn lemma_last_dot_bounds(name: Seq<char>)
    ensures
        -1 <= last_dot(name) < name.len(),
        last_dot(name) >= 0 ==> name[last_dot(name)] == '.',
    decreases name.len(),
{
    if name.len() > 0 && name.last() != '.' {
        lemma_last_dot_bounds(name.drop_last());
    }
}

/// The marker inserted into the `i`-th duplicate name: `副本`, then
/// `副本 2`, `副本 3`, ...
pub open spec fn duplicate_marker(i: int) -> Seq<char> {
    if i == 0 {
        "副本"@
    } else {
        "副本 "@ + decimal_text((i + 1) as nat)
    }
}

/// The `i`-th duplicate name tried for `name`: the marker goes before the
/// extension of a file, and at the end of a directory's name.
pub open spec fn duplicate_candidate(name: Seq<char>, is_directory: bool, i: int) -> Seq<char> {
    let d = extension_dot(name);
    if is_directory || d < 0 {
        name + duplicate_marker(i)
    } else {
        name.take(d) + duplicate_marker(i) + name.skip(d)
    }
}

proof fn lemma_duplicate_markers_distinct(i: int, j: int)
    requires
        0 <= i,
        0 <= j,
        i != j,
        duplicate_marker(i).len() == duplicate_marker(j).len(),
    ensures
        duplicate_marker(i) != duplicate_marker(j),
{
    reveal_strlit("副本");
    reveal_strlit("副本 ");
    lemma_decimal_len((i + 1) as nat);
    lemma_decimal_len((j + 1) as nat);
    if i != 0 && j != 0 && duplicate_marker(i) == duplicate_marker(j) {
        let mi = duplicate_marker(i);
        assert(mi.subrange(3, mi.len() as int) =~= decimal_text((i + 1) as nat));
        assert(duplicate_marker(j).subrange(3, mi.len() as int) =~= decimal_text((j + 1) as nat));
        lemma_decimal_injective((i + 1) as nat, (j + 1) as nat);
    }
}

proof fn lemma_duplicate_candidates_distinct(name: Seq<char>, is_directory: bool, i: int, j: int)
    requires
        0 <= i,
        0 <= j,
        i != j,
    ensures
        duplicate_candidate(name, is_directory, i) != duplicate_candidate(name, is_directory, j),
        duplicate_candidate(name, is_directory, i).len() > 0,
{
    reveal_strlit("副本");
    reveal_strlit("副本 ");
    lemma_last_dot_bounds(name);
    let d = extension_dot(name);
    let mi = duplicate_marker(i);
    let mj = duplicate_marker(j);
    let ci = duplicate_candidate(name, is_directory, i);
    let cj = duplicate_candidate(name, is_directory, j);
    if ci == cj {
        if is_directory || d < 0 {
            assert(ci.len() == name.len() + mi.len());
            assert(cj.len() == name.len() + mj.len());
            assert(mi.len() == mj.len());
            assert(ci.subrange(name.len() as int, ci.len() as int) =~= mi);
            assert(cj.subrange(name.len() as int, cj.len() as int) =~= mj);
        } else {
            assert(0 <= d < name.len());
            assert(ci.len() == d + mi.len() + (name.len() - d));
            assert(cj.len() == d + mj.len() + (name.len() - d));
            assert(mi.len() == mj.len());
            assert(ci.subrange(d, d + mi.len()) =~= mi);
            assert(cj.subrange(d, d + mj.len()) =~= mj);
        }
        lemma_duplicate_markers_distinct(i, j);
    }
}

/// The first duplicate name of `name` that does not exist in `parent`.
pub open spec fn is_first_free_duplicate(
    result: Seq<char>,
    name: Seq<char>,
    is_directory: bool,
    parent: PathModel,
    existing: Seq<PathModel>,
) -> bool {
    exists|k: int|
        0 <= k <= existing.len() && result == duplicate_candidate(name, is_directory, k)
            && !existing.contains(join_spec(parent, result)) && forall|j: int|
            0 <= j < k ==> existing.contains(
                join_spec(parent, #[trigger] duplicate_candidate(name, is_directory, j)),
            )
}

/// The first free duplicate name (see `is_first_free_duplicate`).
pub open spec fn first_free_duplicate(
    name: Seq<char>,
    is_directory: bool,
    parent: PathModel,
    existing: Seq<PathModel>,
) -> Seq<char> {
    choose|result: Seq<char>| is_first_free_duplicate(result, name, is_directory, parent, existing)
}

proof fn lemma_first_free_duplicate_from(
    name: Seq<char>,
    is_directory: bool,
    parent: PathModel,
    existing: Seq<PathModel>,
    k: int,
)
    requires
        0 <= k <= existing.len(),
        forall|j: int|
            0 <= j < k ==> existing.contains(
                join_spec(parent, #[trigger] duplicate_candidate(name, is_directory, j)),
            ),
    ensures
        exists|result: Seq<char>| is_first_free_duplicate(result, name, is_directory, parent, existing),
    decreases existing.len() - k,
{
    let candidate = duplicate_candidate(name, is_directory, k);
    if !existing.contains(join_spec(parent, candidate)) {
        assert(is_first_free_duplicate(candidate, name, is_directory, parent, existing));
    } else if k == existing.len() {
        let f = |j: int| join_spec(parent, duplicate_candidate(name, is_directory, j));
        assert forall|a: int, b: int| 0 <= a < k + 1 && 0 <= b < k + 1 && a != b implies #[trigger] f(a)
            != #[trigger] f(b) by {
            lemma_duplicate_candidates_distinct(name, is_directory, a, b);
            lemma_duplicate_candidates_distinct(name, is_directory, b, a);
            let ca = duplicate_candidate(name, is_directory, a);
            let cb = duplicate_candidate(name, is_directory, b);
            if f(a) == f(b) {
                assert(f(a).components.last() == ca);
                assert(f(b).components.last() == cb);
            }
        }
        assert forall|j: int| 0 <= j < k + 1 implies existing.contains(#[trigger] f(j)) by {}
        lemma_distinct_taken_candidates_bounded(f, k + 1, existing);
    } else {
        lemma_first_free_duplicate_from(name, is_directory, parent, existing, k + 1);
    }
}

/// Among finitely many taken paths some duplicate name is always free, so
/// the first free one exists.
pub proof fn lemma_first_free_duplicate_exists(
    name: Seq<char>,
    is_directory: bool,
    parent: PathModel,
    existing: Seq<PathModel>,
)
    ensures
        is_first_free_duplicate(
            first_free_duplicate(name, is_directory, parent, existing),
            name,
            is_directory,
            parent,
            existing,
        ),
        !existing.contains(join_spec(parent, first_free_duplicate(name, is_directory, parent, existing))),
{
    lemma_first_free_duplicate_from(name, is_directory, parent, existing, 0);
}

/// There is only one first free duplicate name.
pub proof fn lemma_first_free_duplicate_unique(
    result: Seq<char>,
    name: Seq<char>,
    is_directory: bool,
    parent: PathModel,
    existing: Seq<PathModel>,
)
    requires
        is_first_free_duplicate(result, name, is_directory, parent, existing),
    ensures
        result == first_free_duplicate(name, is_directory, parent, existing),
{
    let other = first_free_duplicate(name, is_directory, parent, existing);
    assert(is_first_free_duplicate(other, name, is_directory, parent, existing));
    let k1 = choose|k: int|
        0 <= k <= existing.len() && result == duplicate_candidate(name, is_directory, k)
            && !existing.contains(join_spec(parent, result)) && forall|j: int|
            0 <= j < k ==> existing.contains(
                join_spec(parent, #[trigger] duplicate_candidate(name, is_directory, j)),
            );
    let k2 = choose|k: int|
        0 <= k <= existing.len() && other == duplicate_candidate(name, is_directory, k)
            && !existing.contains(join_spec(parent, other)) && forall|j: int|
            0 <= j < k ==> existing.contains(
                join_spec(parent, #[trigger] duplicate_candidate(name, is_directory, j)),
            );
    if k1 < k2 {
        assert(existing.contains(join_spec(parent, duplicate_candidate(name, is_directory, k1))));
    } else if k2 < k1 {
        assert(existing.contains(join_spec(parent, duplicate_candidate(name, is_directory, k2))));
    }
}

fn find_extension_dot(name: &str) -> (dot: Option<usize>)
    ensures
        dot matches Some(d) ==> extension_dot(name@) == d as int,
        dot is None ==> extension_dot(name@) == -1,
{
    let n = name.unicode_len();
    let mut i: usize = n;
    assert(name@.take(n as int) =~= name@);
    while i > 0
        invariant
            n == name@.len(),
            i <= n,
            last_dot(name@) == last_dot(name@.take(i as int)),
        decreases i,
    {
        let ghost prefix = name@.take(i as int);
        assert(prefix.drop_last() =~= name@.take(i - 1));
        if name.get_char(i - 1) == '.' {
            if i - 1 == 0 || crate::text::text_eq(name, "..") {
                return None;
            }
            return Some(i - 1);
        }
        i = i - 1;
    }
    assert(name@.take(0) =~= Seq::<char>::empty());
    None
}

fn duplicate_marker_text(i: u32) -> (marker: String)
    requires
        i < u32::MAX,
    ensures
        marker@ == duplicate_marker(i as int),
{
    if i == 0 {
        String::from_str("副本")
    } else {
        let mut marker = String::from_str("副本 ");
        let digits = decimal_string(i + 1);
        marker.append(digits.as_str());
        marker
    }
}

fn duplicate_candidate_text(
    name: &str,
    is_directory: bool,
    dot: Option<usize>,
    i: u32,
) -> (candidate: String)
    requires
        i < u32::MAX,
        dot matches Some(d) ==> extension_dot(name@) == d as int,
        dot is None ==> extension_dot(name@) == -1,
    ensures
        candidate@ == duplicate_candidate(name@, is_directory, i as int),
{
    let marker = duplicate_marker_text(i);
    match dot {
        Some(d) if !is_directory => {
            proof {
                lemma_last_dot_bounds(name@);
            }
            let n = name.unicode_len();
            let mut candidate = String::from_str(name.substring_char(0, d));
            candidate.append(marker.as_str());
            candidate.append(name.substring_char(d, n));
            assert(candidate@ =~= duplicate_candidate(name@, is_directory, i as int));
            candidate
        },
        _ => {
            let mut candidate = String::from_str(name);
            candidate.append(marker.as_str());
            candidate
        },
    }
}

/// The first `name副本`, `name副本 2`, ... (the marker before a file's
/// extension) for which `parent` joined with it is not one of `existing`.
pub fn unique_duplicated_name(
    name: &str,
    is_directory: bool,
    parent: &FsPath,
    existing: &Vec<FsPath>,
) -> (unique: String)
    requires
        existing@.len() + 2 < u32::MAX,
    ensures
        is_first_free_duplicate(unique@, name@, is_directory, parent@, path_views(existing@)),
{
    let ghost views = path_views(existing@);
    let dot = find_extension_dot(name);
    let mut i: u32 = 0;
    let mut candidate = duplicate_candidate_text(name, is_directory, dot, 0);
    let mut candidate_path = parent.join_name(candidate.as_str());
    while contains_path(existing, &candidate_path)
        invariant
            existing@.len() + 2 < u32::MAX,
            views == path_views(existing@),
            dot matches Some(d) ==> extension_dot(name@) == d as int,
            dot is None ==> extension_dot(name@) == -1,
            i as int <= views.len(),
            candidate@ == duplicate_candidate(name@, is_directory, i as int),
            candidate_path@ == join_spec(parent@, candidate@),
            forall|j: int|
                0 <= j < i ==> views.contains(
                    join_spec(parent@, #[trigger] duplicate_candidate(name@, is_directory, j)),
                ),
        decreases views.len() - i,
    {
        proof {
            let f = |j: int| join_spec(parent@, duplicate_candidate(name@, is_directory, j));
            assert forall|j: int| 0 <= j < i + 1 implies views.contains(#[trigger] f(j)) by {}
            assert forall|a: int, b: int| 0 <= a < i + 1 && 0 <= b < i + 1 && a != b implies #[trigger] f(a)
                != #[trigger] f(b) by {
                lemma_duplicate_candidates_distinct(name@, is_directory, a, b);
                lemma_duplicate_candidates_distinct(name@, is_directory, b, a);
                let ca = duplicate_candidate(name@, is_directory, a);
                let cb = duplicate_candidate(name@, is_directory, b);
                if f(a) == f(b) {
                    assert(f(a).components.last() == ca);
                    assert(f(b).components.last() == cb);
                }
            }
            lemma_distinct_taken_candidates_bounded(f, i + 1, views);
        }
        i = i + 1;
        candidate = duplicate_candidate_text(name, is_directory, dot, i);
        candidate_path = parent.join_name(candidate.as_str());
    }
    candidate
}

/// The directory a duplicate of `source` goes into.
pub open spec fn duplicate_parent(source: PathModel, fallback_directory: PathModel) -> PathModel {
    match crate::paths::parent_spec(source) {
        Some(p) => p,
        None => fallback_directory,
    }
}

/// The name a duplicate of `source` is derived from.
pub open spec fn duplicate_source_name(source: PathModel) -> Seq<char> {
    match file_name_spec(source) {
        Some(n) => n,
        None => "item"@,
    }
}

/// `in_place_duplicate_target`: the duplicate of `source` made next to it
/// (in `fallback_directory` when it has no parent), named by
/// `unique_duplicated_name` (`item` when the source has no file name).
pub fn in_place_duplicate_target(
    source: &FsPath,
    fallback_directory: &FsPath,
    source_is_directory: bool,
    existing: &Vec<FsPath>,
) -> (target: FsPath)
    requires
        existing@.len() + 2 < u32::MAX,
    ensures
        exists|unique: Seq<char>|
            #[trigger] is_first_free_duplicate(
                unique,
                duplicate_source_name(source@),
                source_is_directory,
                duplicate_parent(source@, fallback_directory@),
                path_views(existing@),
            ) && target@ == join_spec(duplicate_parent(source@, fallback_directory@), unique),
{
    let parent = match source.parent() {
        Some(parent) => parent,
        None => fallback_directory.duplicate(),
    };
    let name = match source.file_name() {
        Some(name) => name,
        None => String::from_str("item"),
    };
    assert(parent@ == duplicate_parent(source@, fallback_directory@));
    assert(name@ == duplicate_source_name(source@));
    let unique = unique_duplicated_name(name.as_str(), source_is_directory, &parent, existing);
    let target = parent.join_name(unique.as_str());
    assert(is_first_free_duplicate(
        unique@,
        name@,
        source_is_directory,
        parent@,
        path_views(existing@),
    ));
    target
}


// ---------------------------------------------------------------------------
// The folder a selection is gathered into
// ---------------------------------------------------------------------------

/// The name of the `i`-th folder tried when gathering a selection into a new
/// folder: `新建文件夹` ("New Folder"), then `新建文件夹 2`, `新建文件夹 3`, ...
pub open spec fn gathered_folder_name(i: int) -> Seq<char> {
    if i == 0 {
        "新建文件夹"@
    } else {
        "新建文件夹 "@ + decimal_text((i + 1) as nat)
    }
}

proof fn lemma_gathered_folder_names_distinct(i: int, j: int)
    requires
        0 <= i,
        0 <= j,
        i != j,
    ensures
        gathered_folder_name(i) != gathered_folder_name(j),
        gathered_folder_name(i).len() > 0,
{
    reveal_strlit("新建文件夹");
    reveal_strlit("新建文件夹 ");
    lemma_decimal_len((i + 1) as nat);
    lemma_decimal_len((j + 1) as nat);
    let ni = gathered_folder_name(i);
    let nj = gathered_folder_name(j);
    if i > 0 && j > 0 && ni == nj {
        assert(ni.subrange(6, ni.len() as int) =~= decimal_text((i + 1) as nat));
        assert(nj.subrange(6, nj.len() as int) =~= decimal_text((j + 1) as nat));
        lemma_decimal_injective((i + 1) as nat, (j + 1) as nat);
    }
    if (i == 0) != (j == 0) {
        assert(ni.len() != nj.len());
    }
}

/// The first gathered-folder candidate inside `directory` that is not one
/// of `existing`.
pub open spec fn is_first_free_gathered_folder(result: PathModel, directory: PathModel, existing: Seq<PathModel>) -> bool {
    exists|k: int|
        0 <= k <= existing.len() && result == join_spec(directory, gathered_folder_name(k))
            && !existing.contains(result) && forall|j: int|
            0 <= j < k ==> existing.contains(join_spec(directory, #[trigger] gathered_folder_name(j)))
}

/// `unique_gathered_folder_directory`: the first free folder name in
/// `directory` among `新建文件夹`, `新建文件夹 2`, ... (`existing` lists the
/// paths that exist).
pub fn unique_gathered_folder_directory(directory: &FsPath, existing: &Vec<FsPath>) -> (folder: FsPath)
    requires
        existing@.len() + 2 < u32::MAX,
    ensures
        is_first_free_gathered_folder(folder@, directory@, path_views(existing@)),
{
    let ghost views = path_views(existing@);
    proof {
        reveal_strlit("新建文件夹");
        reveal_strlit("新建文件夹 ");
    }
    let mut i: u32 = 0;
    let mut candidate = directory.join_name("新建文件夹");
    while contains_path(existing, &candidate)
        invariant
            existing@.len() + 2 < u32::MAX,
            views == path_views(existing@),
            i as int <= views.len(),
            candidate@ == join_spec(directory@, gathered_folder_name(i as int)),
            forall|j: int| 0 <= j < i ==> views.contains(join_spec(directory@, #[trigger] gathered_folder_name(j))),
        decreases views.len() - i,
    {
        proof {
            let f = |j: int| join_spec(directory@, gathered_folder_name(j));
            assert forall|j: int| 0 <= j < i + 1 implies views.contains(#[trigger] f(j)) by {}
            assert forall|a: int, b: int| 0 <= a < i + 1 && 0 <= b < i + 1 && a != b implies #[trigger] f(a)
                != #[trigger] f(b) by {
                lemma_gathered_folder_names_distinct(a, b);
                lemma_gathered_folder_names_distinct(b, a);
                if f(a) == f(b) {
                    assert(f(a).components.last() == gathered_folder_name(a));
                    assert(f(b).components.last() == gathered_folder_name(b));
                }
            }
            lemma_distinct_taken_candidates_bounded(f, i + 1, views);
        }
        i = i + 1;
        let mut name = String::from_str("新建文件夹 ");
        let digits = decimal_string(i + 1);
        name.append(digits.as_str());
        assert(name@ =~= gathered_folder_name(i as int));
        candidate = directory.join_name(name.as_str());
    }
    candidate
}

} // verus!
