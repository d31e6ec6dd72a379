//! Risk classification of changed paths.
//!
//! A path is risky when it contains one of a fixed list of markers as a
//! substring. Matching is deliberately coarse: an extra question costs less
//! than a published secret.

use vstd::prelude::*;

verus! {

/// `needle` occurs in `hay` starting at index `at`.
pub open spec fn occurs_at(hay: Seq<char>, needle: Seq<char>, at: int) -> bool {
    &&& 0 <= at
    &&& at + needle.len() <= hay.len()
    &&& hay.subrange(at, at + needle.len()) == needle
}

/// `needle` occurs somewhere in `hay` as a contiguous run of characters.
pub open spec fn has_substring(hay: Seq<char>, needle: Seq<char>) -> bool {
    exists|at: int| occurs_at(hay, needle, at)
}

/// The fixed table of markers: secret files, dependency and build
/// directories, and files that operating systems leave behind.
pub open spec fn risk_markers() -> Seq<Seq<char>> {
    seq![
        ".env"@,
        "node_modules"@,
        "target"@,
        "dist"@,
        "venv"@,
        ".venv"@,
        "vendor"@,
        ".DS_Store"@,
        "thumbs.db"@,
        "__pycache__"@,
    ]
}

/// A path is risky when some marker of the table occurs in it.
pub open spec fn is_risky(path: Seq<char>) -> bool {
    exists|k: int|
        0 <= k < risk_markers().len() && has_substring(path, #[trigger] risk_markers()[k])
}

/// The risky paths among `changes`, in the order in which they were given.
pub open spec fn risk_findings(changes: Seq<Seq<char>>) -> Seq<Seq<char>> {
    changes.filter(|path: Seq<char>| is_risky(path))
}

/// `picks` lists, in increasing order, the positions of `full` whose elements
/// make up `sub`.
pub open spec fn picked_from(sub: Seq<Seq<char>>, full: Seq<Seq<char>>, picks: Seq<int>) -> bool {
    &&& picks.len() == sub.len()
    &&& forall|j: int|
        0 <= j < picks.len() ==> 0 <= #[trigger] picks[j] < full.len() && sub[j] == full[picks[j]]
    &&& forall|i: int, j: int| 0 <= i < j < picks.len() ==> picks[i] < picks[j]
}

/// `sub` is what remains of `full` after deleting some of its elements: every
/// element of `sub` is taken from `full`, and the elements keep their order.
pub open spec fn is_ordered_subset(sub: Seq<Seq<char>>, full: Seq<Seq<char>>) -> bool {
    exists|picks: Seq<int>| picked_from(sub, full, picks)
}

/// The markers of the table, as string slices.
pub fn marker_table() -> (table: Vec<&'static str>)
    ensures
        table.deep_view() == risk_markers(),
{
    let table = vec![
        ".env",
        "node_modules",
        "target",
        "dist",
        "venv",
        ".venv",
        "vendor",
        ".DS_Store",
        "thumbs.db",
        "__pycache__",
    ];
    assert(table.deep_view() =~= risk_markers());
    table
}

/// Copies the characters of `s` into a vector.
fn chars_of(s: &str) -> (out: Vec<char>)
    ensures
        out@ == s@,
{
    broadcast use vstd::string::group_string_axioms;

    let mut out: Vec<char> = Vec::new();
    for c in it: s.chars()
        invariant
            it.seq() == s@,
            out@ == it.seq().take(it.index()),
    {
        out.push(c);
    }
    out
}

/// `markers` holds the table, marker by marker.
spec fn holds_table(markers: Seq<Vec<char>>) -> bool {
    &&& markers.len() == risk_markers().len()
    &&& forall|k: int| 0 <= k < markers.len() ==> #[trigger] markers[k]@ == risk_markers()[k]
}

/// The markers of the table, each as a vector of characters.
fn marker_chars() -> (markers: Vec<Vec<char>>)
    ensures
        holds_table(markers@),
{
    let table = marker_table();
    let mut markers: Vec<Vec<char>> = Vec::new();
    let mut k: usize = 0;
    while k < table.len()
        invariant
            k <= table.len(),
            table.deep_view() == risk_markers(),
            markers.len() == k,
            forall|i: int| 0 <= i < k ==> #[trigger] markers@[i]@ == risk_markers()[i],
        decreases table.len() - k,
    {
        let chars = chars_of(table[k]);
        assert(table.deep_view()[k as int] == table@[k as int]@);
        markers.push(chars);
        k += 1;
    }
    assert(table.deep_view().len() == table.len());
    markers
}

/// Compares `needle` with the characters of `hay` that start at `at`.
fn matches_at(hay: &Vec<char>, needle: &Vec<char>, at: usize) -> (found: bool)
    requires
        at + needle.len() <= hay.len(),
    ensures
        found == occurs_at(hay@, needle@, at as int),
{
    let mut j: usize = 0;
    while j < needle.len()
        invariant
            j <= needle.len(),
            at + needle.len() <= hay.len(),
            forall|k: int| 0 <= k < j ==> hay@[at + k] == needle@[k],
        decreases needle.len() - j,
    {
        if hay[at + j] != needle[j] {
            assert(hay@.subrange(at as int, at + needle.len())[j as int] == hay@[at + j]);
            return false;
        }
        j += 1;
    }
    assert(hay@.subrange(at as int, at + needle.len()) =~= needle@);
    true
}

/// Searches `hay` for `needle`, trying every starting position in turn.
fn contains_chars(hay: &Vec<char>, needle: &Vec<char>) -> (found: bool)
    ensures
        found == has_substring(hay@, needle@),
{
    if needle.len() > hay.len() {
        return false;
    }
    let last: usize = hay.len() - needle.len();
    let mut at: usize = 0;
    while at < last
        invariant
            at <= last,
            last + needle.len() == hay.len(),
            forall|i: int| 0 <= i < at ==> !occurs_at(hay@, needle@, i),
        decreases last - at,
    {
        if matches_at(hay, needle, at) {
            return true;
        }
        at += 1;
    }
    matches_at(hay, needle, last)
}

/// Whether some marker occurs in `path`.
fn any_marker_in(path: &Vec<char>, markers: &Vec<Vec<char>>) -> (found: bool)
    requires
        holds_table(markers@),
    ensures
        found == is_risky(path@),
{
    let mut k: usize = 0;
    while k < markers.len()
        invariant
            k <= markers.len(),
            holds_table(markers@),
            forall|i: int| 0 <= i < k ==> !has_substring(path@, #[trigger] risk_markers()[i]),
        decreases markers.len() - k,
    {
        assert(markers@[k as int]@ == risk_markers()[k as int]);
        if contains_chars(path, &markers[k]) {
            return true;
        }
        k += 1;
    }
    false
}

/// Tells whether `path` contains a marker of the table.
pub fn is_risky_path(path: &str) -> (risky: bool)
    ensures
        risky == is_risky(path@),
{
    let markers = marker_chars();
    let chars = chars_of(path);
    any_marker_in(&chars, &markers)
}

/// Returns the risky paths among `changes`, in their original order.
///
/// The function is total: every change set has a (possibly empty) finding.
pub fn classify(changes: &Vec<String>) -> (findings: Vec<String>)
    ensures
        findings.deep_view() == risk_findings(changes.deep_view()),
        is_ordered_subset(findings.deep_view(), changes.deep_view()),
{
    let markers = marker_chars();
    let mut findings: Vec<String> = Vec::new();
    let ghost all = changes.deep_view();
    let mut i: usize = 0;
    while i < changes.len()
        invariant
            i <= changes.len(),
            all == changes.deep_view(),
            holds_table(markers@),
            findings.deep_view() == risk_findings(all.take(i as int)),
        decreases changes.len() - i,
    {
        let chars = chars_of(changes[i].as_str());
        let ghost before = findings.deep_view();
        proof {
            assert(all.take(i + 1) == all.take(i as int).push(changes@[i as int]@));
            findings_after_push(all.take(i as int), changes@[i as int]@);
        }
        if any_marker_in(&chars, &markers) {
            findings.push(changes[i].clone());
            assert(findings.deep_view() == before.push(changes@[i as int]@));
        }
        i += 1;
    }
    proof {
        assert(all.take(i as int) == all);
        findings_are_ordered_subset(all);
    }
    findings
}

/// Nothing is found in the empty change set.
pub proof fn findings_of_nothing()
    ensures
        risk_findings(Seq::<Seq<char>>::empty()) == Seq::<Seq<char>>::empty(),
{
    reveal(Seq::filter);
}

/// Classification goes path by path: one more change adds itself to the
/// finding when it is risky, and leaves the finding as it was when it is not.
pub proof fn findings_after_push(changes: Seq<Seq<char>>, path: Seq<char>)
    ensures
        risk_findings(changes.push(path)) == if is_risky(path) {
            risk_findings(changes).push(path)
        } else {
            risk_findings(changes)
        },
{
    changes.lemma_filter_push(path, |p: Seq<char>| is_risky(p));
}

/// The finding of a change set is an ordered subset of it: nothing is added,
/// and what is reported keeps the order in which it was given.
pub proof fn findings_are_ordered_subset(changes: Seq<Seq<char>>)
    ensures
        is_ordered_subset(risk_findings(changes), changes),
    decreases changes.len(),
{
    if changes.len() == 0 {
        findings_of_nothing();
        assert(changes == Seq::<Seq<char>>::empty());
        assert(picked_from(risk_findings(changes), changes, Seq::<int>::empty()));
    } else {
        let front = changes.drop_last();
        findings_are_ordered_subset(front);
        let picks = choose|picks: Seq<int>| picked_from(risk_findings(front), front, picks);
        assert(changes == front.push(changes.last()));
        findings_after_push(front, changes.last());
        if is_risky(changes.last()) {
            assert(picked_from(risk_findings(changes), changes, picks.push(changes.len() - 1)));
        } else {
            assert(picked_from(risk_findings(changes), changes, picks));
        }
    }
}

/// A path is reported exactly when it was given and is risky.
pub proof fn findings_are_the_risky_changes(changes: Seq<Seq<char>>, path: Seq<char>)
    ensures
        risk_findings(changes).contains(path) <==> changes.contains(path) && is_risky(path),
{
    let risky = |p: Seq<char>| is_risky(p);
    let found = risk_findings(changes);
    if found.contains(path) {
        let j = choose|j: int| 0 <= j < found.len() && found[j] == path;
        changes.lemma_filter_pred(risky, j);
        changes.lemma_filter_contains_rev(risky, path);
    }
    if changes.contains(path) && is_risky(path) {
        let i = choose|i: int| 0 <= i < changes.len() && changes[i] == path;
        changes.lemma_filter_contains(risky, i);
    }
}

/// A path that contains a marker is the whole finding of the change set that
/// holds it alone; a path that contains none leaves the finding empty.
pub proof fn finding_of_single_change(path: Seq<char>)
    ensures
        is_risky(path) ==> risk_findings(seq![path]) == seq![path],
        !is_risky(path) ==> risk_findings(seq![path]) == Seq::<Seq<char>>::empty(),
{
    let nothing = Seq::<Seq<char>>::empty();
    findings_of_nothing();
    findings_after_push(nothing, path);
    assert(seq![path] == nothing.push(path));
}

/// A path in which a marker of the table occurs at some position is risky.
pub proof fn marker_occurrence_is_risky(path: Seq<char>, k: int, at: int)
    requires
        0 <= k < risk_markers().len(),
        occurs_at(path, risk_markers()[k], at),
    ensures
        is_risky(path),
{
}

} // verus!
