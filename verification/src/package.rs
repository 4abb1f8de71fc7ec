//! Registry packages named by the paths that a build leaves in a binary.

use vstd::prelude::*;
use vstd::std_specs::cmp::PartialEqSpecImpl;
use crate::gather::{gathered, lemma_gathered_empty, lemma_gathered_push};
use crate::pattern::{
    captures_all, compile, regex_accepts, regex_captures, span_text, text_at, Capture, ScanError,
    PACKAGE_PATTERN,
};

verus! {

/// One third-party package found in a binary.
///
/// Two packages are the same only if all three fields agree: one release
/// fetched from two registries counts twice.
#[derive(Debug, Clone, Eq, Hash)]
pub struct Package {
    /// The matched path fragment, with its separators as found.
    pub path: String,
    /// The package's name.
    pub name: String,
    /// The package's version: digits and dots.
    pub version: String,
}

/// The text of a package's three fields.
pub struct PackageText {
    pub path: Seq<char>,
    pub name: Seq<char>,
    pub version: Seq<char>,
}

impl View for Package {
    type V = PackageText;

    open spec fn view(&self) -> PackageText {
        PackageText { path: self.path@, name: self.name@, version: self.version@ }
    }
}

impl PartialEq for Package {
    fn eq(&self, other: &Self) -> (same: bool) {
        self.path == other.path && self.name == other.name && self.version == other.version
    }
}

impl PartialEqSpecImpl for Package {
    open spec fn obeys_eq_spec() -> bool {
        true
    }

    open spec fn eq_spec(&self, other: &Self) -> bool {
        self.path@ == other.path@ && self.name@ == other.name@ && self.version@ == other.version@
    }
}

/// A set of packages, kept in the order in which they were first seen. No
/// package is held twice.
#[derive(Debug, Clone)]
pub struct PackageSet {
    items: Vec<Package>,
}

impl View for PackageSet {
    type V = Set<PackageText>;

    /// The packages of the set.
    open spec fn view(&self) -> Set<PackageText> {
        self.texts().to_set()
    }
}

impl PackageSet {
    /// The packages of the set, in the order in which they were inserted.
    pub closed spec fn texts(&self) -> Seq<PackageText> {
        self.items@.map_values(|p: Package| p@)
    }

    /// No package is listed twice.
    pub open spec fn wf(&self) -> bool {
        self.texts().no_duplicates()
    }

    /// The empty set.
    pub fn new() -> (set: PackageSet)
        ensures
            set.wf(),
            set.texts() == Seq::<PackageText>::empty(),
            set@ == Set::<PackageText>::empty(),
    {
        let set = PackageSet { items: Vec::new() };
        assert(set.texts() =~= Seq::<PackageText>::empty());
        assert(set@ =~= Set::<PackageText>::empty());
        set
    }

    /// Whether `package` is in the set.
    pub fn contains(&self, package: &Package) -> (found: bool)
        ensures
            found == self@.contains(package@),
    {
        let mut i: usize = 0;
        while i < self.items.len()
            invariant
                i <= self.items.len(),
                forall|j: int| 0 <= j < i ==> self.texts()[j] != package@,
            decreases self.items.len() - i,
        {
            if self.items[i] == *package {
                assert(self.texts()[i as int] == package@);
                return true;
            }
            i += 1;
        }
        false
    }

    /// Adds `package` to the set and says whether it was new.
    pub fn insert(&mut self, package: Package) -> (added: bool)
        requires
            old(self).wf(),
        ensures
            final(self).wf(),
            final(self)@ == old(self)@.insert(package@),
            added == !old(self)@.contains(package@),
            final(self).texts() == if added {
                old(self).texts().push(package@)
            } else {
                old(self).texts()
            },
    {
        if self.contains(&package) {
            assert(self@ =~= self@.insert(package@));
            false
        } else {
            let ghost before = self.texts();
            let ghost text = package@;
            self.items.push(package);
            assert(self.texts() =~= before.push(text));
            assert(self@ =~= before.to_set().insert(text)) by {
                assert forall|t: PackageText| before.push(text).contains(t) <==> (t == text
                    || before.contains(t)) by {
                    if before.contains(t) {
                        let j = choose|j: int| 0 <= j < before.len() && before[j] == t;
                        assert(before.push(text)[j] == t);
                    }
                    if t == text {
                        assert(before.push(text)[before.len() as int] == t);
                    }
                }
            }
            true
        }
    }

    /// The number of packages in the set.
    pub fn len(&self) -> (n: usize)
        requires
            self.wf(),
        ensures
            n == self@.len(),
            n == self.texts().len(),
    {
        proof {
            self.texts().unique_seq_to_set();
        }
        self.items.len()
    }

    /// Whether the set holds nothing.
    pub fn is_empty(&self) -> (empty: bool)
        ensures
            empty == (self@ == Set::<PackageText>::empty()),
    {
        let empty = self.items.len() == 0;
        proof {
            if empty {
                assert(self@ =~= Set::<PackageText>::empty());
            } else {
                assert(self.texts().contains(self.texts()[0]));
                assert(self@.contains(self.texts()[0]));
            }
        }
        empty
    }

    /// The packages of the set as a list, in the order in which they were
    /// inserted.
    pub fn into_vec(self) -> (packages: Vec<Package>)
        ensures
            packages@.map_values(|p: Package| p@) == self.texts(),
    {
        self.items
    }
}

/// Entering a package a second time changes nothing: a set that is empty
/// before holds one package after both entries.
pub proof fn lemma_insert_twice(set: Set<PackageText>, package: PackageText)
    ensures
        set.insert(package).insert(package) == set.insert(package),
        Set::<PackageText>::empty().insert(package).insert(package).len() == 1,
{
    assert(set.insert(package).insert(package) =~= set.insert(package));
    assert(Set::<PackageText>::empty().insert(package).insert(package) =~= Set::<
        PackageText,
    >::empty().insert(package));
}

/// Two packages that differ in their paths are two packages, though name
/// and version agree: a set that is empty before holds both after.
pub proof fn lemma_paths_tell_apart(first: PackageText, second: PackageText)
    requires
        first.path != second.path,
    ensures
        first != second,
        Set::<PackageText>::empty().insert(first).insert(second).len() == 2,
        Set::<PackageText>::empty().insert(first).insert(second).contains(first),
        Set::<PackageText>::empty().insert(first).insert(second).contains(second),
{
}

/// The package that one match names: its path is the whole match, its name
/// and version are the two captured groups. A match is passed over where a
/// group is missing or a piece of it cannot be read as text.
pub open spec fn capture_package(content: Seq<u8>, capture: Capture) -> Option<PackageText> {
    match (capture.whole, capture.first, capture.second) {
        (Some(whole), Some(first), Some(second)) => match (
            span_text(content, whole),
            span_text(content, first),
            span_text(content, second),
        ) {
            (Some(path), Some(name), Some(version)) => Some(PackageText { path, name, version }),
            _ => None,
        },
        _ => None,
    }
}

/// The packages that a list of matches names.
pub open spec fn package_set(content: Seq<u8>, captures: Seq<Capture>) -> Set<PackageText> {
    gathered(captures, |c: Capture| capture_package(content, c))
}

/// Reads the package that one match names.
pub fn package_of(content: &[u8], capture: &Capture) -> (package: Option<Package>)
    ensures
        match package {
            Some(p) => capture_package(content@, *capture) == Some(p@),
            None => capture_package(content@, *capture).is_none(),
        },
{
    match (capture.whole, capture.first, capture.second) {
        (Some(whole), Some(first), Some(second)) => {
            match (text_at(content, whole), text_at(content, first), text_at(content, second)) {
                (Some(path), Some(name), Some(version)) => Some(Package { path, name, version }),
                _ => None,
            }
        },
        _ => None,
    }
}

/// Collects the packages that a list of matches names, each once.
pub fn packages_from_captures(content: &[u8], captures: &[Capture]) -> (set: PackageSet)
    ensures
        set.wf(),
        set@ == package_set(content@, captures@),
{
    let mut set = PackageSet::new();
    let ghost read = |c: Capture| capture_package(content@, c);
    proof {
        lemma_gathered_empty::<Capture, PackageText>(read);
        assert(captures@.take(0) =~= Seq::<Capture>::empty());
    }
    let mut i: usize = 0;
    while i < captures.len()
        invariant
            i <= captures.len(),
            set.wf(),
            read == (|c: Capture| capture_package(content@, c)),
            set@ == gathered(captures@.take(i as int), read),
        decreases captures.len() - i,
    {
        proof {
            lemma_gathered_push(captures@.take(i as int), read, captures@[i as int]);
            assert(captures@.take(i as int).push(captures@[i as int]) =~= captures@.take(i + 1));
        }
        match package_of(content, &captures[i]) {
            Some(package) => {
                set.insert(package);
            },
            None => {},
        }
        i += 1;
    }
    assert(captures@.take(captures@.len() as int) =~= captures@);
    set
}

/// Finds the registry packages whose cache paths stand in `content`.
///
/// The call succeeds on every buffer, unless the engine refuses the package
/// pattern.
pub fn extract_packages(content: &[u8]) -> (found: Result<PackageSet, ScanError>)
    ensures
        found is Ok <==> regex_accepts(PACKAGE_PATTERN@),
        found matches Ok(set) ==> set.wf() && set@ == package_set(
            content@,
            regex_captures(PACKAGE_PATTERN@, content@),
        ),
        found matches Err(e) ==> e == ScanError::PackagePattern,
{
    match compile(PACKAGE_PATTERN) {
        Ok(re) => {
            let captures = captures_all(&re, content);
            Ok(packages_from_captures(content, captures.as_slice()))
        },
        Err(_) => Err(ScanError::PackagePattern),
    }
}

} // verus!
