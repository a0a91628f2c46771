//! Engine-family detection: which response-engine implementation a bundle
//! requires, decided from the loadable-module files found near its manifest
//! and, failing that, from known per-family marker file names.
//!
//! The rules run top to bottom with early exit: a module name holding a
//! family token decides immediately; a generically named module falls back
//! to the directory heuristic; no module at all still tries the heuristic.

use vstd::prelude::*;

use crate::foreign::{lower_of, lowercase};
use crate::text::{seq_contains, str_contains, str_eq};

verus! {

/// Which response-engine family a bundle requires.
#[allow(non_camel_case_types)]
#[derive(Debug)]
pub enum ShioriType {
    YAYA,
    SATORIYA,
    Unknown(String),
}

/// A `ShioriType`, seen mathematically.
#[allow(non_camel_case_types)]
pub ghost enum ShioriTypeView {
    YAYA,
    SATORIYA,
    Unknown(Seq<char>),
}

impl View for ShioriType {
    type V = ShioriTypeView;

    open spec fn view(&self) -> ShioriTypeView {
        match self {
            ShioriType::YAYA => ShioriTypeView::YAYA,
            ShioriType::SATORIYA => ShioriTypeView::SATORIYA,
            ShioriType::Unknown(reason) => ShioriTypeView::Unknown(reason@),
        }
    }
}

impl ShioriType {
    /// A copy whose view is the same.
    pub fn duplicate(&self) -> (r: Self)
        ensures
            r@ == self@,
    {
        match self {
            ShioriType::YAYA => ShioriType::YAYA,
            ShioriType::SATORIYA => ShioriType::SATORIYA,
            ShioriType::Unknown(reason) => ShioriType::Unknown(reason.clone()),
        }
    }
}

impl PartialEq for ShioriType {
    fn eq(&self, other: &Self) -> (r: bool) {
        match (self, other) {
            (ShioriType::YAYA, ShioriType::YAYA) => true,
            (ShioriType::SATORIYA, ShioriType::SATORIYA) => true,
            (ShioriType::Unknown(a), ShioriType::Unknown(b)) => str_eq(a.as_str(), b.as_str()),
            _ => false,
        }
    }
}

impl vstd::std_specs::cmp::PartialEqSpecImpl for ShioriType {
    open spec fn obeys_eq_spec() -> bool {
        true
    }

    open spec fn eq_spec(&self, other: &Self) -> bool {
        match (self, other) {
            (ShioriType::YAYA, ShioriType::YAYA) => true,
            (ShioriType::SATORIYA, ShioriType::SATORIYA) => true,
            (ShioriType::Unknown(a), ShioriType::Unknown(b)) => a@ == b@,
            _ => false,
        }
    }
}

impl ShioriType {
    /// The tag for an engine slot's family: the empty slot maps to the
    /// unrecognized tag.
    pub fn from_engine(engine: &crate::engine::EngineType) -> (r: Self)
        ensures
            engine is YAYA ==> r is YAYA,
            engine is SATORIYA ==> r is SATORIYA,
            engine is NoEngine ==> r@ == ShioriTypeView::Unknown("None"@),
    {
        match engine {
            crate::engine::EngineType::YAYA => ShioriType::YAYA,
            crate::engine::EngineType::SATORIYA => ShioriType::SATORIYA,
            crate::engine::EngineType::NoEngine => ShioriType::Unknown(String::from_str("None")),
        }
    }
}

/// A loadable-module file found while scanning a bundle: its bare file name
/// and its full path, the latter carried through unread.
pub struct DllEntry {
    pub file_name: String,
    pub path: String,
}

/// A `DllEntry`, seen mathematically.
pub ghost struct DllEntryView {
    pub name: Seq<char>,
    pub path: Seq<char>,
}

impl View for DllEntry {
    type V = DllEntryView;

    open spec fn view(&self) -> DllEntryView {
        DllEntryView { name: self.file_name@, path: self.path@ }
    }
}

/// Whether a file name has the `dll` extension, as the scanner selects
/// modules: at least one character before a literal `.dll` ending.
pub open spec fn is_dll_name(n: Seq<char>) -> bool {
    n.len() >= 5 && n.subrange(n.len() - 4, n.len() as int) == ".dll"@
}

/// Whether any of `names` is exactly `target`.
pub open spec fn has_name(names: Seq<Seq<char>>, target: Seq<char>) -> bool {
    names.contains(target)
}

/// The directory heuristic: known per-family marker files, family-A markers
/// first, else the unrecognized tag.
pub open spec fn guess_from_markers(markers: Seq<Seq<char>>) -> ShioriTypeView {
    if has_name(markers, "yaya.txt"@) || has_name(markers, "yaya_shiori3.dll"@) || has_name(
        markers,
        "aya5.dll"@,
    ) {
        ShioriTypeView::YAYA
    } else if has_name(markers, "satori.dll"@) || has_name(markers, "satori_conf.txt"@) {
        ShioriTypeView::SATORIYA
    } else {
        ShioriTypeView::Unknown("No SHIORI detected"@)
    }
}

/// The full detection cascade over the module files in scan order: the
/// first `.dll` whose lowercased name holds a family token decides; a
/// generic `shiori.dll` falls back to the directory heuristic but records
/// its path; if no module decides, the heuristic alone decides, with no
/// module path.
pub open spec fn detect_spec(
    entries: Seq<DllEntryView>,
    markers: Seq<Seq<char>>,
) -> (ShioriTypeView, Option<Seq<char>>)
    decreases entries.len(),
{
    if entries.len() == 0 {
        (guess_from_markers(markers), None)
    } else {
        let e = entries.first();
        if is_dll_name(e.name) {
            let ln = lower_of(e.name);
            if seq_contains(ln, "yaya"@) || seq_contains(ln, "aya"@) {
                (ShioriTypeView::YAYA, Some(e.path))
            } else if seq_contains(ln, "satori"@) {
                (ShioriTypeView::SATORIYA, Some(e.path))
            } else if ln == "shiori.dll"@ {
                (guess_from_markers(markers), Some(e.path))
            } else {
                detect_spec(entries.drop_first(), markers)
            }
        } else {
            detect_spec(entries.drop_first(), markers)
        }
    }
}

/// An optional string, seen mathematically.
pub open spec fn opt_path_view(o: Option<String>) -> Option<Seq<char>> {
    match o {
        Some(s) => Some(s@),
        None => None,
    }
}

/// Whether `names` holds `target`, character for character.
pub fn list_has_name(names: &Vec<String>, target: &str) -> (r: bool)
    ensures
        r == has_name(names@.map_values(|n: String| n@), target@),
{
    let ghost nv = names@.map_values(|n: String| n@);
    let mut i: usize = 0;
    while i < names.len()
        invariant
            nv == names@.map_values(|n: String| n@),
            nv.len() == names@.len(),
            0 <= i <= names@.len(),
            forall|k: int| 0 <= k < i ==> nv[k] != target@,
        decreases names@.len() - i,
    {
        if str_eq(names[i].as_str(), target) {
            proof {
                assert(nv[i as int] == target@);
            }
            return true;
        }
        i += 1;
    }
    proof {
        if nv.contains(target@) {
            let k = choose|k: int| 0 <= k < nv.len() && nv[k] == target@;
            assert(false);
        }
    }
    false
}

/// The directory heuristic, executable form.
pub fn guess_shiori_type_from_directory(markers: &Vec<String>) -> (r: ShioriType)
    ensures
        r@ == guess_from_markers(markers@.map_values(|n: String| n@)),
{
    if list_has_name(markers, "yaya.txt") || list_has_name(markers, "yaya_shiori3.dll")
        || list_has_name(markers, "aya5.dll") {
        ShioriType::YAYA
    } else if list_has_name(markers, "satori.dll") || list_has_name(markers, "satori_conf.txt") {
        ShioriType::SATORIYA
    } else {
        ShioriType::Unknown(String::from_str("No SHIORI detected"))
    }
}

fn has_dll_extension(name: &str) -> (r: bool)
    ensures
        r == is_dll_name(name@),
{
    let n = name.unicode_len();
    if n < 5 {
        return false;
    }
    let tail = name.substring_char(n - 4, n);
    str_eq(tail, ".dll")
}

/// The detection cascade, executable form: the module files in scan order
/// and the marker file names beside the manifest decide the family and the
/// recorded module path.
pub fn detect_shiori_type(entries: &Vec<DllEntry>, markers: &Vec<String>) -> (r: (
    ShioriType,
    Option<String>,
))
    ensures
        (r.0@, opt_path_view(r.1)) == detect_spec(
            entries@.map_values(|e: DllEntry| e@),
            markers@.map_values(|n: String| n@),
        ),
{
    let ghost ev = entries@.map_values(|e: DllEntry| e@);
    let ghost mv = markers@.map_values(|n: String| n@);
    proof {
        assert(ev.skip(0) =~= ev);
    }
    let mut i: usize = 0;
    while i < entries.len()
        invariant
            ev == entries@.map_values(|e: DllEntry| e@),
            mv == markers@.map_values(|n: String| n@),
            ev.len() == entries@.len(),
            0 <= i <= entries@.len(),
            detect_spec(ev, mv) == detect_spec(ev.skip(i as int), mv),
        decreases entries@.len() - i,
    {
        proof {
            assert(ev.skip(i as int).first() == ev[i as int]);
            assert(ev.skip(i as int).drop_first() =~= ev.skip(i + 1));
        }
        let name = entries[i].file_name.as_str();
        if has_dll_extension(name) {
            let lowered = lowercase(name);
            let ln = lowered.as_str();
            if str_contains(ln, "yaya") || str_contains(ln, "aya") {
                return (ShioriType::YAYA, Some(entries[i].path.clone()));
            } else if str_contains(ln, "satori") {
                return (ShioriType::SATORIYA, Some(entries[i].path.clone()));
            } else if str_eq(ln, "shiori.dll") {
                let guessed = guess_shiori_type_from_directory(markers);
                return (guessed, Some(entries[i].path.clone()));
            }
        }
        i += 1;
    }
    proof {
        assert(ev.skip(ev.len() as int) =~= Seq::<DllEntryView>::empty());
    }
    let guessed = guess_shiori_type_from_directory(markers);
    (guessed, None)
}

/// The bundle root that a manifest path implies: the manifest's directory,
/// walked upward past a `master` engine-resource folder and then past a
/// `ghost` container folder when those are the enclosing names.  `None`
/// when the path runs out of components on the way.
pub open spec fn ghost_root_of(components: Seq<Seq<char>>) -> Option<Seq<Seq<char>>> {
    if components.len() == 0 {
        None
    } else {
        let parent = components.drop_last();
        if parent.len() == 0 {
            None
        } else {
            let after_master = if parent.last() == "master"@ {
                parent.drop_last()
            } else {
                parent
            };
            if after_master.len() == 0 {
                None
            } else {
                let after_ghost = if after_master.last() == "ghost"@ {
                    after_master.drop_last()
                } else {
                    after_master
                };
                Some(after_ghost)
            }
        }
    }
}

/// Copies the first `n` path components.
fn clone_components(v: &Vec<String>, n: usize) -> (r: Vec<String>)
    requires
        n <= v@.len(),
    ensures
        r@.map_values(|s: String| s@) == v@.map_values(|s: String| s@).take(n as int),
{
    let mut out: Vec<String> = Vec::new();
    let mut i: usize = 0;
    while i < n
        invariant
            n <= v@.len(),
            0 <= i <= n,
            out@.len() == i,
            forall|k: int| 0 <= k < i ==> out@[k]@ == #[trigger] v@[k]@,
        decreases n - i,
    {
        out.push(v[i].clone());
        i += 1;
    }
    proof {
        assert(out@.map_values(|s: String| s@) =~= v@.map_values(|s: String| s@).take(n as int));
    }
    out
}

/// Resolves the bundle root from a manifest file path, given as its
/// components; executable form of `ghost_root_of`.
pub fn find_ghost_root_from_descript(components: &Vec<String>) -> (r: Option<Vec<String>>)
    ensures
        match r {
            Some(root) => ghost_root_of(components@.map_values(|s: String| s@)) == Some(
                root@.map_values(|s: String| s@),
            ),
            None => ghost_root_of(components@.map_values(|s: String| s@)) is None,
        },
{
    let ghost cv = components@.map_values(|s: String| s@);
    let n = components.len();
    if n == 0 {
        return None;
    }
    let mut current = clone_components(components, n - 1);
    proof {
        assert(cv.take(n - 1) =~= cv.drop_last());
    }
    if current.len() == 0 {
        return None;
    }
    if str_eq(current[current.len() - 1].as_str(), "master") {
        let ghost before = current@.map_values(|s: String| s@);
        current.pop();
        proof {
            assert(current@.map_values(|s: String| s@) =~= before.drop_last());
        }
    }
    if current.len() == 0 {
        return None;
    }
    if str_eq(current[current.len() - 1].as_str(), "ghost") {
        let ghost before = current@.map_values(|s: String| s@);
        current.pop();
        proof {
            assert(current@.map_values(|s: String| s@) =~= before.drop_last());
        }
    }
    Some(current)
}

/// Path normalization without filesystem access: a `..` component removes
/// the component before it (or nothing at the front), a `.` component is
/// dropped, everything else is kept in order.
pub open spec fn normalize_spec(components: Seq<Seq<char>>) -> Seq<Seq<char>>
    decreases components.len(),
{
    if components.len() == 0 {
        seq![]
    } else {
        let prev = normalize_spec(components.drop_last());
        if components.last() == ".."@ {
            if prev.len() > 0 {
                prev.drop_last()
            } else {
                prev
            }
        } else if components.last() == "."@ {
            prev
        } else {
            prev.push(components.last())
        }
    }
}

/// Resolves `..` and `.` components, as `normalize_spec` describes it.
pub fn normalize_path(components: &Vec<String>) -> (r: Vec<String>)
    ensures
        r@.map_values(|s: String| s@) == normalize_spec(
            components@.map_values(|s: String| s@),
        ),
{
    let ghost cv = components@.map_values(|s: String| s@);
    let mut out: Vec<String> = Vec::new();
    proof {
        assert(out@.map_values(|s: String| s@) =~= normalize_spec(cv.take(0)));
    }
    let mut i: usize = 0;
    while i < components.len()
        invariant
            cv == components@.map_values(|s: String| s@),
            cv.len() == components@.len(),
            0 <= i <= components@.len(),
            out@.map_values(|s: String| s@) == normalize_spec(cv.take(i as int)),
        decreases components@.len() - i,
    {
        proof {
            assert(cv.take(i + 1).drop_last() =~= cv.take(i as int));
            assert(cv.take(i + 1).last() == cv[i as int]);
            assert(cv[i as int] == components@[i as int]@);
        }
        let ghost before = out@.map_values(|s: String| s@);
        let c = components[i].as_str();
        if str_eq(c, "..") {
            let _ = out.pop();
            proof {
                if before.len() > 0 {
                    assert(out@.map_values(|s: String| s@) =~= before.drop_last());
                } else {
                    assert(out@.map_values(|s: String| s@) =~= before);
                }
            }
        } else if str_eq(c, ".") {
        } else {
            out.push(components[i].clone());
            proof {
                assert(out@.map_values(|s: String| s@) =~= before.push(cv[i as int]));
            }
        }
        i += 1;
    }
    proof {
        assert(cv.take(cv.len() as int) =~= cv);
    }
    out
}

} // verus!
