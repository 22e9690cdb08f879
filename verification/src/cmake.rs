//! CMake preset catalogs: the data model and the lookup rule.
//!
//! A catalog holds the configure presets declared by a
//! `CMakePresets.json` document, in declaration order. Lookup by name
//! returns the first preset with the queried name whose `hidden` flag
//! is false; a hidden preset with that name counts as absent, and a
//! missing name is "not found", never an error.

use vstd::prelude::*;
use crate::json::JsonView;
use crate::json::parse_spec;

verus! {

/// The mathematical model of one configure preset: its name and its
/// visibility flag.
pub struct PresetView {
    pub name: Seq<char>,
    pub hidden: bool,
}

/// One named configure preset. `hidden` marks a preset that exists only
/// as a base for others and may not be selected directly.
pub struct CMakePreset {
    name: String,
    hidden: bool,
}

impl View for CMakePreset {
    type V = PresetView;

    closed spec fn view(&self) -> PresetView {
        PresetView { name: self.name@, hidden: self.hidden }
    }
}

impl CMakePreset {
    /// Declares a preset under the given name; `hidden` marks it
    /// ineligible for direct lookup.
    pub fn new(name: &str, hidden: bool) -> (r: Self)
        ensures
            r@.name == name@,
            r@.hidden == hidden,
    {
        CMakePreset { name: name.to_owned(), hidden }
    }

    /// Returns the name of this preset.
    pub fn get_name(&self) -> (r: &str)
        ensures
            r@ == self@.name,
    {
        self.name.as_str()
    }
}

/// The default for a preset's `hidden` flag when the document omits it.
pub fn default_hidden() -> (r: bool)
    ensures
        r == false,
{
    false
}

/// An ordered collection of configure presets.
pub struct CMakePresets {
    configure_presets: Vec<CMakePreset>,
}

impl View for CMakePresets {
    type V = Seq<PresetView>;

    closed spec fn view(&self) -> Seq<PresetView> {
        self.configure_presets@.map(|i: int, p: CMakePreset| p@)
    }
}

/// The preset one entry of the declared array stands for: its string
/// `name`, and its `hidden` flag, false when omitted. `None` when the
/// entry is not an object, has no string `name`, or carries a
/// non-boolean `hidden`.
pub open spec fn preset_entry(entry: JsonView) -> Option<(Seq<char>, bool)> {
    match entry {
        JsonView::Object(m) => if m.dom().contains("name"@) {
            match m["name"@] {
                JsonView::String(name) => if m.dom().contains("hidden"@) {
                    match m["hidden"@] {
                        JsonView::Bool(hidden) => Some((name, hidden)),
                        _ => None,
                    }
                } else {
                    Some((name, false))
                },
                _ => None,
            }
        } else {
            None
        },
        _ => None,
    }
}

/// The presets a parsed document declares: the entries of its top-level
/// `configurePresets` array, in order, each a name with its `hidden`
/// flag. `None` when the document is not an object, lacks that array,
/// or any entry is rejected by [`preset_entry`]. Other fields of the
/// document and of the entries play no part.
pub open spec fn presets_in(doc: JsonView) -> Option<Seq<(Seq<char>, bool)>> {
    match doc {
        JsonView::Object(m) => if m.dom().contains("configurePresets"@) {
            match m["configurePresets"@] {
                JsonView::Array(entries) => if forall|i: int|
                    0 <= i < entries.len() ==> preset_entry(entries[i]) is Some {
                    Some(Seq::new(entries.len(), |i: int| preset_entry(entries[i])->0))
                } else {
                    None
                },
                _ => None,
            }
        } else {
            None
        },
        _ => None,
    }
}

/// The presets a text declares: `None` when the text is not valid JSON
/// or its document does not have the declared shape.
pub open spec fn parsed_presets(text: Seq<char>) -> Option<Seq<(Seq<char>, bool)>> {
    match parse_spec(text) {
        Some(doc) => presets_in(doc),
        None => None,
    }
}

/// The name and `hidden` flag of each preset of a catalog, in order.
pub open spec fn entries_of(presets: Seq<PresetView>) -> Seq<(Seq<char>, bool)> {
    Seq::new(presets.len(), |i: int| (presets[i].name, presets[i].hidden))
}

/// The catalog a sequence of declared entries loads to.
pub open spec fn catalog_view(entries: Seq<(Seq<char>, bool)>) -> Seq<PresetView> {
    Seq::new(entries.len(), |i: int| PresetView { name: entries[i].0, hidden: entries[i].1 })
}

/// The lookup rule: the first preset in declaration order whose name is
/// `name` and which is not hidden, or `None` when every preset with that
/// name is hidden or the name is absent.
pub open spec fn lookup(presets: Seq<PresetView>, name: Seq<char>) -> Option<PresetView>
    decreases presets.len(),
{
    if presets.len() == 0 {
        None
    } else if presets[0].name == name && !presets[0].hidden {
        Some(presets[0])
    } else {
        lookup(presets.skip(1), name)
    }
}

/// Reads one declared entry: its required string `name` and its
/// `hidden` flag, defaulting to false; `None` exactly when
/// [`preset_entry`] rejects the entry.
fn entry_preset_of(entry: &serde_json::Value) -> (r: Option<(String, bool)>)
    ensures
        match r {
            Some(p) => preset_entry(crate::json::json_view(*entry)) == Some((p.0@, p.1)),
            None => preset_entry(crate::json::json_view(*entry)) is None,
        },
{
    let name = match crate::json::json_get(entry, "name") {
        Some(v) => match crate::json::json_as_str(v) {
            Some(s) => s.to_owned(),
            None => {
                return None;
            },
        },
        None => {
            return None;
        },
    };
    let hidden = match crate::json::json_get(entry, "hidden") {
        Some(v) => match crate::json::json_as_bool(v) {
            Some(b) => b,
            None => {
                return None;
            },
        },
        None => default_hidden(),
    };
    Some((name, hidden))
}

impl CMakePresets {
    /// Reads a catalog out of the text of a `CMakePresets.json`
    /// document: the entries of the top-level `configurePresets` array,
    /// in order. Each entry must carry a string `name`; `hidden` may be
    /// omitted and then defaults to false. Unknown fields, at the top
    /// level and per entry, are ignored.
    ///
    /// Returns `None` exactly when the text is not valid JSON or does
    /// not have that shape, see [`parsed_presets`].
    pub fn from_json(text: &str) -> (r: Option<Self>)
        ensures
            match r {
                Some(catalog) => parsed_presets(text@) == Some(entries_of(catalog@)),
                None => parsed_presets(text@) is None,
            },
    {
        let document = match crate::json::parse_json(text) {
            Ok(v) => v,
            Err(_) => {
                return None;
            },
        };
        let declared = match crate::json::json_get(&document, "configurePresets") {
            Some(v) => v,
            None => {
                return None;
            },
        };
        let entries = match crate::json::json_as_array(declared) {
            Some(a) => a,
            None => {
                return None;
            },
        };
        let ghost doc = crate::json::json_view(document);
        let ghost decl = entries@.map(|k: int, e: serde_json::Value| crate::json::json_view(e));
        let mut presets: Vec<CMakePreset> = Vec::new();
        let n = entries.len();
        let mut i: usize = 0;
        while i < n
            invariant
                n == entries.len(),
                i <= n,
                decl == entries@.map(|k: int, e: serde_json::Value| crate::json::json_view(e)),
                parse_spec(text@) == Some(doc),
                presets_in(doc) == (if forall|k: int|
                    0 <= k < decl.len() ==> #[trigger] preset_entry(decl[k]) is Some {
                    Some(Seq::new(decl.len(), |k: int| preset_entry(decl[k])->0))
                } else {
                    None::<Seq<(Seq<char>, bool)>>
                }),
                presets@.len() == i,
                forall|j: int|
                    0 <= j < i ==> (#[trigger] preset_entry(decl[j]) matches Some(p) && p == (
                    presets@[j]@.name,
                    presets@[j]@.hidden,
                    )),
            decreases n - i,
        {
            let entry = &entries[i];
            proof {
                assert(decl[i as int] == crate::json::json_view(entries@[i as int]));
            }
            match entry_preset_of(entry) {
                None => {
                    proof {
                        assert(preset_entry(decl[i as int]) is None);
                        assert(presets_in(doc) is None);
                    }
                    return None;
                },
                Some((name, hidden)) => {
                    presets.push(CMakePreset::new(name.as_str(), hidden));
                },
            }
            i = i + 1;
        }
        let catalog = CMakePresets { configure_presets: presets };
        proof {
            assert(entries_of(catalog@) =~= Seq::new(decl.len(), |k: int| preset_entry(decl[k])->0));
        }
        Some(catalog)
    }

    /// Builds a catalog directly from its presets, in order.
    pub fn from_presets(presets: Vec<CMakePreset>) -> (r: Self)
        ensures
            r@ == presets@.map(|i: int, p: CMakePreset| p@),
    {
        CMakePresets { configure_presets: presets }
    }

    /// Finds a non-hidden preset by name.
    ///
    /// Returns `None` if no preset with the given name exists, or if
    /// every matching preset has `hidden: true`; on duplicates the first
    /// match in declaration order wins.
    pub fn get_preset(&self, name: &str) -> (r: Option<&CMakePreset>)
        ensures
            match r {
                Some(p) => lookup(self@, name@) == Some(p@),
                None => lookup(self@, name@) is None,
            },
    {
        let query: String = name.to_owned();
        let n = self.configure_presets.len();
        let mut i: usize = 0;
        proof {
            assert(self@.skip(0) =~= self@);
        }
        while i < n
            invariant
                n == self.configure_presets.len(),
                i <= n,
                query@ == name@,
                lookup(self@, name@) == lookup(self@.skip(i as int), name@),
            decreases n - i,
        {
            let p = &self.configure_presets[i];
            proof {
                assert(self@.skip(i as int)[0] == self@[i as int]);
            }
            if !p.hidden && p.name == query {
                return Some(p);
            }
            proof {
                assert(self@.skip(i as int).skip(1) =~= self@.skip(i as int + 1));
            }
            i = i + 1;
        }
        proof {
            assert(self@.skip(n as int).len() == 0);
        }
        None
    }
}

/// Law: a catalog that declares a visible preset under a name answers a
/// lookup of that name with a visible preset carrying exactly that name.
pub proof fn lemma_lookup_visible_is_found(presets: Seq<PresetView>, name: Seq<char>)
    requires
        exists|i: int| 0 <= i < presets.len() && presets[i].name == name && !presets[i].hidden,
    ensures
        lookup(presets, name) matches Some(p) && p.name == name && !p.hidden,
    decreases presets.len(),
{
    let i = choose|i: int| 0 <= i < presets.len() && presets[i].name == name && !presets[i].hidden;
    if presets[0].name == name && !presets[0].hidden {
    } else {
        assert(presets.skip(1)[i - 1] == presets[i]);
        lemma_lookup_visible_is_found(presets.skip(1), name);
    }
}

/// A found preset carries exactly the queried name and is not hidden.
pub proof fn lemma_lookup_found_matches(presets: Seq<PresetView>, name: Seq<char>)
    requires
        lookup(presets, name) is Some,
    ensures
        lookup(presets, name) matches Some(p) && p.name == name && !p.hidden,
    decreases presets.len(),
{
    if presets.len() > 0 && !(presets[0].name == name && !presets[0].hidden) {
        lemma_lookup_found_matches(presets.skip(1), name);
    }
}

/// Law: when every preset carrying the queried name is hidden — in
/// particular when the name is absent altogether — lookup reports
/// "not found".
pub proof fn lemma_lookup_hidden_or_absent(presets: Seq<PresetView>, name: Seq<char>)
    requires
        forall|i: int| 0 <= i < presets.len() && presets[i].name == name ==> presets[i].hidden,
    ensures
        lookup(presets, name) is None,
    decreases presets.len(),
{
    if presets.len() > 0 {
        assert(forall|i: int|
            0 <= i < presets.skip(1).len() && presets.skip(1)[i].name == name ==> presets[i
                + 1].hidden);
        lemma_lookup_hidden_or_absent(presets.skip(1), name);
    }
}

} // verus!
