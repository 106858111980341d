use vstd::prelude::*;

use crate::text::same_text;

verus! {

/// The texts held by a vector of strings.
pub open spec fn texts(v: Seq<String>) -> Seq<Seq<char>> {
    v.map_values(|s: String| s@)
}

/// What an [`Expander`] holds, as mathematical values.
pub struct ExpanderView {
    pub features: Seq<Seq<char>>,
    pub all_features: bool,
    pub no_default_features: bool,
    pub tests: bool,
    pub release: bool,
    pub unstable_flags: Seq<Seq<char>>,
    pub manifest_path: Option<Seq<char>>,
}

/// How to run the expansion of a dependency.
#[derive(Debug, Clone)]
pub struct Expander {
    /// Features to activate, each named once, in the order they were added.
    pub features: Vec<String>,
    /// Activate all available features.
    pub all_features: bool,
    /// Do not activate the `default` feature.
    pub no_default_features: bool,
    /// Include tests when expanding the library.
    pub tests: bool,
    /// Build in release mode, with optimizations.
    pub release: bool,
    /// Unstable (nightly-only) flags to the build tool, in order.
    pub unstable_flags: Vec<String>,
    /// The manifest to resolve the dependency graph from; the enclosing
    /// project's manifest when absent.
    pub manifest_path: Option<String>,
}

pub open spec fn opt_text(o: Option<String>) -> Option<Seq<char>> {
    match o {
        Some(s) => Some(s@),
        None => None,
    }
}

impl View for Expander {
    type V = ExpanderView;

    open spec fn view(&self) -> ExpanderView {
        ExpanderView {
            features: texts(self.features@),
            all_features: self.all_features,
            no_default_features: self.no_default_features,
            tests: self.tests,
            release: self.release,
            unstable_flags: texts(self.unstable_flags@),
            manifest_path: opt_text(self.manifest_path),
        }
    }
}

/// The feature list after asking for `f`: unchanged when `f` is already there.
pub open spec fn with_feature(features: Seq<Seq<char>>, f: Seq<char>) -> Seq<Seq<char>> {
    if features.contains(f) {
        features
    } else {
        features.push(f)
    }
}

proof fn lemma_with_feature_contains(features: Seq<Seq<char>>, f: Seq<char>, x: Seq<char>)
    ensures
        with_feature(features, f).contains(x) <==> (features.contains(x) || x == f),
{
    if !features.contains(f) {
        let p = features.push(f);
        assert(p[features.len() as int] == f);
        if features.contains(x) {
            let k = choose|k: int| 0 <= k < features.len() && features[k] == x;
            assert(p[k] == x);
        }
        if p.contains(x) && x != f {
            let k = choose|k: int| 0 <= k < p.len() && p[k] == x;
            assert(features[k] == x);
        }
    }
}

/// Asking for features accumulates them independently of order: asking for
/// `a` then `b` leaves the same set of features as asking for `b` then `a`.
pub proof fn lemma_features_order_independent(features: Seq<Seq<char>>, a: Seq<char>, b: Seq<char>)
    ensures
        with_feature(with_feature(features, a), b).to_set() =~= with_feature(
            with_feature(features, b),
            a,
        ).to_set(),
{
    assert forall|x: Seq<char>|
        #[trigger] with_feature(with_feature(features, a), b).contains(x) <==> with_feature(
            with_feature(features, b),
            a,
        ).contains(x) by {
        lemma_with_feature_contains(features, a, x);
        lemma_with_feature_contains(with_feature(features, a), b, x);
        lemma_with_feature_contains(features, b, x);
        lemma_with_feature_contains(with_feature(features, b), a, x);
    }
}

/// Unstable flags accumulate independently of order, as a set: adding `a`
/// then `b` leaves the same flags as adding `b` then `a`.
pub proof fn lemma_unstable_flags_order_independent(
    flags: Seq<Seq<char>>,
    a: Seq<char>,
    b: Seq<char>,
)
    ensures
        flags.push(a).push(b).to_set() =~= flags.push(b).push(a).to_set(),
{
    let ab = flags.push(a).push(b);
    let ba = flags.push(b).push(a);
    let n = flags.len() as int;
    assert forall|x: Seq<char>| ab.contains(x) <==> ba.contains(x) by {
        if ab.contains(x) {
            let k = choose|k: int| 0 <= k < ab.len() && ab[k] == x;
            if k < n {
                assert(ba[k] == x);
            } else if k == n {
                assert(ba[n + 1] == x);
            } else {
                assert(ba[n] == x);
            }
        }
        if ba.contains(x) {
            let k = choose|k: int| 0 <= k < ba.len() && ba[k] == x;
            if k < n {
                assert(ab[k] == x);
            } else if k == n {
                assert(ab[n + 1] == x);
            } else {
                assert(ab[n] == x);
            }
        }
    }
}

impl Expander {
    /// Every feature is named once.
    pub open spec fn wf(&self) -> bool {
        self@.features.no_duplicates()
    }

    /// Whether `f` is already among the features.
    fn has_feature(&self, f: &str) -> (r: bool)
        ensures
            r == self@.features.contains(f@),
    {
        let mut i: usize = 0;
        while i < self.features.len()
            invariant
                i <= self.features@.len(),
                forall|j: int| 0 <= j < i ==> self.features@[j]@ != f@,
            decreases self.features@.len() - i,
        {
            if same_text(self.features[i].as_str(), f) {
                assert(self@.features[i as int] == f@);
                return true;
            }
            i = i + 1;
        }
        proof {
            if self@.features.contains(f@) {
                let k = choose|k: int| 0 <= k < self@.features.len() && self@.features[k] == f@;
                assert(self.features@[k]@ != f@);
            }
        }
        false
    }

    /// Adds a feature to activate; a feature already present is not added again.
    pub fn add_feature(self, s: &str) -> (r: Self)
        requires
            self.wf(),
        ensures
            r.wf(),
            r@ == (ExpanderView { features: with_feature(self@.features, s@), ..self@ }),
    {
        let mut e = self;
        if !e.has_feature(s) {
            e.features.push(s.to_string());
            assert(e@.features =~= self@.features.push(s@));
        }
        e
    }

    /// Appends an unstable flag, passed to the build tool as `-Z <flag>`.
    pub fn add_unstable_flag(self, s: &str) -> (r: Self)
        ensures
            r@ == (ExpanderView { unstable_flags: self@.unstable_flags.push(s@), ..self@ }),
    {
        let mut e = self;
        e.unstable_flags.push(s.to_string());
        assert(e@.unstable_flags =~= self@.unstable_flags.push(s@));
        e
    }

    /// Sets the manifest that the dependency graph is resolved from.
    pub fn with_manifest(self, s: &str) -> (r: Self)
        ensures
            r@ == (ExpanderView { manifest_path: Some(s@), ..self@ }),
    {
        let mut e = self;
        e.manifest_path = Some(s.to_string());
        e
    }

    /// Includes test code when expanding.
    pub fn with_tests(self) -> (r: Self)
        ensures
            r@ == (ExpanderView { tests: true, ..self@ }),
    {
        let mut e = self;
        e.tests = true;
        e
    }

    /// Activates all available features.
    pub fn with_all_features(self) -> (r: Self)
        ensures
            r@ == (ExpanderView { all_features: true, ..self@ }),
    {
        let mut e = self;
        e.all_features = true;
        e
    }

    /// Does not activate the `default` feature.
    pub fn with_no_default_features(self) -> (r: Self)
        ensures
            r@ == (ExpanderView { no_default_features: true, ..self@ }),
    {
        let mut e = self;
        e.no_default_features = true;
        e
    }

    /// Builds with optimizations.
    pub fn with_release(self) -> (r: Self)
        ensures
            r@ == (ExpanderView { release: true, ..self@ }),
    {
        let mut e = self;
        e.release = true;
        e
    }
}

impl Default for Expander {
    fn default() -> (r: Self)
        ensures
            r.wf(),
            r@ == (ExpanderView {
                features: seq![],
                all_features: false,
                no_default_features: false,
                tests: false,
                release: false,
                unstable_flags: seq![],
                manifest_path: None,
            }),
    {
        let r = Expander {
            features: Vec::new(),
            all_features: false,
            no_default_features: false,
            tests: false,
            release: false,
            unstable_flags: Vec::new(),
            manifest_path: None,
        };
        assert(r@.features =~= seq![]);
        assert(r@.unstable_flags =~= seq![]);
        r
    }
}

} // verus!
