use vstd::prelude::*;

pub mod detector;
pub mod technologies;

use crate::detector::{expr_matches, spec_extract_version};
use crate::technologies::{Pattern, PatternView, Technology, TechnologyView};

verus! {

// ---------------------------------------------------------------------------
// The normalized page: the engine's only input besides the catalog.
// ---------------------------------------------------------------------------

/// A fetched page reduced to the surfaces the engine inspects. The three
/// name-to-value associations are ordered pair lists; a lookup takes the
/// first pair with the wanted name, so unique names behave exactly like a
/// map.
pub struct WebPage {
    pub url: String,
    pub html: String,
    pub headers: Vec<(String, String)>,
    pub cookies: Vec<(String, String)>,
    pub scripts: Vec<String>,
    pub meta_tags: Vec<(String, String)>,
}

/// The mathematical content of a `WebPage`.
#[verifier::ext_equal]
pub ghost struct WebPageView {
    pub url: Seq<char>,
    pub html: Seq<char>,
    pub headers: Seq<(Seq<char>, Seq<char>)>,
    pub cookies: Seq<(Seq<char>, Seq<char>)>,
    pub scripts: Seq<Seq<char>>,
    pub meta_tags: Seq<(Seq<char>, Seq<char>)>,
}

impl View for WebPage {
    type V = WebPageView;

    open spec fn view(&self) -> WebPageView {
        WebPageView {
            url: self.url@,
            html: self.html@,
            headers: self.headers.deep_view(),
            cookies: self.cookies.deep_view(),
            scripts: self.scripts.deep_view(),
            meta_tags: self.meta_tags.deep_view(),
        }
    }
}

/// The value under the first pair carrying the wanted name, if any.
pub open spec fn assoc_lookup(m: Seq<(Seq<char>, Seq<char>)>, k: Seq<char>) -> Option<Seq<char>>
    decreases m.len(),
{
    if m.len() == 0 {
        None
    } else if m[0].0 == k {
        Some(m[0].1)
    } else {
        assoc_lookup(m.skip(1), k)
    }
}

/// Find the value stored under a name, if any.
pub fn assoc_get<'a>(m: &'a Vec<(String, String)>, k: &String) -> (r: Option<&'a String>)
    ensures
        r.deep_view() == assoc_lookup(m.deep_view(), k@),
{
    proof {
        assert(m.deep_view().skip(0) =~= m.deep_view());
    }
    let mut i: usize = 0;
    while i < m.len()
        invariant
            i <= m.len(),
            assoc_lookup(m.deep_view().skip(i as int), k@) == assoc_lookup(m.deep_view(), k@),
        decreases m.len() - i,
    {
        let pair = &m[i];
        if pair.0 == *k {
            return Some(&pair.1);
        }
        proof {
            assert(m.deep_view().skip(i as int).skip(1) =~= m.deep_view().skip(i as int + 1));
        }
        i += 1;
    }
    proof {
        assert(m.deep_view().skip(m.deep_view().len() as int) =~= Seq::<(
            Seq<char>,
            Seq<char>,
        )>::empty());
    }
    None
}

/// What `str::to_lowercase` returns: a function of the characters alone.
pub uninterp spec fn lower_of(s: Seq<char>) -> Seq<char>;

/// Relies on str::to_lowercase: the result depends on the characters alone.
#[verifier::external_body]
fn lowercase(s: &str) -> (r: String)
    ensures
        r@ == lower_of(s@),
{
    s.to_lowercase()
}

/// Prefix a pattern or name with its surface tag.
fn tag_evidence(prefix: &str, text: &str) -> (r: String)
    ensures
        r@ == prefix@ + text@,
{
    let mut s = String::from_str(prefix);
    s.append(text);
    s
}

// ---------------------------------------------------------------------------
// The engine's output unit.
// ---------------------------------------------------------------------------

/// One detected technology: identity copied from its signature, the first
/// extracted version if any, the clamped confidence, and one evidence entry
/// per satisfied rule.
pub struct DetectionResult {
    pub name: String,
    pub category: String,
    pub version: Option<String>,
    pub website: Option<String>,
    pub confidence: u8,
    pub matched_patterns: Vec<String>,
}

/// The mathematical content of a `DetectionResult`.
#[verifier::ext_equal]
pub ghost struct DetectionResultView {
    pub name: Seq<char>,
    pub category: Seq<char>,
    pub version: Option<Seq<char>>,
    pub website: Option<Seq<char>>,
    pub confidence: nat,
    pub matched_patterns: Seq<Seq<char>>,
}

impl View for DetectionResult {
    type V = DetectionResultView;

    open spec fn view(&self) -> DetectionResultView {
        DetectionResultView {
            name: self.name@,
            category: self.category@,
            version: self.version.deep_view(),
            website: self.website.deep_view(),
            confidence: self.confidence as nat,
            matched_patterns: self.matched_patterns.deep_view(),
        }
    }
}

impl DeepView for DetectionResult {
    type V = DetectionResultView;

    open spec fn deep_view(&self) -> DetectionResultView {
        self@
    }
}

// ---------------------------------------------------------------------------
// The evaluation model: a fold over the five surfaces in fixed order.
// ---------------------------------------------------------------------------

/// Running evaluation state: evidence gathered so far, the unclamped
/// confidence sum, and the first extracted version if one was seen.
#[verifier::ext_equal]
pub ghost struct EvalState {
    pub matched: Seq<Seq<char>>,
    pub raw: nat,
    pub version: Option<Seq<char>>,
}

/// The state evaluation starts from.
pub open spec fn init_state() -> EvalState {
    EvalState { matched: Seq::empty(), raw: 0, version: None }
}

/// Abbreviation for building a state from its parts.
pub open spec fn st_of(matched: Seq<Seq<char>>, raw: nat, version: Option<Seq<char>>) -> EvalState {
    EvalState { matched, raw, version }
}

/// One satisfied rule: record the evidence, add the surface's weight, and
/// keep the first version ever extracted (later extractions never overwrite).
pub open spec fn add_hit(
    st: EvalState,
    evidence: Seq<char>,
    weight: nat,
    ver: Option<Seq<char>>,
) -> EvalState {
    EvalState {
        matched: st.matched.push(evidence),
        raw: st.raw + weight,
        version: if st.version is Some {
            st.version
        } else {
            ver
        },
    }
}

/// The rules of an optional group; an absent group contributes nothing.
pub open spec fn rules_of(o: Option<Seq<PatternView>>) -> Seq<PatternView> {
    match o {
        Some(s) => s,
        None => Seq::empty(),
    }
}

/// The name-keyed rules of an optional group.
pub open spec fn keyed_rules_of(o: Option<Seq<(Seq<char>, PatternView)>>) -> Seq<
    (Seq<char>, PatternView),
> {
    match o {
        Some(s) => s,
        None => Seq::empty(),
    }
}

/// HTML surface: each rule is tested once against the full body; a hit is
/// worth 20 and may contribute a version.
pub open spec fn eval_html(html: Seq<char>, rules: Seq<PatternView>, st: EvalState) -> EvalState
    decreases rules.len(),
{
    if rules.len() == 0 {
        st
    } else {
        let st1 = if expr_matches(html, rules[0].pattern) {
            add_hit(st, "HTML: "@ + rules[0].pattern, 20, spec_extract_version(html, rules[0]))
        } else {
            st
        };
        eval_html(html, rules.skip(1), st1)
    }
}

/// Script surface, one rule against every script URL in page order; each
/// (URL, rule) hit is worth 25 and may contribute a version.
pub open spec fn eval_script_rule(scripts: Seq<Seq<char>>, rule: PatternView, st: EvalState) -> EvalState
    decreases scripts.len(),
{
    if scripts.len() == 0 {
        st
    } else {
        let st1 = if expr_matches(scripts[0], rule.pattern) {
            add_hit(st, "Script: "@ + rule.pattern, 25, spec_extract_version(scripts[0], rule))
        } else {
            st
        };
        eval_script_rule(scripts.skip(1), rule, st1)
    }
}

/// Script surface: the full cartesian product, rules in catalog order.
pub open spec fn eval_scripts(
    scripts: Seq<Seq<char>>,
    rules: Seq<PatternView>,
    st: EvalState,
) -> EvalState
    decreases rules.len(),
{
    if rules.len() == 0 {
        st
    } else {
        eval_scripts(scripts, rules.skip(1), eval_script_rule(scripts, rules[0], st))
    }
}

/// Header surface: the rule's name is lower-cased, looked up among the
/// page's headers, and its pattern tested against the value; a hit is worth
/// 30 and may contribute a version.
pub open spec fn eval_headers(
    page_headers: Seq<(Seq<char>, Seq<char>)>,
    rules: Seq<(Seq<char>, PatternView)>,
    st: EvalState,
) -> EvalState
    decreases rules.len(),
{
    if rules.len() == 0 {
        st
    } else {
        let st1 = match assoc_lookup(page_headers, lower_of(rules[0].0)) {
            Some(v) => if expr_matches(v, rules[0].1.pattern) {
                add_hit(st, "Header: "@ + rules[0].1.pattern, 30, spec_extract_version(v, rules[0].1))
            } else {
                st
            },
            None => st,
        };
        eval_headers(page_headers, rules.skip(1), st1)
    }
}

/// Meta surface: the rule's tag name is looked up among the page's meta
/// tags; a hit is worth 25 and may contribute a version.
pub open spec fn eval_meta(
    page_meta: Seq<(Seq<char>, Seq<char>)>,
    rules: Seq<(Seq<char>, PatternView)>,
    st: EvalState,
) -> EvalState
    decreases rules.len(),
{
    if rules.len() == 0 {
        st
    } else {
        let st1 = match assoc_lookup(page_meta, rules[0].0) {
            Some(v) => if expr_matches(v, rules[0].1.pattern) {
                add_hit(st, "Meta: "@ + rules[0].1.pattern, 25, spec_extract_version(v, rules[0].1))
            } else {
                st
            },
            None => st,
        };
        eval_meta(page_meta, rules.skip(1), st1)
    }
}

/// Cookie surface: like meta, worth 25, but cookies never contribute a
/// version.
pub open spec fn eval_cookies(
    page_cookies: Seq<(Seq<char>, Seq<char>)>,
    rules: Seq<(Seq<char>, PatternView)>,
    st: EvalState,
) -> EvalState
    decreases rules.len(),
{
    if rules.len() == 0 {
        st
    } else {
        let st1 = match assoc_lookup(page_cookies, rules[0].0) {
            Some(v) => if expr_matches(v, rules[0].1.pattern) {
                add_hit(st, "Cookie: "@ + rules[0].1.pattern, 25, None)
            } else {
                st
            },
            None => st,
        };
        eval_cookies(page_cookies, rules.skip(1), st1)
    }
}

/// The whole evaluation of one signature against one page: the five
/// surfaces in their fixed order.
pub open spec fn eval_technology(tech: TechnologyView, page: WebPageView) -> EvalState {
    let st1 = eval_html(page.html, rules_of(tech.html), init_state());
    let st2 = eval_scripts(page.scripts, rules_of(tech.scripts), st1);
    let st3 = eval_headers(page.headers, keyed_rules_of(tech.headers), st2);
    let st4 = eval_meta(page.meta_tags, keyed_rules_of(tech.meta), st3);
    eval_cookies(page.cookies, keyed_rules_of(tech.cookies), st4)
}

/// Confidence is clamped to 100 after accumulation, never before.
pub open spec fn clamp100(n: nat) -> nat {
    if n > 100 {
        100
    } else {
        n
    }
}

/// What detection emits for one signature: nothing when no rule matched,
/// otherwise the signature's identity, the first extracted version, the
/// clamped confidence, and the evidence list.
pub open spec fn spec_detect(tech: TechnologyView, page: WebPageView) -> Option<
    DetectionResultView,
> {
    let st = eval_technology(tech, page);
    if st.matched.len() == 0 {
        None
    } else {
        Some(
            DetectionResultView {
                name: tech.name,
                category: tech.category,
                version: st.version,
                website: tech.website,
                confidence: clamp100(st.raw),
                matched_patterns: st.matched,
            },
        )
    }
}

// ---------------------------------------------------------------------------
// Ordering the results: a stable sort by descending confidence.
// ---------------------------------------------------------------------------

/// Place a detection into a descending-sorted run, behind every earlier
/// detection of equal or higher confidence, so that equal confidences keep
/// their catalog order.
pub open spec fn insert_sorted(acc: Seq<DetectionResultView>, d: DetectionResultView) -> Seq<
    DetectionResultView,
>
    decreases acc.len(),
{
    if acc.len() == 0 {
        seq![d]
    } else if acc[0].confidence >= d.confidence {
        seq![acc[0]] + insert_sorted(acc.skip(1), d)
    } else {
        seq![d] + acc
    }
}

/// Fold the detections into a sorted run, in catalog order.
pub open spec fn sort_into(
    acc: Seq<DetectionResultView>,
    rest: Seq<DetectionResultView>,
) -> Seq<DetectionResultView>
    decreases rest.len(),
{
    if rest.len() == 0 {
        acc
    } else {
        sort_into(insert_sorted(acc, rest[0]), rest.skip(1))
    }
}

/// The stable descending sort of the detections by confidence.
pub open spec fn sort_by_confidence(s: Seq<DetectionResultView>) -> Seq<DetectionResultView> {
    sort_into(Seq::empty(), s)
}

/// Every detection the catalog yields for a page, in catalog order.
pub open spec fn spec_detections(techs: Seq<TechnologyView>, page: WebPageView) -> Seq<
    DetectionResultView,
>
    decreases techs.len(),
{
    if techs.len() == 0 {
        Seq::empty()
    } else {
        match spec_detect(techs[0], page) {
            Some(d) => seq![d] + spec_detections(techs.skip(1), page),
            None => spec_detections(techs.skip(1), page),
        }
    }
}

/// The whole analysis: every detection, sorted by descending confidence.
pub open spec fn spec_analyze(techs: Seq<TechnologyView>, page: WebPageView) -> Seq<
    DetectionResultView,
> {
    sort_by_confidence(spec_detections(techs, page))
}

/// A run of detections in descending confidence order.
pub open spec fn sorted_desc(s: Seq<DetectionResultView>) -> bool {
    forall|i: int, j: int| 0 <= i <= j < s.len() ==> s[i].confidence >= s[j].confidence
}

/// Everything in an insertion's output is the inserted detection or came
/// from the run.
proof fn lemma_insert_sorted_elems(acc: Seq<DetectionResultView>, d: DetectionResultView)
    ensures
        forall|x: DetectionResultView| #[trigger]
            insert_sorted(acc, d).contains(x) ==> x == d || acc.contains(x),
    decreases acc.len(),
{
    let s = insert_sorted(acc, d);
    if acc.len() == 0 {
        assert forall|x: DetectionResultView| #[trigger] s.contains(x) implies x == d
            || acc.contains(x) by {
            let i = choose|i: int| 0 <= i < s.len() && s[i] == x;
            assert(s[i] == d);
        }
    } else if acc[0].confidence >= d.confidence {
        lemma_insert_sorted_elems(acc.skip(1), d);
        assert forall|x: DetectionResultView| #[trigger] s.contains(x) implies x == d
            || acc.contains(x) by {
            let i = choose|i: int| 0 <= i < s.len() && s[i] == x;
            if i == 0 {
                assert(acc[0] == x);
                assert(acc.contains(x));
            } else {
                assert(insert_sorted(acc.skip(1), d)[i - 1] == x);
                assert(insert_sorted(acc.skip(1), d).contains(x));
                if acc.skip(1).contains(x) {
                    let k = choose|k: int| 0 <= k < acc.skip(1).len() && acc.skip(1)[k] == x;
                    assert(acc[k + 1] == x);
                    assert(acc.contains(x));
                }
            }
        }
    } else {
        assert forall|x: DetectionResultView| #[trigger] s.contains(x) implies x == d
            || acc.contains(x) by {
            let i = choose|i: int| 0 <= i < s.len() && s[i] == x;
            if i > 0 {
                assert(acc[i - 1] == x);
                assert(acc.contains(x));
            }
        }
    }
}

/// Everything the sorting fold yields came from the run or the detections.
proof fn lemma_sort_into_elems(acc: Seq<DetectionResultView>, rest: Seq<DetectionResultView>)
    ensures
        forall|x: DetectionResultView| #[trigger]
            sort_into(acc, rest).contains(x) ==> acc.contains(x) || rest.contains(x),
    decreases rest.len(),
{
    if rest.len() > 0 {
        lemma_sort_into_elems(insert_sorted(acc, rest[0]), rest.skip(1));
        lemma_insert_sorted_elems(acc, rest[0]);
        assert forall|x: DetectionResultView| #[trigger]
            sort_into(acc, rest).contains(x) implies acc.contains(x) || rest.contains(x) by {
            assert(sort_into(acc, rest) == sort_into(insert_sorted(acc, rest[0]), rest.skip(1)));
            assert(sort_into(insert_sorted(acc, rest[0]), rest.skip(1)).contains(x));
            if insert_sorted(acc, rest[0]).contains(x) {
                if x == rest[0] {
                    assert(rest.contains(x));
                }
            } else {
                assert(rest.skip(1).contains(x));
                let k = choose|k: int| 0 <= k < rest.skip(1).len() && rest.skip(1)[k] == x;
                assert(rest[k + 1] == x);
                assert(rest.contains(x));
            }
        }
    }
}

/// Inserting into a sorted run keeps it sorted.
proof fn lemma_insert_sorted_sorted(acc: Seq<DetectionResultView>, d: DetectionResultView)
    requires
        sorted_desc(acc),
    ensures
        sorted_desc(insert_sorted(acc, d)),
    decreases acc.len(),
{
    let s = insert_sorted(acc, d);
    if acc.len() == 0 {
    } else if acc[0].confidence >= d.confidence {
        assert(sorted_desc(acc.skip(1)));
        lemma_insert_sorted_sorted(acc.skip(1), d);
        lemma_insert_sorted_elems(acc.skip(1), d);
        let t = insert_sorted(acc.skip(1), d);
        assert forall|i: int, j: int| 0 <= i <= j < s.len() implies s[i].confidence
            >= s[j].confidence by {
            if i == 0 && j > 0 {
                assert(t.contains(t[j - 1]));
                if acc.skip(1).contains(t[j - 1]) {
                    let k = choose|k: int|
                        0 <= k < acc.skip(1).len() && acc.skip(1)[k] == t[j - 1];
                    assert(acc[k + 1] == t[j - 1]);
                }
            } else if i > 0 {
                assert(t[i - 1].confidence >= t[j - 1].confidence);
            }
        }
    } else {
        assert forall|i: int, j: int| 0 <= i <= j < s.len() implies s[i].confidence
            >= s[j].confidence by {
            if i == 0 && j > 0 {
                assert(s[j] == acc[j - 1]);
                assert(acc[0].confidence >= acc[j - 1].confidence);
            } else if i > 0 {
                assert(s[i] == acc[i - 1] && s[j] == acc[j - 1]);
            }
        }
    }
}

/// The sorting fold of a sorted run stays sorted.
proof fn lemma_sort_into_sorted(acc: Seq<DetectionResultView>, rest: Seq<DetectionResultView>)
    requires
        sorted_desc(acc),
    ensures
        sorted_desc(sort_into(acc, rest)),
    decreases rest.len(),
{
    if rest.len() > 0 {
        lemma_insert_sorted_sorted(acc, rest[0]);
        lemma_sort_into_sorted(insert_sorted(acc, rest[0]), rest.skip(1));
    }
}

/// Every detection the catalog yields is well formed: confidence clamped to
/// 100 and at least one piece of evidence.
proof fn lemma_detections_wf(techs: Seq<TechnologyView>, page: WebPageView)
    ensures
        forall|i: int|
            0 <= i < spec_detections(techs, page).len() ==> (#[trigger] spec_detections(
                techs,
                page,
            )[i].confidence <= 100 && spec_detections(techs, page)[i].matched_patterns.len() > 0),
    decreases techs.len(),
{
    if techs.len() > 0 {
        lemma_detections_wf(techs.skip(1), page);
    }
}

/// Inserting into a run adds exactly the new detection, as a multiset.
proof fn lemma_insert_sorted_multiset(acc: Seq<DetectionResultView>, d: DetectionResultView)
    ensures
        insert_sorted(acc, d).to_multiset() == acc.to_multiset().insert(d),
    decreases acc.len(),
{
    broadcast use vstd::seq_lib::group_to_multiset_ensures;
    broadcast use vstd::multiset::group_multiset_axioms;
    broadcast use vstd::seq_lib::lemma_multiset_commutative;

    if acc.len() == 0 {
        assert(seq![d] =~= Seq::<DetectionResultView>::empty().push(d));
        assert(acc =~= Seq::<DetectionResultView>::empty());
    } else if acc[0].confidence >= d.confidence {
        lemma_insert_sorted_multiset(acc.skip(1), d);
        assert(acc =~= seq![acc[0]] + acc.skip(1));
        assert((seq![acc[0]] + insert_sorted(acc.skip(1), d)).to_multiset() =~= acc.to_multiset().insert(d));
    } else {
        assert((seq![d] + acc).to_multiset() =~= acc.to_multiset().insert(d)) by {
            assert(seq![d] =~= Seq::<DetectionResultView>::empty().push(d));
        }
    }
}

/// The sorting fold only reorders: it yields the run plus the detections,
/// as a multiset.
proof fn lemma_sort_into_multiset(acc: Seq<DetectionResultView>, rest: Seq<DetectionResultView>)
    ensures
        sort_into(acc, rest).to_multiset() == acc.to_multiset().add(rest.to_multiset()),
    decreases rest.len(),
{
    broadcast use vstd::seq_lib::group_to_multiset_ensures;
    broadcast use vstd::multiset::group_multiset_axioms;
    broadcast use vstd::seq_lib::lemma_multiset_commutative;

    if rest.len() == 0 {
        assert(sort_into(acc, rest).to_multiset() =~= acc.to_multiset().add(rest.to_multiset()));
    } else {
        lemma_insert_sorted_multiset(acc, rest[0]);
        lemma_sort_into_multiset(insert_sorted(acc, rest[0]), rest.skip(1));
        assert(rest =~= seq![rest[0]] + rest.skip(1));
        assert(seq![rest[0]] =~= Seq::<DetectionResultView>::empty().push(rest[0]));
        assert(sort_into(acc, rest).to_multiset() =~= acc.to_multiset().add(rest.to_multiset()));
    }
}

// ---------------------------------------------------------------------------
// Laws of the whole analysis.
// ---------------------------------------------------------------------------

/// Law: sorting only reorders. An analysis output holds exactly the
/// detections the catalog yields for the page, as a multiset.
pub proof fn lemma_analyze_is_permutation(techs: Seq<TechnologyView>, page: WebPageView)
    ensures
        spec_analyze(techs, page).to_multiset() == spec_detections(techs, page).to_multiset(),
{
    broadcast use vstd::seq_lib::group_to_multiset_ensures;
    broadcast use vstd::multiset::group_multiset_axioms;

    let dets = spec_detections(techs, page);
    lemma_sort_into_multiset(Seq::empty(), dets);
    assert(Seq::<DetectionResultView>::empty().to_multiset().add(dets.to_multiset())
        =~= dets.to_multiset());
}

/// Law: one signature's detection, when emitted, has its confidence clamped
/// into [0, 100] (confidence is a natural number, so 0 is a lower bound).
pub proof fn lemma_detect_confidence_in_range(tech: TechnologyView, page: WebPageView)
    ensures
        spec_detect(tech, page) matches Some(d) ==> d.confidence <= 100,
{
}

/// Law: a signature with no matched rule never yields a detection, and an
/// emitted detection always carries at least one matched rule.
pub proof fn lemma_no_match_no_result(tech: TechnologyView, page: WebPageView)
    ensures
        eval_technology(tech, page).matched.len() == 0 ==> spec_detect(tech, page) is None,
        spec_detect(tech, page) matches Some(d) ==> d.matched_patterns.len() > 0,
{
}

/// Law: every detection in an analysis output has confidence in [0, 100]
/// and at least one piece of evidence, whatever the catalog and the page.
pub proof fn lemma_analyze_results_wf(techs: Seq<TechnologyView>, page: WebPageView)
    ensures
        forall|i: int|
            0 <= i < spec_analyze(techs, page).len() ==> (#[trigger] spec_analyze(
                techs,
                page,
            )[i].confidence <= 100 && spec_analyze(techs, page)[i].matched_patterns.len() > 0),
{
    let dets = spec_detections(techs, page);
    let out = spec_analyze(techs, page);
    lemma_detections_wf(techs, page);
    lemma_sort_into_elems(Seq::empty(), dets);
    assert forall|i: int| 0 <= i < out.len() implies (#[trigger] out[i].confidence <= 100
        && out[i].matched_patterns.len() > 0) by {
        assert(out.contains(out[i]));
        assert(!Seq::<DetectionResultView>::empty().contains(out[i]));
        assert(dets.contains(out[i]));
        let k = choose|k: int| 0 <= k < dets.len() && dets[k] == out[i];
        assert(dets[k].confidence <= 100 && dets[k].matched_patterns.len() > 0);
    }
}

/// Law: the output of an analysis is sorted by descending confidence; in
/// particular any adjacent pair is in order.
pub proof fn lemma_analyze_sorted(techs: Seq<TechnologyView>, page: WebPageView)
    ensures
        sorted_desc(spec_analyze(techs, page)),
        forall|i: int|
            0 <= i && i + 1 < spec_analyze(techs, page).len() ==> (#[trigger] spec_analyze(
                techs,
                page,
            )[i].confidence >= spec_analyze(techs, page)[i + 1].confidence),
{
    lemma_sort_into_sorted(Seq::empty(), spec_detections(techs, page));
}

/// The sorting fold appends detections that never outrank the run: with one
/// shared confidence everywhere, it only concatenates.
proof fn lemma_sort_into_append_on_ties(
    acc: Seq<DetectionResultView>,
    rest: Seq<DetectionResultView>,
    c: nat,
)
    requires
        forall|i: int| 0 <= i < acc.len() ==> acc[i].confidence == c,
        forall|i: int| 0 <= i < rest.len() ==> rest[i].confidence == c,
    ensures
        sort_into(acc, rest) == acc + rest,
    decreases rest.len(),
{
    if rest.len() == 0 {
        assert(acc + rest =~= acc);
    } else {
        lemma_insert_sorted_at(acc, rest[0], acc.len() as int);
        assert(acc.take(acc.len() as int) + seq![rest[0]] + acc.skip(acc.len() as int) =~= acc
            + seq![rest[0]]);
        lemma_sort_into_append_on_ties(acc + seq![rest[0]], rest.skip(1), c);
        assert((acc + seq![rest[0]]) + rest.skip(1) =~= acc + rest);
    }
}

/// Law: ties keep catalog order. When every detection carries the same
/// confidence, sorting leaves the sequence exactly as it came.
pub proof fn lemma_sort_stable_on_ties(s: Seq<DetectionResultView>, c: nat)
    requires
        forall|i: int| 0 <= i < s.len() ==> s[i].confidence == c,
    ensures
        sort_by_confidence(s) == s,
{
    lemma_sort_into_append_on_ties(Seq::empty(), s, c);
    assert(Seq::<DetectionResultView>::empty() + s =~= s);
}

/// Where `insert_sorted` puts the new detection: right after the longest
/// prefix of equal-or-higher confidence.
proof fn lemma_insert_sorted_at(s: Seq<DetectionResultView>, d: DetectionResultView, j: int)
    requires
        0 <= j <= s.len(),
        forall|k: int| 0 <= k < j ==> s[k].confidence >= d.confidence,
        j < s.len() ==> s[j].confidence < d.confidence,
    ensures
        insert_sorted(s, d) == s.take(j) + seq![d] + s.skip(j),
    decreases j,
{
    if j == 0 {
        if s.len() == 0 {
            assert(insert_sorted(s, d) =~= s.take(0) + seq![d] + s.skip(0));
        } else {
            assert(insert_sorted(s, d) == seq![d] + s);
            assert(seq![d] + s =~= s.take(0) + seq![d] + s.skip(0));
        }
    } else {
        assert(s[0].confidence >= d.confidence);
        lemma_insert_sorted_at(s.skip(1), d, j - 1);
        assert(insert_sorted(s, d) == seq![s[0]] + insert_sorted(s.skip(1), d));
        assert(seq![s[0]] + (s.skip(1).take(j - 1) + seq![d] + s.skip(1).skip(j - 1)) =~= s.take(j)
            + seq![d] + s.skip(j));
    }
}

/// Insert one detection into a run of already-sorted results.
fn insert_result(results: &mut Vec<DetectionResult>, d: DetectionResult)
    ensures
        final(results).deep_view() == insert_sorted(old(results).deep_view(), d@),
{
    let ghost pre = results.deep_view();
    let mut j: usize = 0;
    while j < results.len() && results[j].confidence >= d.confidence
        invariant
            j <= results.len(),
            pre == results.deep_view(),
            forall|k: int| 0 <= k < j ==> pre[k].confidence >= d@.confidence,
        decreases results.len() - j,
    {
        assert(pre[j as int].confidence == results@[j as int]@.confidence);
        j += 1;
    }
    proof {
        lemma_insert_sorted_at(pre, d@, j as int);
    }
    let ghost dv = d@;
    results.insert(j, d);
    proof {
        assert(results.deep_view() =~= pre.take(j as int) + seq![dv] + pre.skip(j as int));
    }
}

// ---------------------------------------------------------------------------
// The analyzer.
// ---------------------------------------------------------------------------

/// The scoring engine together with its immutable signature catalog.
pub struct Analyzer {
    technologies: Vec<Technology>,
}

impl View for Analyzer {
    type V = Seq<TechnologyView>;

    closed spec fn view(&self) -> Seq<TechnologyView> {
        self.technologies.deep_view()
    }
}

impl Analyzer {
    /// An analyzer owning exactly the built-in signature catalog, in
    /// catalog order.
    pub fn new() -> (r: Self)
        ensures
            r@ == technologies::spec_catalog(),
            r@.len() == technologies::CATALOG_COUNT,
    {
        let technologies = technologies::load_technologies();
        Self { technologies }
    }

    /// Evaluate every signature of the catalog against the page,
    /// independently, and return the detections sorted by descending
    /// confidence; equal confidences keep catalog order.
    pub fn analyze(&self, webpage: &WebPage) -> (r: Vec<DetectionResult>)
        ensures
            r.deep_view() == spec_analyze(self@, webpage@),
    {
        let mut results: Vec<DetectionResult> = Vec::new();
        let ghost techs = self.technologies.deep_view();
        proof {
            assert(results.deep_view() =~= Seq::<DetectionResultView>::empty());
            assert(techs.skip(0) =~= techs);
        }
        let mut i: usize = 0;
        while i < self.technologies.len()
            invariant
                i <= self.technologies.len(),
                techs == self.technologies.deep_view(),
                sort_into(results.deep_view(), spec_detections(techs.skip(i as int), webpage@))
                    == sort_into(Seq::empty(), spec_detections(techs, webpage@)),
            decreases self.technologies.len() - i,
        {
            let tech = &self.technologies[i];
            let ghost pre = results.deep_view();
            let ghost rest = spec_detections(techs.skip(i as int), webpage@);
            proof {
                assert(techs.skip(i as int).skip(1) =~= techs.skip(i as int + 1));
            }
            if let Some(result) = self.detect_technology(tech, webpage) {
                let ghost dv = result@;
                insert_result(&mut results, result);
                proof {
                    let rest2 = spec_detections(techs.skip(i as int + 1), webpage@);
                    assert(rest == seq![dv] + rest2);
                    assert((seq![dv] + rest2)[0] == dv);
                    assert((seq![dv] + rest2).skip(1) =~= rest2);
                    assert(sort_into(pre, rest) == sort_into(insert_sorted(pre, dv), rest2));
                }
            }
            i += 1;
        }
        proof {
            assert(techs.skip(self.technologies.deep_view().len() as int) =~= Seq::<
                TechnologyView,
            >::empty());
        }
        results
    }

    /// Evaluate one signature against a page, yielding a detection exactly
    /// when at least one rule matched.
    pub fn detect_technology(&self, tech: &Technology, webpage: &WebPage) -> (r: Option<
        DetectionResult,
    >)
        ensures
            r.deep_view() == spec_detect(tech@, webpage@),
    {
        let mut matched_patterns: Vec<String> = Vec::new();
        let mut confidence: u8 = 0;
        let mut version: Option<String> = None;
        let ghost mut raw: nat = 0nat;

        let ghost st0 = init_state();
        proof {
            assert(st_of(matched_patterns.deep_view(), raw, version.deep_view()) =~= st0);
        }

        // HTML rules against the full body.
        if let Some(patterns) = &tech.html {
            let ghost rules = patterns.deep_view();
            proof {
                assert(rules.skip(0) =~= rules);
            }
            let mut i: usize = 0;
            while i < patterns.len()
                invariant
                    i <= patterns.len(),
                    rules == patterns.deep_view(),
                    confidence as nat == clamp100(raw),
                    eval_html(
                        webpage@.html,
                        rules.skip(i as int),
                        st_of(matched_patterns.deep_view(), raw, version.deep_view()),
                    ) == eval_html(webpage@.html, rules, st0),
                decreases patterns.len() - i,
            {
                let ghost pre_st = st_of(matched_patterns.deep_view(), raw, version.deep_view());
                let pattern = &patterns[i];
                if detector::check_pattern(webpage.html.as_str(), pattern) {
                    let ev = tag_evidence("HTML: ", pattern.pattern.as_str());
                    let ghost pre_dv = matched_patterns.deep_view();
                    matched_patterns.push(ev);
                    let bumped: u8 = confidence + 20;
                    confidence = if bumped > 100 {
                        100
                    } else {
                        bumped
                    };
                    if version.is_none() {
                        version = detector::extract_version(webpage.html.as_str(), pattern);
                    }
                    proof {
                        raw = raw + 20;
                        assert(matched_patterns.deep_view() =~= pre_dv.push(ev@));
                        assert(st_of(matched_patterns.deep_view(), raw, version.deep_view()) =~= add_hit(
                            pre_st,
                            "HTML: "@ + rules[i as int].pattern,
                            20,
                            spec_extract_version(webpage@.html, rules[i as int]),
                        ));
                    }
                }
                proof {
                    assert(rules.skip(i as int).skip(1) =~= rules.skip(i as int + 1));
                }
                i += 1;
            }
            proof {
                assert(rules.skip(patterns.deep_view().len() as int) =~= Seq::<
                    PatternView,
                >::empty());
            }
        }
        let ghost st1 = eval_html(webpage@.html, rules_of(tech@.html), st0);
        proof {
            assert(st_of(matched_patterns.deep_view(), raw, version.deep_view()) == st1);
        }

        // Script rules against every script URL.
        if let Some(patterns) = &tech.scripts {
            let ghost rules = patterns.deep_view();
            proof {
                assert(rules.skip(0) =~= rules);
            }
            let mut i: usize = 0;
            while i < patterns.len()
                invariant
                    i <= patterns.len(),
                    rules == patterns.deep_view(),
                    confidence as nat == clamp100(raw),
                    eval_scripts(
                        webpage@.scripts,
                        rules.skip(i as int),
                        st_of(matched_patterns.deep_view(), raw, version.deep_view()),
                    ) == eval_scripts(webpage@.scripts, rules, st1),
                decreases patterns.len() - i,
            {
                let ghost scripts_dv = webpage@.scripts;
                let ghost outer_st = st_of(matched_patterns.deep_view(), raw, version.deep_view());
                let pattern = &patterns[i];
                proof {
                    assert(scripts_dv.skip(0) =~= scripts_dv);
                }
                let mut j: usize = 0;
                while j < webpage.scripts.len()
                    invariant
                        j <= webpage.scripts.len(),
                        rules == patterns.deep_view(),
                        i < rules.len(),
                        pattern == patterns@[i as int],
                        scripts_dv == webpage@.scripts,
                        confidence as nat == clamp100(raw),
                        eval_script_rule(
                            scripts_dv.skip(j as int),
                            rules[i as int],
                            st_of(matched_patterns.deep_view(), raw, version.deep_view()),
                        ) == eval_script_rule(scripts_dv, rules[i as int], outer_st),
                    decreases webpage.scripts.len() - j,
                {
                    let ghost pre_st = st_of(
                        matched_patterns.deep_view(),
                        raw,
                        version.deep_view(),
                    );
                    let script = &webpage.scripts[j];
                    if detector::check_pattern(script.as_str(), pattern) {
                        let ev = tag_evidence("Script: ", pattern.pattern.as_str());
                        let ghost pre_dv = matched_patterns.deep_view();
                        matched_patterns.push(ev);
                        let bumped: u8 = confidence + 25;
                        confidence = if bumped > 100 {
                            100
                        } else {
                            bumped
                        };
                        if version.is_none() {
                            version = detector::extract_version(script.as_str(), pattern);
                        }
                        proof {
                            raw = raw + 25;
                            assert(matched_patterns.deep_view() =~= pre_dv.push(ev@));
                            assert(st_of(matched_patterns.deep_view(), raw, version.deep_view())
                                =~= add_hit(
                                pre_st,
                                "Script: "@ + rules[i as int].pattern,
                                25,
                                spec_extract_version(scripts_dv[j as int], rules[i as int]),
                            ));
                        }
                    }
                    proof {
                        assert(scripts_dv.skip(j as int).skip(1) =~= scripts_dv.skip(j as int + 1));
                    }
                    j += 1;
                }
                proof {
                    assert(scripts_dv.skip(scripts_dv.len() as int) =~= Seq::<Seq<char>>::empty());
                    assert(rules.skip(i as int).skip(1) =~= rules.skip(i as int + 1));
                }
                i += 1;
            }
            proof {
                assert(rules.skip(patterns.deep_view().len() as int) =~= Seq::<
                    PatternView,
                >::empty());
            }
        }
        let ghost st2 = eval_scripts(webpage@.scripts, rules_of(tech@.scripts), st1);
        proof {
            assert(st_of(matched_patterns.deep_view(), raw, version.deep_view()) == st2);
        }

        // Header rules: case-insensitive lookup by lower-cased rule name.
        if let Some(header_rules) = &tech.headers {
            let ghost rules = header_rules.deep_view();
            proof {
                assert(rules.skip(0) =~= rules);
            }
            let mut i: usize = 0;
            while i < header_rules.len()
                invariant
                    i <= header_rules.len(),
                    rules == header_rules.deep_view(),
                    confidence as nat == clamp100(raw),
                    eval_headers(
                        webpage@.headers,
                        rules.skip(i as int),
                        st_of(matched_patterns.deep_view(), raw, version.deep_view()),
                    ) == eval_headers(webpage@.headers, rules, st2),
                decreases header_rules.len() - i,
            {
                let ghost pre_st = st_of(matched_patterns.deep_view(), raw, version.deep_view());
                let rule = &header_rules[i];
                let key = lowercase(rule.0.as_str());
                if let Some(value) = assoc_get(&webpage.headers, &key) {
                    if detector::check_pattern(value.as_str(), &rule.1) {
                        let ev = tag_evidence("Header: ", rule.1.pattern.as_str());
                        let ghost pre_dv = matched_patterns.deep_view();
                        matched_patterns.push(ev);
                        let bumped: u8 = confidence + 30;
                        confidence = if bumped > 100 {
                            100
                        } else {
                            bumped
                        };
                        if version.is_none() {
                            version = detector::extract_version(value.as_str(), &rule.1);
                        }
                        proof {
                            raw = raw + 30;
                            assert(matched_patterns.deep_view() =~= pre_dv.push(ev@));
                            assert(st_of(matched_patterns.deep_view(), raw, version.deep_view())
                                =~= add_hit(
                                pre_st,
                                "Header: "@ + rules[i as int].1.pattern,
                                30,
                                spec_extract_version(value@, rules[i as int].1),
                            ));
                        }
                    }
                }
                proof {
                    assert(rules.skip(i as int).skip(1) =~= rules.skip(i as int + 1));
                }
                i += 1;
            }
            proof {
                assert(rules.skip(header_rules.deep_view().len() as int) =~= Seq::<
                    (Seq<char>, PatternView),
                >::empty());
            }
        }
        let ghost st3 = eval_headers(webpage@.headers, keyed_rules_of(tech@.headers), st2);
        proof {
            assert(st_of(matched_patterns.deep_view(), raw, version.deep_view()) == st3);
        }

        // Meta rules: lookup by tag name.
        if let Some(meta_rules) = &tech.meta {
            let ghost rules = meta_rules.deep_view();
            proof {
                assert(rules.skip(0) =~= rules);
            }
            let mut i: usize = 0;
            while i < meta_rules.len()
                invariant
                    i <= meta_rules.len(),
                    rules == meta_rules.deep_view(),
                    confidence as nat == clamp100(raw),
                    eval_meta(
                        webpage@.meta_tags,
                        rules.skip(i as int),
                        st_of(matched_patterns.deep_view(), raw, version.deep_view()),
                    ) == eval_meta(webpage@.meta_tags, rules, st3),
                decreases meta_rules.len() - i,
            {
                let ghost pre_st = st_of(matched_patterns.deep_view(), raw, version.deep_view());
                let rule = &meta_rules[i];
                if let Some(value) = assoc_get(&webpage.meta_tags, &rule.0) {
                    if detector::check_pattern(value.as_str(), &rule.1) {
                        let ev = tag_evidence("Meta: ", rule.1.pattern.as_str());
                        let ghost pre_dv = matched_patterns.deep_view();
                        matched_patterns.push(ev);
                        let bumped: u8 = confidence + 25;
                        confidence = if bumped > 100 {
                            100
                        } else {
                            bumped
                        };
                        if version.is_none() {
                            version = detector::extract_version(value.as_str(), &rule.1);
                        }
                        proof {
                            raw = raw + 25;
                            assert(matched_patterns.deep_view() =~= pre_dv.push(ev@));
                            assert(st_of(matched_patterns.deep_view(), raw, version.deep_view())
                                =~= add_hit(
                                pre_st,
                                "Meta: "@ + rules[i as int].1.pattern,
                                25,
                                spec_extract_version(value@, rules[i as int].1),
                            ));
                        }
                    }
                }
                proof {
                    assert(rules.skip(i as int).skip(1) =~= rules.skip(i as int + 1));
                }
                i += 1;
            }
            proof {
                assert(rules.skip(meta_rules.deep_view().len() as int) =~= Seq::<
                    (Seq<char>, PatternView),
                >::empty());
            }
        }
        let ghost st4 = eval_meta(webpage@.meta_tags, keyed_rules_of(tech@.meta), st3);
        proof {
            assert(st_of(matched_patterns.deep_view(), raw, version.deep_view()) == st4);
        }

        // Cookie rules: lookup by cookie name; no version from cookies.
        if let Some(cookie_rules) = &tech.cookies {
            let ghost rules = cookie_rules.deep_view();
            proof {
                assert(rules.skip(0) =~= rules);
            }
            let mut i: usize = 0;
            while i < cookie_rules.len()
                invariant
                    i <= cookie_rules.len(),
                    rules == cookie_rules.deep_view(),
                    confidence as nat == clamp100(raw),
                    eval_cookies(
                        webpage@.cookies,
                        rules.skip(i as int),
                        st_of(matched_patterns.deep_view(), raw, version.deep_view()),
                    ) == eval_cookies(webpage@.cookies, rules, st4),
                decreases cookie_rules.len() - i,
            {
                let ghost pre_st = st_of(matched_patterns.deep_view(), raw, version.deep_view());
                let rule = &cookie_rules[i];
                if let Some(value) = assoc_get(&webpage.cookies, &rule.0) {
                    if detector::check_pattern(value.as_str(), &rule.1) {
                        let ev = tag_evidence("Cookie: ", rule.1.pattern.as_str());
                        let ghost pre_dv = matched_patterns.deep_view();
                        matched_patterns.push(ev);
                        let bumped: u8 = confidence + 25;
                        confidence = if bumped > 100 {
                            100
                        } else {
                            bumped
                        };
                        proof {
                            raw = raw + 25;
                            assert(matched_patterns.deep_view() =~= pre_dv.push(ev@));
                            assert(st_of(matched_patterns.deep_view(), raw, version.deep_view())
                                =~= add_hit(pre_st, "Cookie: "@ + rules[i as int].1.pattern, 25, None));
                        }
                    }
                }
                proof {
                    assert(rules.skip(i as int).skip(1) =~= rules.skip(i as int + 1));
                }
                i += 1;
            }
            proof {
                assert(rules.skip(cookie_rules.deep_view().len() as int) =~= Seq::<
                    (Seq<char>, PatternView),
                >::empty());
            }
        }
        proof {
            assert(st_of(matched_patterns.deep_view(), raw, version.deep_view())
                == eval_technology(tech@, webpage@));
        }

        if matched_patterns.len() > 0 {
            let website = match &tech.website {
                Some(w) => Some(w.clone()),
                None => None,
            };
            Some(
                DetectionResult {
                    name: tech.name.clone(),
                    category: tech.category.clone(),
                    version,
                    website,
                    confidence,
                    matched_patterns,
                },
            )
        } else {
            None
        }
    }

}

} // verus!
