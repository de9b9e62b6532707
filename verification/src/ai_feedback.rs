//! Feedback on diagnostics for automated learners: the patterns of an
//! error and of its fixes, its common causes, the learning objective of
//! its category, and the learning opportunities of a set of diagnostics.

use vstd::prelude::*;
use crate::error::{Diagnostic, DiagnosticView, ErrorCategory, ErrorReporter, SuggestionView};
use crate::text::{owned, same_text};

verus! {

/// The name of a category in lower case (as its `Debug` text in lower
/// case).
pub open spec fn category_text(c: ErrorCategory) -> Seq<char> {
    match c {
        ErrorCategory::Syntax => "syntax"@,
        ErrorCategory::Type => "type"@,
        ErrorCategory::Semantic => "semantic"@,
        ErrorCategory::Runtime => "runtime"@,
        ErrorCategory::Io => "io"@,
        ErrorCategory::Codegen => "codegen"@,
        ErrorCategory::Package => "package"@,
        ErrorCategory::Security => "security"@,
        ErrorCategory::Performance => "performance"@,
        ErrorCategory::Style => "style"@,
    }
}

/// The name of a category in lower case.
pub fn category_name(c: ErrorCategory) -> (r: &'static str)
    ensures
        r@ == category_text(c),
{
    match c {
        ErrorCategory::Syntax => "syntax",
        ErrorCategory::Type => "type",
        ErrorCategory::Semantic => "semantic",
        ErrorCategory::Runtime => "runtime",
        ErrorCategory::Io => "io",
        ErrorCategory::Codegen => "codegen",
        ErrorCategory::Package => "package",
        ErrorCategory::Security => "security",
        ErrorCategory::Performance => "performance",
        ErrorCategory::Style => "style",
    }
}

/// The plain values of texts.
pub open spec fn texts(v: Seq<String>) -> Seq<Seq<char>> {
    v.map_values(|s: String| s@)
}

fn three(a: &str, b: &str, c: &str) -> (r: Vec<String>)
    ensures
        texts(r@) == seq![a@, b@, c@],
{
    let r = vec![owned(a), owned(b), owned(c)];
    assert(texts(r@) =~= seq![a@, b@, c@]);
    r
}

/// What typically triggers an error with the given code.
pub open spec fn triggers_of(code: Seq<char>) -> Seq<Seq<char>> {
    if code == "E0001"@ {
        seq!["missing_token"@, "invalid_character"@, "unexpected_symbol"@]
    } else if code == "E0002"@ {
        seq!["missing_semicolon"@, "unmatched_brackets"@, "invalid_syntax"@]
    } else if code == "E0003"@ {
        seq!["type_mismatch"@, "incompatible_types"@, "missing_conversion"@]
    } else if code == "E0004"@ {
        seq!["unsafe_operation"@, "security_violation"@, "unverified_access"@]
    } else {
        seq!["unknown_pattern"@]
    }
}

/// What typically triggers an error with the given code.
pub fn common_triggers(code: &str) -> (r: Vec<String>)
    ensures
        texts(r@) == triggers_of(code@),
{
    if same_text(code, "E0001") {
        three("missing_token", "invalid_character", "unexpected_symbol")
    } else if same_text(code, "E0002") {
        three("missing_semicolon", "unmatched_brackets", "invalid_syntax")
    } else if same_text(code, "E0003") {
        three("type_mismatch", "incompatible_types", "missing_conversion")
    } else if same_text(code, "E0004") {
        three("unsafe_operation", "security_violation", "unverified_access")
    } else {
        let r = vec![owned("unknown_pattern")];
        assert(texts(r@) =~= seq!["unknown_pattern"@]);
        r
    }
}

/// How errors of a category are usually resolved.
pub open spec fn strategy_of(c: ErrorCategory) -> Seq<char> {
    match c {
        ErrorCategory::Syntax => "syntax_correction"@,
        ErrorCategory::Type => "type_annotation_or_conversion"@,
        ErrorCategory::Security => "explicit_unsafe_or_safe_alternative"@,
        _ => "general_debugging"@,
    }
}

/// How errors of a category are usually resolved.
pub fn resolution_strategy(c: ErrorCategory) -> (r: &'static str)
    ensures
        r@ == strategy_of(c),
{
    match c {
        ErrorCategory::Syntax => "syntax_correction",
        ErrorCategory::Type => "type_annotation_or_conversion",
        ErrorCategory::Security => "explicit_unsafe_or_safe_alternative",
        _ => "general_debugging",
    }
}

/// The common causes of an error with the given code.
pub open spec fn causes_of(code: Seq<char>) -> Seq<Seq<char>> {
    if code == "E0001"@ {
        seq!["typo"@, "missing_character"@, "encoding_issue"@]
    } else if code == "E0002"@ {
        seq!["missing_punctuation"@, "syntax_error"@, "language_confusion"@]
    } else if code == "E0003"@ {
        seq!["wrong_type"@, "missing_cast"@, "api_misuse"@]
    } else if code == "E0004"@ {
        seq!["unsafe_code"@, "security_concern"@, "missing_permission"@]
    } else {
        seq!["unknown_cause"@]
    }
}

/// The common causes of an error with the given code.
pub fn common_causes(code: &str) -> (r: Vec<String>)
    ensures
        texts(r@) == causes_of(code@),
{
    if same_text(code, "E0001") {
        three("typo", "missing_character", "encoding_issue")
    } else if same_text(code, "E0002") {
        three("missing_punctuation", "syntax_error", "language_confusion")
    } else if same_text(code, "E0003") {
        three("wrong_type", "missing_cast", "api_misuse")
    } else if same_text(code, "E0004") {
        three("unsafe_code", "security_concern", "missing_permission")
    } else {
        let r = vec![owned("unknown_cause")];
        assert(texts(r@) =~= seq!["unknown_cause"@]);
        r
    }
}

/// What to learn from errors of a category.
pub open spec fn objective_of(c: ErrorCategory) -> Seq<char> {
    match c {
        ErrorCategory::Syntax => "Learn proper Ovie syntax and grammar rules"@,
        ErrorCategory::Type => "Understand Ovie's type system and type safety"@,
        ErrorCategory::Semantic => "Master Ovie's semantic rules and program structure"@,
        ErrorCategory::Security => "Learn safe programming practices in Ovie"@,
        ErrorCategory::Runtime => "Debug runtime issues and understand execution model"@,
        _ => "General Ovie programming proficiency"@,
    }
}

/// What to learn from errors of a category.
pub fn learning_objective(c: ErrorCategory) -> (r: &'static str)
    ensures
        r@ == objective_of(c),
{
    match c {
        ErrorCategory::Syntax => "Learn proper Ovie syntax and grammar rules",
        ErrorCategory::Type => "Understand Ovie's type system and type safety",
        ErrorCategory::Semantic => "Master Ovie's semantic rules and program structure",
        ErrorCategory::Security => "Learn safe programming practices in Ovie",
        ErrorCategory::Runtime => "Debug runtime issues and understand execution model",
        _ => "General Ovie programming proficiency",
    }
}

/// The kind of fix a suggestion offers: an automated fix when it carries
/// code, a high-confidence suggestion above 800 thousandths, general
/// guidance otherwise.
pub open spec fn fix_type_of(s: SuggestionView) -> Seq<char> {
    if s.code_fix is Some {
        "automated_fix"@
    } else if s.confidence > 800 {
        "high_confidence_suggestion"@
    } else {
        "general_guidance"@
    }
}

/// The kinds of fixes that a diagnostic's suggestions offer, in order.
pub fn fix_types(d: &Diagnostic) -> (r: Vec<String>)
    ensures
        texts(r@) == d@.suggestions.map_values(|s: SuggestionView| fix_type_of(s)),
{
    let ghost sv = d@.suggestions;
    let mut r: Vec<String> = Vec::new();
    let mut i: usize = 0;
    while i < d.suggestions.len()
        invariant
            sv == d@.suggestions,
            sv.len() == d.suggestions@.len(),
            forall|j: int| 0 <= j < sv.len() ==> sv[j] == #[trigger] d.suggestions@[j]@,
            i <= d.suggestions@.len(),
            texts(r@) == sv.take(i as int).map_values(|s: SuggestionView| fix_type_of(s)),
        decreases d.suggestions@.len() - i,
    {
        let s = &d.suggestions[i];
        let t = if s.code_fix.is_some() {
            "automated_fix"
        } else if s.confidence > 800 {
            "high_confidence_suggestion"
        } else {
            "general_guidance"
        };
        assert(sv[i as int] == s@);
        assert(t@ == fix_type_of(sv[i as int]));
        let ghost before = r@;
        r.push(owned(t));
        assert(texts(before).len() == i);
        assert(texts(r@) =~= texts(before).push(t@));
        assert(sv.take(i + 1).map_values(|s: SuggestionView| fix_type_of(s)) =~= sv.take(i as int).map_values(
            |s: SuggestionView| fix_type_of(s),
        ).push(fix_type_of(sv[i as int])));
        i = i + 1;
    }
    assert(sv.take(i as int) =~= sv);
    r
}

/// How complex fixing a diagnostic is: simple when it has suggestions.
pub fn fix_complexity(d: &Diagnostic) -> (r: &'static str)
    ensures
        r@ == if d@.suggestions.len() == 0 {
            "complex"@
        } else {
            "simple"@
        },
{
    if d.suggestions.len() == 0 {
        "complex"
    } else {
        "simple"
    }
}

/// Whether fixing a diagnostic needs its context.
pub fn requires_context(d: &Diagnostic) -> (r: bool)
    ensures
        r == (d@.context.len() > 0),
{
    d.context.len() > 0
}

/// The number of diagnostics of each category, categories in the order in
/// which they first occur.
pub open spec fn category_counts(ds: Seq<DiagnosticView>) -> Seq<(ErrorCategory, nat)>
    decreases ds.len(),
{
    if ds.len() == 0 {
        seq![]
    } else {
        count_in(category_counts(ds.drop_last()), ds.last().category)
    }
}

/// The counts with one more diagnostic of category `c`.
pub open spec fn count_in(counts: Seq<(ErrorCategory, nat)>, c: ErrorCategory) -> Seq<(ErrorCategory, nat)> {
    if exists|i: int| 0 <= i < counts.len() && counts[i].0 == c {
        let i = choose|i: int| 0 <= i < counts.len() && counts[i].0 == c;
        counts.update(i, (c, counts[i].1 + 1))
    } else {
        counts.push((c, 1))
    }
}

/// Each category occurs once among the counts.
pub open spec fn distinct_categories(counts: Seq<(ErrorCategory, nat)>) -> bool {
    forall|i: int, j: int| 0 <= i < j < counts.len() ==> counts[i].0 != counts[j].0
}

proof fn lemma_category_counts(ds: Seq<DiagnosticView>)
    ensures
        distinct_categories(category_counts(ds)),
        category_counts(ds).len() <= ds.len(),
        forall|i: int| 0 <= i < category_counts(ds).len() ==> category_counts(ds)[i].1 <= ds.len(),
    decreases ds.len(),
{
    if ds.len() > 0 {
        lemma_category_counts(ds.drop_last());
    }
}

/// A learning opportunity: its kind, the category it concerns (if any),
/// what it is, and its priority.
#[derive(Debug, Clone)]
pub struct LearningOpportunity {
    pub kind: String,
    pub category: Option<String>,
    pub description: String,
    pub priority: String,
}

/// A learning opportunity as plain values.
pub struct OpportunityView {
    pub kind: Seq<char>,
    pub category: Option<Seq<char>>,
    pub description: Seq<char>,
    pub priority: Seq<char>,
}

impl View for LearningOpportunity {
    type V = OpportunityView;

    open spec fn view(&self) -> OpportunityView {
        OpportunityView {
            kind: self.kind@,
            category: match self.category {
                Some(c) => Some(c@),
                None => None,
            },
            description: self.description@,
            priority: self.priority@,
        }
    }
}

/// The opportunities from the category counts `counts[i..]`: one for each
/// category with more than one diagnostic, of high priority above three.
pub open spec fn pattern_opportunities(counts: Seq<(ErrorCategory, nat)>) -> Seq<OpportunityView>
    decreases counts.len(),
{
    if counts.len() == 0 {
        seq![]
    } else {
        let (c, n) = counts.last();
        pattern_opportunities(counts.drop_last()) + if n > 1 {
            seq![
                OpportunityView {
                    kind: "pattern_recognition"@,
                    category: Some(category_text(c)),
                    description: "Multiple "@ + category_text(c) + " errors suggest need for focused learning"@,
                    priority: if n > 3 {
                        "high"@
                    } else {
                        "medium"@
                    },
                },
            ]
        } else {
            seq![]
        }
    }
}

/// The learning opportunities of a set of diagnostics: the repeated
/// categories, then a knowledge gap when some diagnostic has no
/// suggestion.
pub open spec fn opportunities_of(ds: Seq<DiagnosticView>) -> Seq<OpportunityView> {
    pattern_opportunities(category_counts(ds)) + if exists|i: int|
        0 <= i < ds.len() && (#[trigger] ds[i]).suggestions.len() == 0 {
        seq![
            OpportunityView {
                kind: "knowledge_gap"@,
                category: None,
                description: "Some errors lack clear solutions, indicating advanced topics"@,
                priority: "high"@,
            },
        ]
    } else {
        seq![]
    }
}

/// The counts as plain values.
pub open spec fn counts_view(v: Seq<(ErrorCategory, usize)>) -> Seq<(ErrorCategory, nat)> {
    v.map_values(|e: (ErrorCategory, usize)| (e.0, e.1 as nat))
}

fn count_categories(ds: &[Diagnostic]) -> (r: Vec<(ErrorCategory, usize)>)
    ensures
        counts_view(r@) == category_counts(ds@.map_values(|d: Diagnostic| d@)),
{
    let ghost dv = ds@.map_values(|d: Diagnostic| d@);
    let mut counts: Vec<(ErrorCategory, usize)> = Vec::new();
    let mut i: usize = 0;
    assert(counts_view(counts@) =~= category_counts(dv.take(0)));
    while i < ds.len()
        invariant
            dv == ds@.map_values(|d: Diagnostic| d@),
            i <= ds@.len(),
            counts_view(counts@) == category_counts(dv.take(i as int)),
        decreases ds@.len() - i,
    {
        let ghost pre = dv.take(i as int);
        proof {
            lemma_category_counts(pre);
            assert(dv.take(i + 1).drop_last() =~= pre);
        }
        let c = ds[i].category;
        assert(dv.take(i + 1).last().category == c);
        let ghost cv = counts_view(counts@);
        let mut k: usize = 0;
        let mut found = false;
        while k < counts.len() && !found
            invariant
                cv == counts_view(counts@),
                k <= counts@.len(),
                found ==> k < counts@.len() && counts@[k as int].0 == c,
                forall|m: int| 0 <= m < k ==> counts@[m].0 != c,
            decreases counts@.len() - k + if found {
                0int
            } else {
                1int
            },
        {
            if counts[k].0 == c {
                found = true;
            } else {
                k = k + 1;
            }
        }
        if found {
            let n = counts[k].1;
            assert(cv[k as int].1 <= pre.len());
            proof {
                let j = choose|j: int| 0 <= j < cv.len() && cv[j].0 == c;
                assert(cv[k as int].0 == c);
                if j != k {
                    assert(distinct_categories(cv));
                }
            }
            counts.set(k, (c, n + 1));
            assert(counts_view(counts@) =~= cv.update(k as int, (c, cv[k as int].1 + 1)));
        } else {
            assert(!(exists|j: int| 0 <= j < cv.len() && cv[j].0 == c));
            counts.push((c, 1));
            assert(counts_view(counts@) =~= cv.push((c, 1)));
        }
        i = i + 1;
    }
    assert(dv.take(i as int) =~= dv);
    counts
}

impl ErrorReporter {
    /// The number of diagnostics of each category (named in lower case),
    /// categories in the order in which they first occur.
    pub fn category_summary(&self) -> (r: Vec<(String, usize)>)
        ensures
            r@.map_values(|e: (String, usize)| (e.0@, e.1 as nat)) == category_counts(self@.diagnostics).map_values(
                |e: (ErrorCategory, nat)| (category_text(e.0), e.1),
            ),
    {
        let counts = count_categories(self.diagnostics());
        let ghost cv = counts_view(counts@);
        let mut r: Vec<(String, usize)> = Vec::new();
        let mut i: usize = 0;
        while i < counts.len()
            invariant
                cv == counts_view(counts@),
                i <= counts@.len(),
                r@.map_values(|e: (String, usize)| (e.0@, e.1 as nat)) == cv.take(i as int).map_values(
                    |e: (ErrorCategory, nat)| (category_text(e.0), e.1),
                ),
            decreases counts@.len() - i,
        {
            let ghost before = r@;
            let (c, n) = counts[i];
            assert(cv[i as int] == (c, n as nat));
            r.push((owned(category_name(c)), n));
            assert(r@.map_values(|e: (String, usize)| (e.0@, e.1 as nat)) =~= before.map_values(
                |e: (String, usize)| (e.0@, e.1 as nat),
            ).push((category_text(c), n as nat)));
            assert(cv.take(i + 1).map_values(|e: (ErrorCategory, nat)| (category_text(e.0), e.1)) =~= cv.take(
                i as int,
            ).map_values(|e: (ErrorCategory, nat)| (category_text(e.0), e.1)).push((category_text(c), n as nat)));
            i = i + 1;
        }
        assert(cv.take(i as int) =~= cv);
        r
    }

    /// The learning opportunities of the diagnostics: one for each
    /// category with more than one diagnostic (of high priority above
    /// three), in the order in which the categories first occur, then a
    /// knowledge gap when some diagnostic has no suggestion.
    pub fn learning_opportunities(&self) -> (r: Vec<LearningOpportunity>)
        ensures
            r@.map_values(|o: LearningOpportunity| o@) == opportunities_of(self@.diagnostics),
    {
        let ds = self.diagnostics();
        let ghost dv = self@.diagnostics;
        let counts = count_categories(ds);
        let ghost cv = counts_view(counts@);
        let mut r: Vec<LearningOpportunity> = Vec::new();
        let mut i: usize = 0;
        while i < counts.len()
            invariant
                cv == counts_view(counts@),
                i <= counts@.len(),
                r@.map_values(|o: LearningOpportunity| o@) == pattern_opportunities(cv.take(i as int)),
            decreases counts@.len() - i,
        {
            assert(cv.take(i + 1).drop_last() =~= cv.take(i as int));
            let (c, n) = counts[i];
            let ghost before = r@;
            if n > 1 {
                let name = category_name(c);
                let mut description = owned("Multiple ");
                crate::text::append(&mut description, name);
                crate::text::append(&mut description, " errors suggest need for focused learning");
                r.push(
                    LearningOpportunity {
                        kind: owned("pattern_recognition"),
                        category: Some(owned(name)),
                        description,
                        priority: owned(if n > 3 { "high" } else { "medium" }),
                    },
                );
                assert(r@.map_values(|o: LearningOpportunity| o@) =~= before.map_values(|o: LearningOpportunity| o@)
                    + pattern_opportunities(cv.take(i + 1)).skip(before.len() as int));
            }
            assert(r@.map_values(|o: LearningOpportunity| o@) =~= pattern_opportunities(cv.take(i + 1)));
            i = i + 1;
        }
        assert(cv.take(i as int) =~= cv);
        let mut gap = false;
        let mut k: usize = 0;
        while k < ds.len()
            invariant
                dv == ds@.map_values(|d: Diagnostic| d@),
                k <= ds@.len(),
                gap == exists|j: int| 0 <= j < k && (#[trigger] dv[j]).suggestions.len() == 0,
            decreases ds@.len() - k,
        {
            assert(dv[k as int] == ds@[k as int]@);
            if ds[k].suggestions.len() == 0 {
                gap = true;
            }
            k = k + 1;
        }
        let ghost before = r@;
        if gap {
            r.push(
                LearningOpportunity {
                    kind: owned("knowledge_gap"),
                    category: None,
                    description: owned("Some errors lack clear solutions, indicating advanced topics"),
                    priority: owned("high"),
                },
            );
        }
        assert(r@.map_values(|o: LearningOpportunity| o@) =~= opportunities_of(dv));
        r
    }
}

} // verus!
