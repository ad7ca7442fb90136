//! Compiled text patterns and the filter-pattern state of an input field.
//!
//! Matching is delegated to the `regex` crate.  Its observable behaviour is
//! captured by two names, `pattern_ok` (does a pattern text compile?) and
//! `regex_matches` (does a haystack match a compiled pattern?); both are
//! functions of their text arguments alone, so everything built on top of
//! them is verified against those names.

use vstd::prelude::*;

verus! {

/// Whether `regex::Regex::new` accepts this pattern text (valid syntax and
/// within the default compiled-size limit).
pub uninterp spec fn pattern_ok(pattern: Seq<char>) -> bool;

/// Whether a haystack contains a match of the pattern compiled from
/// `pattern`.
pub uninterp spec fn regex_matches(pattern: Seq<char>, text: Seq<char>) -> bool;

/// The sentinel text an un-edited filter field holds: as a pattern it
/// matches everything, and the session treats it as "no filter typed yet".
pub open spec fn placeholder_seq() -> Seq<char> {
    seq!['.', '*']
}

/// Pattern texts that are treated as match-all without compiling: the empty
/// text and the un-edited placeholder.
pub open spec fn is_match_all(s: Seq<char>) -> bool {
    s.len() == 0 || s == placeholder_seq()
}

/// The placeholder text as a character buffer.
pub fn placeholder_text() -> (r: Vec<char>)
    ensures
        r@ == placeholder_seq(),
{
    let mut v: Vec<char> = Vec::new();
    v.push('.');
    v.push('*');
    proof {
        assert(v@ =~= placeholder_seq());
    }
    v
}

/// Does this buffer hold exactly the placeholder text?
pub fn is_placeholder(text: &Vec<char>) -> (r: bool)
    ensures
        r == (text@ == placeholder_seq()),
{
    let r = text.len() == 2 && *text_at(text, 0) == '.' && *text_at(text, 1) == '*';
    proof {
        if r {
            assert(text@ =~= placeholder_seq());
        }
        if text@ == placeholder_seq() {
            assert(text@.len() == 2);
            assert(text@[0] == '.' && text@[1] == '*');
        }
    }
    r
}

/// Is this buffer one of the match-all texts (empty or placeholder)?
pub fn is_match_all_text(text: &Vec<char>) -> (r: bool)
    ensures
        r == is_match_all(text@),
{
    text.len() == 0 || is_placeholder(text)
}

fn text_at(text: &Vec<char>, i: usize) -> (c: &char)
    requires
        i < text@.len(),
    ensures
        *c == text@[i as int],
{
    &text[i]
}

/// Rejection of a malformed pattern text; compilation never aborts the
/// session, it reports this value instead.
pub struct PatternCompileError;

/// An executable matcher together with the exact text it was compiled from.
pub struct CompiledPattern {
    re: regex::Regex,
    source_text: Vec<char>,
}

/// Declares `regex::Regex` so that a compiled matcher can be held in a
/// field; the value is opaque here, everything known about it is stated on
/// the two functions below.
#[verifier::external_type_specification]
#[verifier::external_body]
pub struct ExRegex(regex::Regex);

impl CompiledPattern {
    /// The pattern text this matcher was compiled from.
    pub closed spec fn source(&self) -> Seq<char> {
        self.source_text@
    }

    /// Relies on `regex::Regex::new`: compilation is deterministic in the
    /// pattern text and returns `Ok` exactly when the text is a valid
    /// pattern within the default size limit.  The matcher is stored next
    /// to the text it was compiled from.
    #[verifier::external_body]
    fn compile_raw(text: Vec<char>) -> (r: Option<CompiledPattern>)
        ensures
            r is Some <==> pattern_ok(text@),
            r matches Some(p) ==> p.source() == text@,
    {
        let s: String = text.iter().collect();
        match regex::Regex::new(&s) {
            Ok(re) => Some(CompiledPattern { re, source_text: text }),
            Err(_) => None,
        }
    }

    /// Compile a pattern text, reporting a [`PatternCompileError`] exactly
    /// when the text is malformed.
    pub fn compile(text: Vec<char>) -> (r: Result<CompiledPattern, PatternCompileError>)
        ensures
            r is Ok <==> pattern_ok(text@),
            r matches Ok(p) ==> p.source() == text@,
    {
        match Self::compile_raw(text) {
            Some(p) => Ok(p),
            None => Err(PatternCompileError),
        }
    }

    /// Relies on `regex::Regex::is_match`: whether a haystack matches is a
    /// function of the pattern text and the haystack alone.  The matcher
    /// held in `self` is the one compiled from `self.source()` (the only
    /// constructor stores them together), so the result is `regex_matches`
    /// of the source text.
    #[verifier::external_body]
    pub(crate) fn is_match(&self, haystack: &str) -> (r: bool)
        ensures
            r == regex_matches(self.source(), haystack@),
    {
        self.re.is_match(haystack)
    }

    /// Test a haystack against this pattern.
    pub fn matches(&self, haystack: &str) -> (r: bool)
        ensures
            r == regex_matches(self.source(), haystack@),
    {
        self.is_match(haystack)
    }
}

/// The mathematical content of a [`FilterPattern`]: the raw field text, the
/// source text of the applied matcher (`None` means match-all), and whether
/// the raw text is the one the matcher was derived from.
#[verifier::ext_equal]
pub struct FilterPatternView {
    pub raw: Seq<char>,
    pub compiled: Option<Seq<char>>,
    pub valid: bool,
}

/// Well-formedness of a filter-pattern state: the applied matcher is either
/// absent (match-all) or derived from the exact current raw text; after a
/// failed compilation the previous matcher is kept and the state is marked
/// not valid, which keeps it distinguishable from an applied pattern.
pub open spec fn filter_pattern_wf(p: FilterPatternView) -> bool {
    &&& p.valid ==> match p.compiled {
        Some(pat) => pat == p.raw && !is_match_all(p.raw),
        None => is_match_all(p.raw),
    }
    &&& !p.valid ==> !is_match_all(p.raw) && !pattern_ok(p.raw)
    &&& match p.compiled {
        Some(pat) => pattern_ok(pat),
        None => true,
    }
}

/// The filter-pattern state after replacing the raw text: a match-all text
/// drops the matcher, a valid text is compiled and applied, and a malformed
/// text keeps the previous matcher but marks the state not valid.
pub open spec fn recompiled(p: FilterPatternView, text: Seq<char>) -> FilterPatternView {
    if is_match_all(text) {
        FilterPatternView { raw: text, compiled: None, valid: true }
    } else if pattern_ok(text) {
        FilterPatternView { raw: text, compiled: Some(text), valid: true }
    } else {
        FilterPatternView { raw: text, compiled: p.compiled, valid: false }
    }
}

/// Recompilation preserves well-formedness of the filter-pattern state.
pub proof fn lemma_recompiled_wf(p: FilterPatternView, text: Seq<char>)
    requires
        filter_pattern_wf(p),
    ensures
        filter_pattern_wf(recompiled(p, text)),
{
}

/// One of the two filter inputs of a session: the raw text of the field and
/// the matcher currently applied to the candidate list.
pub struct FilterPattern {
    pub(crate) raw: Vec<char>,
    pub(crate) compiled: Option<CompiledPattern>,
    pub(crate) valid: bool,
}

impl View for FilterPattern {
    type V = FilterPatternView;

    closed spec fn view(&self) -> FilterPatternView {
        FilterPatternView {
            raw: self.raw@,
            compiled: match self.compiled {
                Some(p) => Some(p.source()),
                None => None,
            },
            valid: self.valid,
        }
    }
}

impl FilterPattern {
    #[verifier::type_invariant]
    pub open spec fn wf(self) -> bool {
        filter_pattern_wf(self@)
    }

    /// The state of a field nobody has typed into: placeholder text, no
    /// matcher, match-all.
    pub fn unset() -> (r: Self)
        ensures
            r@.raw == placeholder_seq(),
            r@.compiled is None,
            r@.valid,
    {
        FilterPattern { raw: placeholder_text(), compiled: None, valid: true }
    }

    /// Replace the raw text and recompile it (the live-filtering policy:
    /// this runs on every edit of a pattern field).
    pub fn set_text(self, text: Vec<char>) -> (r: Self)
        ensures
            r@ == recompiled(self@, text@),
    {
        proof {
            use_type_invariant(&self);
        }
        if is_match_all_text(&text) {
            FilterPattern { raw: text, compiled: None, valid: true }
        } else {
            let raw = clone_chars(&text);
            match CompiledPattern::compile(text) {
                Ok(p) => FilterPattern { raw, compiled: Some(p), valid: true },
                Err(_) => FilterPattern { raw, compiled: self.compiled, valid: false },
            }
        }
    }

    /// The raw text of the field.
    pub fn raw_text(&self) -> (r: &Vec<char>)
        ensures
            r@ == self@.raw,
    {
        &self.raw
    }

    /// Whether the applied matcher corresponds to the current raw text;
    /// `false` means the last edit was malformed and the previous matcher
    /// is still applied.
    pub fn is_valid(&self) -> (r: bool)
        ensures
            r == self@.valid,
    {
        self.valid
    }

    /// The matcher currently applied, if any.
    pub(crate) fn applied(&self) -> (r: Option<&CompiledPattern>)
        ensures
            match r {
                Some(re) => self@.compiled == Some(re.source()),
                None => self@.compiled is None,
            },
    {
        match &self.compiled {
            Some(re) => Some(re),
            None => None,
        }
    }

    /// Whether a matcher is applied at all (`false` means match-all).
    pub fn is_applied(&self) -> (r: bool)
        ensures
            r == (self@.compiled is Some),
    {
        match &self.compiled {
            Some(_) => true,
            None => false,
        }
    }
}

/// Copy a character buffer.
pub fn clone_chars(text: &Vec<char>) -> (r: Vec<char>)
    ensures
        r@ == text@,
{
    let r = text.clone();
    proof {
        assert(forall|i: int| 0 <= i < text@.len() ==> r@[i] == text@[i]);
        assert(r@ =~= text@);
    }
    r
}

} // verus!
