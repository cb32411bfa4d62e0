use vstd::prelude::*;

verus! {

/// Whether `pattern`, read as a regular expression, compiles (`Some`) and
/// then whether it matches anywhere in `text`.
pub uninterp spec fn regex_search(pattern: Seq<char>, text: Seq<char>) -> Option<bool>;

/// Relies on `regex::Regex::new`, which compiles a pattern or returns an
/// error, and `regex::Regex::is_match`, which tells whether the regex matches
/// anywhere in the haystack. The answer depends on the two strings alone.
#[verifier::external_body]
pub(crate) fn regex_find(pattern: &str, text: &str) -> (r: Option<bool>)
    ensures
        r == regex_search(pattern@, text@),
{
    match regex::Regex::new(pattern) {
        Ok(re) => Some(re.is_match(text)),
        Err(_) => None,
    }
}

/// A regular expression compared by its pattern text.
#[derive(Debug, Clone, PartialEq, Eq)]
pub struct RegexEq(pub String);

/// A string field of a rule: absent matches anything; present, the subject
/// must exist and the pattern must compile and match somewhere in it.
pub open spec fn pattern_holds(p: Option<RegexEq>, subject: Option<Seq<char>>) -> bool {
    match p {
        None => true,
        Some(re) => match subject {
            None => false,
            Some(s) => regex_search(re.0@, s) == Some(true),
        },
    }
}

/// A boolean field of a rule: absent matches anything.
pub open spec fn flag_holds(want: Option<bool>, have: bool) -> bool {
    match want {
        None => true,
        Some(w) => w == have,
    }
}

pub(crate) fn check_pattern(p: &Option<RegexEq>, subject: &Option<String>) -> (r: bool)
    ensures
        r == pattern_holds(
            *p,
            match subject {
                Some(s) => Some(s@),
                None => None,
            },
        ),
{
    match p {
        None => true,
        Some(re) => match subject {
            None => false,
            Some(s) => match regex_find(re.0.as_str(), s.as_str()) {
                Some(true) => true,
                _ => false,
            },
        },
    }
}

fn check_flag(want: Option<bool>, have: bool) -> (r: bool)
    ensures
        r == flag_holds(want, have),
{
    match want {
        None => true,
        Some(w) => w == have,
    }
}

/// What a window rule can ask of a window.
#[derive(Debug, Clone, PartialEq, Eq)]
pub struct WindowFacts {
    pub app_id: Option<String>,
    pub title: Option<String>,
    pub is_active: bool,
    pub is_focused: bool,
    pub is_active_in_column: bool,
    pub is_floating: bool,
    pub is_window_cast_target: bool,
    pub is_urgent: bool,
    pub at_startup: bool,
}

/// One entry of a window rule's `match` or `exclude` list: every field it
/// sets must hold.
#[derive(Debug, Default, Clone, PartialEq, Eq)]
pub struct Match {
    pub app_id: Option<RegexEq>,
    pub title: Option<RegexEq>,
    pub is_active: Option<bool>,
    pub is_focused: Option<bool>,
    pub is_active_in_column: Option<bool>,
    pub is_floating: Option<bool>,
    pub is_window_cast_target: Option<bool>,
    pub is_urgent: Option<bool>,
    pub at_startup: Option<bool>,
}

pub open spec fn opt_view(s: Option<String>) -> Option<Seq<char>> {
    match s {
        Some(x) => Some(x@),
        None => None,
    }
}

/// Every field that the entry sets holds of the window.
pub open spec fn match_holds(m: Match, w: WindowFacts) -> bool {
    &&& pattern_holds(m.app_id, opt_view(w.app_id))
    &&& pattern_holds(m.title, opt_view(w.title))
    &&& flag_holds(m.is_active, w.is_active)
    &&& flag_holds(m.is_focused, w.is_focused)
    &&& flag_holds(m.is_active_in_column, w.is_active_in_column)
    &&& flag_holds(m.is_floating, w.is_floating)
    &&& flag_holds(m.is_window_cast_target, w.is_window_cast_target)
    &&& flag_holds(m.is_urgent, w.is_urgent)
    &&& flag_holds(m.at_startup, w.at_startup)
}

/// A rule applies where its `match` list is empty or one entry holds, and no
/// entry of its `exclude` list holds.
pub open spec fn rule_selects(matches: Seq<Match>, excludes: Seq<Match>, w: WindowFacts) -> bool {
    (matches.len() == 0 || exists|i: int| 0 <= i < matches.len() && match_holds(#[trigger] matches[i], w))
        && !exists|i: int| 0 <= i < excludes.len() && match_holds(#[trigger] excludes[i], w)
}

impl Match {
    /// Whether every field that this entry sets holds of the window.
    pub fn holds_for(&self, w: &WindowFacts) -> (r: bool)
        ensures
            r == match_holds(*self, *w),
    {
        check_flag(self.is_active, w.is_active) && check_flag(self.is_focused, w.is_focused)
            && check_flag(self.is_active_in_column, w.is_active_in_column) && check_flag(
            self.is_floating,
            w.is_floating,
        ) && check_flag(self.is_window_cast_target, w.is_window_cast_target) && check_flag(
            self.is_urgent,
            w.is_urgent,
        ) && check_flag(self.at_startup, w.at_startup) && check_pattern(&self.app_id, &w.app_id)
            && check_pattern(&self.title, &w.title)
    }
}

fn any_holds(ms: &Vec<Match>, w: &WindowFacts) -> (r: bool)
    ensures
        r == exists|i: int| 0 <= i < ms@.len() && match_holds(#[trigger] ms@[i], *w),
{
    let mut i: usize = 0;
    while i < ms.len()
        invariant
            i <= ms@.len(),
            forall|k: int| 0 <= k < i ==> !match_holds(#[trigger] ms@[k], *w),
        decreases ms@.len() - i,
    {
        if ms[i].holds_for(w) {
            return true;
        }
        i += 1;
    }
    false
}

/// Whether a window rule with these `match` and `exclude` lists applies to
/// the window.
pub fn window_rule_applies(matches: &Vec<Match>, excludes: &Vec<Match>, w: &WindowFacts) -> (r:
    bool)
    ensures
        r == rule_selects(matches@, excludes@, *w),
{
    (matches.len() == 0 || any_holds(matches, w)) && !any_holds(excludes, w)
}

/// A rule with no entries in either list applies to every window.
pub proof fn empty_rule_selects_all(w: WindowFacts)
    ensures
        rule_selects(Seq::empty(), Seq::empty(), w),
{
}

/// An entry that sets no field holds of every window.
pub proof fn empty_match_holds(w: WindowFacts)
    ensures
        match_holds(
            (Match {
                app_id: None,
                title: None,
                is_active: None,
                is_focused: None,
                is_active_in_column: None,
                is_floating: None,
                is_window_cast_target: None,
                is_urgent: None,
                at_startup: None,
            }),
            w,
        ),
{
}

/// Where a floating window is placed from.
#[derive(Debug, Default, Clone, Copy, PartialEq, Eq, Structural)]
pub enum RelativeTo {
    #[default]
    TopLeft,
    TopRight,
    BottomLeft,
    BottomRight,
    Top,
    Bottom,
    Left,
    Right,
    Cursor,
}

} // verus!
