//! Focus policy: how windows receive keyboard focus, and which window
//! currently has it.

use vstd::prelude::*;

use crate::stacking::WindowId;
use crate::text::{ascii_lower_char, chars_of, lowercase_chars};

verus! {

/// Determines how windows receive keyboard focus.
#[derive(Debug, Clone, Copy, PartialEq, Eq, Structural)]
pub enum FocusPolicy {
    /// Focus is granted only by an explicit click on a window.
    ClickToFocus,
    /// Focus follows the mouse pointer at all times.
    FollowMouse,
    /// Focus follows the mouse pointer, but the last focused window keeps
    /// focus when the pointer moves to the desktop background.
    Sloppy,
}

/// `c` is `d` once ASCII upper-case letters are turned to lower case.
pub open spec fn char_folds_to(c: char, d: char) -> bool {
    if 'A' <= c <= 'Z' {
        c as u32 + 32 == d as u32
    } else {
        c == d
    }
}

/// `s` equals the lower-case word `word` up to the case of its ASCII
/// letters.
///
/// The words compared against are plain ASCII, and a non-ASCII character
/// never lower-cases to ASCII letters other than `k` (from U+212A KELVIN
/// SIGN), so folding only ASCII letters selects the same word as full
/// Unicode lower-casing wherever the choice of word matters.
pub open spec fn folds_to(s: Seq<char>, word: Seq<char>) -> bool {
    &&& s.len() == word.len()
    &&& forall|i: int| 0 <= i < s.len() ==> #[trigger] char_folds_to(s[i], word[i])
}

/// The focus policy named by a configuration string.
pub open spec fn policy_named(s: Seq<char>) -> FocusPolicy {
    if folds_to(s, "click"@) || folds_to(s, "click-to-focus"@) || folds_to(s, "click_to_focus"@) {
        FocusPolicy::ClickToFocus
    } else if folds_to(s, "follow"@) || folds_to(s, "follow-mouse"@) || folds_to(
        s,
        "follow_mouse"@,
    ) {
        FocusPolicy::FollowMouse
    } else if folds_to(s, "sloppy"@) {
        FocusPolicy::Sloppy
    } else {
        FocusPolicy::ClickToFocus
    }
}

/// A string folds to at most one word.
pub proof fn lemma_folds_to_one_word(s: Seq<char>, a: Seq<char>, b: Seq<char>)
    requires
        folds_to(s, a),
        folds_to(s, b),
    ensures
        a == b,
{
    assert forall|i: int| 0 <= i < a.len() implies a[i] == b[i] by {
        assert(char_folds_to(s[i], a[i]));
        assert(char_folds_to(s[i], b[i]));
        vstd::utf8::char_u32_cast(a[i], a[i] as u32);
        vstd::utf8::char_u32_cast(b[i], b[i] as u32);
    }
    assert(a =~= b);
}

/// Folding ignores case: a string folds to a word exactly when its ASCII
/// lower-case form does.
pub proof fn law_folds_to_ignores_case(s: Seq<char>, word: Seq<char>)
    ensures
        folds_to(lowercase_chars(s), word) == folds_to(s, word),
{
    let l = lowercase_chars(s);
    assert forall|i: int| 0 <= i < s.len() && 0 <= i < word.len() implies #[trigger] char_folds_to(
        l[i],
        word[i],
    ) == char_folds_to(s[i], word[i]) by {
        assert(l[i] == ascii_lower_char(s[i]));
        vstd::utf8::char_u32_cast(word[i], word[i] as u32);
        vstd::utf8::char_u32_cast(s[i], s[i] as u32);
        if 'A' <= s[i] <= 'Z' {
            assert((((s[i] as u32) + 0x20) as char) as u32 == (s[i] as u32) + 0x20);
        }
    }
    if folds_to(s, word) {
        assert forall|i: int| 0 <= i < l.len() implies #[trigger] char_folds_to(l[i], word[i]) by {
            assert(char_folds_to(s[i], word[i]));
        }
    }
    if folds_to(l, word) {
        assert forall|i: int| 0 <= i < s.len() implies #[trigger] char_folds_to(s[i], word[i]) by {
            assert(char_folds_to(l[i], word[i]));
        }
    }
}

/// Every documented name selects its policy, in any ASCII case:
/// `click`, `click-to-focus` and `click_to_focus` select click-to-focus,
/// `follow`, `follow-mouse` and `follow_mouse` select follow-mouse, and
/// `sloppy` selects sloppy focus; any other string selects click-to-focus.
/// The policy of a string is that of its lower-case form.
pub proof fn law_policy_names(s: Seq<char>)
    ensures
        folds_to(s, "click"@) ==> policy_named(s) == FocusPolicy::ClickToFocus,
        folds_to(s, "click-to-focus"@) ==> policy_named(s) == FocusPolicy::ClickToFocus,
        folds_to(s, "click_to_focus"@) ==> policy_named(s) == FocusPolicy::ClickToFocus,
        folds_to(s, "follow"@) ==> policy_named(s) == FocusPolicy::FollowMouse,
        folds_to(s, "follow-mouse"@) ==> policy_named(s) == FocusPolicy::FollowMouse,
        folds_to(s, "follow_mouse"@) ==> policy_named(s) == FocusPolicy::FollowMouse,
        folds_to(s, "sloppy"@) ==> policy_named(s) == FocusPolicy::Sloppy,
        !folds_to(s, "click"@) && !folds_to(s, "click-to-focus"@) && !folds_to(s, "click_to_focus"@)
            && !folds_to(s, "follow"@) && !folds_to(s, "follow-mouse"@) && !folds_to(
            s,
            "follow_mouse"@,
        ) && !folds_to(s, "sloppy"@) ==> policy_named(s) == FocusPolicy::ClickToFocus,
        policy_named(lowercase_chars(s)) == policy_named(s),
{
    reveal_strlit("click");
    reveal_strlit("click-to-focus");
    reveal_strlit("click_to_focus");
    reveal_strlit("follow");
    reveal_strlit("follow-mouse");
    reveal_strlit("follow_mouse");
    reveal_strlit("sloppy");
    law_folds_to_ignores_case(s, "click"@);
    law_folds_to_ignores_case(s, "click-to-focus"@);
    law_folds_to_ignores_case(s, "click_to_focus"@);
    law_folds_to_ignores_case(s, "follow"@);
    law_folds_to_ignores_case(s, "follow-mouse"@);
    law_folds_to_ignores_case(s, "follow_mouse"@);
    law_folds_to_ignores_case(s, "sloppy"@);
    if folds_to(s, "follow"@) && folds_to(s, "sloppy"@) {
        lemma_folds_to_one_word(s, "follow"@, "sloppy"@);
        assert("follow"@[0] != "sloppy"@[0]);
    }
    if folds_to(s, "follow"@) || folds_to(s, "follow-mouse"@) || folds_to(s, "follow_mouse"@) || folds_to(
        s,
        "sloppy"@,
    ) {
        assert(!folds_to(s, "click"@) && !folds_to(s, "click-to-focus"@) && !folds_to(
            s,
            "click_to_focus"@,
        ));
    }
}

/// Whether the characters `s` equal `word` up to the case of ASCII letters.
pub fn chars_fold_to(s: &Vec<char>, word: &str) -> (res: bool)
    ensures
        res == folds_to(s@, word@),
{
    let w = chars_of(word);
    if s.len() != w.len() {
        return false;
    }
    let mut i: usize = 0;
    while i < s.len()
        invariant
            w@ == word@,
            s@.len() == w@.len(),
            i <= s@.len(),
            forall|j: int| 0 <= j < i ==> #[trigger] char_folds_to(s@[j], w@[j]),
        decreases s@.len() - i,
    {
        let c = s[i];
        let d = w[i];
        let ok = if 'A' <= c && c <= 'Z' {
            (c as u32) + 32 == (d as u32)
        } else {
            c == d
        };
        if !ok {
            assert(!char_folds_to(s@[i as int], w@[i as int]));
            return false;
        }
        i = i + 1;
    }
    true
}

impl FocusPolicy {
    /// Parses a focus policy from a configuration string, ignoring case:
    /// `"click"`, `"click-to-focus"`, `"click_to_focus"`, `"follow"`,
    /// `"follow-mouse"`, `"follow_mouse"`, `"sloppy"`; anything else is
    /// click-to-focus.
    pub fn from_str(s: &str) -> (res: Self)
        ensures
            res == policy_named(s@),
    {
        let l = chars_of(s);
        if chars_fold_to(&l, "click") || chars_fold_to(&l, "click-to-focus") || chars_fold_to(
            &l,
            "click_to_focus",
        ) {
            FocusPolicy::ClickToFocus
        } else if chars_fold_to(&l, "follow") || chars_fold_to(&l, "follow-mouse") || chars_fold_to(
            &l,
            "follow_mouse",
        ) {
            FocusPolicy::FollowMouse
        } else if chars_fold_to(&l, "sloppy") {
            FocusPolicy::Sloppy
        } else {
            FocusPolicy::ClickToFocus
        }
    }
}

/// Tracks the focused window and the focus policy.
#[derive(Debug, Clone)]
pub struct FocusManager {
    policy: FocusPolicy,
    focused_window: Option<WindowId>,
}

impl FocusManager {
    /// The focus policy.
    pub closed spec fn policy_view(&self) -> FocusPolicy {
        self.policy
    }

    /// The focused window.
    pub closed spec fn focused_view(&self) -> Option<WindowId> {
        self.focused_window
    }

    /// A manager with the given policy and no focused window.
    pub fn new(policy: FocusPolicy) -> (res: Self)
        ensures
            res.policy_view() == policy,
            res.focused_view() is None,
    {
        FocusManager { policy, focused_window: None }
    }

    /// Sets the focused window; `None` clears focus.
    pub fn set_focus(&mut self, window: Option<WindowId>)
        ensures
            final(self).focused_view() == window,
            final(self).policy_view() == old(self).policy_view(),
    {
        self.focused_window = window;
    }

    /// The focused window, if any.
    pub fn focused(&self) -> (res: Option<WindowId>)
        ensures
            res == self.focused_view(),
    {
        self.focused_window
    }

    /// Whether the policy grants focus on pointer hover: true for
    /// follow-mouse and sloppy focus.
    pub fn should_focus_on_hover(&self) -> (res: bool)
        ensures
            res == (self.policy_view() == FocusPolicy::FollowMouse || self.policy_view()
                == FocusPolicy::Sloppy),
    {
        matches!(self.policy, FocusPolicy::FollowMouse | FocusPolicy::Sloppy)
    }

    /// Whether the policy raises a window on click: true only for
    /// click-to-focus.
    pub fn should_raise_on_click(&self) -> (res: bool)
        ensures
            res == (self.policy_view() == FocusPolicy::ClickToFocus),
    {
        matches!(self.policy, FocusPolicy::ClickToFocus)
    }
}

/// Under every policy exactly one of "focus on hover" and "raise on click"
/// applies.
pub proof fn law_hover_and_click_exclusive(p: FocusPolicy)
    ensures
        (p == FocusPolicy::FollowMouse || p == FocusPolicy::Sloppy) != (p
            == FocusPolicy::ClickToFocus),
{
}

} // verus!
