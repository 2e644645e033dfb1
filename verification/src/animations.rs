//! Animation bookkeeping: easing-curve names, animated properties, single
//! animations with their timing, and the set of animations running on one
//! entity.
//!
//! Times are nanoseconds on the caller's monotonic clock; animated values
//! are held as the bit patterns of `f64` values, since the interpolation
//! itself is floating-point work done by the renderer.

use vstd::prelude::*;

use crate::focus::char_folds_to;
use crate::text::{ascii_lower_char, chars_of, lowercase_chars};

verus! {

/// Easing curves for animation interpolation.
#[derive(Debug, Clone, Copy, PartialEq, Eq, Structural)]
pub enum EasingCurve {
    /// No easing: constant velocity.
    Linear,
    /// Fast start, gradual (cubic) deceleration.
    EaseOutCubic,
    /// Fast start, aggressive (exponential) deceleration.
    EaseOutExpo,
    /// Smooth (quadratic) acceleration then deceleration.
    EaseInOutQuad,
}

/// `c` is `d` once ASCII letters are lower-cased and `_` is read as `-`.
pub open spec fn easing_char_folds_to(c: char, d: char) -> bool {
    if c == '_' {
        d == '-'
    } else {
        char_folds_to(c, d)
    }
}

/// `s` spells `word` up to ASCII letter case and `_` for `-`.
pub open spec fn easing_folds_to(s: Seq<char>, word: Seq<char>) -> bool {
    &&& s.len() == word.len()
    &&& forall|i: int| 0 <= i < s.len() ==> #[trigger] easing_char_folds_to(s[i], word[i])
}

/// The easing curve named by a configuration string.
pub open spec fn easing_named(s: Seq<char>) -> EasingCurve {
    if easing_folds_to(s, "linear"@) {
        EasingCurve::Linear
    } else if easing_folds_to(s, "ease-out-cubic"@) || easing_folds_to(s, "easeoutcubic"@) {
        EasingCurve::EaseOutCubic
    } else if easing_folds_to(s, "ease-out-expo"@) || easing_folds_to(s, "easeoutexpo"@) {
        EasingCurve::EaseOutExpo
    } else if easing_folds_to(s, "ease-in-out-quad"@) || easing_folds_to(s, "easeinoutquad"@) {
        EasingCurve::EaseInOutQuad
    } else {
        EasingCurve::Linear
    }
}

proof fn lemma_easing_folds_to_one_word(s: Seq<char>, a: Seq<char>, b: Seq<char>)
    requires
        easing_folds_to(s, a),
        easing_folds_to(s, b),
    ensures
        a == b,
{
    assert forall|i: int| 0 <= i < a.len() implies a[i] == b[i] by {
        assert(easing_char_folds_to(s[i], a[i]));
        assert(easing_char_folds_to(s[i], b[i]));
        vstd::utf8::char_u32_cast(a[i], a[i] as u32);
        vstd::utf8::char_u32_cast(b[i], b[i] as u32);
    }
    assert(a =~= b);
}

proof fn lemma_easing_folds_to_ignores_case(s: Seq<char>, word: Seq<char>)
    ensures
        easing_folds_to(lowercase_chars(s), word) == easing_folds_to(s, word),
{
    let l = lowercase_chars(s);
    assert forall|i: int| 0 <= i < s.len() && 0 <= i < word.len() implies #[trigger] easing_char_folds_to(
        l[i],
        word[i],
    ) == easing_char_folds_to(s[i], word[i]) by {
        assert(l[i] == ascii_lower_char(s[i]));
        vstd::utf8::char_u32_cast(word[i], word[i] as u32);
        vstd::utf8::char_u32_cast(s[i], s[i] as u32);
        if 'A' <= s[i] <= 'Z' {
            assert((((s[i] as u32) + 0x20) as char) as u32 == (s[i] as u32) + 0x20);
        }
    }
    if easing_folds_to(s, word) {
        assert forall|i: int| 0 <= i < l.len() implies #[trigger] easing_char_folds_to(l[i], word[i]) by {
            assert(easing_char_folds_to(s[i], word[i]));
        }
    }
    if easing_folds_to(l, word) {
        assert forall|i: int| 0 <= i < s.len() implies #[trigger] easing_char_folds_to(s[i], word[i]) by {
            assert(easing_char_folds_to(l[i], word[i]));
        }
    }
}

/// Every documented name selects its curve, in any ASCII case and with
/// `_` for `-`: `linear`; `ease-out-cubic` or `easeoutcubic`;
/// `ease-out-expo` or `easeoutexpo`; `ease-in-out-quad` or
/// `easeinoutquad`; any other string selects linear. The curve of a
/// string is that of its lower-case form.
pub proof fn law_easing_names(s: Seq<char>)
    ensures
        easing_folds_to(s, "linear"@) ==> easing_named(s) == EasingCurve::Linear,
        easing_folds_to(s, "ease-out-cubic"@) ==> easing_named(s) == EasingCurve::EaseOutCubic,
        easing_folds_to(s, "easeoutcubic"@) ==> easing_named(s) == EasingCurve::EaseOutCubic,
        easing_folds_to(s, "ease-out-expo"@) ==> easing_named(s) == EasingCurve::EaseOutExpo,
        easing_folds_to(s, "easeoutexpo"@) ==> easing_named(s) == EasingCurve::EaseOutExpo,
        easing_folds_to(s, "ease-in-out-quad"@) ==> easing_named(s) == EasingCurve::EaseInOutQuad,
        easing_folds_to(s, "easeinoutquad"@) ==> easing_named(s) == EasingCurve::EaseInOutQuad,
        !easing_folds_to(s, "ease-out-cubic"@) && !easing_folds_to(s, "easeoutcubic"@) && !easing_folds_to(
            s,
            "ease-out-expo"@,
        ) && !easing_folds_to(s, "easeoutexpo"@) && !easing_folds_to(s, "ease-in-out-quad"@)
            && !easing_folds_to(s, "easeinoutquad"@) ==> easing_named(s) == EasingCurve::Linear,
        easing_named(lowercase_chars(s)) == easing_named(s),
{
    reveal_strlit("linear");
    reveal_strlit("ease-out-cubic");
    reveal_strlit("easeoutcubic");
    reveal_strlit("ease-out-expo");
    reveal_strlit("easeoutexpo");
    reveal_strlit("ease-in-out-quad");
    reveal_strlit("easeinoutquad");
    lemma_easing_folds_to_ignores_case(s, "linear"@);
    lemma_easing_folds_to_ignores_case(s, "ease-out-cubic"@);
    lemma_easing_folds_to_ignores_case(s, "easeoutcubic"@);
    lemma_easing_folds_to_ignores_case(s, "ease-out-expo"@);
    lemma_easing_folds_to_ignores_case(s, "easeoutexpo"@);
    lemma_easing_folds_to_ignores_case(s, "ease-in-out-quad"@);
    lemma_easing_folds_to_ignores_case(s, "easeinoutquad"@);
    if easing_folds_to(s, "ease-out-expo"@) && easing_folds_to(s, "easeinoutquad"@) {
        lemma_easing_folds_to_one_word(s, "ease-out-expo"@, "easeinoutquad"@);
        assert("ease-out-expo"@[4] != "easeinoutquad"@[4]);
    }
}

fn chars_easing_fold_to(s: &Vec<char>, word: &str) -> (res: bool)
    ensures
        res == easing_folds_to(s@, word@),
{
    let w = chars_of(word);
    if s.len() != w.len() {
        return false;
    }
    let mut i: usize = 0;
    while i < s.len()
        invariant
            w@ == word@,
            s@.len() == w@.len(),
            i <= s@.len(),
            forall|j: int| 0 <= j < i ==> #[trigger] easing_char_folds_to(s@[j], w@[j]),
        decreases s@.len() - i,
    {
        let c = s[i];
        let d = w[i];
        let ok = if c == '_' {
            d == '-'
        } else if 'A' <= c && c <= 'Z' {
            (c as u32) + 32 == (d as u32)
        } else {
            c == d
        };
        if !ok {
            assert(!easing_char_folds_to(s@[i as int], w@[i as int]));
            return false;
        }
        i = i + 1;
    }
    true
}

impl EasingCurve {
    /// Parses an easing curve from a configuration string, ignoring case and
    /// reading `_` as `-`: `"linear"`, `"ease-out-cubic"`, `"ease-out-expo"`,
    /// `"ease-in-out-quad"` (or the same without dashes); anything else is
    /// linear.
    pub fn from_str(s: &str) -> (res: Self)
        ensures
            res == easing_named(s@),
    {
        let c = chars_of(s);
        if chars_easing_fold_to(&c, "linear") {
            EasingCurve::Linear
        } else if chars_easing_fold_to(&c, "ease-out-cubic") || chars_easing_fold_to(
            &c,
            "easeoutcubic",
        ) {
            EasingCurve::EaseOutCubic
        } else if chars_easing_fold_to(&c, "ease-out-expo") || chars_easing_fold_to(
            &c,
            "easeoutexpo",
        ) {
            EasingCurve::EaseOutExpo
        } else if chars_easing_fold_to(&c, "ease-in-out-quad") || chars_easing_fold_to(
            &c,
            "easeinoutquad",
        ) {
            EasingCurve::EaseInOutQuad
        } else {
            EasingCurve::Linear
        }
    }
}

/// Properties that can be animated on a window or visual element.
#[derive(Debug, Clone, Copy, PartialEq, Eq, Structural)]
pub enum AnimatedProperty {
    Opacity,
    Scale,
    PositionX,
    PositionY,
    Width,
    Height,
}

/// A single animation of one property from a start value to a target
/// value over a duration, shaped by an easing curve.
#[derive(Debug, Clone, Copy, PartialEq, Eq, Structural)]
pub struct Animation {
    pub property: AnimatedProperty,
    /// Bit pattern of the `f64` start value.
    pub start_value_bits: u64,
    /// Bit pattern of the `f64` target value.
    pub target_value_bits: u64,
    /// When the animation started, in nanoseconds.
    pub start_time_nanos: u128,
    /// How long the animation runs, in nanoseconds.
    pub duration_nanos: u128,
    pub easing: EasingCurve,
}

/// The time elapsed from `start` to `now`, zero when `now` is earlier.
pub open spec fn elapsed(start: u128, now: u128) -> int {
    if now >= start {
        now - start
    } else {
        0
    }
}

/// The animation has run its whole duration at time `now`.
pub open spec fn finished_at(a: Animation, now: u128) -> bool {
    elapsed(a.start_time_nanos, now) >= a.duration_nanos
}

impl Animation {
    /// A new animation starting at `start_time_nanos`.
    pub fn new(
        property: AnimatedProperty,
        start_value_bits: u64,
        target_value_bits: u64,
        duration_nanos: u128,
        easing: EasingCurve,
        start_time_nanos: u128,
    ) -> (res: Self)
        ensures
            res == (Animation {
                property,
                start_value_bits,
                target_value_bits,
                start_time_nanos,
                duration_nanos,
                easing,
            }),
    {
        Animation {
            property,
            start_value_bits,
            target_value_bits,
            start_time_nanos,
            duration_nanos,
            easing,
        }
    }

    /// Whether the animation has reached or passed its end at time `now`.
    pub fn is_finished(&self, now_nanos: u128) -> (res: bool)
        ensures
            res == finished_at(*self, now_nanos),
    {
        let elapsed = if now_nanos >= self.start_time_nanos {
            now_nanos - self.start_time_nanos
        } else {
            0
        };
        elapsed >= self.duration_nanos
    }
}

/// Holds of the animations still running at `now`.
pub open spec fn running_at(now: u128) -> spec_fn(Animation) -> bool {
    |a: Animation| !finished_at(a, now)
}

/// The index of the most recently added animation of `property`.
pub open spec fn latest_index(s: Seq<Animation>, property: AnimatedProperty) -> Option<int>
    decreases s.len(),
{
    if s.len() == 0 {
        None
    } else if s.last().property == property {
        Some(s.len() - 1)
    } else {
        latest_index(s.drop_last(), property)
    }
}

/// The most recently added animation of `property`.
pub open spec fn latest_for(s: Seq<Animation>, property: AnimatedProperty) -> Option<Animation> {
    match latest_index(s, property) {
        Some(i) => Some(s[i]),
        None => None,
    }
}

/// The animations running on one entity, oldest first.
#[derive(Debug, Clone)]
pub struct AnimationState {
    animations: Vec<Animation>,
}

impl View for AnimationState {
    type V = Seq<Animation>;

    closed spec fn view(&self) -> Seq<Animation> {
        self.animations@
    }
}

impl AnimationState {
    /// No animations.
    pub fn new() -> (res: Self)
        ensures
            res@ == Seq::<Animation>::empty(),
    {
        AnimationState { animations: Vec::new() }
    }

    /// Adds an animation.
    pub fn add(&mut self, anim: Animation)
        ensures
            final(self)@ == old(self)@.push(anim),
    {
        self.animations.push(anim);
    }

    /// Drops every animation finished at `now`, keeping the others in order.
    pub fn update(&mut self, now_nanos: u128)
        ensures
            final(self)@ == old(self)@.filter(running_at(now_nanos)),
    {
        let ghost s = self.animations@;
        let mut kept: Vec<Animation> = Vec::new();
        let mut i: usize = 0;
        while i < self.animations.len()
            invariant
                self.animations@ == s,
                i <= s.len(),
                kept@ == s.take(i as int).filter(running_at(now_nanos)),
            decreases s.len() - i,
        {
            proof {
                reveal_with_fuel(Seq::<_>::filter, 1);
                assert(s.take(i + 1).drop_last() =~= s.take(i as int));
            }
            let a = self.animations[i];
            if !a.is_finished(now_nanos) {
                kept.push(a);
            }
            i = i + 1;
        }
        proof {
            assert(s.take(s.len() as int) =~= s);
        }
        self.animations = kept;
    }

    /// The animation that determines the value of `property`: the most
    /// recently added one animating it, if any.
    pub fn animation_for(&self, property: AnimatedProperty) -> (res: Option<&Animation>)
        ensures
            match res {
                Some(a) => latest_for(self@, property) == Some(*a),
                None => latest_for(self@, property) is None,
            },
    {
        let mut i = self.animations.len();
        proof {
            assert(self.animations@.take(i as int) =~= self.animations@);
        }
        while i > 0
            invariant
                i <= self.animations@.len(),
                latest_index(self.animations@, property) == latest_index(
                    self.animations@.take(i as int),
                    property,
                ),
            decreases i,
        {
            proof {
                assert(self.animations@.take(i as int).drop_last() =~= self.animations@.take(
                    i - 1,
                ));
            }
            if self.animations[i - 1].property == property {
                return Some(&self.animations[i - 1]);
            }
            i = i - 1;
        }
        None
    }

    /// Whether any animation is held.
    pub fn is_animating(&self) -> (res: bool)
        ensures
            res == (self@.len() > 0),
    {
        self.animations.len() != 0
    }
}

/// An animation is finished once its whole duration has elapsed since its
/// start, and stays finished; before its start no time has elapsed, so
/// only an animation of zero duration is finished then.
pub proof fn law_finished_after_duration(a: Animation, now: u128, later: u128)
    ensures
        now >= a.start_time_nanos ==> (finished_at(a, now) <==> now - a.start_time_nanos >= a.duration_nanos),
        now < a.start_time_nanos ==> (finished_at(a, now) <==> a.duration_nanos == 0),
        finished_at(a, now) && now <= later ==> finished_at(a, later),
{
}

/// Updating keeps exactly the animations still running, in their order:
/// an animation is kept when it is not finished, and on a list with one
/// more animation at the end, the result is that of the shorter list with
/// the last animation kept at the end unless it is finished.
pub proof fn law_update_keeps_running(s: Seq<Animation>, now: u128, x: Animation)
    ensures
        forall|a: Animation|
            #![trigger s.filter(running_at(now)).contains(a)]
            s.filter(running_at(now)).contains(a) <==> (s.contains(a) && !finished_at(a, now)),
        s.push(x).filter(running_at(now)) == if finished_at(x, now) {
            s.filter(running_at(now))
        } else {
            s.filter(running_at(now)).push(x)
        },
{
    broadcast use vstd::seq_lib::group_filter_ensures;

    reveal_with_fuel(Seq::<_>::filter, 1);
    assert(s.push(x).drop_last() =~= s);
    let f = s.filter(running_at(now));
    assert forall|a: Animation| #![trigger f.contains(a)] f.contains(a) <==> (s.contains(a) && !finished_at(
        a,
        now,
    )) by {
        if f.contains(a) {
            s.lemma_filter_contains_rev(running_at(now), a);
            let k = choose|k: int| 0 <= k < f.len() && f[k] == a;
            s.lemma_filter_pred(running_at(now), k);
        }
        if s.contains(a) && !finished_at(a, now) {
            let k = choose|k: int| 0 <= k < s.len() && s[k] == a;
            s.lemma_filter_contains(running_at(now), k);
        }
    }
}

/// The animation added last for a property is the one that determines its
/// value, whatever was added before.
pub proof fn law_last_added_wins(s: Seq<Animation>, anim: Animation)
    ensures
        latest_for(s.push(anim), anim.property) == Some(anim),
{
    assert(s.push(anim).last() == anim);
}

/// Adding an animation of one property leaves the animation that
/// determines any other property unchanged.
pub proof fn law_add_leaves_other_properties(s: Seq<Animation>, anim: Animation, p: AnimatedProperty)
    requires
        p != anim.property,
    ensures
        latest_for(s.push(anim), p) == latest_for(s, p),
{
    let t = s.push(anim);
    assert(t.drop_last() =~= s);
    assert(latest_index(t, p) == latest_index(s, p));
    lemma_latest_index(s, p);
    if let Some(i) = latest_index(s, p) {
        assert(t[i] == s[i]);
    }
}

proof fn lemma_latest_index(s: Seq<Animation>, p: AnimatedProperty)
    ensures
        latest_index(s, p) matches Some(i) ==> 0 <= i < s.len() && s[i].property == p,
    decreases s.len(),
{
    if s.len() > 0 {
        lemma_latest_index(s.drop_last(), p);
    }
}

} // verus!
