//! The easing curves offered to every effect, and how they are named.

use vstd::prelude::*;

verus! {

/// Easing function used by the juice effects.
#[derive(Clone, Copy, Debug, PartialEq, Eq, Structural)]
pub enum EasingFunction {
    Linear,
    EaseInQuad,
    EaseOutQuad,
    EaseInOutQuad,
    EaseInCubic,
    EaseOutCubic,
    EaseInOutCubic,
    EaseInElastic,
    EaseOutElastic,
    EaseInOutElastic,
    EaseInBack,
    EaseOutBack,
    EaseInOutBack,
    EaseInBounce,
    EaseOutBounce,
    EaseInOutBounce,
    EaseInSine,
    EaseOutSine,
    EaseInOutSine,
    EaseInExpo,
    EaseOutExpo,
    EaseInOutExpo,
}

/// Every easing function, in declaration order.
pub open spec fn all_easings() -> Seq<EasingFunction> {
    seq![
        EasingFunction::Linear,
        EasingFunction::EaseInQuad,
        EasingFunction::EaseOutQuad,
        EasingFunction::EaseInOutQuad,
        EasingFunction::EaseInCubic,
        EasingFunction::EaseOutCubic,
        EasingFunction::EaseInOutCubic,
        EasingFunction::EaseInElastic,
        EasingFunction::EaseOutElastic,
        EasingFunction::EaseInOutElastic,
        EasingFunction::EaseInBack,
        EasingFunction::EaseOutBack,
        EasingFunction::EaseInOutBack,
        EasingFunction::EaseInBounce,
        EasingFunction::EaseOutBounce,
        EasingFunction::EaseInOutBounce,
        EasingFunction::EaseInSine,
        EasingFunction::EaseOutSine,
        EasingFunction::EaseInOutSine,
        EasingFunction::EaseInExpo,
        EasingFunction::EaseOutExpo,
        EasingFunction::EaseInOutExpo,
    ]
}

/// Position of a variant in declaration order.
pub open spec fn ordinal(f: EasingFunction) -> int {
    match f {
        EasingFunction::Linear => 0,
        EasingFunction::EaseInQuad => 1,
        EasingFunction::EaseOutQuad => 2,
        EasingFunction::EaseInOutQuad => 3,
        EasingFunction::EaseInCubic => 4,
        EasingFunction::EaseOutCubic => 5,
        EasingFunction::EaseInOutCubic => 6,
        EasingFunction::EaseInElastic => 7,
        EasingFunction::EaseOutElastic => 8,
        EasingFunction::EaseInOutElastic => 9,
        EasingFunction::EaseInBack => 10,
        EasingFunction::EaseOutBack => 11,
        EasingFunction::EaseInOutBack => 12,
        EasingFunction::EaseInBounce => 13,
        EasingFunction::EaseOutBounce => 14,
        EasingFunction::EaseInOutBounce => 15,
        EasingFunction::EaseInSine => 16,
        EasingFunction::EaseOutSine => 17,
        EasingFunction::EaseInOutSine => 18,
        EasingFunction::EaseInExpo => 19,
        EasingFunction::EaseOutExpo => 20,
        EasingFunction::EaseInOutExpo => 21,
    }
}

impl EasingFunction {
    /// All 22 easing functions in canonical (declaration) order.
    pub fn all() -> (r: [EasingFunction; 22])
        ensures
            r@ == all_easings(),
    {
        let r = [
            EasingFunction::Linear,
            EasingFunction::EaseInQuad,
            EasingFunction::EaseOutQuad,
            EasingFunction::EaseInOutQuad,
            EasingFunction::EaseInCubic,
            EasingFunction::EaseOutCubic,
            EasingFunction::EaseInOutCubic,
            EasingFunction::EaseInElastic,
            EasingFunction::EaseOutElastic,
            EasingFunction::EaseInOutElastic,
            EasingFunction::EaseInBack,
            EasingFunction::EaseOutBack,
            EasingFunction::EaseInOutBack,
            EasingFunction::EaseInBounce,
            EasingFunction::EaseOutBounce,
            EasingFunction::EaseInOutBounce,
            EasingFunction::EaseInSine,
            EasingFunction::EaseOutSine,
            EasingFunction::EaseInOutSine,
            EasingFunction::EaseInExpo,
            EasingFunction::EaseOutExpo,
            EasingFunction::EaseInOutExpo,
        ];
        assert(r@ =~= all_easings());
        r
    }
}

/// The PascalCase name of a variant (its Rust name, as preset files write it).
pub open spec fn pascal_name(f: EasingFunction) -> Seq<char> {
    match f {
        EasingFunction::Linear => "Linear"@,
        EasingFunction::EaseInQuad => "EaseInQuad"@,
        EasingFunction::EaseOutQuad => "EaseOutQuad"@,
        EasingFunction::EaseInOutQuad => "EaseInOutQuad"@,
        EasingFunction::EaseInCubic => "EaseInCubic"@,
        EasingFunction::EaseOutCubic => "EaseOutCubic"@,
        EasingFunction::EaseInOutCubic => "EaseInOutCubic"@,
        EasingFunction::EaseInElastic => "EaseInElastic"@,
        EasingFunction::EaseOutElastic => "EaseOutElastic"@,
        EasingFunction::EaseInOutElastic => "EaseInOutElastic"@,
        EasingFunction::EaseInBack => "EaseInBack"@,
        EasingFunction::EaseOutBack => "EaseOutBack"@,
        EasingFunction::EaseInOutBack => "EaseInOutBack"@,
        EasingFunction::EaseInBounce => "EaseInBounce"@,
        EasingFunction::EaseOutBounce => "EaseOutBounce"@,
        EasingFunction::EaseInOutBounce => "EaseInOutBounce"@,
        EasingFunction::EaseInSine => "EaseInSine"@,
        EasingFunction::EaseOutSine => "EaseOutSine"@,
        EasingFunction::EaseInOutSine => "EaseInOutSine"@,
        EasingFunction::EaseInExpo => "EaseInExpo"@,
        EasingFunction::EaseOutExpo => "EaseOutExpo"@,
        EasingFunction::EaseInOutExpo => "EaseInOutExpo"@,
    }
}

/// The kebab-case name of a variant (friendlier for hand-edited config).
pub open spec fn kebab_name(f: EasingFunction) -> Seq<char> {
    match f {
        EasingFunction::Linear => "linear"@,
        EasingFunction::EaseInQuad => "ease-in-quad"@,
        EasingFunction::EaseOutQuad => "ease-out-quad"@,
        EasingFunction::EaseInOutQuad => "ease-in-out-quad"@,
        EasingFunction::EaseInCubic => "ease-in-cubic"@,
        EasingFunction::EaseOutCubic => "ease-out-cubic"@,
        EasingFunction::EaseInOutCubic => "ease-in-out-cubic"@,
        EasingFunction::EaseInElastic => "ease-in-elastic"@,
        EasingFunction::EaseOutElastic => "ease-out-elastic"@,
        EasingFunction::EaseInOutElastic => "ease-in-out-elastic"@,
        EasingFunction::EaseInBack => "ease-in-back"@,
        EasingFunction::EaseOutBack => "ease-out-back"@,
        EasingFunction::EaseInOutBack => "ease-in-out-back"@,
        EasingFunction::EaseInBounce => "ease-in-bounce"@,
        EasingFunction::EaseOutBounce => "ease-out-bounce"@,
        EasingFunction::EaseInOutBounce => "ease-in-out-bounce"@,
        EasingFunction::EaseInSine => "ease-in-sine"@,
        EasingFunction::EaseOutSine => "ease-out-sine"@,
        EasingFunction::EaseInOutSine => "ease-in-out-sine"@,
        EasingFunction::EaseInExpo => "ease-in-expo"@,
        EasingFunction::EaseOutExpo => "ease-out-expo"@,
        EasingFunction::EaseInOutExpo => "ease-in-out-expo"@,
    }
}

/// `s` is one of the two accepted names of `f`.
pub open spec fn is_name_of(f: EasingFunction, s: Seq<char>) -> bool {
    s == pascal_name(f) || s == kebab_name(f)
}

/// Character-wise equality of two string slices.
fn same_chars(a: &str, b: &str) -> (r: bool)
    ensures
        r == (a@ == b@),
{
    let n = a.unicode_len();
    if n != b.unicode_len() {
        return false;
    }
    let mut i: usize = 0;
    while i < n
        invariant
            n == a@.len(),
            n == b@.len(),
            i <= n,
            forall|j: int| 0 <= j < i ==> a@[j] == b@[j],
        decreases n - i,
    {
        if a.get_char(i) != b.get_char(i) {
            return false;
        }
        i = i + 1;
    }
    assert(a@ =~= b@);
    true
}

/// `name` is `pascal` or `kebab`.
fn name_is(name: &str, pascal: &str, kebab: &str) -> (r: bool)
    ensures
        r == (name@ == pascal@ || name@ == kebab@),
{
    same_chars(name, pascal) || same_chars(name, kebab)
}

impl EasingFunction {
    /// Parse from a PascalCase or kebab-case name.
    ///
    /// Accepts both `"EaseOutElastic"` and `"ease-out-elastic"`; returns `None`
    /// for unknown names.
    pub fn from_str(name: &str) -> (r: Option<EasingFunction>)
        ensures
            forall|f: EasingFunction| #[trigger] is_name_of(f, name@) <==> r == Some(f),
            r is None <==> forall|f: EasingFunction| !is_name_of(f, name@),
    {
        let r = lookup_name(name);
        proof {
            if let Some(g) = r {
                assert forall|f: EasingFunction| #[trigger] is_name_of(f, name@) implies f == g by {
                    lemma_name_identifies_variant(f, g, name@);
                }
            }
        }
        r
    }
}

/// First variant, in declaration order, of which `name` is a name.
fn lookup_name(name: &str) -> (r: Option<EasingFunction>)
    ensures
        match r {
            Some(f) => is_name_of(f, name@),
            None => forall|f: EasingFunction| !is_name_of(f, name@),
        },
{
    if name_is(name, "Linear", "linear") {
        return Some(EasingFunction::Linear);
    }
    if name_is(name, "EaseInQuad", "ease-in-quad") {
        return Some(EasingFunction::EaseInQuad);
    }
    if name_is(name, "EaseOutQuad", "ease-out-quad") {
        return Some(EasingFunction::EaseOutQuad);
    }
    if name_is(name, "EaseInOutQuad", "ease-in-out-quad") {
        return Some(EasingFunction::EaseInOutQuad);
    }
    if name_is(name, "EaseInCubic", "ease-in-cubic") {
        return Some(EasingFunction::EaseInCubic);
    }
    if name_is(name, "EaseOutCubic", "ease-out-cubic") {
        return Some(EasingFunction::EaseOutCubic);
    }
    if name_is(name, "EaseInOutCubic", "ease-in-out-cubic") {
        return Some(EasingFunction::EaseInOutCubic);
    }
    if name_is(name, "EaseInElastic", "ease-in-elastic") {
        return Some(EasingFunction::EaseInElastic);
    }
    if name_is(name, "EaseOutElastic", "ease-out-elastic") {
        return Some(EasingFunction::EaseOutElastic);
    }
    if name_is(name, "EaseInOutElastic", "ease-in-out-elastic") {
        return Some(EasingFunction::EaseInOutElastic);
    }
    if name_is(name, "EaseInBack", "ease-in-back") {
        return Some(EasingFunction::EaseInBack);
    }
    if name_is(name, "EaseOutBack", "ease-out-back") {
        return Some(EasingFunction::EaseOutBack);
    }
    if name_is(name, "EaseInOutBack", "ease-in-out-back") {
        return Some(EasingFunction::EaseInOutBack);
    }
    if name_is(name, "EaseInBounce", "ease-in-bounce") {
        return Some(EasingFunction::EaseInBounce);
    }
    if name_is(name, "EaseOutBounce", "ease-out-bounce") {
        return Some(EasingFunction::EaseOutBounce);
    }
    if name_is(name, "EaseInOutBounce", "ease-in-out-bounce") {
        return Some(EasingFunction::EaseInOutBounce);
    }
    if name_is(name, "EaseInSine", "ease-in-sine") {
        return Some(EasingFunction::EaseInSine);
    }
    if name_is(name, "EaseOutSine", "ease-out-sine") {
        return Some(EasingFunction::EaseOutSine);
    }
    if name_is(name, "EaseInOutSine", "ease-in-out-sine") {
        return Some(EasingFunction::EaseInOutSine);
    }
    if name_is(name, "EaseInExpo", "ease-in-expo") {
        return Some(EasingFunction::EaseInExpo);
    }
    if name_is(name, "EaseOutExpo", "ease-out-expo") {
        return Some(EasingFunction::EaseOutExpo);
    }
    if name_is(name, "EaseInOutExpo", "ease-in-out-expo") {
        return Some(EasingFunction::EaseInOutExpo);
    }
    None
}

/// The default easing is `Linear`.
impl Default for EasingFunction {
    fn default() -> (r: EasingFunction)
        ensures
            r == EasingFunction::Linear,
    {
        EasingFunction::Linear
    }
}

/// `all` lists every variant exactly once: it holds 22 entries, every variant
/// is among them, and no two positions hold the same variant.
pub proof fn lemma_all_lists_every_variant_once(f: EasingFunction)
    ensures
        all_easings().len() == 22,
        all_easings()[ordinal(f)] == f,
        all_easings().contains(f),
        forall|i: int, j: int|
            0 <= i < j < 22 ==> #[trigger] all_easings()[i] != #[trigger] all_easings()[j],
{
    assert forall|i: int| 0 <= i < 22 implies ordinal(#[trigger] all_easings()[i]) == i by {}
    assert(0 <= ordinal(f) < 22);
}

/// No two variants share a name: a name identifies its variant.
pub proof fn lemma_name_identifies_variant(f: EasingFunction, g: EasingFunction, s: Seq<char>)
    requires
        is_name_of(f, s),
        is_name_of(g, s),
    ensures
        f == g,
{
    // Naming every character position lets the solver tell the literals
    // apart position by position once their contents are revealed.
    let _c0: char = s[0];
    let _c1: char = s[1];
    let _c2: char = s[2];
    let _c3: char = s[3];
    let _c4: char = s[4];
    let _c5: char = s[5];
    let _c6: char = s[6];
    let _c7: char = s[7];
    let _c8: char = s[8];
    let _c9: char = s[9];
    let _c10: char = s[10];
    let _c11: char = s[11];
    let _c12: char = s[12];
    let _c13: char = s[13];
    let _c14: char = s[14];
    let _c15: char = s[15];
    let _c16: char = s[16];
    let _c17: char = s[17];
    let _c18: char = s[18];
    reveal_strlit("Linear");
    reveal_strlit("linear");
    reveal_strlit("EaseInQuad");
    reveal_strlit("ease-in-quad");
    reveal_strlit("EaseOutQuad");
    reveal_strlit("ease-out-quad");
    reveal_strlit("EaseInOutQuad");
    reveal_strlit("ease-in-out-quad");
    reveal_strlit("EaseInCubic");
    reveal_strlit("ease-in-cubic");
    reveal_strlit("EaseOutCubic");
    reveal_strlit("ease-out-cubic");
    reveal_strlit("EaseInOutCubic");
    reveal_strlit("ease-in-out-cubic");
    reveal_strlit("EaseInElastic");
    reveal_strlit("ease-in-elastic");
    reveal_strlit("EaseOutElastic");
    reveal_strlit("ease-out-elastic");
    reveal_strlit("EaseInOutElastic");
    reveal_strlit("ease-in-out-elastic");
    reveal_strlit("EaseInBack");
    reveal_strlit("ease-in-back");
    reveal_strlit("EaseOutBack");
    reveal_strlit("ease-out-back");
    reveal_strlit("EaseInOutBack");
    reveal_strlit("ease-in-out-back");
    reveal_strlit("EaseInBounce");
    reveal_strlit("ease-in-bounce");
    reveal_strlit("EaseOutBounce");
    reveal_strlit("ease-out-bounce");
    reveal_strlit("EaseInOutBounce");
    reveal_strlit("ease-in-out-bounce");
    reveal_strlit("EaseInSine");
    reveal_strlit("ease-in-sine");
    reveal_strlit("EaseOutSine");
    reveal_strlit("ease-out-sine");
    reveal_strlit("EaseInOutSine");
    reveal_strlit("ease-in-out-sine");
    reveal_strlit("EaseInExpo");
    reveal_strlit("ease-in-expo");
    reveal_strlit("EaseOutExpo");
    reveal_strlit("ease-out-expo");
    reveal_strlit("EaseInOutExpo");
    reveal_strlit("ease-in-out-expo");
}

} // verus!
