use juice::EasingFunction;

#[test]
fn all_returns_every_variant_exactly_once() {
    let all = EasingFunction::all();
    assert_eq!(all.len(), 22);
    for (i, a) in all.iter().enumerate() {
        for b in &all[i + 1..] {
            assert!(a != b, "duplicate variant in EasingFunction::all(): {a:?}");
        }
    }
}

#[test]
fn from_str_roundtrips_for_every_variant() {
    for f in EasingFunction::all() {
        let name = format!("{f:?}");
        assert_eq!(
            EasingFunction::from_str(&name),
            Some(f),
            "round-trip failed for {f:?} via PascalCase name `{name}`",
        );
    }
    assert_eq!(
        EasingFunction::from_str("ease-out-elastic"),
        Some(EasingFunction::EaseOutElastic)
    );
    assert_eq!(EasingFunction::from_str("not-a-real-easing"), None);
}

#[test]
fn all_is_in_declaration_order() {
    let all = EasingFunction::all();
    assert_eq!(all[0], EasingFunction::Linear);
    assert_eq!(all[1], EasingFunction::EaseInQuad);
    assert_eq!(all[9], EasingFunction::EaseInOutElastic);
    assert_eq!(all[14], EasingFunction::EaseOutBounce);
    assert_eq!(all[21], EasingFunction::EaseInOutExpo);
}

#[test]
fn from_str_accepts_every_kebab_name() {
    let kebab = [
        "linear",
        "ease-in-quad",
        "ease-out-quad",
        "ease-in-out-quad",
        "ease-in-cubic",
        "ease-out-cubic",
        "ease-in-out-cubic",
        "ease-in-elastic",
        "ease-out-elastic",
        "ease-in-out-elastic",
        "ease-in-back",
        "ease-out-back",
        "ease-in-out-back",
        "ease-in-bounce",
        "ease-out-bounce",
        "ease-in-out-bounce",
        "ease-in-sine",
        "ease-out-sine",
        "ease-in-out-sine",
        "ease-in-expo",
        "ease-out-expo",
        "ease-in-out-expo",
    ];
    let all = EasingFunction::all();
    for (name, f) in kebab.iter().zip(all.iter()) {
        assert_eq!(EasingFunction::from_str(name), Some(*f), "kebab name `{name}`");
    }
}

#[test]
fn from_str_rejects_near_misses() {
    assert_eq!(EasingFunction::from_str(""), None);
    assert_eq!(EasingFunction::from_str("Linea"), None);
    assert_eq!(EasingFunction::from_str("LinearX"), None);
    assert_eq!(EasingFunction::from_str("LINEAR"), None);
    assert_eq!(EasingFunction::from_str("easeOutQuad"), None);
    assert_eq!(EasingFunction::from_str("ease_out_quad"), None);
    assert_eq!(EasingFunction::from_str("Ease-Out-Quad"), None);
    assert_eq!(EasingFunction::from_str(" linear"), None);
}

#[test]
fn default_easing_is_linear() {
    assert_eq!(EasingFunction::default(), EasingFunction::Linear);
}
