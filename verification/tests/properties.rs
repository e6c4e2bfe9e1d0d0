use pseudolocalize::crop_string;
use pseudolocalize::diacriticize;
use pseudolocalize::transform_str;
use pseudolocalize::CharTransform;
use pseudolocalize::Pseudolocalizer;
use pseudolocalize::PseudolocalizerBuilder;

#[test]
fn mapping_is_constant_across_calls() {
    for c in ('A'..='Z').chain('a'..='z') {
        assert_eq!(diacriticize(c), diacriticize(c));
    }
    assert_eq!(diacriticize('a'), 'ά');
    assert_eq!(diacriticize('T'), 'Ŧ');
    assert_eq!(diacriticize('z'), 'ẓ');
}

#[test]
fn unmapped_characters_pass_through() {
    for c in ['0', '7', '9', '.', ',', '!', '-', ' ', '\'', 'é', 'ü', 'œ', 'ω', 'δ', '🤗', '»'] {
        assert_eq!(diacriticize(c), c);
    }
}

#[test]
fn transform_preserves_character_count() {
    for s in ["", "abc", "Voix ambiguë d'un cœur 🤗", "δάñƨ ℓ'âƭřè", "1234 !?"] {
        assert_eq!(transform_str(s).chars().count(), s.chars().count());
    }
}

#[test]
fn default_transform_of_pangram() {
    let s = Pseudolocalizer::new().transform("The quick brown fox jumps over the lazy dog");
    assert_eq!(s, "[!!! Ŧℏë ʠûíçķ ƃŕøẅñ ƒøẍ ĵûɱƥŝ øṽëŕ țℏë łάẓƴ ďøǧ !!!]");
}

#[test]
fn expand_exact_percentages() {
    assert_eq!(crop_string(10, "abcde", 100), "abcdeabcde");
    assert_eq!(crop_string(10, "abcde", 50), "abcde");
    assert_eq!(crop_string(10, "abcde", 0), "");
    assert_eq!(crop_string(4, "ab", 250), "ababababab");
}

#[test]
fn expand_with_empty_filler_returns_empty() {
    assert_eq!(crop_string(10, "", 50), "");
    assert_eq!(crop_string(1000, "", 300), "");
}

#[test]
fn transform_with_empty_filler_does_not_hang() {
    let pl = Pseudolocalizer::new()
        .with_increase_percentage(80)
        .with_extension_string("");
    assert_eq!(pl.transform("abc"), "[!!! άƃç !!!]");
}

#[test]
fn transform_is_deterministic() {
    let pl = Pseudolocalizer::new()
        .with_prefix("<< ")
        .with_suffix(" >>")
        .with_increase_percentage(40);
    let first = pl.transform("Portez ce vieux whisky au juge blond qui fume.");
    let second = pl.transform("Portez ce vieux whisky au juge blond qui fume.");
    assert_eq!(first, second);
}

#[test]
fn builder_and_fluent_styles_agree() {
    let built = PseudolocalizerBuilder::new()
        .with_prefix("( ")
        .with_suffix(" )")
        .with_increase_percentage(60)
        .with_extension_string("xyz")
        .build();
    let fluent = Pseudolocalizer::new()
        .with_prefix("( ")
        .with_suffix(" )")
        .with_increase_percentage(60)
        .with_extension_string("xyz");
    let input = "Jugez que ce texte bref vaut mieux qu'un long discours.";
    assert_eq!(built.transform(input), fluent.transform(input));
}

#[test]
fn builder_defaults_match_fluent_defaults() {
    let built = PseudolocalizerBuilder::new().build();
    let fluent = Pseudolocalizer::new();
    assert_eq!(built.transform("kiwi"), fluent.transform("kiwi"));
}

#[test]
fn identity_transform_keeps_letters() {
    let pl = Pseudolocalizer::new().with_transform_function(CharTransform::Identity);
    assert_eq!(pl.transform("plain text"), "[!!! plain text !!!]");
}

#[test]
fn affix_getters_report_configuration() {
    let pl = Pseudolocalizer::new();
    assert_eq!(pl.prefix(), "[!!! ");
    assert_eq!(pl.suffix(), " !!!]");
    assert!(matches!(*pl.transform_function(), CharTransform::Diacritics));
    let pl = pl.with_prefix("« ").with_suffix(" »");
    assert_eq!(pl.prefix(), "« ");
    assert_eq!(pl.suffix(), " »");
    let pl = pl.with_transform_function(CharTransform::Identity);
    assert!(matches!(*pl.transform_function(), CharTransform::Identity));
}
