use pseudolocalize::Pseudolocalizer;

#[test]
fn default_pseudolocalizer() {
    let pl = Pseudolocalizer::new();
    let s = pl.transform("Voix ambiguë d'un cœur qui, au zéphyr, préfère les jattes de kiwi.");
    assert_eq!(s, "[!!! Ṿøíẍ άɱƃíǧûë ď'ûñ çœûŕ ʠûí, άû ẓéƥℏƴŕ, ƥŕéƒèŕë łëŝ ĵάțțëŝ ďë ķíẅí. !!!]");
}

#[test]
fn extension_string_100() {
    let pl = Pseudolocalizer::new().with_increase_percentage(100);
    let s = pl.transform("Là où il eût été.");
    assert_eq!(s, "[!!! Ŀà øù íł ëûț éțé. Þôřƭèƺ çè Ʋïèúж  !!!]");
}

#[test]
fn custom_extension_string() {
    let s = Pseudolocalizer::new()
                .with_increase_percentage(75)
                .with_extension_string("Lôrép§_Ïpsùm")
                .transform("Bâchez la queue du wagon-taxi avec les pyjamas du fakir.");
    assert_eq!(s, "[!!! ßâçℏëẓ łά ʠûëûë ďû ẅάǧøñ-țάẍí άṽëç łëŝ ƥƴĵάɱάŝ ďû ƒάķíŕ.Lôrép§_ÏpsùmLôrép§_ÏpsùmLôrép§_ÏpsùmLôrép§ !!!]");
}

#[test]
fn change_affixes() {
    let pl = Pseudolocalizer::new()
        .with_prefix("<< ")
        .with_suffix(" »");
    let s = pl.transform("Voyez le brick géant que j'examine près du wharf.");
    assert_eq!(s, "<< Ṿøƴëẓ łë ƃŕíçķ ǧéάñț ʠûë ĵ'ëẍάɱíñë ƥŕèŝ ďû ẅℏάŕƒ. »");
}

#[test]
fn no_affixes() {
    let s = Pseudolocalizer::new()
        .with_prefix("")
        .with_suffix("")
        .transform("J'ouvre quinze woks de gypse aux méchants bas-de-plafond.");
    assert_eq!(s, "Ĵ'øûṽŕë ʠûíñẓë ẅøķŝ ďë ǧƴƥŝë άûẍ ɱéçℏάñțŝ ƃάŝ-ďë-ƥłάƒøñď.");
}

#[test]
fn most_options() {
    let pl = Pseudolocalizer::new()
                .with_prefix("« ")
                .with_suffix(" »")
                .with_increase_percentage(30)
                .with_extension_string(" Lôřè₥ ïƥƨú₥ôáñ δôℓôř ƨïƭ á₥èƭ");
    let s = pl.transform("The quick brown fox jumps over the lazy dog.");
    assert_eq!(s, "« Ŧℏë ʠûíçķ ƃŕøẅñ ƒøẍ ĵûɱƥŝ øṽëŕ țℏë łάẓƴ ďøǧ. Lôřè₥ ïƥƨú₥ô »");
}
