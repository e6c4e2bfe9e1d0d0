use crate::percent::crop_string;
use crate::percent::filler_seq;
use crate::transform::transformed_seq;
use crate::transform::CharTransform;
use vstd::prelude::*;
use vstd::string::StringExecFns;

verus! {

/// The mathematical model of a localizer configuration: the affixes, the
/// expansion settings and the substitution strategy, as plain values.
pub ghost struct LocalizerView {
    /// The string with which pseudolocalized strings start.
    pub prefix: Seq<char>,
    /// The string with which pseudolocalized strings end.
    pub suffix: Seq<char>,
    /// The expansion percentage, relative to the input's character count.
    pub increase: nat,
    /// The filler string from which the expansion text is drawn.
    pub extension: Seq<char>,
    /// The character-substitution strategy applied to the input.
    pub transform: CharTransform,
}

/// The configuration every localizer starts from: bracketed affixes, no
/// expansion, a fixed placeholder phrase as filler, and the look-alike
/// substitution.
pub open spec fn default_config() -> LocalizerView {
    LocalizerView {
        prefix: "[!!! "@,
        suffix: " !!!]"@,
        increase: 0,
        extension: " Þôřƭèƺ çè Ʋïèúж ωλïƨƙ¥ áú Júϱè βℓôñδ 9úï ƒú₥è ƨúř ƨôñ îℓè ïñƭéřïèúřè, à çôƭé δè ℓ'áℓçôƲè ôƲôïδè, ôù ℓèƨ βûçλèƨ ƨè çôñƨú₥èñƭ δáñƨ ℓ'âƭřè, çè 9úï ℓúï ƥèř₥èƭ δè ƥèñƨèř à ℓá çæñôϱéñèƨè δè ℓ'êƭřè δôñƭ ïℓ èƨƭ 9úèƨƭïôñ δáñƨ ℓá çáúƨè á₥βïϱúë èñƭèñδúè à Môÿ, δáñƨ úñ çáƥλářñáü₥ 9úï, ƥèñƨè-ƭ-ïℓ, δï₥ïñúè çà èƭ ℓà ℓá 9úáℓïƭé δè ƨôñ œúƲřè."@,
        transform: CharTransform::Diacritics,
    }
}

/// What a localizer returns for a given input: the substituted input,
/// wrapped in the affixes, with the expansion text between the substituted
/// input and the suffix. The expansion target is driven by the character
/// count of the original input, not of the substituted text.
pub open spec fn pseudolocalized(v: LocalizerView, input: Seq<char>) -> Seq<char> {
    v.prefix + transformed_seq(v.transform, input) + filler_seq(
        (v.increase * input.len()) / 100,
        v.extension,
    ) + v.suffix
}

/// A configurable struct which can
/// pseudolocalize strings.
pub struct Pseudolocalizer {
    prefix: String,
    suffix: String,
    increase: u32,
    extension_string: String,
    transform: CharTransform,
}

impl View for Pseudolocalizer {
    type V = LocalizerView;

    closed spec fn view(&self) -> LocalizerView {
        LocalizerView {
            prefix: self.prefix@,
            suffix: self.suffix@,
            increase: self.increase as nat,
            extension: self.extension_string@,
            transform: self.transform,
        }
    }
}

impl Pseudolocalizer {
    /// Create a default `Pseudolocalizer`.
    pub fn new() -> (r: Self)
        ensures
            r@ == default_config(),
    {
        Pseudolocalizer {
            prefix: String::from_str("[!!! "),
            suffix: String::from_str(" !!!]"),
            increase: 0,
            extension_string: String::from_str(" Þôřƭèƺ çè Ʋïèúж ωλïƨƙ¥ áú Júϱè βℓôñδ 9úï ƒú₥è ƨúř ƨôñ îℓè ïñƭéřïèúřè, à çôƭé δè ℓ'áℓçôƲè ôƲôïδè, ôù ℓèƨ βûçλèƨ ƨè çôñƨú₥èñƭ δáñƨ ℓ'âƭřè, çè 9úï ℓúï ƥèř₥èƭ δè ƥèñƨèř à ℓá çæñôϱéñèƨè δè ℓ'êƭřè δôñƭ ïℓ èƨƭ 9úèƨƭïôñ δáñƨ ℓá çáúƨè á₥βïϱúë èñƭèñδúè à Môÿ, δáñƨ úñ çáƥλářñáü₥ 9úï, ƥèñƨè-ƭ-ïℓ, δï₥ïñúè çà èƭ ℓà ℓá 9úáℓïƭé δè ƨôñ œúƲřè."),
            transform: CharTransform::Diacritics,
        }
    }

    /// Transform a string into a pseudolocalized string
    /// according to the `Pseudolocalizer`'s configuration.
    ///
    /// The expansion target must fit the machine word: the product of the
    /// expansion percentage and the input's character count may not exceed
    /// `usize::MAX`.
    pub fn transform(&self, string: &str) -> (r: String)
        requires
            (self@.increase as int) * (string@.len() as int) <= usize::MAX as int,
        ensures
            r@ == pseudolocalized(self@, string@),
    {
        let base_length: usize = string.unicode_len();
        let body = self.transform.apply(string);
        let filler = crop_string(base_length, self.extension_string.as_str(), self.increase);
        let mut out = self.prefix.clone();
        out.append(body.as_str());
        out.append(filler.as_str());
        out.append(self.suffix.as_str());
        proof {
            assert(out@ =~= pseudolocalized(self@, string@));
        }
        out
    }

    /// Set the extension string, i.e. the string used to
    /// increase the length of pseudolocalized strings
    /// (if the extension value is positive).
    pub fn with_extension_string(self, extension: &str) -> (r: Self)
        ensures
            r@ == (LocalizerView { extension: extension@, ..self@ }),
    {
        Pseudolocalizer { extension_string: String::from_str(extension), ..self }
    }

    /// Set the increase rate of a string in percent.
    ///
    /// Pseudolocalized strings shall contain the extension string
    /// (which may be cropped or repeated) so that the overall
    /// string gets larger.
    ///
    /// For example an increase of 27% means that pseudolocalized strings
    /// shall be 1.27 times longer than the original string
    /// (not accounting for the prefix and suffix).
    ///
    /// Please note that a naïve method is used to compute the length
    /// (based on the number of `char`s) and thus, the increase rate
    /// may not be exact.
    pub fn with_increase_percentage(self, increase: u32) -> (r: Self)
        ensures
            r@ == (LocalizerView { increase: increase as nat, ..self@ }),
    {
        Pseudolocalizer { increase, ..self }
    }

    /// Set the prefix, i.e. the string with which
    /// pseudolocalized strings shall start.
    pub fn with_prefix(self, prefix: &str) -> (r: Self)
        ensures
            r@ == (LocalizerView { prefix: prefix@, ..self@ }),
    {
        Pseudolocalizer { prefix: String::from_str(prefix), ..self }
    }

    /// Set the suffix, i.e. the string with which
    /// pseudolocalized strings shall end.
    pub fn with_suffix(self, suffix: &str) -> (r: Self)
        ensures
            r@ == (LocalizerView { suffix: suffix@, ..self@ }),
    {
        Pseudolocalizer { suffix: String::from_str(suffix), ..self }
    }

    /// Set the transform function which can transform an input string
    /// into a string with similar-looking characters.
    pub fn with_transform_function(self, transform_function: CharTransform) -> (r: Self)
        ensures
            r@ == (LocalizerView { transform: transform_function, ..self@ }),
    {
        Pseudolocalizer { transform: transform_function, ..self }
    }

    /// Get the string slice with which pseudolocalized strings shall start.
    pub fn prefix(&self) -> (r: &str)
        ensures
            r@ == self@.prefix,
    {
        self.prefix.as_str()
    }

    /// Get the string slice with which pseudolocalized strings shall end.
    pub fn suffix(&self) -> (r: &str)
        ensures
            r@ == self@.suffix,
    {
        self.suffix.as_str()
    }

    /// Get the strategy used for pseudolocalizing strings.
    pub fn transform_function(&self) -> (r: &CharTransform)
        ensures
            *r == self@.transform,
    {
        &self.transform
    }
}

/// A builder that accumulates localizer settings and produces the
/// configured immutable `Pseudolocalizer` on demand.
pub struct PseudolocalizerBuilder {
    value: Pseudolocalizer,
}

impl View for PseudolocalizerBuilder {
    type V = LocalizerView;

    closed spec fn view(&self) -> LocalizerView {
        self.value@
    }
}

impl PseudolocalizerBuilder {
    /// Create a builder that starts from the default configuration.
    pub fn new() -> (r: Self)
        ensures
            r@ == default_config(),
    {
        PseudolocalizerBuilder { value: Pseudolocalizer::new() }
    }

    /// Record the extension string to build with.
    pub fn with_extension_string(self, extension: &str) -> (r: Self)
        ensures
            r@ == (LocalizerView { extension: extension@, ..self@ }),
    {
        PseudolocalizerBuilder { value: self.value.with_extension_string(extension) }
    }

    /// Record the increase percentage to build with.
    pub fn with_increase_percentage(self, increase: u32) -> (r: Self)
        ensures
            r@ == (LocalizerView { increase: increase as nat, ..self@ }),
    {
        PseudolocalizerBuilder { value: self.value.with_increase_percentage(increase) }
    }

    /// Record the prefix to build with.
    pub fn with_prefix(self, prefix: &str) -> (r: Self)
        ensures
            r@ == (LocalizerView { prefix: prefix@, ..self@ }),
    {
        PseudolocalizerBuilder { value: self.value.with_prefix(prefix) }
    }

    /// Record the suffix to build with.
    pub fn with_suffix(self, suffix: &str) -> (r: Self)
        ensures
            r@ == (LocalizerView { suffix: suffix@, ..self@ }),
    {
        PseudolocalizerBuilder { value: self.value.with_suffix(suffix) }
    }

    /// Record the substitution strategy to build with.
    pub fn with_transform_function(self, transform_function: CharTransform) -> (r: Self)
        ensures
            r@ == (LocalizerView { transform: transform_function, ..self@ }),
    {
        PseudolocalizerBuilder { value: self.value.with_transform_function(transform_function) }
    }

    /// Produce the localizer with the accumulated settings.
    pub fn build(self) -> (r: Pseudolocalizer)
        ensures
            r@ == self@,
    {
        self.value
    }
}

/// Law: the transform output is a function of the configuration and the
/// input alone, so two transform calls with identical configuration and
/// input are pinned to byte-for-byte identical output.
pub proof fn lemma_transform_deterministic(
    v: LocalizerView,
    input: Seq<char>,
    r1: Seq<char>,
    r2: Seq<char>,
)
    requires
        r1 == pseudolocalized(v, input),
        r2 == pseudolocalized(v, input),
    ensures
        r1 == r2,
{
}

/// Law: builder-style and fluent-style construction with equivalent
/// settings yield localizers that transform every input identically:
/// `build` hands out a localizer with the builder's configuration view, and
/// the output depends on nothing but that view and the input.
pub proof fn lemma_builder_fluent_agree(
    builder: PseudolocalizerBuilder,
    fluent: Pseudolocalizer,
    input: Seq<char>,
)
    requires
        builder@ == fluent@,
    ensures
        pseudolocalized(builder@, input) == pseudolocalized(fluent@, input),
{
}

} // verus!
