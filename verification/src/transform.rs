use vstd::prelude::*;
use vstd::string::StrSliceExecFns;

verus! {

/// Relies on `alloc::string::String::push`, which the standard library
/// documents as appending the given `char` to the end of the string.
pub assume_specification[ String::push ](s: &mut String, ch: char)
    ensures
        final(s)@ == old(s)@.push(ch),
;

/// The fixed look-alike substitution: every ASCII letter is mapped to a
/// distinct non-ASCII look-alike; every other character is left unchanged.
pub open spec fn map_char(c: char) -> char {
    match c {
        'A' => 'Ą',
        'B' => 'ß',
        'C' => 'Ċ',
        'D' => 'Đ',
        'E' => 'Ɛ',
        'F' => 'Ƒ',
        'G' => 'Ģ',
        'H' => 'Ĥ',
        'I' => 'İ',
        'J' => 'Ĵ',
        'K' => 'Ķ',
        'L' => 'Ŀ',
        'M' => 'Ṃ',
        'N' => 'И',
        'O' => 'Ô',
        'P' => 'Ṕ',
        'Q' => 'Ɋ',
        'R' => 'Ŗ',
        'S' => 'Š',
        'T' => 'Ŧ',
        'U' => 'Ű',
        'V' => 'Ṿ',
        'W' => 'Ŵ',
        'X' => 'Ẋ',
        'Y' => 'Ÿ',
        'Z' => 'Ž',
        'a' => 'ά',
        'b' => 'ƃ',
        'c' => 'ç',
        'd' => 'ď',
        'e' => 'ë',
        'f' => 'ƒ',
        'g' => 'ǧ',
        'h' => 'ℏ',
        'i' => 'í',
        'j' => 'ĵ',
        'k' => 'ķ',
        'l' => 'ł',
        'm' => 'ɱ',
        'n' => 'ñ',
        'o' => 'ø',
        'p' => 'ƥ',
        'q' => 'ʠ',
        'r' => 'ŕ',
        's' => 'ŝ',
        't' => 'ț',
        'u' => 'û',
        'v' => 'ṽ',
        'w' => 'ẅ',
        'x' => 'ẍ',
        'y' => 'ƴ',
        'z' => 'ẓ',
        _ => c,
    }
}

/// True of the 52 characters the substitution table covers.
pub open spec fn is_ascii_letter(c: char) -> bool {
    ('A' <= c && c <= 'Z') || ('a' <= c && c <= 'z')
}

/// Law: a character outside the mapping domain (a digit, punctuation, a
/// non-Latin letter, an emoji) is left unchanged by the substitution.
pub proof fn lemma_map_char_outside_domain(c: char)
    requires
        !is_ascii_letter(c),
    ensures
        map_char(c) == c,
{
}

/// Convert a letter to a similar non-ASCII letter.
///
/// Take a character `c` as input and return:
/// - a similar letter (usually with diacritics) if `c` is an ASCII letter;
/// - the input character `c` if it is not an ASCII letter.
pub fn diacriticize(c: char) -> (r: char)
    ensures
        r == map_char(c),
{
    match c {
        'A' => 'Ą',
        'B' => 'ß',
        'C' => 'Ċ',
        'D' => 'Đ',
        'E' => 'Ɛ',
        'F' => 'Ƒ',
        'G' => 'Ģ',
        'H' => 'Ĥ',
        'I' => 'İ',
        'J' => 'Ĵ',
        'K' => 'Ķ',
        'L' => 'Ŀ',
        'M' => 'Ṃ',
        'N' => 'И',
        'O' => 'Ô',
        'P' => 'Ṕ',
        'Q' => 'Ɋ',
        'R' => 'Ŗ',
        'S' => 'Š',
        'T' => 'Ŧ',
        'U' => 'Ű',
        'V' => 'Ṿ',
        'W' => 'Ŵ',
        'X' => 'Ẋ',
        'Y' => 'Ÿ',
        'Z' => 'Ž',
        'a' => 'ά',
        'b' => 'ƃ',
        'c' => 'ç',
        'd' => 'ď',
        'e' => 'ë',
        'f' => 'ƒ',
        'g' => 'ǧ',
        'h' => 'ℏ',
        'i' => 'í',
        'j' => 'ĵ',
        'k' => 'ķ',
        'l' => 'ł',
        'm' => 'ɱ',
        'n' => 'ñ',
        'o' => 'ø',
        'p' => 'ƥ',
        'q' => 'ʠ',
        'r' => 'ŕ',
        's' => 'ŝ',
        't' => 'ț',
        'u' => 'û',
        'v' => 'ṽ',
        'w' => 'ẅ',
        'x' => 'ẍ',
        'y' => 'ƴ',
        'z' => 'ẓ',
        ch => ch,
    }
}

/// The character-substitution strategy a localizer applies to its input:
/// either the standard look-alike table, or no substitution at all.
pub enum CharTransform {
    /// Replace each ASCII letter by its look-alike (see [`map_char`]).
    Diacritics,
    /// Leave every character unchanged.
    Identity,
}

/// What a strategy does to a single character.
pub open spec fn char_transform(t: CharTransform, c: char) -> char {
    match t {
        CharTransform::Diacritics => map_char(c),
        CharTransform::Identity => c,
    }
}

/// What a strategy does to a whole string: each character is substituted
/// independently, in order.
pub open spec fn transformed_seq(t: CharTransform, s: Seq<char>) -> Seq<char> {
    Seq::new(s.len(), |i: int| char_transform(t, s[i]))
}

/// Law: substitution is per character, so it never changes the number of
/// characters of a string.
pub proof fn lemma_transform_preserves_char_count(t: CharTransform, s: Seq<char>)
    ensures
        transformed_seq(t, s).len() == s.len(),
{
}

/// Transform a string by replacing all of its ASCII letters
/// by similar letters, usually by adding diacritics.
pub fn transform_str(s: &str) -> (r: String)
    ensures
        r@ == transformed_seq(CharTransform::Diacritics, s@),
{
    let length: usize = s.unicode_len();
    let mut modified = String::new();
    let mut i: usize = 0;
    while i < length
        invariant
            length == s@.len(),
            i <= length,
            modified@ == transformed_seq(CharTransform::Diacritics, s@).subrange(0, i as int),
        decreases length - i,
    {
        let c = s.get_char(i);
        modified.push(diacriticize(c));
        proof {
            assert(modified@ =~= transformed_seq(CharTransform::Diacritics, s@).subrange(
                0,
                i + 1,
            ));
        }
        i = i + 1;
    }
    proof {
        assert(modified@ =~= transformed_seq(CharTransform::Diacritics, s@));
    }
    modified
}

impl CharTransform {
    /// Apply this strategy to every character of `s`, in order.
    pub fn apply(&self, s: &str) -> (r: String)
        ensures
            r@ == transformed_seq(*self, s@),
    {
        match self {
            CharTransform::Diacritics => transform_str(s),
            CharTransform::Identity => {
                let r = s.to_owned();
                proof {
                    assert(r@ =~= transformed_seq(CharTransform::Identity, s@));
                }
                r
            },
        }
    }
}

} // verus!
