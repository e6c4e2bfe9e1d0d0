use vstd::arithmetic::div_mod::lemma_fundamental_div_mod;
use vstd::arithmetic::div_mod::lemma_mod_add_multiples_vanish;
use vstd::arithmetic::div_mod::lemma_mod_multiples_vanish;
use vstd::arithmetic::div_mod::lemma_small_mod;
use vstd::prelude::*;
use vstd::string::StrSliceExecFns;

verus! {

/// The expansion text of `target` characters drawn from a filler string:
/// character `j` of the result is character `j mod |filler|` of the filler,
/// so the filler is repeated from its start (wrapping around) and the last
/// pass is cropped to land exactly on `target` characters. An empty filler
/// yields an empty result, whatever the target.
pub open spec fn filler_seq(target: nat, filler: Seq<char>) -> Seq<char> {
    if filler.len() == 0 {
        Seq::empty()
    } else {
        Seq::new(target, |j: int| filler[j % (filler.len() as int)])
    }
}

/// Growing the expansion text from a whole number of filler copies by at
/// most one more filler copy appends a prefix of the filler.
proof fn lemma_filler_seq_extend(done: nat, take: nat, filler: Seq<char>)
    requires
        filler.len() > 0,
        done % filler.len() == 0,
        take <= filler.len(),
    ensures
        filler_seq((done + take) as nat, filler) =~= filler_seq(done, filler) + filler.subrange(
            0,
            take as int,
        ),
{
    let flen = filler.len() as int;
    assert forall|j: int| done <= j < done + take implies filler[#[trigger] (j % flen)]
        == filler[j - done] by {
        lemma_fundamental_div_mod(done as int, flen);
        lemma_mod_multiples_vanish((done as int) / flen, j - done, flen);
        lemma_small_mod((j - done) as nat, filler.len());
    }
}

/// Copy `n` characters from `src` and append them to `dst`.
/// Return the number of actual copied characters.
fn strncpy(dst: &mut String, src: &str, n: usize) -> (copied: usize)
    ensures
        n <= src@.len() ==> copied == n,
        n > src@.len() ==> copied == src@.len(),
        final(dst)@ == old(dst)@ + src@.subrange(0, copied as int),
{
    let src_len: usize = src.unicode_len();
    let limit: usize = if n < src_len {
        n
    } else {
        src_len
    };
    proof {
        assert(dst@ =~= old(dst)@ + src@.subrange(0, 0));
    }
    let mut j: usize = 0;
    while j < limit
        invariant
            limit <= src@.len(),
            j <= limit,
            dst@ == old(dst)@ + src@.subrange(0, j as int),
        decreases limit - j,
    {
        let c = src.get_char(j);
        dst.push(c);
        proof {
            assert(dst@ =~= old(dst)@ + src@.subrange(0, j + 1));
        }
        j = j + 1;
    }
    j
}

/// The expansion helper: build the text appended to a transformed string to
/// simulate translation-induced growth.
///
/// The target character count is `percentage * base_length / 100`, rounded
/// down. The result is the filler repeated from its start, wrapping around
/// as often as needed and cropped to land exactly on the target count. An
/// empty filler yields an empty result instead of wrapping forever.
pub fn crop_string(base_length: usize, extension: &str, percentage: u32) -> (r: String)
    requires
        (percentage as int) * (base_length as int) <= usize::MAX as int,
    ensures
        r@ == filler_seq(((percentage as nat) * (base_length as nat)) / 100, extension@),
{
    let increased_length: usize = (percentage as usize) * base_length / 100;
    if extension.is_empty() {
        return String::new();
    }
    let mut extended_string = String::new();
    proof {
        assert(extended_string@ =~= filler_seq(0, extension@));
        lemma_small_mod(0, extension@.len());
    }
    let mut i: usize = increased_length;
    while i > 0
        invariant
            extension@.len() > 0,
            i <= increased_length,
            i > 0 ==> ((increased_length - i) as nat) % extension@.len() == 0,
            extended_string@ == filler_seq((increased_length - i) as nat, extension@),
        decreases i,
    {
        let copied: usize = strncpy(&mut extended_string, extension, i);
        proof {
            lemma_filler_seq_extend(
                (increased_length - i) as nat,
                copied as nat,
                extension@,
            );
            if copied < i {
                lemma_mod_add_multiples_vanish(
                    (increased_length - i) as int,
                    extension@.len() as int,
                );
            }
        }
        i = i - copied;
    }
    extended_string
}

} // verus!
